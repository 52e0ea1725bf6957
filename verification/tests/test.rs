use ren::render::shape::Point;
use ren::render::Line;
use ren::render::Object;
use ren::render::Primitive;
use ren::render::Surface;
use ren::Connection;
use ren::DisplayEvent;
use ren::Event;
use ren::InputEvent;
use ren::WindowCommand::Dimension;
use ren::WindowCommand::Draw;
use ren::WindowCommand::MapWindow;
use ren::WindowCommand::Title;
use ren::WindowCommand::Update;

/// A backend window that plays back a fixed run of events.
struct Scripted {
    events: Vec<Event>,
}

impl ren::WindowContext for Scripted {
    fn event(&mut self) -> Option<Event> {
        if self.events.is_empty() {
            None
        } else {
            Some(self.events.remove(0))
        }
    }

    fn poll(&mut self) -> Option<Event> {
        self.event()
    }

    fn stat(&mut self, _stat: ren::Stat) -> Option<ren::Data> {
        None
    }

    fn window(&mut self, _command: &ren::WindowCommand) {}

    fn update(&mut self) {}
}

struct ScriptedSystem {
    events: Vec<Event>,
}

impl ren::SystemContext for ScriptedSystem {
    type Window = Scripted;

    fn create_window(&mut self) -> Scripted {
        Scripted { events: self.events.clone() }
    }
}

fn line(x1: isize, y1: isize, x2: isize, y2: isize) -> Object {
    Object::Primitive(Primitive::Line(Line::new(vec![Point::new(x1, y1), Point::new(x2, y2)])))
}

fn surface() -> Surface {
    let mut surface = Surface::new();
    surface.push(line(40, 10, 40, 30));
    surface.push(line(40, 30, 60, 30));
    surface.push(line(60, 30, 60, 10));
    surface.push(line(60, 10, 40, 10));
    surface
}

#[test]
fn test_main() {
    let title = format!("Ren - example");

    let script = ScriptedSystem {
        events: vec![
            Event::Display(DisplayEvent::Expose(ren::event::display::ExposeMap(
                (0, 0),
                (640, 480),
            ))),
            Event::Terminate,
        ],
    };

    // Open a connection
    let mut connect = Connection::open_with(script).unwrap();
    let token = connect.begin();

    // Request the window title
    let _ = connect.request(&token, Title(title).into());

    // Request the window dimensions
    let _ = connect.request(&token, Dimension((640, 480)).into());

    // Map the window
    let _ = connect.request(&token, MapWindow.into());
    let _ = connect.request(&token, Update.into());

    loop {
        // Wait for an event
        let event = connect.wait(&token).unwrap();
        println!("{:?}", event);

        match event {
            // Terminate response
            Event::Terminate => break,
            // Display response
            Event::Display(event) => {
                // Expose response
                if let DisplayEvent::Expose(map) = event {
                    let (x, y) = map.0;
                    let (w, h) = map.1;
                    println!("pos: ({}, {}), dim: ({}, {})", x, y, w, h);
                    // Draw on the window
                    let _ = connect.request(&token, Draw(surface()).into());
                    let _ = connect.request(&token, Update.into());
                }
            },
            // Input response
            Event::Input(event) => match event {
                InputEvent::Key(event) => match event {
                    ren::KeyEvent::Press(_) => {
                        println!("key-press");
                    },
                    ren::KeyEvent::Release(_) => {
                        println!("key-release");
                    },
                },
                InputEvent::Mouse(event) => match event {
                    ren::MouseEvent::Press(data) => {
                        let pos = data.position();
                        println!("button-press: x: {}, y: {}", pos.0, pos.1);
                    },
                    ren::MouseEvent::Release(data) => {
                        let pos = data.position();
                        println!("button-release: x: {}, y: {}", pos.0, pos.1);
                    },
                    ren::MouseEvent::Move(pos) => {
                        println!("hover: x: {}, y: {}", pos.0, pos.1);
                    },
                    _ => (),
                },
            },
            _ => (),
        }
    }
}

#[test]
fn wait_returns_event_then_token_error_after_end() {
    let script = ScriptedSystem { events: vec![Event::Terminate] };
    let mut connect = Connection::open_with(script).unwrap();
    let token = connect.begin();

    let _ = connect.request(&token, Title("X".to_string()).into());
    let _ = connect.request(&token, MapWindow.into());

    // The backend produced an event: wait hands it out.
    let event = connect.wait(&token);
    assert_eq!(event, Ok(Event::Terminate));

    // The script is exhausted: wait yields no event.
    assert_eq!(connect.wait(&token), Err(ren::Error::NoEvent));

    // After end, the token is rejected.
    let _ = connect.end(&token);
    assert_eq!(connect.wait(&token), Err(ren::Error::Token));
}

#[test]
fn wait_and_poll_drain_one_stream() {
    let script = ScriptedSystem {
        events: vec![
            Event::Display(DisplayEvent::FocusIn),
            Event::Display(DisplayEvent::FocusOut),
            Event::Terminate,
        ],
    };
    let mut connect = Connection::open_with(script).unwrap();
    let token = connect.begin();

    assert_eq!(connect.wait(&token), Ok(Event::Display(DisplayEvent::FocusIn)));
    assert_eq!(connect.poll(&token), Ok(Event::Display(DisplayEvent::FocusOut)));
    assert_eq!(connect.wait(&token), Ok(Event::Terminate));
    assert_eq!(connect.poll(&token), Err(ren::Error::NoEvent));
}
