use std::cell::RefCell;
use std::rc::Rc;

use ren::data::Data;
use ren::data::WindowData;
use ren::display::System;
use ren::stat::Stat;
use ren::stat::WindowStat;
use ren::Body;
use ren::Connection;
use ren::Error;
use ren::Message;
use ren::SystemType;
use ren::Type;
use ren::WindowCommand;

type Log = Rc<RefCell<Vec<String>>>;

struct Recorder {
    log: Log,
}

impl ren::WindowContext for Recorder {
    fn event(&mut self) -> Option<ren::Event> {
        None
    }

    fn poll(&mut self) -> Option<ren::Event> {
        None
    }

    fn stat(&mut self, _stat: Stat) -> Option<Data> {
        None
    }

    fn window(&mut self, command: &WindowCommand) {
        let entry = match command {
            WindowCommand::Title(s) => format!("title:{}", s),
            WindowCommand::Dimension(d) => format!("dimension:{}x{}", d.0, d.1),
            _ => "other".to_string(),
        };
        self.log.borrow_mut().push(entry);
    }

    fn update(&mut self) {}
}

struct RecorderSystem {
    log: Log,
}

impl ren::SystemContext for RecorderSystem {
    type Window = Recorder;

    fn create_window(&mut self) -> Recorder {
        Recorder { log: self.log.clone() }
    }
}

fn open() -> Connection<System> {
    Connection::open_with(System::new(SystemType::Xcb)).unwrap()
}

fn dimension_of(connect: &mut Connection<System>, token: &ren::Token) -> (u32, u32) {
    let response = connect.request(token, Stat::Window(WindowStat::Dimension).into()).unwrap();
    match response.body() {
        Body::Data(Data::Window(WindowData::Dimension(d))) => *d,
        other => panic!("expected dimension data, got {:?}", other),
    }
}

#[test]
fn requests_apply_in_order() {
    let log: Log = Rc::new(RefCell::new(Vec::new()));
    let mut connect = Connection::open_with(RecorderSystem { log: log.clone() }).unwrap();
    let token = connect.begin();

    let result = connect.requests(
        &token,
        vec![
            WindowCommand::Title("one".to_string()).into(),
            WindowCommand::Dimension((640, 480)).into(),
        ],
    );
    assert!(result.is_ok());

    let seen = log.borrow().clone();
    assert_eq!(seen, vec!["title:one".to_string(), "dimension:640x480".to_string()]);
}

#[test]
fn sequential_commands_show_sequential_effect() {
    // Two status queries around each command show the effect of
    // the first command before the second is applied.
    let mut connect = open();
    let token = connect.begin();

    assert_eq!(dimension_of(&mut connect, &token), (0, 0));
    let _ = connect.request(&token, WindowCommand::Dimension((320, 240)).into());
    assert_eq!(dimension_of(&mut connect, &token), (320, 240));
    let _ = connect.request(&token, WindowCommand::Dimension((640, 480)).into());
    assert_eq!(dimension_of(&mut connect, &token), (640, 480));
}

#[test]
fn commands_to_one_token_leave_the_other_window_alone() {
    let mut connect = open();
    let first = connect.begin();
    let second = connect.begin();
    assert_ne!(first, second);

    let _ = connect.requests(
        &first,
        vec![
            WindowCommand::Dimension((800, 600)).into(),
            WindowCommand::MapWindow.into(),
        ],
    );

    assert_eq!(dimension_of(&mut connect, &first), (800, 600));
    // The other session's window state is untouched.
    assert_eq!(dimension_of(&mut connect, &second), (0, 0));
}

#[test]
fn empty_request_run_is_the_empty_acknowledgment() {
    let mut connect = open();
    let token = connect.begin();
    let result = connect.requests(&token, Vec::new()).unwrap();
    assert!(result.is_empty());
}

#[test]
fn non_request_message_is_a_type_error() {
    let mut connect = open();
    let token = connect.begin();

    let response = Message::response(Body::Empty);
    assert_eq!(connect.send(&token, response), Err(Error::Type));

    let init = Message::new(Type::Init, Body::Empty);
    assert_eq!(connect.send(&token, init), Err(Error::Type));
}

#[test]
fn request_without_effect_is_acknowledged_empty() {
    let mut connect = open();
    let token = connect.begin();

    // A request with an empty body does nothing and is
    // acknowledged with the empty message.
    let reply = connect.send(&token, Message::request(Body::Empty)).unwrap();
    assert!(reply.is_empty());

    // A status query the backend cannot answer falls back to the
    // empty acknowledgment as well.
    let reply = connect.request(&token, Stat::Window(WindowStat::Depth).into()).unwrap();
    assert!(reply.is_empty());
}

#[test]
fn stat_reply_is_fixed_by_the_answer() {
    // An answered status query becomes a response carrying
    // exactly that data.
    let data = Data::Window(WindowData::Dimension((320, 240)));
    let reply = ren::stat_reply(Some(data.clone())).unwrap();
    assert_eq!(*reply.ty(), ren::Type::Response);
    assert_eq!(*reply.body(), Body::Data(data));

    // An unanswered one falls back to the empty acknowledgment.
    let reply = ren::stat_reply(None).unwrap();
    assert!(reply.is_empty());
}

#[test]
fn answered_stat_reply_carries_the_backend_answer() {
    // End to end: the data in the response is the model
    // window's own state, not something made up.
    let mut connect = open();
    let token = connect.begin();
    let _ = connect.request(&token, WindowCommand::Dimension((123, 45)).into());
    let response = connect.request(&token, Stat::Window(WindowStat::Dimension).into()).unwrap();
    assert_eq!(*response.ty(), ren::Type::Response);
    assert_eq!(
        *response.body(),
        Body::Data(Data::Window(WindowData::Dimension((123, 45))))
    );
}

#[test]
fn poll_without_event_is_no_event() {
    let mut connect = open();
    let token = connect.begin();
    assert_eq!(connect.poll(&token), Err(Error::NoEvent));
    assert_eq!(connect.wait(&token), Err(Error::NoEvent));
}
