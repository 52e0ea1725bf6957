use std::cell::RefCell;
use std::rc::Rc;

use ren::Body;
use ren::Command;
use ren::Connection;
use ren::Error;
use ren::Message;
use ren::MessageQueue;
use ren::WindowCommand;

type Log = Rc<RefCell<Vec<String>>>;

/// A backend window that records every command it is handed.
struct Recorder {
    log: Log,
}

fn describe(command: &WindowCommand) -> String {
    match command {
        WindowCommand::Title(s) => format!("title:{}", s),
        WindowCommand::Dimension(d) => format!("dimension:{}x{}", d.0, d.1),
        WindowCommand::Origin(o) => format!("origin:{},{}", o.0, o.1),
        WindowCommand::MapWindow => "map".to_string(),
        WindowCommand::Unmap => "unmap".to_string(),
        WindowCommand::StackAbove => "stack-above".to_string(),
        WindowCommand::StackBelow => "stack-below".to_string(),
        WindowCommand::Draw(_) => "draw".to_string(),
        WindowCommand::Image(_) => "image".to_string(),
        WindowCommand::Clear => "clear".to_string(),
        WindowCommand::Update => "update".to_string(),
    }
}

impl ren::WindowContext for Recorder {
    fn event(&mut self) -> Option<ren::Event> {
        None
    }

    fn poll(&mut self) -> Option<ren::Event> {
        None
    }

    fn stat(&mut self, _stat: ren::Stat) -> Option<ren::Data> {
        None
    }

    fn window(&mut self, command: &WindowCommand) {
        self.log.borrow_mut().push(describe(command));
    }

    fn update(&mut self) {}
}

struct RecorderSystem {
    log: Log,
}

impl ren::SystemContext for RecorderSystem {
    type Window = Recorder;

    fn create_window(&mut self) -> Recorder {
        Recorder { log: self.log.clone() }
    }
}

fn open(log: &Log) -> Connection<RecorderSystem> {
    Connection::open_with(RecorderSystem { log: log.clone() }).unwrap()
}

fn request(command: WindowCommand) -> Message {
    Message::request(Body::Command(Command::Window(command)))
}

#[test]
fn batch_replays_every_message() {
    let log: Log = Rc::new(RefCell::new(Vec::new()));
    let mut connect = open(&log);
    let token = connect.begin();

    let mut queue = MessageQueue::new();
    queue.enqueue(request(WindowCommand::Title("batched".to_string())));
    queue.enqueue(request(WindowCommand::MapWindow));

    let batch = connect.batch(&token, queue).unwrap();

    // Both dispatches succeed: the batch is a replayable macro,
    // not a one-shot transaction.
    assert!(connect.dispatch(&token, &batch).is_ok());
    assert!(connect.dispatch(&token, &batch).is_ok());

    let seen = log.borrow().clone();
    assert_eq!(
        seen,
        vec![
            "title:batched".to_string(),
            "map".to_string(),
            "title:batched".to_string(),
            "map".to_string(),
        ]
    );
}

#[test]
fn dispatch_unknown_batch_token_fails() {
    let log: Log = Rc::new(RefCell::new(Vec::new()));
    let mut connect = open(&log);
    let token = connect.begin();
    let other = connect.begin();

    // A batch token registered for one session means nothing in
    // another session.
    let batch = connect.batch(&other, MessageQueue::new()).unwrap();
    assert_eq!(connect.dispatch(&token, &batch), Err(Error::Token));

    // The session token itself does not name a batch.
    assert_eq!(connect.dispatch(&token, &token), Err(Error::Token));
}

#[test]
fn batch_absorbs_failures_of_single_messages() {
    let log: Log = Rc::new(RefCell::new(Vec::new()));
    let mut connect = open(&log);
    let token = connect.begin();

    let mut queue = MessageQueue::new();
    // A non-request message fails inside the batch, but the run
    // carries on and still succeeds.
    queue.enqueue(Message::empty());
    queue.enqueue(request(WindowCommand::Clear));

    let batch = connect.batch(&token, queue).unwrap();
    assert!(connect.dispatch(&token, &batch).is_ok());

    let seen = log.borrow().clone();
    assert_eq!(seen, vec!["clear".to_string()]);
}

#[test]
fn batches_of_two_sessions_are_independent() {
    let log: Log = Rc::new(RefCell::new(Vec::new()));
    let mut connect = open(&log);
    let first = connect.begin();
    let second = connect.begin();

    let mut queue = MessageQueue::new();
    queue.enqueue(request(WindowCommand::MapWindow));
    let batch = connect.batch(&first, queue).unwrap();

    assert!(connect.dispatch(&first, &batch).is_ok());
    assert_eq!(connect.dispatch(&second, &batch), Err(Error::Token));
}
