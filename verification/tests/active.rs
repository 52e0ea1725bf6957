use ren::display::System;
use ren::Body;
use ren::Connection;
use ren::Error;
use ren::SystemType;
use ren::WindowCommand;

fn open() -> Connection<System> {
    Connection::open_with(System::new(SystemType::Xcb)).unwrap()
}

#[test]
fn active_main() {
    // Open a connection
    let mut connect = open();
    let token = connect.begin();

    // Assert that it is active
    assert_eq!(true, connect.active(&token));

    // End the connection
    let _ = connect.end(&token);

    // Assert that it is not active
    assert_eq!(false, connect.active(&token));
}

#[test]
fn ended_token_is_rejected_everywhere() {
    let mut connect = open();
    let token = connect.begin();
    assert!(connect.end(&token).is_ok());

    assert_eq!(false, connect.active(&token));
    assert_eq!(connect.send(&token, ren::Message::empty()), Err(Error::Token));
    assert_eq!(connect.request(&token, Body::Command(ren::Command::Window(WindowCommand::MapWindow))), Err(Error::Token));
    assert_eq!(
        connect.requests(&token, vec![Body::Command(ren::Command::Window(WindowCommand::MapWindow))]),
        Err(Error::Token)
    );
    assert_eq!(connect.wait(&token), Err(Error::Token));
    assert_eq!(connect.poll(&token), Err(Error::Token));
    assert_eq!(connect.batch(&token, ren::MessageQueue::new()), Err(Error::Token));
    let other = connect.begin();
    assert_eq!(connect.dispatch(&token, &other), Err(Error::Token));
    assert_eq!(connect.end(&token), Err(Error::Token));
}

#[test]
fn foreign_token_is_rejected() {
    // A token minted by one connection addresses nothing in another.
    let mut owner = open();
    let foreign = owner.begin();

    let mut connect = open();
    assert_eq!(false, connect.active(&foreign));
    assert_eq!(connect.wait(&foreign), Err(Error::Token));
    assert_eq!(connect.end(&foreign), Err(Error::Token));
}

#[test]
fn detached_session_can_be_attached_again() {
    let mut connect = open();
    let token = connect.begin();
    let other = connect.begin();

    let session = connect.detach(&token).unwrap();

    // While the session is out, its token is rejected and the
    // other session stays fully usable.
    assert!(!connect.active(&token));
    assert_eq!(connect.wait(&token), Err(Error::Token));
    assert!(connect.active(&other));
    assert!(connect.request(&other, Body::Command(ren::Command::Window(WindowCommand::MapWindow))).is_ok());

    connect.attach(&token, session);
    assert!(connect.active(&token));
    assert!(connect.request(&token, Body::Command(ren::Command::Window(WindowCommand::MapWindow))).is_ok());

    // A detached or unknown token cannot be detached.
    let _ = connect.end(&token);
    assert!(connect.detach(&token).is_err());
}

#[test]
fn two_sessions_get_distinct_tokens() {
    let mut connect = open();
    let first = connect.begin();
    let second = connect.begin();
    assert_ne!(first, second);
    assert!(connect.active(&first));
    assert!(connect.active(&second));

    // Ending one leaves the other active.
    let _ = connect.end(&first);
    assert!(!connect.active(&first));
    assert!(connect.active(&second));
}
