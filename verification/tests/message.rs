use ren::Body;
use ren::Error;
use ren::Message;
use ren::MessageQueue;
use ren::Type;

#[test]
fn message() {
    let mut queue = MessageQueue::new();
    queue.limit(Some(0));
    queue.enqueue(Message::empty());
    println!("{:?}", queue);
    assert_eq!(true, queue.full());
}

#[test]
fn error() {
    println!("{}", Error::Token.message());
}

#[test]
fn error_texts() {
    assert_eq!(Error::Token.message(), "specified undefined token");
    assert_eq!(Error::Type.message(), "specified unexpected message type");
    assert_eq!(Error::Session.message(), "session is already in use");
    assert_eq!(Error::NoEvent.message(), "no event available");
    assert_eq!(Error::Custom("out of cheese".to_string()).message(), "out of cheese");
}

#[test]
fn message_constructors() {
    let m = Message::new(Type::Init, Body::Custom("hello".to_string()));
    assert_eq!(*m.ty(), Type::Init);
    assert_eq!(*m.body(), Body::Custom("hello".to_string()));
    assert!(!m.is_empty());

    let m = Message::request(Body::Empty);
    assert_eq!(*m.ty(), Type::Request);

    let m = Message::response(Body::Empty);
    assert_eq!(*m.ty(), Type::Response);

    let m = Message::empty();
    assert_eq!(*m.ty(), Type::Empty);
    assert_eq!(*m.body(), Body::Empty);
    assert!(m.is_empty());
}

#[test]
fn take_body_idempotent_after_take() {
    let mut m = Message::request(Body::Custom("payload".to_string()));
    let first = m.take_body();
    assert_eq!(first, Body::Custom("payload".to_string()));
    let second = m.take_body();
    assert_eq!(second, Body::Empty);
    assert_eq!(*m.ty(), Type::Request);
}

#[test]
fn queue_round_trip() {
    let mut queue = MessageQueue::new();
    queue.limit(Some(3));
    let a = Message::request(Body::Custom("a".to_string()));
    let b = Message::request(Body::Custom("b".to_string()));
    let c = Message::request(Body::Custom("c".to_string()));
    queue.enqueue(a.clone());
    queue.enqueue(b.clone());
    queue.enqueue(c.clone());
    assert_eq!(queue.size(), 3);
    assert!(queue.full());
    assert_eq!(queue.front(), Some(a));
    assert_eq!(queue.front(), Some(b));
    assert_eq!(queue.front(), Some(c));
    assert_eq!(queue.front(), None);
    assert_eq!(queue.size(), 0);
}

#[test]
fn queue_eviction() {
    let mut queue = MessageQueue::new();
    queue.limit(Some(2));
    let a = Message::request(Body::Custom("a".to_string()));
    let b = Message::request(Body::Custom("b".to_string()));
    let c = Message::request(Body::Custom("c".to_string()));
    queue.enqueue(a);
    queue.enqueue(b.clone());
    queue.enqueue(c.clone());
    assert_eq!(queue.size(), 2);
    assert_eq!(queue.front(), Some(b));
    assert_eq!(queue.front(), Some(c));
    assert_eq!(queue.front(), None);
}

#[test]
fn queue_zero_limit_drops() {
    let mut queue = MessageQueue::new();
    queue.limit(Some(0));
    queue.enqueue(Message::empty());
    queue.enqueue(Message::empty());
    assert_eq!(queue.size(), 0);
    assert_eq!(queue.front(), None);
}

#[test]
fn queue_unbounded() {
    let mut queue = MessageQueue::new();
    assert!(!queue.full());
    for _ in 0..10 {
        queue.enqueue(Message::empty());
    }
    assert_eq!(queue.size(), 10);
    assert!(!queue.full());
}

#[test]
fn queue_limit_does_not_trim() {
    let mut queue = MessageQueue::new();
    queue.enqueue(Message::request(Body::Custom("a".to_string())));
    queue.enqueue(Message::request(Body::Custom("b".to_string())));
    queue.enqueue(Message::request(Body::Custom("c".to_string())));
    queue.limit(Some(1));
    assert_eq!(queue.size(), 3);
    assert_eq!(queue.front(), Some(Message::request(Body::Custom("a".to_string()))));
}
