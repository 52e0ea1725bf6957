//! One window session: the dispatch logic between messages and
//! one backend window.

use vstd::prelude::*;
use std::collections::HashMap;

use crate::context::WindowContext;
use crate::event::Event;
use crate::message::data::Data;
use crate::message::Body;
use crate::message::Command;
use crate::message::Error;
use crate::message::Message;
use crate::message::MessageQueue;
use crate::message::Status;
use crate::message::Token;
use crate::message::Type;
use crate::system::Window;

verus! {

broadcast use vstd::std_specs::hash::group_hash_axioms;

/// Whether a message is the empty acknowledgment
pub open spec fn is_empty_message(m: Message) -> bool {
    m.spec_ty() == Type::Empty && m.spec_body() == Body::Empty
}

/// Whether a message is a response carrying status data
pub open spec fn is_data_response(m: Message) -> bool {
    m.spec_ty() == Type::Response && m.spec_body() is Data
}

/// What dispatching a request body returns: a status query may
/// short-circuit into a data response if the backend answers it,
/// everything else is acknowledged with the empty message.
pub open spec fn request_status(body: Body, r: Status) -> bool {
    match body {
        Body::Stat(_) => (match r {
            Ok(m) => is_empty_message(m) || is_data_response(m),
            Err(_) => false,
        }),
        _ => (match r {
            Ok(m) => is_empty_message(m),
            Err(_) => false,
        }),
    }
}

/// What `handle` returns for a message: only requests are
/// dispatched, anything else is a type error.
pub open spec fn handle_status(message: Message, r: Status) -> bool {
    if message.spec_ty() == Type::Request {
        request_status(message.spec_body(), r)
    } else {
        r == Err::<Message, Error>(Error::Type)
    }
}

/// The reply a status query earns, fixed for each answer the
/// backend can give: an answered query short-circuits into a
/// response carrying exactly that data, an unanswered one falls
/// back to the empty acknowledgment.
pub fn stat_reply(answer: Option<Data>) -> (r: Status)
    ensures
        match answer {
            Some(d) => (match r {
                Ok(m) => m.spec_ty() == Type::Response && m.spec_body() == Body::Data(d),
                Err(_) => false,
            }),
            None => (match r {
                Ok(m) => is_empty_message(m),
                Err(_) => false,
            }),
        },
{
    match answer {
        Some(data) => Ok(Message::response(Body::Data(data))),
        None => Ok(Message::empty()),
    }
}

/// A single window session
pub struct Session<C: WindowContext> {
    window: Window<C>,
    /// The batches registered for this session, a replayable
    /// message queue under each batch token key
    pub batch: HashMap<u128, MessageQueue>,
}

impl<C: WindowContext> Session<C> {
    /// The batch registry: a message queue under each batch token key
    pub closed spec fn batches(&self) -> Map<u128, MessageQueue> {
        self.batch@
    }

    pub fn new(window: Window<C>) -> (s: Self)
        ensures
            s.batches() == Map::<u128, MessageQueue>::empty(),
    {
        Self { window, batch: HashMap::new() }
    }

    /// Store a queue under a batch token that is fresh within
    /// this session, and hand the token back.
    pub(crate) fn register_batch(&mut self, queue: MessageQueue) -> (b: Token)
        ensures
            !old(self).batches().contains_key(b@),
            final(self).batches() == old(self).batches().insert(b@, queue),
    {
        let batch = crate::message::fresh_token(&self.batch);
        self.batch.insert(batch.key(), queue);
        batch
    }

    /// Wait for an event: blocks on the backend window and fails
    /// only when the backend yields nothing.
    pub fn wait(&mut self) -> (r: Result<Event, Error>)
        ensures
            final(self).batches() == old(self).batches(),
            r is Err ==> r == Err::<Event, Error>(Error::NoEvent),
    {
        let event = self.window.event();
        event.ok_or(Error::NoEvent)
    }

    /// Poll for an event: never blocks and fails when no event
    /// is pending.
    pub fn poll(&mut self) -> (r: Result<Event, Error>)
        ensures
            final(self).batches() == old(self).batches(),
            r is Err ==> r == Err::<Event, Error>(Error::NoEvent),
    {
        let event = self.window.poll();
        event.ok_or(Error::NoEvent)
    }

    /// Forward a command to the backend window
    fn command(&mut self, command: &Command)
        ensures
            final(self).batches() == old(self).batches(),
    {
        match command {
            Command::Window(command) => {
                self.window.window(command);
            },
        }
    }

    /// Dispatch one request body. What a status query replies is
    /// fixed by `stat_reply` for every answer the backend can
    /// give; the backend's answer itself is the one thing this
    /// contract cannot pin down.
    fn body(&mut self, body: &Body) -> (r: Status)
        ensures
            final(self).batches() == old(self).batches(),
            request_status(*body, r),
    {
        match body {
            Body::Stat(s) => {
                let answer = self.window.stat(*s);
                return stat_reply(answer);
            },
            Body::Command(c) => {
                self.command(c);
            },
            _ => {
            },
        }
        Ok(Message::empty())
    }

    /// The dispatch entry point: requests are dispatched by body,
    /// every other message type fails with a type error and
    /// leaves the session exactly as it was.
    pub fn handle(&mut self, message: &Message) -> (r: Status)
        ensures
            final(self).batches() == old(self).batches(),
            handle_status(*message, r),
            message.spec_ty() != Type::Request ==> *final(self) == *old(self),
    {
        match message.ty() {
            Type::Request => self.body(message.body()),
            _ => Err(Error::Type),
        }
    }

    /// Run the batch registered under the given token: every
    /// message in it is dispatched in order, failures of single
    /// messages are absorbed, and the queue is put back unchanged
    /// so the batch can be replayed. An unknown batch token
    /// leaves the session exactly as it was.
    pub fn run(&mut self, token: &Token) -> (r: Status)
        ensures
            final(self).batches() == old(self).batches(),
            old(self).batches().contains_key(token@) ==> (match r {
                Ok(m) => is_empty_message(m),
                Err(_) => false,
            }),
            !old(self).batches().contains_key(token@) ==> r == Err::<Message, Error>(Error::Token)
                && *final(self) == *old(self),
    {
        let key = token.key();
        if !self.batch.contains_key(&key) {
            return Err(Error::Token);
        }
        let queue = self.batch.remove(&key).unwrap();
        let messages = queue.messages();
        let ghost batch0 = old(self).batch@;
        let mut i: usize = 0;
        while i < messages.len()
            invariant
                self.batch@ == batch0.remove(token@),
            decreases messages.len() - i,
        {
            let _ = self.handle(&messages[i]);
            i = i + 1;
        }
        self.batch.insert(key, queue);
        proof {
            assert(self.batch@ =~= batch0);
        }
        Ok(Message::empty())
    }
}

} // verus!
