//! The `Connection`: the public-facing multiplexer that fans
//! typed messages out to token-addressed sessions.

use vstd::prelude::*;
use std::collections::HashMap;

use crate::context::ConnectionError;
use crate::context::SystemContext;
use crate::event::Event;
use crate::message::fresh_token;
use crate::message::Body;
use crate::message::Error;
use crate::message::Message;
use crate::message::MessageQueue;
use crate::message::Status;
use crate::message::Token;
use crate::message::Type;
use crate::session::handle_status;
use crate::session::is_empty_message;
use crate::session::request_status;
use crate::session::Session;
use crate::system::System;

verus! {

broadcast use vstd::std_specs::hash::group_hash_axioms;

/// A `Connection` is used as the channel for communication with
/// the windowing system. Communication is done via `Message`s:
/// send a request and get a response, or wait for or poll the
/// system for incoming `Event`s. The registry maps each token to
/// exactly one live session, and no operation on one token ever
/// touches another token's session.
pub struct Connection<S: SystemContext> {
    system: System<S>,
    sessions: HashMap<u128, Session<S::Window>>,
}

impl<S: SystemContext> Connection<S> {
    /// The token-to-session registry
    pub closed spec fn registry(&self) -> Map<u128, Session<S::Window>> {
        self.sessions@
    }

    /// Open a new connection over the given backend system
    /// handle. Every connection starts with an empty registry:
    /// no token is active until `begin` returns it.
    pub fn open_with(system: S) -> (r: Result<Self, Option<ConnectionError>>)
        ensures
            match r {
                Ok(c) => c.registry() == Map::<u128, Session<S::Window>>::empty(),
                Err(_) => false,
            },
    {
        Ok(Self { system: System::new(system), sessions: HashMap::new() })
    }

    /// Begins a new window session and returns a `Token` as
    /// reference. The token is fresh: it addresses no session
    /// that existed before, and every earlier session is left
    /// untouched.
    pub fn begin(&mut self) -> (t: Token)
        ensures
            !old(self).registry().contains_key(t@),
            final(self).registry() == old(self).registry().insert(
                t@,
                final(self).registry()[t@],
            ),
            final(self).registry().contains_key(t@),
            final(self).registry()[t@].batches() == Map::<u128, MessageQueue>::empty(),
            forall|k: u128|
                k != t@ && old(self).registry().contains_key(k)
                    ==> final(self).registry().contains_key(k) && final(self).registry()[k]
                    == old(self).registry()[k],
    {
        let token = fresh_token(&self.sessions);
        let window = self.system.create_window();
        let session = Session::new(window);
        self.sessions.insert(token.key(), session);
        token
    }

    /// End a current window session: the token's session leaves
    /// the registry and the token addresses nothing afterwards.
    pub fn end(&mut self, token: &Token) -> (r: Status)
        ensures
            !old(self).registry().contains_key(token@) ==> r == Err::<Message, Error>(Error::Token)
                && final(self).registry() == old(self).registry(),
            old(self).registry().contains_key(token@) ==> (match r {
                Ok(m) => is_empty_message(m),
                Err(_) => false,
            }) && final(self).registry() == old(self).registry().remove(token@),
    {
        let key = token.key();
        match self.sessions.remove(&key) {
            None => Err(Error::Token),
            Some(_) => Ok(Message::empty()),
        }
    }

    /// Check if the token addresses a live session
    pub fn active(&self, token: &Token) -> (r: bool)
        ensures
            r == self.registry().contains_key(token@),
    {
        let key = token.key();
        self.sessions.contains_key(&key)
    }

    /// Send a `Message` to the windowing system: the addressed
    /// session dispatches it; an unknown token is rejected and
    /// every other session is left untouched.
    pub fn send(&mut self, token: &Token, message: Message) -> (r: Status)
        ensures
            !old(self).registry().contains_key(token@) ==> r == Err::<Message, Error>(Error::Token)
                && final(self).registry() == old(self).registry(),
            old(self).registry().contains_key(token@) ==> {
                &&& final(self).registry().dom() == old(self).registry().dom()
                &&& forall|k: u128|
                    k != token@ && old(self).registry().contains_key(k)
                        ==> final(self).registry()[k] == old(self).registry()[k]
                &&& final(self).registry()[token@].batches() == old(self).registry()[token@].batches()
                &&& handle_status(message, r)
                &&& message.spec_ty() != Type::Request ==> final(self).registry() == old(
                    self,
                ).registry()
            },
    {
        let key = token.key();
        match self.sessions.remove(&key) {
            None => Err(Error::Token),
            Some(mut session) => {
                let r = session.handle(&message);
                self.sessions.insert(key, session);
                proof {
                    assert(self.registry().dom() =~= old(self).registry().dom());
                    if message.spec_ty() != Type::Request {
                        assert(self.registry() =~= old(self).registry());
                    }
                }
                r
            },
        }
    }

    /// Send a request `Message` to the windowing system
    pub fn request(&mut self, token: &Token, body: Body) -> (r: Status)
        ensures
            !old(self).registry().contains_key(token@) ==> r == Err::<Message, Error>(Error::Token)
                && final(self).registry() == old(self).registry(),
            old(self).registry().contains_key(token@) ==> {
                &&& final(self).registry().dom() == old(self).registry().dom()
                &&& forall|k: u128|
                    k != token@ && old(self).registry().contains_key(k)
                        ==> final(self).registry()[k] == old(self).registry()[k]
                &&& final(self).registry()[token@].batches() == old(self).registry()[token@].batches()
                &&& request_status(body, r)
            },
    {
        self.send(token, Message::request(body))
    }

    /// Send many request `Message`s to the windowing system at
    /// once. They are applied to the session in the order given,
    /// and the run stops at the first failure. A known token
    /// makes every request succeed, so all of them are applied.
    pub fn requests(&mut self, token: &Token, requests: Vec<Body>) -> (r: Status)
        ensures
            final(self).registry().dom() == old(self).registry().dom(),
            forall|k: u128|
                k != token@ && old(self).registry().contains_key(k) ==> final(self).registry()[k] == old(self).registry()[k],
            old(self).registry().contains_key(token@) ==> final(self).registry()[token@].batches()
                == old(self).registry()[token@].batches() && r is Ok,
            !old(self).registry().contains_key(token@) ==> final(self).registry() == old(self).registry() && (if requests@.len() == 0 {
                r is Ok
            } else {
                r == Err::<Message, Error>(Error::Token)
            }),
            requests@.len() == 0 ==> (match r {
                Ok(m) => is_empty_message(m),
                Err(_) => false,
            }),
    {
        let mut rest = requests;
        if rest.len() == 0 {
            return Ok(Message::empty());
        }
        if !self.active(token) {
            return Err(Error::Token);
        }
        let mut res: Status = Ok(Message::empty());
        while rest.len() > 0
            invariant
                old(self).registry().contains_key(token@),
                self.registry().contains_key(token@),
                self.registry().dom() == old(self).registry().dom(),
                forall|k: u128|
                    k != token@ && old(self).registry().contains_key(k) ==> self.registry()[k]
                        == old(self).registry()[k],
                self.registry()[token@].batches() == old(self).registry()[token@].batches(),
                res is Ok,
            decreases rest.len(),
        {
            let body = rest.remove(0);
            res = self.send(token, Message::request(body));
            if let Err(_) = res {
                return res;
            }
        }
        res
    }

    /// Wait for an `Event`. This blocks until the session's
    /// backend produces one; only a missing event fails with
    /// `NoEvent`, and an unknown token is rejected.
    pub fn wait(&mut self, token: &Token) -> (r: Result<Event, Error>)
        ensures
            !old(self).registry().contains_key(token@) ==> r == Err::<Event, Error>(Error::Token)
                && final(self).registry() == old(self).registry(),
            old(self).registry().contains_key(token@) ==> {
                &&& final(self).registry().dom() == old(self).registry().dom()
                &&& forall|k: u128|
                    k != token@ && old(self).registry().contains_key(k)
                        ==> final(self).registry()[k] == old(self).registry()[k]
                &&& final(self).registry()[token@].batches() == old(self).registry()[token@].batches()
                &&& (r is Ok || r == Err::<Event, Error>(Error::NoEvent))
            },
    {
        let key = token.key();
        match self.sessions.remove(&key) {
            None => Err(Error::Token),
            Some(mut session) => {
                let r = session.wait();
                self.sessions.insert(key, session);
                proof {
                    assert(self.registry().dom() =~= old(self).registry().dom());
                }
                r
            },
        }
    }

    /// Poll for an `Event`. This is non-blocking: with no event
    /// pending it fails with `NoEvent`.
    pub fn poll(&mut self, token: &Token) -> (r: Result<Event, Error>)
        ensures
            !old(self).registry().contains_key(token@) ==> r == Err::<Event, Error>(Error::Token)
                && final(self).registry() == old(self).registry(),
            old(self).registry().contains_key(token@) ==> {
                &&& final(self).registry().dom() == old(self).registry().dom()
                &&& forall|k: u128|
                    k != token@ && old(self).registry().contains_key(k)
                        ==> final(self).registry()[k] == old(self).registry()[k]
                &&& final(self).registry()[token@].batches() == old(self).registry()[token@].batches()
                &&& (r is Ok || r == Err::<Event, Error>(Error::NoEvent))
            },
    {
        let key = token.key();
        match self.sessions.remove(&key) {
            None => Err(Error::Token),
            Some(mut session) => {
                let r = session.poll();
                self.sessions.insert(key, session);
                proof {
                    assert(self.registry().dom() =~= old(self).registry().dom());
                }
                r
            },
        }
    }

    /// Take the token's session out of the registry, for an
    /// embedding that moves its blocking wait onto another
    /// thread: while the session is out, every other session
    /// stays fully usable, and the detached token itself is
    /// rejected like an unknown one. The async event facade
    /// detaches, waits, and attaches again.
    pub fn detach(&mut self, token: &Token) -> (r: Result<Session<S::Window>, Error>)
        ensures
            !old(self).registry().contains_key(token@) ==> (match r {
                Ok(_) => false,
                Err(e) => e == Error::Token,
            }) && final(self).registry() == old(self).registry(),
            old(self).registry().contains_key(token@) ==> (match r {
                Ok(s) => s == old(self).registry()[token@] && final(self).registry() == old(
                    self,
                ).registry().remove(token@),
                Err(_) => false,
            }),
    {
        let key = token.key();
        match self.sessions.remove(&key) {
            None => Err(Error::Token),
            Some(session) => Ok(session),
        }
    }

    /// Put a detached session back under its token. Meant for
    /// the session that `detach` handed out: attaching under a
    /// token that is active again replaces that session.
    pub fn attach(&mut self, token: &Token, session: Session<S::Window>)
        ensures
            final(self).registry() == old(self).registry().insert(token@, session),
    {
        let key = token.key();
        let _ = self.sessions.insert(key, session);
    }

    /// Batch a sequence of messages and return a batch token.
    /// The batch token is fresh within the session and the queue
    /// is stored under it, ready to be dispatched any number of
    /// times.
    pub fn batch(&mut self, token: &Token, queue: MessageQueue) -> (r: Result<Token, Error>)
        ensures
            !old(self).registry().contains_key(token@) ==> r == Err::<Token, Error>(Error::Token)
                && final(self).registry() == old(self).registry(),
            old(self).registry().contains_key(token@) ==> {
                &&& final(self).registry().dom() == old(self).registry().dom()
                &&& forall|k: u128|
                    k != token@ && old(self).registry().contains_key(k)
                        ==> final(self).registry()[k] == old(self).registry()[k]
                &&& match r {
                    Ok(b) => !old(self).registry()[token@].batches().contains_key(b@) && final(self).registry()[token@].batches() == old(self).registry()[token@].batches().insert(
                        b@,
                        queue,
                    ),
                    Err(_) => false,
                }
            },
    {
        let key = token.key();
        match self.sessions.remove(&key) {
            None => Err(Error::Token),
            Some(mut session) => {
                let batch = session.register_batch(queue);
                self.sessions.insert(key, session);
                proof {
                    assert(self.registry().dom() =~= old(self).registry().dom());
                }
                Ok(batch)
            },
        }
    }

    /// Dispatch the message queue registered under a batch token.
    /// The batch registry is left as it was, so the same batch
    /// token dispatches the same messages again.
    pub fn dispatch(&mut self, token: &Token, batch: &Token) -> (r: Status)
        ensures
            !old(self).registry().contains_key(token@) ==> r == Err::<Message, Error>(Error::Token)
                && final(self).registry() == old(self).registry(),
            old(self).registry().contains_key(token@) ==> {
                &&& final(self).registry().dom() == old(self).registry().dom()
                &&& forall|k: u128|
                    k != token@ && old(self).registry().contains_key(k)
                        ==> final(self).registry()[k] == old(self).registry()[k]
                &&& final(self).registry()[token@].batches() == old(self).registry()[token@].batches()
                &&& (match r {
                    Ok(m) => is_empty_message(m) && old(self).registry()[token@].batches().contains_key(batch@),
                    Err(e) => e == Error::Token && !old(self).registry()[token@].batches().contains_key(batch@)
                        && final(self).registry() == old(self).registry(),
                })
            },
    {
        let key = token.key();
        match self.sessions.remove(&key) {
            None => Err(Error::Token),
            Some(mut session) => {
                let r = session.run(batch);
                self.sessions.insert(key, session);
                proof {
                    assert(self.registry().dom() =~= old(self).registry().dom());
                    if !old(self).registry()[token@].batches().contains_key(batch@) {
                        assert(self.registry() =~= old(self).registry());
                    }
                }
                r
            },
        }
    }
}

/// A token just returned by `begin` is active: in every state
/// that `begin`'s contract allows, the registry holds the new
/// token, so `active` on it answers true.
pub proof fn lemma_begin_then_active<S: SystemContext>(
    pre: Connection<S>,
    post: Connection<S>,
    t: Token,
)
    requires
        post.registry() == pre.registry().insert(t@, post.registry()[t@]),
    ensures
        post.registry().contains_key(t@),
{
}

/// A token just removed by `end` is inactive: in every state
/// that `end`'s contract allows, the registry no longer holds
/// the token, so `active` answers false and every keyed
/// operation rejects it with a token error.
pub proof fn lemma_end_then_inactive<S: SystemContext>(
    pre: Connection<S>,
    post: Connection<S>,
    t: Token,
)
    requires
        post.registry() == pre.registry().remove(t@),
    ensures
        !post.registry().contains_key(t@),
{
}

/// Batch replay: `dispatch`'s contract keeps the session's batch
/// registry as it was, so in every state it can leave behind, a
/// batch token that named a queue before still names the same
/// queue, and a second dispatch of it succeeds again.
pub proof fn lemma_batch_replayable<S: SystemContext>(
    pre: Connection<S>,
    post: Connection<S>,
    t: Token,
    b: Token,
)
    requires
        pre.registry().contains_key(t@),
        post.registry().contains_key(t@),
        pre.registry()[t@].batches().contains_key(b@),
        post.registry()[t@].batches() == pre.registry()[t@].batches(),
    ensures
        post.registry()[t@].batches().contains_key(b@),
        post.registry()[t@].batches()[b@] == pre.registry()[t@].batches()[b@],
{
}

} // verus!
