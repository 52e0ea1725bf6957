//! # Message
//! `Message`s are the sole form of communication with the library.
//! They consist of a `Type` and a `Body`.

use vstd::prelude::*;
use vstd::set_lib::lemma_len_subset;
use std::collections::HashMap;

pub mod data;
pub mod stat;

use crate::event::Event;
use crate::render::Image;
use crate::render::Surface;
use data::Data;
use stat::Stat;

verus! {

broadcast use vstd::std_specs::hash::group_hash_axioms;

/// The type of the `Message`.
#[derive(Debug, Clone, PartialEq)]
pub enum Type {
    /// An empty message
    Empty,
    /// Initialisation message
    Init,
    /// A request
    Request,
    /// A response
    Response,
    /// Custom message type
    Custom(String),
}

/// The body of the message
#[derive(Debug, Clone, PartialEq)]
pub enum Body {
    /// Has no body
    Empty,
    /// Status
    Stat(Stat),
    /// Status data
    Data(Data),
    /// A command
    Command(Command),
    /// An event
    Event(Event),
    /// Custom body
    Custom(String),
}

impl Default for Body {
    fn default() -> (r: Self)
        ensures
            r == Body::Empty,
    {
        Body::Empty
    }
}

/// A `Message` command. Found within the
/// body of the message.
#[derive(Debug, Clone, PartialEq)]
pub enum Command {
    /// A window command
    Window(WindowCommand),
}

/// Commands for window requests.
#[derive(Debug, PartialEq)]
pub enum WindowCommand {
    /// Request window title
    Title(String),
    /// Request window dimension
    Dimension((u32, u32)),
    /// Request window origin
    Origin((u32, u32)),
    /// Request to map window
    MapWindow,
    /// Request to unmap window
    Unmap,
    /// Request to stack the window above
    StackAbove,
    /// Request to stack the window below
    StackBelow,
    /// Request to draw to window
    Draw(Surface),
    /// Request to draw image to window
    Image(Image),
    /// Request to clear the window
    Clear,
    /// Request to update the window
    Update,
}

impl From<Command> for Body {
    fn from(c: Command) -> (r: Self)
        ensures
            r == Body::Command(c),
    {
        Body::Command(c)
    }
}

impl vstd::std_specs::convert::FromSpecImpl<Command> for Body {
    open spec fn obeys_from_spec() -> bool {
        true
    }

    open spec fn from_spec(c: Command) -> Body {
        Body::Command(c)
    }
}

impl From<WindowCommand> for Body {
    fn from(w: WindowCommand) -> (r: Self)
        ensures
            r == Body::Command(Command::Window(w)),
    {
        Body::Command(Command::Window(w))
    }
}

impl vstd::std_specs::convert::FromSpecImpl<WindowCommand> for Body {
    open spec fn obeys_from_spec() -> bool {
        true
    }

    open spec fn from_spec(w: WindowCommand) -> Body {
        Body::Command(Command::Window(w))
    }
}

impl From<Event> for Body {
    fn from(e: Event) -> (r: Self)
        ensures
            r == Body::Event(e),
    {
        Body::Event(e)
    }
}

impl vstd::std_specs::convert::FromSpecImpl<Event> for Body {
    open spec fn obeys_from_spec() -> bool {
        true
    }

    open spec fn from_spec(e: Event) -> Body {
        Body::Event(e)
    }
}

impl From<Stat> for Body {
    fn from(s: Stat) -> (r: Self)
        ensures
            r == Body::Stat(s),
    {
        Body::Stat(s)
    }
}

impl vstd::std_specs::convert::FromSpecImpl<Stat> for Body {
    open spec fn obeys_from_spec() -> bool {
        true
    }

    open spec fn from_spec(s: Stat) -> Body {
        Body::Stat(s)
    }
}

impl From<Data> for Body {
    fn from(d: Data) -> (r: Self)
        ensures
            r == Body::Data(d),
    {
        Body::Data(d)
    }
}

impl vstd::std_specs::convert::FromSpecImpl<Data> for Body {
    open spec fn obeys_from_spec() -> bool {
        true
    }

    open spec fn from_spec(d: Data) -> Body {
        Body::Data(d)
    }
}

impl Clone for WindowCommand {
    fn clone(&self) -> (res: Self) {
        match self {
            WindowCommand::Title(s) => WindowCommand::Title(s.clone()),
            WindowCommand::Dimension(d) => WindowCommand::Dimension(*d),
            WindowCommand::Origin(o) => WindowCommand::Origin(*o),
            WindowCommand::MapWindow => WindowCommand::MapWindow,
            WindowCommand::Unmap => WindowCommand::Unmap,
            WindowCommand::StackAbove => WindowCommand::StackAbove,
            WindowCommand::StackBelow => WindowCommand::StackBelow,
            WindowCommand::Draw(s) => WindowCommand::Draw(s.clone()),
            WindowCommand::Image(i) => WindowCommand::Image(i.clone()),
            WindowCommand::Clear => WindowCommand::Clear,
            WindowCommand::Update => WindowCommand::Update,
        }
    }
}

/// Error message
#[derive(Debug, Clone, PartialEq)]
pub enum Error {
    /// The message type is not valid for the operation
    Type,
    /// The token does not name a session or batch
    Token,
    /// The session is in use
    Session,
    /// No event was available
    NoEvent,
    /// Custom error
    Custom(String),
}

impl Error {
    /// The text a report of this error carries
    pub open spec fn spec_message(&self) -> Seq<char> {
        match self {
            Error::Type => "specified unexpected message type"@,
            Error::Token => "specified undefined token"@,
            Error::Session => "session is already in use"@,
            Error::NoEvent => "no event available"@,
            Error::Custom(s) => s@,
        }
    }

    /// Describe the error in words
    pub fn message(&self) -> (r: String)
        ensures
            r@ == self.spec_message(),
    {
        match self {
            Error::Type => "specified unexpected message type".to_owned(),
            Error::Token => "specified undefined token".to_owned(),
            Error::Session => "session is already in use".to_owned(),
            Error::NoEvent => "no event available".to_owned(),
            Error::Custom(s) => s.as_str().to_owned(),
        }
    }
}

/// The message status
pub type Status = Result<Message, Error>;

/// A message token used to refer to a session
#[derive(Debug, Copy, Clone, PartialEq, Eq, Hash)]
pub struct Token {
    id: u128,
}

impl View for Token {
    type V = u128;

    closed spec fn view(&self) -> u128 {
        self.id
    }
}

impl Token {
    /// Relies on uuid::Uuid::new_v4 for a fresh random identifier,
    /// handed on as its 128-bit value. Nothing is promised of the
    /// value; freshness is checked by the caller. The call aborts
    /// only if the operating system's randomness source fails, an
    /// environmental failure on a par with running out of memory.
    #[verifier::external_body]
    fn random_id() -> u128 {
        uuid::Uuid::new_v4().as_u128()
    }

    pub(crate) fn new() -> Self {
        Self { id: Self::random_id() }
    }

    pub(crate) fn from_id(id: u128) -> (t: Self)
        ensures
            t@ == id,
    {
        Self { id }
    }

    pub(crate) fn key(&self) -> (k: u128)
        ensures
            k == self@,
    {
        self.id
    }
}

proof fn lemma_u128_range_len(n: nat)
    requires
        n <= u128::MAX as nat + 1,
    ensures
        Set::new(|k: u128| (k as nat) < n).finite(),
        Set::new(|k: u128| (k as nat) < n).len() == n,
    decreases n,
{
    let s = Set::new(|k: u128| (k as nat) < n);
    if n == 0 {
        assert(s =~= Set::empty());
    } else {
        lemma_u128_range_len((n - 1) as nat);
        let s0 = Set::new(|k: u128| (k as nat) < n - 1);
        assert(s =~= s0.insert((n - 1) as u128));
    }
}

/// A map over 128-bit keys cannot hold every key from 0 up to and
/// including its own size: that would take one key more than it
/// has, so one of those keys is always free.
proof fn lemma_free_key_exists<V>(m: Map<u128, V>, n: nat)
    requires
        m.dom().finite(),
        m.len() == n,
        n <= u128::MAX as nat,
    ensures
        exists|j: int| 0 <= j <= n && !m.contains_key(#[trigger] (j as u128)),
{
    if forall|j: int| 0 <= j <= n ==> m.contains_key(#[trigger] (j as u128)) {
        let s = Set::new(|k: u128| (k as nat) < n + 1);
        assert forall|k: u128| s.contains(k) implies m.dom().contains(k) by {
            let j = k as int;
            assert(m.contains_key(j as u128));
            assert(j as u128 == k);
        }
        lemma_u128_range_len(n + 1);
        lemma_len_subset(s, m.dom());
    }
}

/// A token that is not a key of the given registry.
///
/// A fresh random token is taken first; on a collision the candidates
/// are scanned in order. The scan must end, so it runs over one more
/// candidate than the registry has keys, among which one is free.
pub(crate) fn fresh_token<V>(m: &HashMap<u128, V>) -> (t: Token)
    ensures
        !m@.contains_key(t@),
{
    let candidate = Token::new();
    let key = candidate.key();
    if !m.contains_key(&key) {
        return candidate;
    }
    let n = m.len();
    proof {
        lemma_free_key_exists(m@, n as nat);
    }
    let mut i: usize = 0;
    while i < n
        invariant
            i <= n,
            n == m@.len(),
            exists|j: int| 0 <= j <= n && !m@.contains_key(#[trigger] (j as u128)),
            forall|j: int| 0 <= j < i ==> m@.contains_key(#[trigger] (j as u128)),
        decreases n - i,
    {
        let k = i as u128;
        if !m.contains_key(&k) {
            return Token::from_id(k);
        }
        i = i + 1;
    }
    proof {
        let j = choose|j: int| 0 <= j <= n && !m@.contains_key(#[trigger] (j as u128));
        assert(j == n);
    }
    Token::from_id(n as u128)
}

/// A `Message` for bi-directional communication
#[derive(Debug, Clone, PartialEq)]
pub struct Message {
    /// message type
    ty: Type,
    /// message body
    body: Body,
}

impl Message {
    /// The type of the message
    pub closed spec fn spec_ty(&self) -> Type {
        self.ty
    }

    /// The body of the message
    pub closed spec fn spec_body(&self) -> Body {
        self.body
    }

    /// Create a new `Message`
    pub fn new(ty: Type, body: Body) -> (m: Self)
        ensures
            m.spec_ty() == ty,
            m.spec_body() == body,
    {
        Self { ty, body }
    }

    /// Create a new response `Message`
    pub fn response(body: Body) -> (m: Self)
        ensures
            m.spec_ty() == Type::Response,
            m.spec_body() == body,
    {
        Self { ty: Type::Response, body }
    }

    /// Create a new request `Message`
    pub fn request(body: Body) -> (m: Self)
        ensures
            m.spec_ty() == Type::Request,
            m.spec_body() == body,
    {
        Self { ty: Type::Request, body }
    }

    /// Create an empty `Message`
    pub fn empty() -> (m: Self)
        ensures
            m.spec_ty() == Type::Empty,
            m.spec_body() == Body::Empty,
    {
        Self::new(Type::Empty, Body::Empty)
    }

    /// Get the type of the message
    pub fn ty(&self) -> (r: &Type)
        ensures
            *r == self.spec_ty(),
    {
        &self.ty
    }

    /// Get the body of the message
    pub fn body(&self) -> (r: &Body)
        ensures
            *r == self.spec_body(),
    {
        &self.body
    }

    /// Take the body of the message, leaving an empty body in its
    /// place: the real body comes out once, every later take sees
    /// `Body::Empty`.
    pub fn take_body(&mut self) -> (r: Body)
        ensures
            r == old(self).spec_body(),
            final(self).spec_body() == Body::Empty,
            final(self).spec_ty() == old(self).spec_ty(),
    {
        let mut body = Body::Empty;
        core::mem::swap(&mut self.body, &mut body);
        body
    }

    /// If the message is empty
    pub fn is_empty(&self) -> (r: bool)
        ensures
            r == (self.spec_ty() == Type::Empty),
    {
        match &self.ty {
            Type::Empty => true,
            _ => false,
        }
    }
}

/// Whether a queue holding `q` under the bound `limit` is full
pub open spec fn spec_full(q: Seq<Message>, limit: Option<usize>) -> bool {
    match limit {
        Option::None => false,
        Option::Some(l) => q.len() == l,
    }
}

/// The contents of a queue holding `q` under `limit` after one
/// message is enqueued: a bound of zero drops the message, a full
/// queue evicts its oldest message first.
pub open spec fn spec_enqueue(q: Seq<Message>, limit: Option<usize>, m: Message) -> Seq<Message> {
    if limit == Option::<usize>::Some(0) {
        q
    } else if spec_full(q, limit) {
        q.drop_first().push(m)
    } else {
        q.push(m)
    }
}

/// The contents after a sequence of messages is enqueued in order
pub open spec fn spec_enqueue_all(
    q: Seq<Message>,
    limit: Option<usize>,
    msgs: Seq<Message>,
) -> Seq<Message>
    decreases msgs.len(),
{
    if msgs.len() == 0 {
        q
    } else {
        spec_enqueue_all(spec_enqueue(q, limit, msgs[0]), limit, msgs.drop_first())
    }
}

/// The message queue
#[derive(Debug, Clone, PartialEq)]
pub struct MessageQueue {
    messages: Vec<Message>,
    limit: Option<usize>,
}

impl View for MessageQueue {
    type V = Seq<Message>;

    closed spec fn view(&self) -> Seq<Message> {
        self.messages@
    }
}

impl MessageQueue {
    /// The optional size bound
    pub closed spec fn bound(&self) -> Option<usize> {
        self.limit
    }

    /// Create a new message queue
    pub fn new() -> (q: Self)
        ensures
            q@ == Seq::<Message>::empty(),
            q.bound() is None,
    {
        Self { messages: Vec::new(), limit: None }
    }

    /// Append a message to the queue, respecting the bound:
    /// a full queue loses its oldest message first.
    pub fn enqueue(&mut self, message: Message)
        ensures
            final(self)@ == spec_enqueue(old(self)@, old(self).bound(), message),
            final(self).bound() == old(self).bound(),
    {
        if let Some(0) = self.limit {
            return ;
        }
        if self.full() {
            self.front();
        }
        self.messages.push(message);
    }

    /// Retrieve the message at the front of the queue
    pub fn front(&mut self) -> (r: Option<Message>)
        ensures
            final(self).bound() == old(self).bound(),
            old(self)@.len() == 0 ==> r is None && final(self)@ == old(self)@,
            old(self)@.len() > 0 ==> r == Some(old(self)@[0]) && final(self)@ == old(
                self,
            )@.drop_first(),
    {
        if self.messages.len() > 0 {
            Some(self.messages.remove(0))
        } else {
            None
        }
    }

    /// Optionally add a limit on the queue size
    pub fn limit(&mut self, limit: Option<usize>)
        ensures
            final(self)@ == old(self)@,
            final(self).bound() == limit,
    {
        self.limit = limit;
    }

    /// Get the number of messages in the queue
    pub fn size(&self) -> (r: usize)
        ensures
            r == self@.len(),
    {
        self.messages.len()
    }

    /// Check if the queue is full
    pub fn full(&self) -> (r: bool)
        ensures
            r == spec_full(self@, self.bound()),
    {
        match self.limit {
            None => false,
            Some(limit) => limit == self.messages.len(),
        }
    }

    pub(crate) fn messages(&self) -> (r: &Vec<Message>)
        ensures
            r@ == self@,
    {
        &self.messages
    }

    pub(crate) fn join(&mut self, other: &mut Self)
        ensures
            final(self)@ == old(self)@ + old(other)@,
            final(self).bound() == old(self).bound(),
            final(other)@ == Seq::<Message>::empty(),
            final(other).bound() == old(other).bound(),
    {
        self.messages.append(&mut other.messages);
        proof {
            assert(final(other)@ =~= Seq::<Message>::empty());
        }
    }
}

/// The bound is an invariant of the queue: a queue holding no
/// more messages than its bound still holds no more than it
/// after any enqueue, since a full queue evicts before it
/// appends and a bound of zero drops the message.
pub proof fn lemma_bound_is_invariant(q: Seq<Message>, k: usize, m: Message)
    requires
        q.len() <= k,
    ensures
        spec_enqueue(q, Some(k), m).len() <= k,
{
}

/// Enqueueing adds at the tail while room remains: a run of
/// messages that fits under the bound is held in full, in order.
pub proof fn lemma_enqueue_all_within_bound(q: Seq<Message>, k: usize, msgs: Seq<Message>)
    requires
        q.len() + msgs.len() <= k,
    ensures
        spec_enqueue_all(q, Some(k), msgs) == q + msgs,
    decreases msgs.len(),
{
    if msgs.len() == 0 {
        assert(spec_enqueue_all(q, Some(k), msgs) =~= q + msgs);
    } else {
        assert(spec_enqueue(q, Some(k), msgs[0]) == q.push(msgs[0]));
        lemma_enqueue_all_within_bound(q.push(msgs[0]), k, msgs.drop_first());
        assert(q.push(msgs[0]) + msgs.drop_first() =~= q + msgs);
    }
}

/// A queue with bound `k` that takes `N` messages, `N <= k`, holds
/// exactly those messages in their original order afterwards, so
/// `N` calls of `front` give them back in order and one more gives
/// nothing.
pub proof fn lemma_queue_round_trip(k: usize, msgs: Seq<Message>)
    requires
        msgs.len() <= k,
    ensures
        spec_enqueue_all(Seq::<Message>::empty(), Some(k), msgs) == msgs,
{
    lemma_enqueue_all_within_bound(Seq::<Message>::empty(), k, msgs);
    assert(Seq::<Message>::empty() + msgs =~= msgs);
}

proof fn lemma_enqueue_all_snoc(q: Seq<Message>, limit: Option<usize>, msgs: Seq<Message>, m: Message)
    ensures
        spec_enqueue_all(q, limit, msgs.push(m)) == spec_enqueue(
            spec_enqueue_all(q, limit, msgs),
            limit,
            m,
        ),
    decreases msgs.len(),
{
    if msgs.len() == 0 {
        assert(msgs.push(m)[0] == m);
        assert(msgs.push(m).drop_first() =~= Seq::<Message>::empty());
        assert(spec_enqueue_all(spec_enqueue(q, limit, m), limit, Seq::<Message>::empty())
            == spec_enqueue(q, limit, m));
        assert(spec_enqueue_all(q, limit, msgs) == q);
    } else {
        assert(msgs.push(m)[0] == msgs[0]);
        assert(msgs.push(m).drop_first() =~= msgs.drop_first().push(m));
        lemma_enqueue_all_snoc(spec_enqueue(q, limit, msgs[0]), limit, msgs.drop_first(), m);
        assert(spec_enqueue_all(q, limit, msgs.push(m)) == spec_enqueue_all(
            spec_enqueue(q, limit, msgs[0]),
            limit,
            msgs.drop_first().push(m),
        ));
        assert(spec_enqueue_all(q, limit, msgs) == spec_enqueue_all(
            spec_enqueue(q, limit, msgs[0]),
            limit,
            msgs.drop_first(),
        ));
    }
}

/// Bounded-queue eviction: a queue with bound `k` that takes `k + 1`
/// messages holds exactly the last `k` of them afterwards; the
/// oldest one was evicted.
pub proof fn lemma_queue_eviction(k: usize, msgs: Seq<Message>)
    requires
        msgs.len() == k + 1,
    ensures
        spec_enqueue_all(Seq::<Message>::empty(), Some(k), msgs) == msgs.drop_first(),
{
    let first = msgs.take(msgs.len() - 1);
    let last = msgs[msgs.len() - 1];
    assert(msgs =~= first.push(last));
    lemma_enqueue_all_snoc(Seq::<Message>::empty(), Some(k), first, last);
    lemma_queue_round_trip(k, first);
    if k == 0 {
        assert(spec_enqueue(first, Some(k), last) =~= msgs.drop_first());
    } else {
        assert(spec_full(first, Some(k)));
        assert(first.drop_first().push(last) =~= msgs.drop_first());
    }
}

} // verus!
