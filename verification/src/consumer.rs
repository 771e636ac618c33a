//! Taking jobs from the STOMP queue: the session the worker opens, the subscription it
//! makes, and how it answers each message.

use vstd::prelude::*;
use crate::text::{decimal, decimal_text, string_from_utf8, text_is, utf8_of};
use crate::worker::Request;
use vstd::utf8::valid_utf8;

verus! {

/// The connection header that the session builder must not send on its own.
pub const HOST_HEADER: &'static str = "host";

/// The frame command of a negative acknowledgement.
pub const NACK_COMMAND: &'static str = "NACK";

/// The header that tells the broker whether to requeue a refused message.
pub const REQUEUE_HEADER: &'static str = "requeue";

/// Refused messages are not requeued.
pub const NO_REQUEUE: &'static str = "false";

/// The subscription header that bounds the messages in flight.
pub const PREFETCH_HEADER: &'static str = "prefetch-count";

/// How to reach the queue and what to take from it.
#[derive(Debug, Clone)]
pub struct StompConfig {
    pub address: String,
    pub port: u16,
    pub host: String,
    pub username: String,
    pub password: String,
    pub topic: String,
    pub prefetch_count: u16,
    pub heartbeat: u32,
}

/// A STOMP header.
#[derive(Debug, Clone)]
pub struct Header {
    pub name: String,
    pub value: String,
}

/// `h` is the header `name: value`.
pub open spec fn is_header(h: Header, name: Seq<char>, value: Seq<char>) -> bool {
    h.name@ == name && h.value@ == value
}

/// A header is `name: value` exactly when its name is `name` and its value is `value`.
pub proof fn law_is_header(h: Header, name: Seq<char>, value: Seq<char>)
    ensures
        is_header(h, name, value) <==> (h.name@ == name && h.value@ == value),
{
}

/// How to open the session with the broker.
#[derive(Debug, Clone)]
pub struct SessionSettings {
    pub address: String,
    pub port: u16,
    pub username: String,
    pub password: String,
    /// Heart-beat periods in milliseconds: what the client sends, what it expects.
    pub heartbeat: Option<(u32, u32)>,
    /// Headers that the session builder must not add by itself.
    pub suppressed_headers: Vec<String>,
    /// Headers added to the connect frame.
    pub headers: Vec<Header>,
}

impl StompConfig {
    /// The session settings of this configuration: its address and credentials, a
    /// heart-beat of the configured period both ways, and its own `host` header in place
    /// of the builder's.
    pub fn session_settings(&self) -> (r: SessionSettings)
        ensures
            r.address@ == self.address@,
            r.port == self.port,
            r.username@ == self.username@,
            r.password@ == self.password@,
            r.heartbeat == Some((self.heartbeat, self.heartbeat)),
            r.suppressed_headers@.len() == 1,
            r.suppressed_headers@[0]@ == HOST_HEADER@,
            r.headers@.len() == 1,
            is_header(r.headers@[0], HOST_HEADER@, self.host@),
    {
        let mut suppressed_headers: Vec<String> = Vec::new();
        suppressed_headers.push(HOST_HEADER.to_owned());
        let mut headers: Vec<Header> = Vec::new();
        headers.push(Header { name: HOST_HEADER.to_owned(), value: self.host.clone() });
        SessionSettings {
            address: self.address.clone(),
            port: self.port,
            username: self.username.clone(),
            password: self.password.clone(),
            heartbeat: Some((self.heartbeat, self.heartbeat)),
            suppressed_headers,
            headers,
        }
    }
}

/// How the broker learns that a message was handled.
#[derive(Debug, Clone, Copy, PartialEq, Eq, Structural)]
pub enum AckMode {
    Auto,
    Client,
    ClientIndividual,
}

/// The answer to one message.
#[derive(Debug, Clone, Copy, PartialEq, Eq, Structural)]
pub enum AckOrNack {
    Ack,
    Nack,
}

/// A subscription ready to be opened: where, how, with which headers, and the handlers
/// that each message goes to.
pub struct Subscription<H> {
    pub destination: String,
    pub ack_mode: AckMode,
    pub headers: Vec<Header>,
    pub handlers: Vec<H>,
}

/// Every handler accepts every request.
pub open spec fn handlers_accept_all<H: Fn(Request)>(handlers: Seq<H>) -> bool {
    forall|i: int, r: Request| 0 <= i < handlers.len() ==> call_requires(handlers[i], (r,))
}

/// `copy` holds the same id, command and directory as `request`.
pub open spec fn same_request(copy: Request, request: Request) -> bool {
    &&& copy.id@ == request.id@
    &&& copy.command@ == request.command@
    &&& copy.cwd@ == request.cwd@
}

/// The handler has been called with a copy of `request`.
pub open spec fn handled<H: Fn(Request)>(handler: H, request: Request) -> bool {
    exists|copy: Request|
        #![trigger call_ensures(handler, (copy,), ())]
        {
            &&& copy.id@ == request.id@
            &&& copy.command@ == request.command@
            &&& copy.cwd@ == request.cwd@
            &&& call_ensures(handler, (copy,), ())
        }
}

/// Two requests are the same request exactly when their ids, commands and directories
/// are equal.
pub proof fn law_same_request_is_equal_fields(copy: Request, request: Request)
    ensures
        same_request(copy, request) <==> (copy.id@ == request.id@ && copy.command@
            == request.command@ && copy.cwd@ == request.cwd@),
{
}

/// A handler that handled a request was called with a request whose id, command and
/// directory are those of the delivered request, every one of them.
pub proof fn law_handled_request_keeps_fields<H: Fn(Request)>(handler: H, request: Request)
    requires
        handled(handler, request),
    ensures
        exists|copy: Request|
            #![trigger call_ensures(handler, (copy,), ())]
            {
                &&& copy.id@ == request.id@
                &&& copy.command@ == request.command@
                &&& copy.cwd@ == request.cwd@
                &&& call_ensures(handler, (copy,), ())
            },
{
}

/// A copy of a request, field by field.
fn copy_request(request: &Request) -> (copy: Request)
    ensures
        same_request(copy, *request),
        copy.id@ == request.id@,
        copy.command@ == request.command@,
        copy.cwd@ == request.cwd@,
{
    Request { id: request.id.clone(), command: request.command.clone(), cwd: request.cwd.clone() }
}

impl<H: Fn(Request)> Subscription<H> {
    /// Hands a copy of a request to every handler in turn, and acknowledges it.
    pub fn dispatch(&self, request: Request) -> (r: AckOrNack)
        requires
            handlers_accept_all(self.handlers@),
        ensures
            r == AckOrNack::Ack,
            forall|i: int| 0 <= i < self.handlers@.len() ==> handled(#[trigger] self.handlers@[i], request),
    {
        let n: usize = self.handlers.len();
        let mut i: usize = 0;
        while i < n
            invariant
                n == self.handlers@.len(),
                i <= n,
                handlers_accept_all(self.handlers@),
                forall|j: int| 0 <= j < i ==> handled(#[trigger] self.handlers@[j], request),
            decreases n - i,
        {
            let copy = copy_request(&request);
            (self.handlers[i])(copy);
            assert(handled(self.handlers@[i as int], request));
            i = i + 1;
        }
        AckOrNack::Ack
    }

    /// Answers a message whose body read as `request` (`None` when the body was not a
    /// request): a request is dispatched and acknowledged; anything else is refused.
    pub fn deliver(&self, request: Option<Request>) -> (r: AckOrNack)
        requires
            handlers_accept_all(self.handlers@),
        ensures
            r == (if request is Some { AckOrNack::Ack } else { AckOrNack::Nack }),
            request matches Some(q) ==> forall|i: int|
                0 <= i < self.handlers@.len() ==> handled(#[trigger] self.handlers@[i], q),
    {
        match request {
            None => AckOrNack::Nack,
            Some(request) => self.dispatch(request),
        }
    }
}

/// The text of a message body, if it is UTF-8.
pub fn frame_text(body: Vec<u8>) -> (r: Option<String>)
    ensures
        r is Some <==> valid_utf8(body@),
        r matches Some(text) ==> utf8_of(text@) == body@,
{
    string_from_utf8(body)
}

/// The headers of an outgoing frame after the hook that runs before each send: a
/// negative acknowledgement also says that the message must not be requeued; other
/// frames are left as they are.
pub fn before_send(command: &String, headers: &mut Vec<Header>)
    ensures
        command@ == NACK_COMMAND@ ==> final(headers)@.len() == old(headers)@.len() + 1
            && final(headers)@.drop_last() == old(headers)@
            && is_header(final(headers)@.last(), REQUEUE_HEADER@, NO_REQUEUE@),
        command@ != NACK_COMMAND@ ==> final(headers)@ == old(headers)@,
{
    if text_is(command, NACK_COMMAND) {
        headers.push(Header { name: REQUEUE_HEADER.to_owned(), value: NO_REQUEUE.to_owned() });
    }
}

/// Something that takes requests from a queue and hands them to handlers.
pub trait Consumer<H> {
    /// Adds a handler for the requests to come.
    fn subscribe(&mut self, handler: H);

    /// Hands the handlers over to a subscription on the queue.
    fn listen(&mut self) -> Subscription<H>;
}

/// A consumer of a STOMP queue.
pub struct StompConsumer<H> {
    pub topic: String,
    pub prefetch_count: u16,
    pub handlers: Vec<H>,
}

impl<H> StompConsumer<H> {
    /// A consumer of the configured queue, with no handlers yet.
    pub fn new(config: &StompConfig) -> (r: StompConsumer<H>)
        ensures
            r.topic@ == config.topic@,
            r.prefetch_count == config.prefetch_count,
            r.handlers@ == Seq::<H>::empty(),
    {
        StompConsumer {
            topic: config.topic.clone(),
            prefetch_count: config.prefetch_count,
            handlers: Vec::new(),
        }
    }
}

impl<H> Consumer<H> for StompConsumer<H> {
    /// Adds a handler after those already there.
    fn subscribe(&mut self, handler: H)
        ensures
            final(self).handlers@ == old(self).handlers@.push(handler),
            final(self).topic@ == old(self).topic@,
            final(self).prefetch_count == old(self).prefetch_count,
    {
        self.handlers.push(handler);
    }

    /// A subscription to the topic, acknowledged message by message, at most the
    /// prefetch count in flight, with every handler in the order of subscription; the
    /// consumer keeps no handler.
    fn listen(&mut self) -> (r: Subscription<H>)
        ensures
            r.destination@ == old(self).topic@,
            r.ack_mode == AckMode::ClientIndividual,
            r.headers@.len() == 1,
            is_header(r.headers@[0], PREFETCH_HEADER@, decimal(old(self).prefetch_count as nat)),
            r.handlers@ == old(self).handlers@,
            final(self).handlers@ == Seq::<H>::empty(),
            final(self).topic@ == old(self).topic@,
            final(self).prefetch_count == old(self).prefetch_count,
    {
        let mut handlers: Vec<H> = Vec::new();
        std::mem::swap(&mut handlers, &mut self.handlers);
        let mut headers: Vec<Header> = Vec::new();
        headers.push(
            Header {
                name: PREFETCH_HEADER.to_owned(),
                value: decimal_text(self.prefetch_count as u32),
            },
        );
        Subscription {
            destination: self.topic.clone(),
            ack_mode: AckMode::ClientIndividual,
            headers,
            handlers,
        }
    }
}

} // verus!
