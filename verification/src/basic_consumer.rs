//! A plain queue consumer: the same subscription as `consumer::StompConsumer`, with a
//! session that sends no heart-beats. Its messages are expected to be requests, which
//! go to `Subscription::dispatch`.

use vstd::prelude::*;
use crate::consumer::{is_header, AckMode, Header, SessionSettings, Subscription, HOST_HEADER, PREFETCH_HEADER};
use crate::text::{decimal, decimal_text};

verus! {

/// How to reach the queue and what to take from it.
#[derive(Debug, Clone)]
pub struct StompConfig {
    pub address: String,
    pub port: u16,
    pub host: String,
    pub username: String,
    pub password: String,
    pub topic: String,
    pub prefetch_count: u16,
}

impl StompConfig {
    /// The session settings of this configuration: its address and credentials, no
    /// heart-beat, and its own `host` header in place of the builder's.
    pub fn session_settings(&self) -> (r: SessionSettings)
        ensures
            r.address@ == self.address@,
            r.port == self.port,
            r.username@ == self.username@,
            r.password@ == self.password@,
            r.heartbeat is None,
            r.suppressed_headers@.len() == 1,
            r.suppressed_headers@[0]@ == HOST_HEADER@,
            r.headers@.len() == 1,
            is_header(r.headers@[0], HOST_HEADER@, self.host@),
    {
        let mut suppressed_headers: Vec<String> = Vec::new();
        suppressed_headers.push(HOST_HEADER.to_owned());
        let mut headers: Vec<Header> = Vec::new();
        headers.push(Header { name: HOST_HEADER.to_owned(), value: self.host.clone() });
        SessionSettings {
            address: self.address.clone(),
            port: self.port,
            username: self.username.clone(),
            password: self.password.clone(),
            heartbeat: None,
            suppressed_headers,
            headers,
        }
    }
}

/// A consumer of a STOMP queue.
pub struct Consumer<H> {
    pub topic: String,
    pub prefetch_count: u16,
    pub handlers: Vec<H>,
}

impl<H> Consumer<H> {
    /// A consumer of the configured queue, with no handlers yet.
    pub fn new(config: &StompConfig) -> (r: Consumer<H>)
        ensures
            r.topic@ == config.topic@,
            r.prefetch_count == config.prefetch_count,
            r.handlers@ == Seq::<H>::empty(),
    {
        Consumer {
            topic: config.topic.clone(),
            prefetch_count: config.prefetch_count,
            handlers: Vec::new(),
        }
    }

    /// Adds a handler after those already there.
    pub fn subscribe(&mut self, handler: H)
        ensures
            final(self).handlers@ == old(self).handlers@.push(handler),
            final(self).topic@ == old(self).topic@,
            final(self).prefetch_count == old(self).prefetch_count,
    {
        self.handlers.push(handler);
    }

    /// A subscription to the topic, acknowledged message by message, at most the
    /// prefetch count in flight, with every handler in the order of subscription; the
    /// consumer keeps no handler.
    pub fn listen(&mut self) -> (r: Subscription<H>)
        ensures
            r.destination@ == old(self).topic@,
            r.ack_mode == AckMode::ClientIndividual,
            r.headers@.len() == 1,
            is_header(r.headers@[0], PREFETCH_HEADER@, decimal(old(self).prefetch_count as nat)),
            r.handlers@ == old(self).handlers@,
            final(self).handlers@ == Seq::<H>::empty(),
            final(self).topic@ == old(self).topic@,
            final(self).prefetch_count == old(self).prefetch_count,
    {
        let mut handlers: Vec<H> = Vec::new();
        std::mem::swap(&mut handlers, &mut self.handlers);
        let mut headers: Vec<Header> = Vec::new();
        headers.push(
            Header {
                name: PREFETCH_HEADER.to_owned(),
                value: decimal_text(self.prefetch_count as u32),
            },
        );
        Subscription {
            destination: self.topic.clone(),
            ack_mode: AckMode::ClientIndividual,
            headers,
            handlers,
        }
    }
}

} // verus!
