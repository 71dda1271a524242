use vstd::prelude::*;

use crate::errors::TransportError;

verus! {

/// The model of what an endpoint has sent: the payload byte sequences
/// handed to the transport, oldest first.
pub type SentLog = Seq<Seq<u8>>;

/// The model of a topic name: its characters.
pub type TopicName = Seq<char>;

/// A publish endpoint declared on a transport session for one topic: the
/// local send capability. `sent()` models the payloads handed to the
/// transport through this endpoint so far, oldest first; `accepts_next()`
/// models whether the transport will take the next payload. What the
/// transport does with an accepted payload (delivery, ordering on the
/// wire) is its own business and not modeled here.
pub trait PublishEndpoint: Sized {
    /// The payloads handed to the transport through this endpoint so far.
    spec fn sent(&self) -> SentLog;

    /// The topic this endpoint was declared on.
    spec fn topic(&self) -> TopicName;

    /// Whether the transport will accept the next payload.
    spec fn accepts_next(&self) -> bool;

    /// Hands one opaque payload to the transport as a single message body.
    /// On success exactly that payload is appended to what was sent; on
    /// failure nothing is, and the error is a send failure. The endpoint
    /// stays bound to its topic either way.
    fn put(&mut self, payload: &[u8]) -> (r: Result<(), TransportError>)
        ensures
            r is Ok <==> old(self).accepts_next(),
            r is Ok ==> final(self).sent() == old(self).sent().push(payload@),
            r is Err ==> final(self).sent() == old(self).sent(),
            r is Err ==> r->Err_0 is SendFailed,
            final(self).topic() == old(self).topic(),
    ;
}

/// An already-open transport session, able to register publish endpoints
/// for named topics. Opening and closing the session is the caller's
/// business; this core only declares endpoints on it.
pub trait TransportSession<E: PublishEndpoint> {
    /// Whether the session can currently register a publish endpoint.
    spec fn can_declare(&self) -> bool;

    /// Whether the transport will accept the first payload of an endpoint
    /// declared now.
    spec fn declared_accepts(&self) -> bool;

    /// Registers a publish endpoint for `topic`. Succeeds exactly when the
    /// session can register one; the fresh endpoint is bound to `topic`
    /// and has sent nothing yet. On failure the error is a declare
    /// failure.
    fn declare_publisher(&self, topic: &str) -> (r: Result<E, TransportError>)
        ensures
            r is Ok <==> self.can_declare(),
            r is Ok ==> r->Ok_0.sent() == Seq::<Seq<u8>>::empty(),
            r is Ok ==> r->Ok_0.topic() == topic@,
            r is Ok ==> r->Ok_0.accepts_next() == self.declared_accepts(),
            r is Err ==> r->Err_0 is DeclareFailed,
    ;
}

} // verus!
