use vstd::prelude::*;

use crate::errors::{PublishOutcome, TransportError};
use crate::status::EncodableStatus;
use crate::transport::{PublishEndpoint, SentLog, TopicName, TransportSession};

verus! {

/// The fixed topic under which every vehicle status is published.
pub open spec fn vehicle_status_topic() -> TopicName {
    "fms/vehicleStatus"@
}

/// The fixed topic as text; used verbatim for every publisher.
pub fn vehicle_status_topic_name() -> (r: &'static str)
    ensures
        r@ == vehicle_status_topic(),
{
    "fms/vehicleStatus"
}

/// The capability "publish one vehicle-status value": fire-and-forget.
/// A publisher is bound to an open transport and hands encoded statuses to
/// it; `delivered()` models the payloads handed over so far, oldest first.
pub trait StatusPublisher<S: EncodableStatus>: Sized {
    /// The payloads this publisher has handed to its transport so far.
    spec fn delivered(&self) -> SentLog;

    /// Publishes one status: encode, then send. Failures never propagate
    /// to the caller — the call returns normally and reports what happened
    /// only through the outcome. When the call publishes at all, it hands
    /// over exactly the encoded bytes of this status, once; a status whose
    /// encoding fails is dropped before the transport is ever involved.
    fn publish_vehicle_status(&mut self, status: &S) -> (r: PublishOutcome)
        ensures
            r is Published ==> status.wire_form() is Some && final(self).delivered() == old(
                self,
            ).delivered().push(status.wire_form()->0),
            !(r is Published) ==> final(self).delivered() == old(self).delivered(),
            r is EncodeFailed <==> status.wire_form() is None,
            r is TransportFailed ==> r->TransportFailed_0 is SendFailed,
    ;
}

/// The one concrete publisher: bound at construction to a publish endpoint
/// declared for the fixed vehicle-status topic, performing encode-then-send
/// on each call. It holds no other state, so consecutive calls are
/// independent.
pub struct TopicPublisher<E: PublishEndpoint> {
    endpoint: E,
}

impl<E: PublishEndpoint> TopicPublisher<E> {
    /// The payloads handed to the transport so far, oldest first.
    pub closed spec fn sent(&self) -> SentLog {
        self.endpoint.sent()
    }

    /// The topic the underlying endpoint was declared on.
    pub closed spec fn topic(&self) -> TopicName {
        self.endpoint.topic()
    }

    /// Whether the transport will accept the next payload.
    pub closed spec fn transport_ready(&self) -> bool {
        self.endpoint.accepts_next()
    }

    /// The publisher's endpoint is declared on the fixed topic —
    /// established at construction and never changed afterwards.
    pub open spec fn wf(&self) -> bool {
        self.topic() == vehicle_status_topic()
    }

    /// Declares a publish endpoint for the fixed topic on the given open
    /// session. Fails exactly when the session cannot register one; then
    /// the error is a declare failure and no publisher is produced. This
    /// is fatal to startup — there is no degraded publisher.
    pub fn new<S: TransportSession<E>>(session: &S) -> (r: Result<TopicPublisher<E>, TransportError>)
        ensures
            r is Ok <==> session.can_declare(),
            r is Ok ==> r->Ok_0.wf() && r->Ok_0.sent() == Seq::<Seq<u8>>::empty(),
            r is Ok ==> r->Ok_0.transport_ready() == session.declared_accepts(),
            r is Err ==> r->Err_0 is DeclareFailed,
    {
        match session.declare_publisher(vehicle_status_topic_name()) {
            Ok(endpoint) => Ok(TopicPublisher { endpoint }),
            Err(e) => Err(e),
        }
    }

    /// Read access to the transport endpoint, e.g. to observe what was
    /// handed over.
    pub fn transport(&self) -> (r: &E)
        ensures
            r.sent() == self.sent(),
            r.topic() == self.topic(),
            r.accepts_next() == self.transport_ready(),
    {
        &self.endpoint
    }
}

impl<S: EncodableStatus, E: PublishEndpoint> StatusPublisher<S> for TopicPublisher<E> {
    closed spec fn delivered(&self) -> SentLog {
        self.endpoint.sent()
    }

    /// Encode-then-send with the outcome fully determined: publishing
    /// succeeds exactly when the status encodes and the transport accepts;
    /// an unencodable status short-circuits before the transport is
    /// touched; a rejected payload is dropped. The topic never changes.
    fn publish_vehicle_status(&mut self, status: &S) -> (r: PublishOutcome)
        ensures
            r is Published <==> status.wire_form() is Some && old(self).transport_ready(),
            r is TransportFailed <==> status.wire_form() is Some && !old(self).transport_ready(),
            r is Published ==> final(self).sent() == old(self).sent().push(
                status.wire_form()->0,
            ),
            !(r is Published) ==> final(self).sent() == old(self).sent(),
            r is EncodeFailed ==> final(self).transport_ready() == old(self).transport_ready(),
            r is TransportFailed ==> r->TransportFailed_0 is SendFailed,
            final(self).topic() == old(self).topic(),
    {
        let payload = match status.encode() {
            Ok(p) => p,
            Err(e) => {
                return PublishOutcome::EncodeFailed(e);
            },
        };
        match self.endpoint.put(payload.as_slice()) {
            Ok(()) => PublishOutcome::Published,
            Err(e) => PublishOutcome::TransportFailed(e),
        }
    }
}

/// Two consecutive successful publish calls are independent and ordered:
/// when one call turns the transport log `s0` into `s0.push(b1)` and the
/// next turns it into that log with `b2` pushed, the final log holds
/// everything it held before, then `b1`, then `b2`, and nothing else.
pub proof fn lemma_consecutive_publishes_ordered(
    s0: Seq<Seq<u8>>,
    s1: Seq<Seq<u8>>,
    s2: Seq<Seq<u8>>,
    b1: Seq<u8>,
    b2: Seq<u8>,
)
    requires
        s1 == s0.push(b1),
        s2 == s1.push(b2),
    ensures
        s2.len() == s0.len() + 2,
        s2[s0.len() as int] == b1,
        s2[s0.len() as int + 1] == b2,
        forall|i: int| 0 <= i < s0.len() ==> s2[i] == s0[i],
{
}

} // verus!
