use vstd::prelude::*;
use vstd::slice::slice_to_vec;

use crate::errors::{EncodeError, TransportError};
use crate::status::EncodableStatus;
use crate::transport::{PublishEndpoint, TransportSession};

verus! {

/// An in-memory publish endpoint: it keeps every accepted payload instead
/// of sending it anywhere. `accept` fixes once and for all whether the
/// transport takes payloads, so a rejecting endpoint stands for a session
/// whose sends always fail.
pub struct RecordingEndpoint {
    topic: String,
    accept: bool,
    log: Vec<Vec<u8>>,
}

impl RecordingEndpoint {
    /// A fresh endpoint for `topic` that has sent nothing yet.
    pub fn new(topic: String, accept: bool) -> (r: RecordingEndpoint)
        ensures
            r.sent() == Seq::<Seq<u8>>::empty(),
            r.topic() == topic@,
            r.accepts_next() == accept,
    {
        let r = RecordingEndpoint { topic, accept, log: Vec::new() };
        proof {
            assert(r.log.deep_view() =~= Seq::<Seq<u8>>::empty());
        }
        r
    }

    /// The payloads accepted so far, oldest first, for inspection.
    pub fn sent_payloads(&self) -> (r: &Vec<Vec<u8>>)
        ensures
            r.deep_view() == self.sent(),
    {
        &self.log
    }
}

impl PublishEndpoint for RecordingEndpoint {
    closed spec fn sent(&self) -> Seq<Seq<u8>> {
        self.log.deep_view()
    }

    closed spec fn topic(&self) -> Seq<char> {
        self.topic@
    }

    closed spec fn accepts_next(&self) -> bool {
        self.accept
    }

    fn put(&mut self, payload: &[u8]) -> (r: Result<(), TransportError>)
        ensures
            final(self).accepts_next() == old(self).accepts_next(),
    {
        if self.accept {
            self.log.push(slice_to_vec(payload));
            proof {
                assert(self.log.deep_view() =~~= old(self).log.deep_view().push(payload@));
            }
            Ok(())
        } else {
            Err(
                TransportError::SendFailed {
                    reason: String::from_str("payload rejected by recording endpoint"),
                },
            )
        }
    }
}

/// An in-memory transport session. `declare_ok` fixes whether declaring a
/// publish endpoint succeeds; the endpoints it hands out record instead of
/// sending and accept payloads according to `accept_sends`.
pub struct RecordingSession {
    pub declare_ok: bool,
    pub accept_sends: bool,
}

impl TransportSession<RecordingEndpoint> for RecordingSession {
    open spec fn can_declare(&self) -> bool {
        self.declare_ok
    }

    open spec fn declared_accepts(&self) -> bool {
        self.accept_sends
    }

    fn declare_publisher(&self, topic: &str) -> (r: Result<RecordingEndpoint, TransportError>) {
        if self.declare_ok {
            Ok(RecordingEndpoint::new(String::from_str(topic), self.accept_sends))
        } else {
            Err(
                TransportError::DeclareFailed {
                    reason: String::from_str("declare refused by recording session"),
                },
            )
        }
    }
}

/// A status record for exercising publishers: it carries its wire form
/// directly and can be made to refuse encoding.
pub struct SampleStatus {
    pub payload: Vec<u8>,
    pub encodable: bool,
}

impl EncodableStatus for SampleStatus {
    open spec fn wire_form(&self) -> Option<Seq<u8>> {
        if self.encodable {
            Some(self.payload@)
        } else {
            None
        }
    }

    fn encode(&self) -> (r: Result<Vec<u8>, EncodeError>) {
        if self.encodable {
            Ok(slice_to_vec(self.payload.as_slice()))
        } else {
            Err(EncodeError { reason: String::from_str("status refuses to encode") })
        }
    }
}

} // verus!
