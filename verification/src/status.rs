use vstd::prelude::*;

use crate::errors::EncodeError;

verus! {

/// The model of a record's binary wire form: the encoded bytes, or `None`
/// when encoding fails.
pub type WireForm = Option<Seq<u8>>;

/// A vehicle-status record with a deterministic binary wire form, produced
/// by an external codec. The core never looks inside the record: its only
/// relevant property is `wire_form()` — the bytes it encodes to, or `None`
/// when its state cannot be serialized.
pub trait EncodableStatus {
    /// The record's binary wire form, or `None` when encoding fails.
    spec fn wire_form(&self) -> WireForm;

    /// Serializes the record. Succeeds exactly when a wire form exists,
    /// and then returns exactly those bytes.
    fn encode(&self) -> (r: Result<Vec<u8>, EncodeError>)
        ensures
            r is Ok <==> self.wire_form() is Some,
            r is Ok ==> self.wire_form() == Some(r->Ok_0@),
    ;
}

} // verus!
