use vstd::prelude::*;

verus! {

/// Whether `s` is a well-formed endpoint address in the transport's own
/// grammar (`<protocol>/<address>[?<metadata>][#<config>]`). The verdict is a
/// function of the string alone; this names it without restating the grammar.
pub uninterp spec fn is_endpoint(s: Seq<char>) -> bool;

/// Relies on zenoh's endpoint parser (`zenoh::config::EndPoint` implements
/// `FromStr`): whether a string parses as an endpoint depends on the string
/// alone, so acceptance is exactly `is_endpoint`.
#[verifier::external_body]
fn endpoint_well_formed(s: &str) -> (r: bool)
    ensures
        r == is_endpoint(s@),
{
    s.parse::<zenoh::config::EndPoint>().is_ok()
}

/// An endpoint address that has been checked against the transport's
/// endpoint grammar. The only constructor is [`Endpoint::new`], so a value
/// of this type always holds a well-formed address.
#[derive(Debug)]
pub struct Endpoint {
    text: String,
}

impl View for Endpoint {
    type V = Seq<char>;

    closed spec fn view(&self) -> Seq<char> {
        self.text@
    }
}

impl Endpoint {
    /// Validate a raw endpoint string. Returns the endpoint on success and
    /// hands the rejected string back unchanged on failure.
    pub fn new(text: String) -> (r: Result<Endpoint, String>)
        ensures
            r is Ok <==> is_endpoint(text@),
            r is Ok ==> r->Ok_0@ == text@,
            r is Err ==> r->Err_0 == text,
    {
        if endpoint_well_formed(text.as_str()) {
            Ok(Endpoint { text })
        } else {
            Err(text)
        }
    }

    /// The address as text, unchanged from what was validated.
    pub fn as_str(&self) -> (r: &str)
        ensures
            r@ == self@,
    {
        self.text.as_str()
    }
}

} // verus!
