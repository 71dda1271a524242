use vstd::prelude::*;

use crate::endpoint::{is_endpoint, Endpoint};
use crate::errors::{ConfigError, EndpointKind};

verus! {

/// The operating mode of a transport session.
#[derive(Clone, Copy, Debug, PartialEq, Eq, Structural)]
pub enum SessionMode {
    Peer,
    Client,
}

/// Every entry of `eps` is a well-formed endpoint address.
pub open spec fn all_endpoints_valid(eps: Seq<Seq<char>>) -> bool {
    forall|i: int| 0 <= i < eps.len() ==> is_endpoint(#[trigger] eps[i])
}

/// Index of the first entry of `eps` that is not a well-formed endpoint
/// address (meaningful when such an entry exists).
pub open spec fn first_invalid(eps: Seq<Seq<char>>) -> int
    decreases eps.len(),
{
    if eps.len() == 0 {
        0
    } else if !is_endpoint(eps[0]) {
        0
    } else {
        1 + first_invalid(eps.drop_first())
    }
}

/// What building a session configuration from the given raw inputs yields:
/// the first malformed connect endpoint fails the build, then the first
/// malformed listen endpoint, and otherwise the inputs are taken over
/// unchanged, unset options staying unset.
pub open spec fn spec_build(
    mode: Option<SessionMode>,
    connect: Seq<Seq<char>>,
    listen: Seq<Seq<char>>,
    multicast_scouting: Option<bool>,
) -> Result<(Option<SessionMode>, Seq<Seq<char>>, Seq<Seq<char>>, Option<bool>), (
    Seq<char>,
    EndpointKind,
)> {
    if !all_endpoints_valid(connect) {
        Err((connect[first_invalid(connect)], EndpointKind::Connect))
    } else if !all_endpoints_valid(listen) {
        Err((listen[first_invalid(listen)], EndpointKind::Listen))
    } else {
        Ok((mode, connect, listen, multicast_scouting))
    }
}

/// An immutable session configuration, consumable by the transport. All
/// endpoints have been validated; options left unset defer to the
/// transport's own defaults.
#[derive(Debug)]
pub struct SessionConfig {
    pub mode: Option<SessionMode>,
    pub connect_endpoints: Vec<Endpoint>,
    pub listen_endpoints: Vec<Endpoint>,
    pub multicast_scouting_enabled: Option<bool>,
}

/// Collects user-supplied session options and validates them into a
/// [`SessionConfig`]. Any option never set stays unset, so the transport's
/// defaults apply.
pub struct SessionConfigBuilder {
    mode: Option<SessionMode>,
    connect: Vec<String>,
    listen: Vec<String>,
    multicast_scouting: Option<bool>,
}

impl SessionConfigBuilder {
    pub closed spec fn spec_mode(&self) -> Option<SessionMode> {
        self.mode
    }

    pub closed spec fn connect_entries(&self) -> Seq<Seq<char>> {
        self.connect.deep_view()
    }

    pub closed spec fn listen_entries(&self) -> Seq<Seq<char>> {
        self.listen.deep_view()
    }

    pub closed spec fn spec_multicast_scouting(&self) -> Option<bool> {
        self.multicast_scouting
    }

    /// A builder with no option set.
    pub fn new() -> (r: SessionConfigBuilder)
        ensures
            r.spec_mode() is None,
            r.connect_entries() == Seq::<Seq<char>>::empty(),
            r.listen_entries() == Seq::<Seq<char>>::empty(),
            r.spec_multicast_scouting() is None,
    {
        let r = SessionConfigBuilder {
            mode: None,
            connect: Vec::new(),
            listen: Vec::new(),
            multicast_scouting: None,
        };
        proof {
            assert(r.connect_entries() =~= Seq::<Seq<char>>::empty());
            assert(r.listen_entries() =~= Seq::<Seq<char>>::empty());
        }
        r
    }

    /// Sets the session operating mode.
    pub fn mode(self, mode: SessionMode) -> (r: SessionConfigBuilder)
        ensures
            r.spec_mode() == Some(mode),
            r.connect_entries() == self.connect_entries(),
            r.listen_entries() == self.listen_entries(),
            r.spec_multicast_scouting() == self.spec_multicast_scouting(),
    {
        SessionConfigBuilder { mode: Some(mode), ..self }
    }

    /// Appends one raw endpoint string to the connect list. The string is
    /// validated when the configuration is built.
    pub fn connect(self, endpoint: String) -> (r: SessionConfigBuilder)
        ensures
            r.spec_mode() == self.spec_mode(),
            r.connect_entries() == self.connect_entries().push(endpoint@),
            r.listen_entries() == self.listen_entries(),
            r.spec_multicast_scouting() == self.spec_multicast_scouting(),
    {
        let mut connect = self.connect;
        connect.push(endpoint);
        let r = SessionConfigBuilder { connect, ..self };
        proof {
            assert(r.connect_entries() =~= self.connect_entries().push(endpoint@));
        }
        r
    }

    /// Appends one raw endpoint string to the listen list. The string is
    /// validated when the configuration is built.
    pub fn listen(self, endpoint: String) -> (r: SessionConfigBuilder)
        ensures
            r.spec_mode() == self.spec_mode(),
            r.connect_entries() == self.connect_entries(),
            r.listen_entries() == self.listen_entries().push(endpoint@),
            r.spec_multicast_scouting() == self.spec_multicast_scouting(),
    {
        let mut listen = self.listen;
        listen.push(endpoint);
        let r = SessionConfigBuilder { listen, ..self };
        proof {
            assert(r.listen_entries() =~= self.listen_entries().push(endpoint@));
        }
        r
    }

    /// Explicitly enables or disables multicast-based peer discovery.
    /// Never calling this leaves the setting unset, deferring to the
    /// transport's default.
    pub fn multicast_scouting(self, enabled: bool) -> (r: SessionConfigBuilder)
        ensures
            r.spec_mode() == self.spec_mode(),
            r.connect_entries() == self.connect_entries(),
            r.listen_entries() == self.listen_entries(),
            r.spec_multicast_scouting() == Some(enabled),
    {
        SessionConfigBuilder { multicast_scouting: Some(enabled), ..self }
    }

    /// Validates every collected endpoint string and produces the
    /// configuration, exactly as [`spec_build`] says: the whole build fails
    /// on the first malformed endpoint, and nothing is returned besides the
    /// error.
    pub fn build(self) -> (r: Result<SessionConfig, ConfigError>)
        ensures
            ({
                let expect = spec_build(
                    self.spec_mode(),
                    self.connect_entries(),
                    self.listen_entries(),
                    self.spec_multicast_scouting(),
                );
                match r {
                    Ok(cfg) => expect is Ok && {
                        let (mode, connect, listen, scouting) = expect->Ok_0;
                        &&& cfg.mode == mode
                        &&& cfg.connect_endpoints@.map_values(|e: Endpoint| e@) == connect
                        &&& cfg.listen_endpoints@.map_values(|e: Endpoint| e@) == listen
                        &&& cfg.multicast_scouting_enabled == scouting
                    },
                    Err(e) => expect is Err && {
                        let (value, which) = expect->Err_0;
                        e matches ConfigError::InvalidEndpoint { value: v, which: w } && v@
                            == value && w == which
                    },
                }
            }),
    {
        let connect_endpoints = match validate_endpoints(&self.connect) {
            Ok(v) => v,
            Err(value) => {
                return Err(ConfigError::InvalidEndpoint { value, which: EndpointKind::Connect });
            },
        };
        let listen_endpoints = match validate_endpoints(&self.listen) {
            Ok(v) => v,
            Err(value) => {
                return Err(ConfigError::InvalidEndpoint { value, which: EndpointKind::Listen });
            },
        };
        Ok(
            SessionConfig {
                mode: self.mode,
                connect_endpoints,
                listen_endpoints,
                multicast_scouting_enabled: self.multicast_scouting,
            },
        )
    }
}

impl Default for SessionConfigBuilder {
    /// Same as [`SessionConfigBuilder::new`]: a builder with no option set.
    fn default() -> (r: SessionConfigBuilder)
        ensures
            r.spec_mode() is None,
            r.connect_entries() == Seq::<Seq<char>>::empty(),
            r.listen_entries() == Seq::<Seq<char>>::empty(),
            r.spec_multicast_scouting() is None,
    {
        SessionConfigBuilder::new()
    }
}

/// Validates the raw endpoint strings in order. On success the endpoints
/// come back in the same order; on failure the first malformed string comes
/// back unchanged.
fn validate_endpoints(entries: &Vec<String>) -> (r: Result<Vec<Endpoint>, String>)
    ensures
        r is Ok <==> all_endpoints_valid(entries.deep_view()),
        r is Ok ==> r->Ok_0@.map_values(|e: Endpoint| e@) == entries.deep_view(),
        r is Err ==> r->Err_0@ == entries.deep_view()[first_invalid(entries.deep_view())],
{
    let ghost dv = entries.deep_view();
    let mut out: Vec<Endpoint> = Vec::new();
    let mut i: usize = 0;
    while i < entries.len()
        invariant
            i <= entries.len(),
            dv == entries.deep_view(),
            dv.len() == entries@.len(),
            forall|j: int| 0 <= j < i ==> is_endpoint(#[trigger] dv[j]),
            out@.len() == i as int,
            forall|j: int| 0 <= j < i ==> (#[trigger] out@[j])@ == dv[j],
        decreases entries@.len() - i,
    {
        assert(dv[i as int] == entries@[i as int]@);
        match Endpoint::new(entries[i].clone()) {
            Ok(ep) => {
                out.push(ep);
            },
            Err(value) => {
                proof {
                    lemma_first_invalid_is_here(dv, i as int);
                }
                return Err(value);
            },
        }
        i += 1;
    }
    proof {
        assert(all_endpoints_valid(dv));
        let mapped = out@.map_values(|e: Endpoint| e@);
        assert forall|j: int| 0 <= j < dv.len() implies #[trigger] mapped[j] == dv[j] by {
            assert(mapped[j] == out@[j]@);
        }
        assert(mapped =~= dv);
    }
    Ok(out)
}

/// If everything before `i` is a well-formed endpoint and the entry at `i`
/// is not, then `i` is exactly where `first_invalid` points.
proof fn lemma_first_invalid_is_here(eps: Seq<Seq<char>>, i: int)
    requires
        0 <= i < eps.len(),
        forall|j: int| 0 <= j < i ==> is_endpoint(#[trigger] eps[j]),
        !is_endpoint(eps[i]),
    ensures
        first_invalid(eps) == i,
    decreases i,
{
    if i > 0 {
        assert forall|j: int| 0 <= j < i - 1 implies is_endpoint(#[trigger] eps.drop_first()[j]) by {
            assert(eps.drop_first()[j] == eps[j + 1]);
        }
        assert(eps.drop_first()[i - 1] == eps[i]);
        lemma_first_invalid_is_here(eps.drop_first(), i - 1);
    }
}

/// A builder whose only inputs are valid connect endpoints builds
/// successfully, and the configuration keeps the connect endpoints while
/// its listen list is empty and its mode and multicast-scouting setting
/// stay unset.
pub proof fn lemma_connect_only_leaves_defaults(connect: Seq<Seq<char>>)
    requires
        forall|i: int| 0 <= i < connect.len() ==> is_endpoint(#[trigger] connect[i]),
    ensures
        spec_build(None, connect, Seq::<Seq<char>>::empty(), None) == Ok::<
            (Option<SessionMode>, Seq<Seq<char>>, Seq<Seq<char>>, Option<bool>),
            (Seq<char>, EndpointKind),
        >((None, connect, Seq::<Seq<char>>::empty(), None)),
{
    assert(all_endpoints_valid(connect));
    assert(all_endpoints_valid(Seq::<Seq<char>>::empty()));
}

/// Any malformed endpoint string among the inputs makes the build fail with
/// the first offending connect string, or, when all connect endpoints are
/// well-formed, the first offending listen string; no configuration is
/// produced either way.
pub proof fn lemma_invalid_endpoint_fails_build(
    mode: Option<SessionMode>,
    connect: Seq<Seq<char>>,
    listen: Seq<Seq<char>>,
    multicast_scouting: Option<bool>,
)
    requires
        !all_endpoints_valid(connect) || !all_endpoints_valid(listen),
    ensures
        spec_build(mode, connect, listen, multicast_scouting) is Err,
        !all_endpoints_valid(connect) ==> spec_build(mode, connect, listen, multicast_scouting)
            == Err::<
            (Option<SessionMode>, Seq<Seq<char>>, Seq<Seq<char>>, Option<bool>),
            (Seq<char>, EndpointKind),
        >((connect[first_invalid(connect)], EndpointKind::Connect)),
        all_endpoints_valid(connect) && !all_endpoints_valid(listen) ==> spec_build(
            mode,
            connect,
            listen,
            multicast_scouting,
        ) == Err::<
            (Option<SessionMode>, Seq<Seq<char>>, Seq<Seq<char>>, Option<bool>),
            (Seq<char>, EndpointKind),
        >((listen[first_invalid(listen)], EndpointKind::Listen)),
{
}

} // verus!
