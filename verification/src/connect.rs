//! The decisions behind connecting over WebSocket: which OCPP versions to offer, which one the
//! server picked, the settings a connection runs with, and the `Authorization` header.

use vstd::prelude::*;
use crate::keepalive::{is_default_policy, KeepaliveBehavior, KeepalivePolicy};
use crate::reconnect::{ReconnectBehavior, ReconnectPolicy};
use crate::text::same_text;
use crate::time::{Duration, NANOS_PER_SEC};

verus! {

/// An OCPP version a connection can offer and accept.
#[derive(Debug, Clone, Copy, PartialEq, Eq)]
pub enum OcppVersion {
    V1_6,
    V2_0_1,
    V2_1,
}

/// The WebSocket subprotocol name of each version.
pub open spec fn spec_protocol(v: OcppVersion) -> Seq<char> {
    match v {
        OcppVersion::V1_6 => "ocpp1.6"@,
        OcppVersion::V2_0_1 => "ocpp2.0.1"@,
        OcppVersion::V2_1 => "ocpp2.1"@,
    }
}

/// Every version, newest first.
pub open spec fn spec_all_versions() -> Seq<OcppVersion> {
    seq![OcppVersion::V2_1, OcppVersion::V2_0_1, OcppVersion::V1_6]
}

impl OcppVersion {
    /// The version's `Sec-WebSocket-Protocol` name.
    pub fn protocol(self) -> (s: &'static str)
        ensures
            s@ == spec_protocol(self),
    {
        match self {
            OcppVersion::V1_6 => "ocpp1.6",
            OcppVersion::V2_0_1 => "ocpp2.0.1",
            OcppVersion::V2_1 => "ocpp2.1",
        }
    }

    /// Every version this library speaks, newest first: what `connect` offers when the caller
    /// does not restrict it.
    pub fn all_compiled_in() -> (v: Vec<OcppVersion>)
        ensures
            v@ == spec_all_versions(),
    {
        let mut versions: Vec<OcppVersion> = Vec::new();
        versions.push(OcppVersion::V2_1);
        versions.push(OcppVersion::V2_0_1);
        versions.push(OcppVersion::V1_6);
        assert(versions@ =~= spec_all_versions());
        versions
    }
}

/// The protocol names of `versions`, joined by `", "`, in order.
pub open spec fn spec_offer(versions: Seq<OcppVersion>) -> Seq<char>
    decreases versions.len(),
{
    if versions.len() == 0 {
        Seq::empty()
    } else if versions.len() == 1 {
        spec_protocol(versions[0])
    } else {
        spec_offer(versions.drop_last()) + ", "@ + spec_protocol(versions.last())
    }
}

/// The `Sec-WebSocket-Protocol` header offering `versions`, in preference order.
pub fn offered_protocols(versions: &Vec<OcppVersion>) -> (s: String)
    ensures
        s@ == spec_offer(versions@),
{
    let mut s = String::new();
    let mut i: usize = 0;
    while i < versions.len()
        invariant
            i <= versions@.len(),
            s@ == spec_offer(versions@.take(i as int)),
        decreases versions@.len() - i,
    {
        proof {
            assert(versions@.take(i as int + 1).drop_last() =~= versions@.take(i as int));
        }
        if i > 0 {
            s.append(", ");
        }
        s.append(versions[i].protocol());
        i = i + 1;
    }
    assert(versions@.take(versions@.len() as int) =~= versions@);
    s
}

/// The offered version the server's `Sec-WebSocket-Protocol` answer names, if any: a server
/// picking something that was not offered is refused.
pub fn negotiated_version(versions: &Vec<OcppVersion>, negotiated: &str) -> (r: Option<OcppVersion>)
    ensures
        match r {
            Some(v) => exists|i: int|
                0 <= i < versions@.len() && #[trigger] versions@[i] == v && spec_protocol(v)
                    == negotiated@,
            None => forall|i: int|
                0 <= i < versions@.len() ==> spec_protocol(#[trigger] versions@[i]) != negotiated@,
        },
{
    let mut i: usize = 0;
    while i < versions.len()
        invariant
            i <= versions@.len(),
            forall|j: int| 0 <= j < i ==> spec_protocol(#[trigger] versions@[j]) != negotiated@,
        decreases versions@.len() - i,
    {
        if same_text(versions[i].protocol(), negotiated) {
            return Some(versions[i]);
        }
        i = i + 1;
    }
    None
}

/// The request timeout a connection uses when none is given: five seconds.
pub fn default_timeout() -> (d: Duration)
    ensures
        d.spec_nanos() == 5 * (NANOS_PER_SEC as nat),
{
    Duration::from_secs(5)
}

/// The keepalive a WebSocket connection runs with unless its options say otherwise: pinging on
/// the default policy (every minute, two tolerated misses). A connection over a NAT'd or mobile
/// link needs it to notice a half-open socket at all.
pub fn default_connect_keepalive() -> (b: KeepaliveBehavior)
    ensures
        b matches KeepaliveBehavior::Enabled(p) && is_default_policy(p),
{
    KeepaliveBehavior::Enabled(KeepalivePolicy::default())
}

/// The timeout, reconnect and keepalive settings a `connect_*` call runs with.
#[derive(Debug, Clone, Copy)]
pub struct ConnectPlan {
    pub timeout: Duration,
    /// Whether the client redials on its own when the connection drops.
    pub redial: bool,
    pub reconnect_policy: ReconnectPolicy,
    pub keepalive: KeepaliveBehavior,
}

/// The caller's connection options, as far as the settings go.
#[derive(Debug, Clone, Copy)]
pub struct ConnectSettings {
    pub timeout: Option<Duration>,
    pub reconnect: ReconnectBehavior,
    pub keepalive: KeepaliveBehavior,
}

/// Resolves the caller's options (`None` when none were given at all): the timeout defaults to
/// five seconds; without options the client redials with the default policy and pings on the
/// default keepalive policy, and with options it does what they say.
pub fn plan_connection(options: Option<ConnectSettings>) -> (p: ConnectPlan)
    ensures
        match options {
            Some(o) => {
                &&& match o.timeout {
                    Some(t) => p.timeout == t,
                    None => p.timeout.spec_nanos() == 5 * (NANOS_PER_SEC as nat),
                }
                &&& match o.reconnect {
                    ReconnectBehavior::Enabled(policy) => p.redial && p.reconnect_policy == policy,
                    ReconnectBehavior::Disabled => !p.redial
                        && crate::reconnect::is_default_reconnect_policy(p.reconnect_policy),
                }
                &&& p.keepalive == o.keepalive
            },
            None => {
                &&& p.timeout.spec_nanos() == 5 * (NANOS_PER_SEC as nat)
                &&& p.redial
                &&& crate::reconnect::is_default_reconnect_policy(p.reconnect_policy)
                &&& p.keepalive matches KeepaliveBehavior::Enabled(k) && is_default_policy(k)
            },
        },
{
    let (timeout, reconnect, keepalive) = match options {
        Some(o) => (o.timeout, o.reconnect, o.keepalive),
        None => (None, ReconnectBehavior::default(), default_connect_keepalive()),
    };
    let timeout = match timeout {
        Some(t) => t,
        None => default_timeout(),
    };
    match reconnect {
        ReconnectBehavior::Disabled => ConnectPlan {
            timeout,
            redial: false,
            reconnect_policy: ReconnectPolicy::default(),
            keepalive,
        },
        ReconnectBehavior::Enabled(policy) => ConnectPlan {
            timeout,
            redial: true,
            reconnect_policy: policy,
            keepalive,
        },
    }
}

/// Standard base64 (RFC 4648 alphabet, with padding) of the UTF-8 bytes of a text, as
/// `base64::prelude::BASE64_STANDARD` writes it.
pub uninterp spec fn base64_text(text: Seq<char>) -> Seq<char>;

/// Calls `base64::Engine::encode` with `BASE64_STANDARD` on the UTF-8 bytes of `text`. The
/// contract claims only that the result is a function of the text, named `base64_text`.
#[verifier::external_body]
fn base64_standard(text: &str) -> (encoded: String)
    ensures
        encoded@ == base64_text(text@),
{
    base64::Engine::encode(&base64::prelude::BASE64_STANDARD, text)
}

/// The HTTP Basic `Authorization` header value for `username` and `password` (an absent
/// password is empty).
pub fn basic_authorization(username: &str, password: Option<&str>) -> (header: String)
    ensures
        header@ == "Basic "@ + base64_text(
            username@ + ":"@ + match password {
                Some(p) => p@,
                None => Seq::<char>::empty(),
            },
        ),
{
    let mut credentials = String::from_str(username);
    credentials.append(":");
    match password {
        Some(p) => credentials.append(p),
        None => {
            assert(credentials@ + Seq::<char>::empty() =~= credentials@);
        },
    }
    let mut header = String::from_str("Basic ");
    header.append(base64_standard(credentials.as_str()).as_str());
    header
}

} // verus!
