//! The options a client is assembled with beyond its transport and runtime.

use vstd::prelude::*;
use crate::keepalive::KeepaliveBehavior;
use crate::reconnect::{is_default_reconnect_policy, ReconnectPolicy};
use crate::time::Duration;

verus! {

/// Everything a client needs beyond the transport halves and the runtime. `R` is the
/// reconnector that redials when the transport closes.
///
/// Defaults are deliberately inert: no reconnector, no keepalive.
pub struct ClientConfig<R> {
    /// How long to wait for a CALLRESULT/CALLERROR, and the default pong deadline.
    pub timeout: Duration,
    /// Redials when the transport closes. `None` means the read loop exits on disconnect.
    pub reconnector: Option<R>,
    /// Backoff between failed reconnect attempts. Ignored when `reconnector` is `None`.
    pub reconnect_policy: ReconnectPolicy,
    /// Whether to ping the peer on a schedule, and what to do when it stops answering.
    pub keepalive: KeepaliveBehavior,
}

impl<R> ClientConfig<R> {
    /// A config with `timeout` and nothing else enabled.
    pub fn new(timeout: Duration) -> (c: Self)
        ensures
            c.timeout == timeout,
            c.reconnector is None,
            is_default_reconnect_policy(c.reconnect_policy),
            c.keepalive is Disabled,
    {
        ClientConfig {
            timeout,
            reconnector: None,
            reconnect_policy: ReconnectPolicy::default(),
            keepalive: KeepaliveBehavior::Disabled,
        }
    }

    /// Redial through `reconnector`, backing off per `policy`, when the transport closes.
    pub fn with_reconnect(self, reconnector: R, policy: ReconnectPolicy) -> (c: Self)
        ensures
            c.timeout == self.timeout,
            c.reconnector == Some(reconnector),
            c.reconnect_policy == policy,
            c.keepalive == self.keepalive,
    {
        ClientConfig {
            timeout: self.timeout,
            reconnector: Some(reconnector),
            reconnect_policy: policy,
            keepalive: self.keepalive,
        }
    }

    /// Ping the peer per `keepalive`.
    pub fn with_keepalive(self, keepalive: KeepaliveBehavior) -> (c: Self)
        ensures
            c.timeout == self.timeout,
            c.reconnector == self.reconnector,
            c.reconnect_policy == self.reconnect_policy,
            c.keepalive == keepalive,
    {
        ClientConfig {
            timeout: self.timeout,
            reconnector: self.reconnector,
            reconnect_policy: self.reconnect_policy,
            keepalive,
        }
    }

    /// Whether a forced reconnect can be honoured: only with something to redial with.
    pub fn can_redial(&self) -> (b: bool)
        ensures
            b == self.reconnector is Some,
    {
        self.reconnector.is_some()
    }
}

} // verus!
