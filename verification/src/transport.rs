//! What a transport hands the client, and the correlation of WebSocket pings with their pongs.
//!
//! RFC 6455 requires a pong to echo the payload of the ping that triggered it. The client puts
//! an 8-byte big-endian token into each ping, so a pong resolves the exact ping that produced
//! it rather than whichever one was sent first.

use vstd::prelude::*;
use std::collections::BTreeMap;

verus! {

broadcast use vstd::laws_cmp::group_laws_cmp;

/// One thing read off a transport: a complete OCPP-J text frame, or a keepalive event carrying
/// the frame's application data.
#[derive(Debug, Clone, PartialEq, Eq)]
pub enum TransportEvent {
    Frame(String),
    Ping(Vec<u8>),
    Pong(Vec<u8>),
}

/// The eight bytes of `token`, most significant first.
pub open spec fn spec_token_bytes(token: u64) -> Seq<u8> {
    seq![
        (token >> 56u64) as u8,
        (token >> 48u64) as u8,
        (token >> 40u64) as u8,
        (token >> 32u64) as u8,
        (token >> 24u64) as u8,
        (token >> 16u64) as u8,
        (token >> 8u64) as u8,
        token as u8,
    ]
}

/// The big-endian value of eight bytes.
pub open spec fn spec_be_u64(b0: u8, b1: u8, b2: u8, b3: u8, b4: u8, b5: u8, b6: u8, b7: u8) -> u64 {
    ((b0 as u64) << 56u64) | ((b1 as u64) << 48u64) | ((b2 as u64) << 40u64) | ((b3 as u64)
        << 32u64) | ((b4 as u64) << 24u64) | ((b5 as u64) << 16u64) | ((b6 as u64) << 8u64) | (
    b7 as u64)
}

/// The token a pong payload carries: its big-endian value when it is exactly eight bytes long,
/// and none otherwise.
pub open spec fn spec_token_of(payload: Seq<u8>) -> Option<u64> {
    if payload.len() == 8 {
        Some(
            spec_be_u64(
                payload[0],
                payload[1],
                payload[2],
                payload[3],
                payload[4],
                payload[5],
                payload[6],
                payload[7],
            ),
        )
    } else {
        None
    }
}

/// The ping payload carrying `token`.
pub fn token_payload(token: u64) -> (payload: Vec<u8>)
    ensures
        payload@ == spec_token_bytes(token),
{
    let mut payload: Vec<u8> = Vec::new();
    payload.push((token >> 56u64) as u8);
    payload.push((token >> 48u64) as u8);
    payload.push((token >> 40u64) as u8);
    payload.push((token >> 32u64) as u8);
    payload.push((token >> 24u64) as u8);
    payload.push((token >> 16u64) as u8);
    payload.push((token >> 8u64) as u8);
    payload.push(token as u8);
    assert(payload@ =~= spec_token_bytes(token));
    payload
}

/// The token a pong echoes, if its payload has the shape of one.
pub fn token_of_payload(payload: &Vec<u8>) -> (token: Option<u64>)
    ensures
        token == spec_token_of(payload@),
{
    if payload.len() == 8 {
        Some(
            ((payload[0] as u64) << 56u64) | ((payload[1] as u64) << 48u64) | ((payload[2] as u64)
                << 40u64) | ((payload[3] as u64) << 32u64) | ((payload[4] as u64) << 24u64) | ((
            payload[5] as u64) << 16u64) | ((payload[6] as u64) << 8u64) | (payload[7] as u64),
        )
    } else {
        None
    }
}

/// A pong echoing a ping's payload carries that ping's token back: decoding undoes encoding.
pub proof fn lemma_token_round_trip(token: u64)
    ensures
        spec_token_of(spec_token_bytes(token)) == Some(token),
{
    let b = spec_token_bytes(token);
    assert(spec_be_u64(
        (token >> 56u64) as u8,
        (token >> 48u64) as u8,
        (token >> 40u64) as u8,
        (token >> 32u64) as u8,
        (token >> 24u64) as u8,
        (token >> 16u64) as u8,
        (token >> 8u64) as u8,
        token as u8,
    ) == token) by (bit_vector);
}

/// Distinct tokens travel as distinct payloads, so two pings in flight can be told apart.
pub proof fn lemma_tokens_distinguishable(a: u64, b: u64)
    requires
        a != b,
    ensures
        spec_token_bytes(a) != spec_token_bytes(b),
{
    lemma_token_round_trip(a);
    lemma_token_round_trip(b);
}

/// Two pings in a row carry different payloads: each ping takes the next token (wrapping), so a
/// pong echoing the earlier one can never resolve the later one.
pub proof fn lemma_successive_pings_differ(token: u64)
    ensures
        spec_token_bytes(token) != spec_token_bytes(token.wrapping_add(1)),
{
    assert(token != token.wrapping_add(1)) by (bit_vector);
    lemma_tokens_distinguishable(token, token.wrapping_add(1));
}

/// Outstanding pings, keyed by the token written into each ping's payload.
pub struct PongWaiters<Q> {
    next_token: u64,
    waiters: BTreeMap<u64, Q>,
}

impl<Q> PongWaiters<Q> {
    /// The waiters, by token.
    pub closed spec fn spec_waiters(&self) -> Map<u64, Q> {
        self.waiters@
    }

    /// The token the next ping will carry.
    pub closed spec fn spec_next_token(&self) -> u64 {
        self.next_token
    }

    /// No outstanding pings; tokens start at zero.
    pub fn new() -> (p: Self)
        ensures
            p.spec_waiters() == Map::<u64, Q>::empty(),
            p.spec_next_token() == 0,
    {
        PongWaiters { next_token: 0, waiters: BTreeMap::new() }
    }

    /// Records a ping about to be sent: returns its token and the payload carrying it. The
    /// next ping gets the following token (wrapping).
    pub fn register(&mut self, waiter: Q) -> (r: (u64, Vec<u8>))
        ensures
            r.0 == old(self).spec_next_token(),
            r.1@ == spec_token_bytes(r.0),
            final(self).spec_next_token() == old(self).spec_next_token().wrapping_add(1),
            final(self).spec_waiters() == old(self).spec_waiters().insert(r.0, waiter),
    {
        let token = self.next_token;
        self.next_token = self.next_token.wrapping_add(1);
        self.waiters.insert(token, waiter);
        (token, token_payload(token))
    }

    /// A pong arrived: hands back the waiter of the ping whose token it echoes, removing it.
    /// A pong matching no outstanding ping - unsolicited, or echoing something else - resolves
    /// nothing and changes nothing.
    pub fn take_for_pong(&mut self, payload: &Vec<u8>) -> (w: Option<Q>)
        ensures
            final(self).spec_next_token() == old(self).spec_next_token(),
            match spec_token_of(payload@) {
                Some(t) => if old(self).spec_waiters().contains_key(t) {
                    w == Some(old(self).spec_waiters()[t]) && final(self).spec_waiters()
                        == old(self).spec_waiters().remove(t)
                } else {
                    w is None && final(self).spec_waiters() == old(self).spec_waiters()
                },
                None => w is None && final(self).spec_waiters() == old(self).spec_waiters(),
            },
    {
        match token_of_payload(payload) {
            Some(token) => self.waiters.remove(&token),
            None => None,
        }
    }

    /// A ping gave up (or never reached the wire): drops its own waiter.
    pub fn forget(&mut self, token: u64)
        ensures
            final(self).spec_next_token() == old(self).spec_next_token(),
            final(self).spec_waiters() == old(self).spec_waiters().remove(token),
    {
        self.waiters.remove(&token);
    }

    /// The connection died: no pong can arrive for any outstanding ping now.
    pub fn clear(&mut self)
        ensures
            final(self).spec_next_token() == old(self).spec_next_token(),
            final(self).spec_waiters() == Map::<u64, Q>::empty(),
    {
        self.waiters.clear();
    }

    /// How many pings are still waiting for a pong.
    pub fn len(&self) -> (n: usize)
        ensures
            n == self.spec_waiters().len(),
    {
        self.waiters.len()
    }
}

} // verus!
