use vstd::prelude::*;
use vstd::string::*;
use crate::error::Error;
use crate::jws::opt_view;

verus! {

/// A single-slot store of replay nonces.
pub struct NonceCache {
    slot: Option<String>,
}

impl View for NonceCache {
    type V = Option<Seq<char>>;

    closed spec fn view(&self) -> Option<Seq<char>> {
        opt_view(self.slot)
    }
}

/// The number of nonces a cache in state `c` holds.
pub open spec fn cache_size(c: Option<Seq<char>>) -> nat {
    if c is Some {
        1
    } else {
        0
    }
}

/// The state of a cache after a response that carried `offered`: the new nonce
/// displaces any cached one; without one the cache is unchanged.
pub open spec fn offer_spec(c: Option<Seq<char>>, offered: Option<Seq<char>>) -> Option<Seq<char>> {
    match offered {
        Some(n) => Some(n),
        None => c,
    }
}

impl NonceCache {
    pub fn new() -> (r: NonceCache)
        ensures
            r@ is None,
    {
        NonceCache { slot: None }
    }

    /// Takes the cached nonce, leaving the slot empty.
    pub fn consume(&mut self) -> (r: Option<String>)
        ensures
            opt_view(r) == old(self)@,
            final(self)@ is None,
    {
        self.slot.take()
    }

    /// Stores the `Replay-Nonce` of a response, if it carried one.
    pub fn offer(&mut self, replay_nonce: Option<String>)
        ensures
            final(self)@ == offer_spec(old(self)@, opt_view(replay_nonce)),
    {
        if replay_nonce.is_some() {
            self.slot = replay_nonce;
        }
    }

    /// The number of cached nonces: never more than one.
    pub fn len(&self) -> (r: usize)
        ensures
            r == cache_size(self@),
            r <= 1,
    {
        if self.slot.is_some() {
            1
        } else {
            0
        }
    }
}

/// Taking a nonce and offering the same value back restores the cache, whose
/// size stays at most one.
pub proof fn lemma_consume_then_offer(c: Option<Seq<char>>)
    ensures
        offer_spec(None, c) == c,
        cache_size(offer_spec(None, c)) == cache_size(c),
        cache_size(offer_spec(None, c)) <= 1,
{
}

/// The nonce from the `Replay-Nonce` header of a `newNonce` response.
pub fn nonce_from_new_nonce(replay_nonce: Option<String>) -> (r: Result<String, Error>)
    ensures
        match replay_nonce {
            Some(n) => r == Ok::<String, Error>(n),
            None => r matches Err(e) && e is Protocol,
        },
{
    match replay_nonce {
        Some(n) => Ok(n),
        None => Err(Error::Protocol(String::from_str("newNonce request must return a nonce"))),
    }
}

} // verus!
