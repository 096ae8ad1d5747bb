//! The session: the externally usable surface of the engine.
//!
//! A session owns exactly one connection guard, one sequence counter and
//! one token provider. A request is prepared here — sequence id allocated,
//! message framed — and the framed bytes are written to the transport by
//! the application; incoming frame bodies come back through
//! [`Session::handle_frame`], which correlates each decoded reply with the
//! caller waiting on its sequence id. A caller that gives up (timeout or
//! cancel) abandons its id, and a reply arriving for an abandoned id is
//! discarded rather than treated as an error. On a fatal transport error
//! the application shuts the session down through its guard, so it moves
//! cleanly to a dead state instead of retrying on a broken socket.

use crate::codec::{
    deserialize, frame, serialize, spec_decode, spec_encode, spec_frame, DecodeError, EncodeError,
    Message, MessageView, MAX_PAYLOAD_LEN,
};
use crate::connection::TcpShutdown;
use crate::error::Error;
use crate::offset::OffsetFile;
use crate::sequence::{Sequence, SequenceValue};
use crate::store::{IoError, RandomAccess};
use crate::token::{AccessToken, TokenProvider, TokenStep};
use vstd::bytes::lemma_auto_spec_u32_to_from_le_bytes;
use vstd::prelude::*;

verus! {

/// What became of one incoming frame body.
#[derive(Debug, Clone, PartialEq, Eq)]
pub enum DispatchOutcome {
    /// A well-formed reply whose sequence id a caller is waiting on: the
    /// message goes to that caller and the id leaves the correlation table.
    Deliver(Message),
    /// A well-formed reply whose sequence id no caller is waiting on any
    /// more; it is discarded by design, not an error.
    Stale(u32),
    /// The bytes do not parse as a protocol message.
    Malformed(DecodeError),
}

/// A streaming session over one transport connection.
pub struct Session {
    guard: TcpShutdown,
    seq: Sequence<u32>,
    tokens: TokenProvider,
    pending: Vec<u32>,
}

impl Session {
    /// The sequence ids with a caller still waiting for a reply.
    pub closed spec fn pending_ids(&self) -> Seq<u32> {
        self.pending@
    }

    /// The value the next allocated sequence id will have.
    pub closed spec fn next_seq(&self) -> nat {
        self.seq.current()
    }

    /// Whether the connection guard has reached its terminal state.
    pub closed spec fn is_shut_down(&self) -> bool {
        self.guard.is_shut_down()
    }

    /// The token the provider's cache holds, usable or not.
    pub closed spec fn token_cache(&self) -> Option<AccessToken> {
        self.tokens.cached_token()
    }

    /// Whether a token fetch is currently in flight.
    pub closed spec fn token_fetch_in_flight(&self) -> bool {
        self.tokens.fetch_in_flight()
    }

    /// Whether the token cache can serve a caller at instant `now`.
    pub open spec fn has_usable_token(&self, now: u64) -> bool {
        match self.token_cache() {
            Some(t) => now < t.expires,
            None => false,
        }
    }

    /// The correlation and sequence state of `post` is that of `pre`.
    pub open spec fn same_correlation(pre: Session, post: Session) -> bool {
        post.pending_ids() == pre.pending_ids() && post.next_seq() == pre.next_seq()
    }

    /// The token state of `post` is that of `pre`.
    pub open spec fn same_tokens(pre: Session, post: Session) -> bool {
        post.token_cache() == pre.token_cache() && post.token_fetch_in_flight()
            == pre.token_fetch_in_flight()
    }

    /// A fresh session over a live connection: guard open, sequence ids
    /// starting at zero, no pending requests, empty token cache.
    pub fn new() -> (r: Self)
        ensures
            !r.is_shut_down(),
            r.next_seq() == 0,
            r.pending_ids() == Seq::<u32>::empty(),
            r.token_cache() is None,
            !r.token_fetch_in_flight(),
    {
        Session {
            guard: TcpShutdown::new(),
            seq: Sequence::new(0u32),
            tokens: TokenProvider::new(),
            pending: Vec::new(),
        }
    }

    /// Allocates a sequence id, tags and frames the request, and records
    /// the id as awaiting a reply. The returned bytes are exactly the
    /// frame the application writes to the transport. Fails — leaving the
    /// session unchanged — precisely when the session is already shut down
    /// (`Transport`) or the payload violates the schema (`Encode`).
    ///
    /// Identifiers repeat only after a full wraparound; a request reusing
    /// the id of one abandoned an entire id-space ago supersedes that
    /// long-dead entry in the correlation table.
    pub fn prepare_request(&mut self, op: u32, payload: Vec<u8>) -> (r: Result<(u32, Vec<u8>), Error>)
        ensures
            final(self).is_shut_down() == old(self).is_shut_down(),
            Self::same_tokens(*old(self), *final(self)),
            (r is Err) <==> (old(self).is_shut_down() || payload@.len() > MAX_PAYLOAD_LEN),
            match r {
                Ok((id, bytes)) => {
                    &&& id == old(self).next_seq() as u32
                    &&& final(self).next_seq() == (old(self).next_seq() + 1)
                        % <u32 as SequenceValue>::modulus()
                    &&& final(self).pending_ids() == old(self).pending_ids().filter(
                        |x: u32| x != id,
                    ).push(id)
                    &&& bytes@ == spec_frame(
                        spec_encode(MessageView { seq: id, op, payload: payload@ }),
                    )
                },
                Err(e) => {
                    &&& Self::same_correlation(*old(self), *final(self))
                    &&& (e == Error::Transport <==> old(self).is_shut_down())
                    &&& (e == Error::Encode(EncodeError::PayloadTooLarge) <==> !old(
                        self,
                    ).is_shut_down())
                },
            },
    {
        if self.guard.has_been_shut_down() {
            return Err(Error::Transport);
        }
        if payload.len() > MAX_PAYLOAD_LEN {
            return Err(Error::Encode(EncodeError::PayloadTooLarge));
        }
        let id = self.seq.advance();
        remove_id(&mut self.pending, id);
        let msg = Message { seq: id, op, payload };
        match serialize(&msg) {
            Ok(encoded) => {
                proof {
                    lemma_auto_spec_u32_to_from_le_bytes();
                }
                let framed = frame(encoded);
                self.pending.push(id);
                Ok((id, framed))
            },
            Err(e) => {
                // `serialize` only fails on a payload beyond the schema
                // bound, which was ruled out above.
                Err(Error::Encode(e))
            },
        }
    }

    /// Demultiplexes one incoming frame body: decodes it and matches the
    /// reply's sequence id against the waiting callers. Exactly the
    /// matched id leaves the correlation table; a reply nobody awaits is
    /// discarded; bytes that do not parse are surfaced.
    pub fn handle_frame(&mut self, body: &[u8]) -> (r: DispatchOutcome)
        ensures
            final(self).is_shut_down() == old(self).is_shut_down(),
            final(self).next_seq() == old(self).next_seq(),
            Self::same_tokens(*old(self), *final(self)),
            match r {
                DispatchOutcome::Deliver(m) => {
                    &&& spec_decode(body@) == Ok::<MessageView, DecodeError>(m@)
                    &&& old(self).pending_ids().contains(m@.seq)
                    &&& final(self).pending_ids() == old(self).pending_ids().filter(
                        |x: u32| x != m@.seq,
                    )
                },
                DispatchOutcome::Stale(id) => {
                    &&& (spec_decode(body@) matches Ok(v) && v.seq == id)
                    &&& !old(self).pending_ids().contains(id)
                    &&& final(self).pending_ids() == old(self).pending_ids()
                },
                DispatchOutcome::Malformed(e) => {
                    &&& spec_decode(body@) == Err::<MessageView, DecodeError>(e)
                    &&& final(self).pending_ids() == old(self).pending_ids()
                },
            },
    {
        match deserialize(body) {
            Err(e) => DispatchOutcome::Malformed(e),
            Ok(m) => {
                let found = remove_id(&mut self.pending, m.seq);
                if found {
                    DispatchOutcome::Deliver(m)
                } else {
                    proof {
                        lemma_filter_absent_id(old(self).pending@, m.seq);
                    }
                    DispatchOutcome::Stale(m.seq)
                }
            },
        }
    }

    /// Removes a request a caller no longer waits on — it timed out or was
    /// cancelled — so that a late reply for this id is discarded.
    pub fn abandon_request(&mut self, id: u32) -> (was_pending: bool)
        ensures
            final(self).is_shut_down() == old(self).is_shut_down(),
            final(self).next_seq() == old(self).next_seq(),
            Self::same_tokens(*old(self), *final(self)),
            was_pending == old(self).pending_ids().contains(id),
            final(self).pending_ids() == old(self).pending_ids().filter(|x: u32| x != id),
    {
        remove_id(&mut self.pending, id)
    }

    /// Requests teardown of the connection; idempotent. Returns whether
    /// this call must perform the underlying close (see
    /// [`TcpShutdown::shutdown`]); its outcome is ignored by design.
    pub fn shutdown(&mut self) -> (close_now: bool)
        ensures
            final(self).is_shut_down(),
            close_now == !old(self).is_shut_down(),
            Self::same_correlation(*old(self), *final(self)),
            Self::same_tokens(*old(self), *final(self)),
    {
        self.guard.shutdown()
    }

    /// Reports the guard's state without side effects.
    pub fn has_been_shut_down(&self) -> (r: bool)
        ensures
            r == self.is_shut_down(),
    {
        self.guard.has_been_shut_down()
    }

    /// Decides how a caller's token request is served at instant `now`;
    /// see [`TokenProvider::get_step`].
    pub fn token_step(&mut self, now: u64) -> (r: TokenStep)
        ensures
            final(self).is_shut_down() == old(self).is_shut_down(),
            Self::same_correlation(*old(self), *final(self)),
            final(self).token_cache() == old(self).token_cache(),
            match r {
                TokenStep::Ready => {
                    &&& old(self).has_usable_token(now)
                    &&& final(self).token_fetch_in_flight() == old(self).token_fetch_in_flight()
                },
                TokenStep::StartFetch => {
                    &&& !old(self).has_usable_token(now)
                    &&& !old(self).token_fetch_in_flight()
                    &&& final(self).token_fetch_in_flight()
                },
                TokenStep::AwaitFetch => {
                    &&& !old(self).has_usable_token(now)
                    &&& old(self).token_fetch_in_flight()
                    &&& final(self).token_fetch_in_flight()
                },
            },
    {
        self.tokens.get_step(now)
    }

    /// The cached token, if and only if it is still usable at `now`; an
    /// expired token is never handed out.
    pub fn cached_token(&self, now: u64) -> (r: Option<&AccessToken>)
        ensures
            match r {
                Some(t) => {
                    &&& self.token_cache() == Some(*t)
                    &&& now < t.expires
                },
                None => !self.has_usable_token(now),
            },
    {
        self.tokens.get_cached(now)
    }

    /// Records the token the one in-flight fetch produced.
    pub fn token_fetched(&mut self, token: AccessToken)
        ensures
            final(self).is_shut_down() == old(self).is_shut_down(),
            Self::same_correlation(*old(self), *final(self)),
            final(self).token_cache() == Some(token),
            !final(self).token_fetch_in_flight(),
    {
        self.tokens.complete_fetch(token)
    }

    /// Records that the in-flight fetch failed, and yields the auth error
    /// the caller surfaces; the failure is not retried internally.
    pub fn token_fetch_failed(&mut self) -> (r: Error)
        ensures
            final(self).is_shut_down() == old(self).is_shut_down(),
            Self::same_correlation(*old(self), *final(self)),
            final(self).token_cache() == old(self).token_cache(),
            !final(self).token_fetch_in_flight(),
            r == Error::Auth,
    {
        self.tokens.fail_fetch();
        Error::Auth
    }

    /// Hands out a scoped view serving a sub-range of a larger cache
    /// store, without copying the bytes; see [`OffsetFile::new`].
    pub fn open_cached_range<S: RandomAccess>(&self, store: S, base_offset: u64) -> (r: Result<
        OffsetFile<S>,
        IoError,
    >)
        ensures
            match r {
                Ok(f) => {
                    &&& f.base_offset() == base_offset
                    &&& f.stream_contents() == store.contents()
                    &&& f.stream_cursor() == base_offset
                },
                Err(_) => false,
            },
    {
        OffsetFile::new(store, base_offset)
    }
}

/// Removes every entry equal to `id` from the correlation table, keeping
/// the others in order, and reports whether `id` was present.
fn remove_id(v: &mut Vec<u32>, id: u32) -> (found: bool)
    ensures
        found == old(v)@.contains(id),
        final(v)@ == old(v)@.filter(|x: u32| x != id),
{
    let ghost orig = v@;
    let mut out: Vec<u32> = Vec::new();
    let mut found = false;
    let mut i: usize = 0;
    while i < v.len()
        invariant
            v@ == orig,
            i <= orig.len(),
            out@ == orig.take(i as int).filter(|x: u32| x != id),
            found == orig.take(i as int).contains(id),
        decreases orig.len() - i,
    {
        let x = v[i];
        proof {
            orig.lemma_take_succ_push(i as int);
            orig.take(i as int).lemma_filter_push(orig[i as int], |y: u32| y != id);
            vstd::seq_lib::lemma_seq_contains_after_push(orig.take(i as int), orig[i as int], id);
        }
        if x == id {
            found = true;
        } else {
            out.push(x);
        }
        i += 1;
    }
    proof {
        assert(orig.take(orig.len() as int) =~= orig);
    }
    *v = out;
    found
}

/// Removing an id that is not in the table leaves the table as it was.
proof fn lemma_filter_absent_id(s: Seq<u32>, id: u32)
    requires
        !s.contains(id),
    ensures
        s.filter(|x: u32| x != id) == s,
    decreases s.len(),
{
    let pred = |x: u32| x != id;
    if s.len() == 0 {
        reveal(Seq::filter);
        assert(s.filter(pred) =~= s);
    } else {
        let prefix = s.drop_last();
        let last = s.last();
        assert(pred(last)) by {
            if last == id {
                assert(s[s.len() - 1] == id);
                assert(s.contains(id));
            }
        }
        assert(!prefix.contains(id)) by {
            if prefix.contains(id) {
                let k = choose|k: int| 0 <= k < prefix.len() && prefix[k] == id;
                assert(s[k] == id);
                assert(s.contains(id));
            }
        }
        lemma_filter_absent_id(prefix, id);
        prefix.lemma_filter_push(last, pred);
        assert(prefix.push(last) =~= s);
        assert(s.filter(pred) == prefix.filter(pred).push(last));
    }
}

/// Law: an abandoned or already-served sequence id matches no waiting
/// caller. Once an id has left the correlation table the way
/// [`Session::abandon_request`] and [`Session::handle_frame`] remove it, a
/// reply arriving for that id can only be discarded — it is delivered to
/// no other caller.
pub proof fn lemma_abandoned_reply_discarded(p: Seq<u32>, id: u32)
    ensures
        !p.filter(|x: u32| x != id).contains(id),
{
    let f = p.filter(|x: u32| x != id);
    if f.contains(id) {
        let k = choose|k: int| 0 <= k < f.len() && f[k] == id;
        p.lemma_filter_pred(|x: u32| x != id, k);
    }
}

} // verus!
