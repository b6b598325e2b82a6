//! Session bookkeeping: session id, last-seen sequence number, resume URL
//! and identify credentials.  Mutated only by the connection state machine.

use vstd::prelude::*;

verus! {

/// The session data of one client.  The stored sequence number never
/// decreases while a connection lives; it is cleared only for a fresh
/// identify, never on resume.
#[derive(Debug, Clone)]
pub struct SessionState {
    /// Session id captured from the ready dispatch.
    pub session_id: Option<String>,
    /// Last dispatch sequence number applied.
    pub sequence: Option<u64>,
    /// URL to resume at, when the server offered one.
    pub resume_url: Option<String>,
    /// Intents bitmask declared on identify.
    pub intents: u64,
    /// The secret credential presented on identify and resume.
    pub identify_token: String,
}

/// What [`SessionState::observe_sequence`] stores: the given number, but
/// never less than what is already stored.
pub open spec fn spec_observe(prev: Option<u64>, seq: u64) -> Option<u64> {
    match prev {
        Some(p) => if p > seq {
            Some(p)
        } else {
            Some(seq)
        },
        None => Some(seq),
    }
}

impl SessionState {
    /// Resume is possible exactly when a session id and a sequence number
    /// are both held.
    pub open spec fn spec_can_resume(self) -> bool {
        self.session_id is Some && self.sequence is Some
    }

    /// Fresh state holding only the identify credentials.
    pub fn new(token: &str, intents: u64) -> (s: SessionState)
        ensures
            s.session_id is None,
            s.sequence is None,
            s.resume_url is None,
            s.intents == intents,
            s.identify_token@ == token@,
    {
        SessionState {
            session_id: None,
            sequence: None,
            resume_url: None,
            intents,
            identify_token: token.to_owned(),
        }
    }

    /// Executable twin of [`SessionState::spec_can_resume`].
    pub fn can_resume(&self) -> (r: bool)
        ensures
            r == self.spec_can_resume(),
    {
        match (&self.session_id, &self.sequence) {
            (Some(_), Some(_)) => true,
            _ => false,
        }
    }

    /// Applies one observed dispatch sequence number; the stored value
    /// never decreases.
    pub fn observe_sequence(&mut self, seq: u64)
        ensures
            final(self).sequence == spec_observe(old(self).sequence, seq),
            final(self).session_id == old(self).session_id,
            final(self).resume_url == old(self).resume_url,
            final(self).intents == old(self).intents,
            final(self).identify_token == old(self).identify_token,
    {
        match self.sequence {
            Some(p) => {
                if seq > p {
                    self.sequence = Some(seq);
                }
            },
            None => {
                self.sequence = Some(seq);
            },
        }
    }

    /// Captures the session a ready dispatch establishes.
    pub fn adopt_session(&mut self, session_id: String, resume_url: Option<String>)
        ensures
            final(self).session_id == Some(session_id),
            final(self).resume_url == resume_url,
            final(self).sequence == old(self).sequence,
            final(self).intents == old(self).intents,
            final(self).identify_token == old(self).identify_token,
    {
        self.session_id = Some(session_id);
        self.resume_url = resume_url;
    }

    /// Forgets the session so that the next cycle identifies from scratch.
    /// The credentials are kept.
    pub fn clear_session(&mut self)
        ensures
            final(self).session_id is None,
            final(self).sequence is None,
            final(self).resume_url is None,
            final(self).intents == old(self).intents,
            final(self).identify_token == old(self).identify_token,
    {
        self.session_id = None;
        self.sequence = None;
        self.resume_url = None;
    }
}

/// The stored sequence number after a whole series of dispatch frames,
/// applied in arrival order.
pub open spec fn spec_apply_all(prev: Option<u64>, seqs: Seq<u64>) -> Option<u64>
    decreases seqs.len(),
{
    if seqs.len() == 0 {
        prev
    } else {
        spec_apply_all(spec_observe(prev, seqs[0]), seqs.drop_first())
    }
}

/// For every series of inbound dispatch frames with strictly increasing
/// sequence numbers (continuing from the stored position, if any), the
/// stored sequence equals the last one observed.
pub proof fn lemma_sequence_tracks_last(prev: Option<u64>, seqs: Seq<u64>)
    requires
        seqs.len() > 0,
        forall|i: int, j: int|
            #![trigger seqs[i], seqs[j]]
            0 <= i < j < seqs.len() ==> seqs[i] < seqs[j],
        prev matches Some(p) ==> p <= seqs[0],
    ensures
        spec_apply_all(prev, seqs) == Some(seqs[seqs.len() - 1]),
    decreases seqs.len(),
{
    let next = spec_observe(prev, seqs[0]);
    assert(next == Some(seqs[0]));
    if seqs.len() > 1 {
        let rest = seqs.drop_first();
        assert forall|i: int, j: int|
            #![trigger rest[i], rest[j]]
            0 <= i < j < rest.len() implies rest[i] < rest[j] by {
            assert(rest[i] == seqs[i + 1] && rest[j] == seqs[j + 1]);
        }
        assert(rest[0] == seqs[1]);
        lemma_sequence_tracks_last(next, rest);
        assert(rest[rest.len() - 1] == seqs[seqs.len() - 1]);
    }
}

} // verus!
