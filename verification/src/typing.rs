//! Derived typing-indicator state: who is typing in each channel scope,
//! with expiry.
//!
//! A `TypingStart` dispatch creates or refreshes an entry that expires
//! [`TYPING_TTL_MS`] after its last refresh; a message from that user in
//! that channel removes the entry early.  Queries list display names most
//! recently typing first, excluding the local user.

use vstd::prelude::*;
use crate::heartbeat::{sat_add, sat_add_u64};

verus! {

/// How long a typing entry lives after its last refresh, in milliseconds.
pub const TYPING_TTL_MS: u64 = 10000;

/// One user currently typing in one channel.
#[derive(Debug, Clone)]
pub struct TypingEntry {
    pub channel_id: String,
    pub user_id: String,
    pub display_name: String,
    /// The entry is gone once the clock reaches this point.
    pub expires_at_ms: u64,
}

/// The entry belongs to the given user in the given channel.
pub open spec fn spec_same_user(e: TypingEntry, cid: Seq<char>, uid: Seq<char>) -> bool {
    e.channel_id@ == cid && e.user_id@ == uid
}

/// Appending one element changes a filter by exactly that element.
proof fn lemma_filter_step<A>(s: Seq<A>, pred: spec_fn(A) -> bool, i: int)
    requires
        0 <= i < s.len(),
    ensures
        s.take(i + 1).filter(pred) == if pred(s[i]) {
            s.take(i).filter(pred).push(s[i])
        } else {
            s.take(i).filter(pred)
        },
{
    reveal(Seq::filter);
    let t = s.take(i + 1);
    assert(t.drop_last() =~= s.take(i));
    assert(t.last() == s[i]);
}

/// Every element of a filtered sequence occurs in the original.
proof fn lemma_filter_subset<A>(s: Seq<A>, pred: spec_fn(A) -> bool)
    ensures
        forall|i: int| 0 <= i < s.filter(pred).len() ==> s.contains(#[trigger] s.filter(pred)[i]),
    decreases s.len(),
{
    reveal(Seq::filter);
    if s.len() > 0 {
        let s0 = s.drop_last();
        lemma_filter_subset(s0, pred);
        let f = s.filter(pred);
        let f0 = s0.filter(pred);
        assert forall|i: int| 0 <= i < f.len() implies s.contains(f[i]) by {
            if i < f0.len() {
                assert(s0.contains(f0[i]));
                let k = choose|k: int| 0 <= k < s0.len() && s0[k] == f0[i];
                assert(s[k] == f[i]);
            } else {
                assert(f[i] == s.last());
                assert(s[s.len() - 1] == s.last());
            }
        }
    }
}

/// No user appears twice in the same channel of `s`.
pub open spec fn spec_no_duplicate_users(s: Seq<TypingEntry>) -> bool {
    forall|i: int, j: int|
        #![trigger s[i], s[j]]
        0 <= i < j < s.len() ==> !spec_same_user(s[j], s[i].channel_id@, s[i].user_id@)
}

/// Filtering keeps the no-duplicate property.
proof fn lemma_filter_keeps_unique(s: Seq<TypingEntry>, pred: spec_fn(TypingEntry) -> bool)
    requires
        spec_no_duplicate_users(s),
    ensures
        spec_no_duplicate_users(s.filter(pred)),
    decreases s.len(),
{
    reveal(Seq::filter);
    if s.len() > 0 {
        let s0 = s.drop_last();
        assert(spec_no_duplicate_users(s0));
        lemma_filter_keeps_unique(s0, pred);
        lemma_filter_subset(s0, pred);
        let f = s.filter(pred);
        let f0 = s0.filter(pred);
        assert forall|i: int, j: int|
            #![trigger f[i], f[j]]
            0 <= i < j < f.len() implies !spec_same_user(f[j], f[i].channel_id@, f[i].user_id@) by {
            if j < f0.len() {
                assert(f[i] == f0[i] && f[j] == f0[j]);
            } else {
                assert(f[j] == s.last());
                assert(s0.contains(f0[i]));
                let k = choose|k: int| 0 <= k < s0.len() && s0[k] == f0[i];
                assert(!spec_same_user(s[s.len() - 1], s[k].channel_id@, s[k].user_id@));
            }
        }
    }
}

/// The table of users currently typing, most recently refreshed first,
/// at most one entry per user and channel.
#[derive(Debug, Clone)]
pub struct TypingIndicatorManager {
    local_user_id: String,
    entries: Vec<TypingEntry>,
}

impl TypingIndicatorManager {
    /// The entries, most recently refreshed first.
    pub closed spec fn view_entries(self) -> Seq<TypingEntry> {
        self.entries@
    }

    /// The id of the local user, who is never listed.
    pub closed spec fn view_local(self) -> Seq<char> {
        self.local_user_id@
    }

    /// No user appears twice in the same channel.
    pub open spec fn wf(self) -> bool {
        spec_no_duplicate_users(self.view_entries())
    }

    /// An empty table for a client logged in as `local_user_id`.
    pub fn new(local_user_id: &str) -> (m: TypingIndicatorManager)
        ensures
            m.view_entries() == Seq::<TypingEntry>::empty(),
            m.view_local() == local_user_id@,
            m.wf(),
    {
        TypingIndicatorManager { local_user_id: local_user_id.to_owned(), entries: Vec::new() }
    }

    /// Removes every entry of `user_id` in `channel_id`, keeping order.
    fn remove_user(&mut self, channel_id: &str, user_id: &str)
        ensures
            final(self).view_entries() == old(self).view_entries().filter(
                |e: TypingEntry| !spec_same_user(e, channel_id@, user_id@),
            ),
            final(self).view_local() == old(self).view_local(),
    {
        let ghost pred = (|e: TypingEntry| !spec_same_user(e, channel_id@, user_id@));
        let mut kept: Vec<TypingEntry> = Vec::new();
        let n = self.entries.len();
        let mut i: usize = 0;
        proof {
            reveal(Seq::filter);
            assert(self.entries@.take(0) =~= Seq::<TypingEntry>::empty());
            assert(kept@ =~= self.entries@.take(0).filter(pred));
        }
        while i < n
            invariant
                0 <= i <= n,
                n == self.entries@.len(),
                self.entries@ == old(self).entries@,
                self.local_user_id == old(self).local_user_id,
                kept@ == self.entries@.take(i as int).filter(pred),
                pred == (|e: TypingEntry| !spec_same_user(e, channel_id@, user_id@)),
            decreases n - i,
        {
            let e = &self.entries[i];
            let same = crate::strutil::str_eq(e.channel_id.as_str(), channel_id)
                && crate::strutil::str_eq(e.user_id.as_str(), user_id);
            if !same {
                kept.push(self.entries[i].clone_entry());
            }
            proof {
                lemma_filter_step(self.entries@, pred, i as int);
            }
            i = i + 1;
        }
        proof {
            assert(self.entries@.take(n as int) =~= self.entries@);
        }
        self.entries = kept;
    }

    /// Creates or refreshes the typing entry for `user_id` in
    /// `channel_id`: the entry moves to the front with its expiry set to
    /// exactly `now_ms` plus [`TYPING_TTL_MS`]; no duplicate is created.
    pub fn note_typing_start(
        &mut self,
        channel_id: &str,
        user_id: &str,
        display_name: &str,
        now_ms: u64,
    )
        requires
            old(self).wf(),
        ensures
            final(self).wf(),
            final(self).view_local() == old(self).view_local(),
            final(self).view_entries().len() == 1 + old(self).view_entries().filter(
                |e: TypingEntry| !spec_same_user(e, channel_id@, user_id@),
            ).len(),
            final(self).view_entries()[0].channel_id@ == channel_id@,
            final(self).view_entries()[0].user_id@ == user_id@,
            final(self).view_entries()[0].display_name@ == display_name@,
            final(self).view_entries()[0].expires_at_ms == sat_add_u64(now_ms, TYPING_TTL_MS),
            final(self).view_entries().skip(1) == old(self).view_entries().filter(
                |e: TypingEntry| !spec_same_user(e, channel_id@, user_id@),
            ),
    {
        self.remove_user(channel_id, user_id);
        let entry = TypingEntry {
            channel_id: channel_id.to_owned(),
            user_id: user_id.to_owned(),
            display_name: display_name.to_owned(),
            expires_at_ms: sat_add(now_ms, TYPING_TTL_MS),
        };
        self.entries.insert(0, entry);
        proof {
            let pred = (|e: TypingEntry| !spec_same_user(e, channel_id@, user_id@));
            let filtered = old(self).entries@.filter(pred);
            assert(self.entries@.skip(1) =~= filtered);
            lemma_filter_keeps_unique(old(self).entries@, pred);
            broadcast use vstd::seq_lib::group_filter_ensures;

            assert forall|i: int, j: int|
                #![trigger self.entries@[i], self.entries@[j]]
                0 <= i < j < self.entries@.len() implies !spec_same_user(
                self.entries@[j],
                self.entries@[i].channel_id@,
                self.entries@[i].user_id@,
            ) by {
                assert(self.entries@[j] == filtered[j - 1]);
                assert(pred(filtered[j - 1]));
                if i > 0 {
                    assert(self.entries@[i] == filtered[i - 1]);
                }
            }
        }
    }

    /// Removes the typing entry of `author_id` in `channel_id`, if any: a
    /// message from a typing user ends the indicator early.
    pub fn note_message(&mut self, channel_id: &str, author_id: &str)
        requires
            old(self).wf(),
        ensures
            final(self).wf(),
            final(self).view_local() == old(self).view_local(),
            final(self).view_entries() == old(self).view_entries().filter(
                |e: TypingEntry| !spec_same_user(e, channel_id@, author_id@),
            ),
    {
        self.remove_user(channel_id, author_id);
        proof {
            lemma_filter_keeps_unique(
                old(self).entries@,
                |e: TypingEntry| !spec_same_user(e, channel_id@, author_id@),
            );
        }
    }

    /// Evicts every entry whose expiry has been reached.
    pub fn sweep(&mut self, now_ms: u64)
        requires
            old(self).wf(),
        ensures
            final(self).wf(),
            final(self).view_local() == old(self).view_local(),
            final(self).view_entries() == old(self).view_entries().filter(
                |e: TypingEntry| e.expires_at_ms > now_ms,
            ),
    {
        let ghost pred = (|e: TypingEntry| e.expires_at_ms > now_ms);
        let mut kept: Vec<TypingEntry> = Vec::new();
        let n = self.entries.len();
        let mut i: usize = 0;
        proof {
            reveal(Seq::filter);
            assert(self.entries@.take(0) =~= Seq::<TypingEntry>::empty());
            assert(kept@ =~= self.entries@.take(0).filter(pred));
        }
        while i < n
            invariant
                0 <= i <= n,
                n == self.entries@.len(),
                self.entries@ == old(self).entries@,
                self.local_user_id == old(self).local_user_id,
                kept@ == self.entries@.take(i as int).filter(pred),
                pred == (|e: TypingEntry| e.expires_at_ms > now_ms),
            decreases n - i,
        {
            if self.entries[i].expires_at_ms > now_ms {
                kept.push(self.entries[i].clone_entry());
            }
            proof {
                lemma_filter_step(self.entries@, pred, i as int);
            }
            i = i + 1;
        }
        proof {
            assert(self.entries@.take(n as int) =~= self.entries@);
        }
        self.entries = kept;
        proof {
            lemma_filter_keeps_unique(old(self).entries@, pred);
        }
    }

    /// The display names of the users typing in `channel_id` at `now_ms`,
    /// most recently refreshed first, the local user excluded.
    pub fn typing_in(&self, channel_id: &str, now_ms: u64) -> (r: Vec<String>)
        ensures
            r@.map_values(|s: String| s@) == self.view_entries().filter(
                |e: TypingEntry| e.channel_id@ == channel_id@ && e.expires_at_ms > now_ms
                    && e.user_id@ != self.view_local(),
            ).map_values(|e: TypingEntry| e.display_name@),
    {
        let ghost pred = (|e: TypingEntry| e.channel_id@ == channel_id@ && e.expires_at_ms > now_ms
            && e.user_id@ != self.view_local());
        let mut names: Vec<String> = Vec::new();
        let n = self.entries.len();
        let mut i: usize = 0;
        proof {
            reveal(Seq::filter);
            assert(self.entries@.take(0) =~= Seq::<TypingEntry>::empty());
            assert(names@.map_values(|s: String| s@) =~~= self.entries@.take(0).filter(
                pred,
            ).map_values(|e: TypingEntry| e.display_name@));
        }
        while i < n
            invariant
                0 <= i <= n,
                n == self.entries@.len(),
                names@.map_values(|s: String| s@) == self.entries@.take(i as int).filter(
                    pred,
                ).map_values(|e: TypingEntry| e.display_name@),
                pred == (|e: TypingEntry| e.channel_id@ == channel_id@ && e.expires_at_ms > now_ms
                    && e.user_id@ != self.view_local()),
            decreases n - i,
        {
            let ghost names0 = names@;
            let e = &self.entries[i];
            let wanted = crate::strutil::str_eq(e.channel_id.as_str(), channel_id)
                && e.expires_at_ms > now_ms && !crate::strutil::str_eq(
                e.user_id.as_str(),
                self.local_user_id.as_str(),
            );
            if wanted {
                names.push(e.display_name.clone());
            }
            proof {
                lemma_filter_step(self.entries@, pred, i as int);
                let f0 = self.entries@.take(i as int).filter(pred);
                let f1 = self.entries@.take(i as int + 1).filter(pred);
                let fview = (|s: String| s@);
                let fname = (|e: TypingEntry| e.display_name@);
                assert(names0.len() == names0.map_values(fview).len());
                assert(names0.map_values(fview).len() == f0.map_values(fname).len());
                assert(names0.len() == f0.len());
                assert(wanted == pred(self.entries@[i as int]));
                if pred(self.entries@[i as int]) {
                    assert(f1 == f0.push(self.entries@[i as int]));
                    assert(f1.len() == f0.len() + 1);
                    assert(names@ == names0.push(self.entries@[i as int].display_name));
                    assert(names@.len() == f0.len() + 1);
                    assert(names@.len() == f1.len());
                    assert(names@[names@.len() - 1]@ == self.entries@[i as int].display_name@);
                    assert forall|k: int| 0 <= k < f1.len() implies names@.map_values(fview)[k]
                        == f1.map_values(fname)[k] by {
                        if k < f1.len() - 1 {
                            assert(names@.map_values(fview)[k] == f0.map_values(fname)[k]);
                        }
                    }
                    assert(names@.map_values(fview) =~~= f1.map_values(fname));
                } else {
                    assert(names@.map_values(fview) =~~= f1.map_values(fname));
                }
            }
            i = i + 1;
        }
        proof {
            assert(self.entries@.take(n as int) =~= self.entries@);
        }
        names
    }
}

impl TypingEntry {
    /// A field-for-field copy.
    fn clone_entry(&self) -> (r: TypingEntry)
        ensures
            r == *self,
    {
        TypingEntry {
            channel_id: self.channel_id.clone(),
            user_id: self.user_id.clone(),
            display_name: self.display_name.clone(),
            expires_at_ms: self.expires_at_ms,
        }
    }
}

/// A typing entry refreshed at `t` is listed by a query at `q` exactly
/// while `q` is before `t` plus [`TYPING_TTL_MS`]: expiry is exact.
pub proof fn lemma_typing_expiry_exact(e: TypingEntry, t: u64, q: u64)
    requires
        e.expires_at_ms == sat_add_u64(t, TYPING_TTL_MS),
        t + TYPING_TTL_MS <= u64::MAX,
    ensures
        (e.expires_at_ms > q) <==> (q < t + TYPING_TTL_MS),
{
}

} // verus!
