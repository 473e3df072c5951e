//! Puzzle sessions for the pull-request guessing game.
//!
//! A `Puzzles` container holds the loaded puzzles, a table from random
//! session keys to puzzle indices, and the queue of session timeouts. The
//! key table is an association list with unique keys; its contents are
//! described by [`maps_to`] and [`has_key`].

use vstd::prelude::*;

use crate::logic::Emotion;

verus! {

broadcast use vstd::array::group_array_axioms;

/// The recorded outcome of a pull request.
#[derive(Debug, Clone, Copy, PartialEq, Eq, Structural)]
pub enum Judgement {
    Merge,
    Closed,
}

/// One puzzle: a pull request's rendered RFC text and its recorded outcome.
#[derive(Debug, Clone)]
pub struct Puzzle {
    pub pr_number: u32,
    pub markdown: String,
    pub html: String,
    pub judgement: Judgement,
}

/// An opaque 16-byte session key.
#[derive(Debug, Clone, Copy)]
pub struct PuzzleKey(pub [u8; 16]);

impl PartialEq for PuzzleKey {
    fn eq(&self, other: &Self) -> (r: bool) {
        let mut i: usize = 0;
        while i < 16
            invariant
                i <= 16,
                forall|j: int| 0 <= j < i ==> self.0@[j] == other.0@[j],
            decreases 16 - i,
        {
            if self.0[i] != other.0[i] {
                return false;
            }
            i += 1;
        }
        proof {
            assert(self.0 =~= other.0);
        }
        true
    }
}

impl vstd::std_specs::cmp::PartialEqSpecImpl for PuzzleKey {
    open spec fn obeys_eq_spec() -> bool {
        true
    }

    open spec fn eq_spec(&self, other: &Self) -> bool {
        self.0 == other.0
    }
}

/// A label of a pull request, as its forge reports it.
#[derive(Debug, Clone)]
pub struct Label {
    pub id: String,
    pub name: String,
    pub description: String,
}

/// A pull request with the labels that decide its outcome.
#[derive(Debug, Clone)]
pub struct PullRequest {
    pub head_ref_oid: String,
    pub labels: Vec<Label>,
    pub number: u32,
}

/// A pull request counts as merged exactly when it carries the
/// disposition-merge label.
pub fn judgement(pr: &PullRequest) -> (r: Judgement)
    ensures
        r == (if exists|i: int|
            0 <= i < pr.labels@.len() && (#[trigger] pr.labels@[i]).name@ == "disposition-merge"@ {
            Judgement::Merge
        } else {
            Judgement::Closed
        }),
{
    let needle = "disposition-merge".to_owned();
    let mut has_disposition_merge = false;
    let mut i: usize = 0;
    while i < pr.labels.len()
        invariant
            i <= pr.labels@.len(),
            needle@ == "disposition-merge"@,
            has_disposition_merge == exists|j: int|
                0 <= j < i && (#[trigger] pr.labels@[j]).name@ == "disposition-merge"@,
        decreases pr.labels@.len() - i,
    {
        if pr.labels[i].name == needle {
            has_disposition_merge = true;
        }
        i += 1;
    }
    if has_disposition_merge {
        Judgement::Merge
    } else {
        Judgement::Closed
    }
}

/// The key table records `idx` for `key`.
pub open spec fn maps_to(s: Seq<(PuzzleKey, usize)>, key: PuzzleKey, idx: usize) -> bool {
    exists|i: int| 0 <= i < s.len() && s[i] == (key, idx)
}

/// The key table holds an entry for `key`.
pub open spec fn has_key(s: Seq<(PuzzleKey, usize)>, key: PuzzleKey) -> bool {
    exists|i: int| 0 <= i < s.len() && (#[trigger] s[i]).0 == key
}

/// Puzzle sessions: loaded puzzles, the key table, and the timeout queue.
#[derive(Debug)]
pub struct Puzzles {
    pub by_id: Vec<(PuzzleKey, usize)>,
    pub inner: Vec<Puzzle>,
    pub timeout: Vec<(u64, PuzzleKey)>,
}

impl Puzzles {
    /// Every recorded index points at a loaded puzzle, and no key occurs
    /// twice.
    pub open spec fn wf(&self) -> bool {
        (forall|i: int|
            0 <= i < self.by_id@.len() ==> (#[trigger] self.by_id@[i]).1 < self.inner@.len())
            && (forall|i: int, j: int|
            0 <= i < self.by_id@.len() && 0 <= j < self.by_id@.len() && i != j
                ==> (#[trigger] self.by_id@[i]).0 != (#[trigger] self.by_id@[j]).0)
    }

    /// An empty container with no puzzles loaded.
    pub fn new() -> (r: Self)
        ensures
            r.wf(),
            r.by_id@.len() == 0,
            r.inner@.len() == 0,
            r.timeout@.len() == 0,
    {
        Self { by_id: Vec::new(), inner: Vec::new(), timeout: Vec::new() }
    }

    /// A container over an already-loaded set of puzzles, with no sessions.
    pub fn from_puzzles(puzzles: Vec<Puzzle>) -> (r: Self)
        ensures
            r.wf(),
            r.inner == puzzles,
            r.by_id@.len() == 0,
            r.timeout@.len() == 0,
    {
        Self { by_id: Vec::new(), inner: puzzles, timeout: Vec::new() }
    }

    /// The position of `key` in the key table.
    fn find_pos(&self, key: &PuzzleKey) -> (r: Option<usize>)
        ensures
            match r {
                Some(i) => i < self.by_id@.len() && self.by_id@[i as int].0 == *key,
                None => !has_key(self.by_id@, *key),
            },
    {
        let mut i: usize = 0;
        while i < self.by_id.len()
            invariant
                i <= self.by_id@.len(),
                forall|j: int| 0 <= j < i ==> (#[trigger] self.by_id@[j]).0 != *key,
            decreases self.by_id@.len() - i,
        {
            if self.by_id[i].0 == *key {
                return Some(i);
            }
            i += 1;
        }
        None
    }

    /// Remove the entry for `key`, if any; every other mapping survives.
    fn remove_key(&mut self, key: &PuzzleKey) -> (r: Option<usize>)
        requires
            old(self).wf(),
        ensures
            final(self).wf(),
            final(self).inner == old(self).inner,
            final(self).timeout == old(self).timeout,
            !has_key(final(self).by_id@, *key),
            match r {
                Some(idx) => maps_to(old(self).by_id@, *key, idx),
                None => !has_key(old(self).by_id@, *key) && final(self).by_id
                    == old(self).by_id,
            },
            forall|k2: PuzzleKey, idx: usize|
                k2 != *key ==> (maps_to(final(self).by_id@, k2, idx) <==> maps_to(
                    old(self).by_id@,
                    k2,
                    idx,
                )),
    {
        match self.find_pos(key) {
            Some(i) => {
                let ghost s0 = self.by_id@;
                let entry = self.by_id.remove(i);
                proof {
                    s0.remove_ensures(i as int);
                    let s1 = self.by_id@;
                    assert forall|j: int|
                        0 <= j < s1.len() implies (#[trigger] s1[j]).0 != *key by {
                        if j < i {
                            assert(s1[j] == s0[j]);
                        } else {
                            assert(s1[j] == s0[j + 1]);
                        }
                    }
                    assert forall|k2: PuzzleKey, idx: usize|
                        k2 != *key && maps_to(s1, k2, idx) implies maps_to(s0, k2, idx) by {
                        let j = choose|j: int| 0 <= j < s1.len() && s1[j] == (k2, idx);
                        if j < i {
                            assert(s0[j] == (k2, idx));
                        } else {
                            assert(s0[j + 1] == (k2, idx));
                        }
                    }
                    assert forall|k2: PuzzleKey, idx: usize|
                        k2 != *key && maps_to(s0, k2, idx) implies maps_to(s1, k2, idx) by {
                        let j = choose|j: int| 0 <= j < s0.len() && s0[j] == (k2, idx);
                        if j < i {
                            assert(s1[j] == (k2, idx));
                        } else {
                            assert(j != i);
                            assert(s1[j - 1] == (k2, idx));
                        }
                    }
                }
                Some(entry.1)
            },
            None => None,
        }
    }

    /// Open a new session: draw a fresh random key, pick a random puzzle for
    /// it, and queue its timeout. With no puzzles loaded, the key is
    /// returned unrecorded, as an unsolvable session.
    pub fn generate(&mut self, timeout_at: u64) -> (key: PuzzleKey)
        requires
            old(self).wf(),
        ensures
            final(self).wf(),
            final(self).inner == old(self).inner,
            old(self).inner@.len() == 0 ==> *final(self) == *old(self),
            old(self).inner@.len() > 0 ==> ({
                &&& final(self).timeout@ == old(self).timeout@.push((timeout_at, key))
                &&& has_key(final(self).by_id@, key)
                &&& forall|idx: usize|
                    maps_to(final(self).by_id@, key, idx) ==> idx < old(self).inner@.len()
                &&& forall|k2: PuzzleKey, idx: usize|
                    k2 != key ==> (maps_to(final(self).by_id@, k2, idx) <==> maps_to(
                        old(self).by_id@,
                        k2,
                        idx,
                    ))
            }),
    {
        let key = random_key();

        if self.inner.len() == 0 {
            // Unsolvable puzzle state, there are no puzzles.
            return key;
        }

        let idx = random_below(self.inner.len());

        let ghost s0 = self.by_id@;
        match self.find_pos(&key) {
            Some(i) => {
                self.by_id.set(i, (key, idx));
                proof {
                    let s1 = self.by_id@;
                    assert(s1[i as int] == (key, idx));
                    assert forall|k2: PuzzleKey, idx2: usize|
                        k2 != key && maps_to(s1, k2, idx2) implies maps_to(s0, k2, idx2) by {
                        let j = choose|j: int| 0 <= j < s1.len() && s1[j] == (k2, idx2);
                        assert(j != i);
                        assert(s0[j] == (k2, idx2));
                    }
                    assert forall|k2: PuzzleKey, idx2: usize|
                        k2 != key && maps_to(s0, k2, idx2) implies maps_to(s1, k2, idx2) by {
                        let j = choose|j: int| 0 <= j < s0.len() && s0[j] == (k2, idx2);
                        assert(j != i);
                        assert(s1[j] == (k2, idx2));
                    }
                }
            },
            None => {
                self.by_id.push((key, idx));
                proof {
                    let s1 = self.by_id@;
                    assert(s1[s1.len() - 1] == (key, idx));
                    assert forall|k2: PuzzleKey, idx2: usize|
                        k2 != key && maps_to(s1, k2, idx2) implies maps_to(s0, k2, idx2) by {
                        let j = choose|j: int| 0 <= j < s1.len() && s1[j] == (k2, idx2);
                        assert(j < s0.len());
                        assert(s0[j] == (k2, idx2));
                    }
                    assert forall|k2: PuzzleKey, idx2: usize|
                        k2 != key && maps_to(s0, k2, idx2) implies maps_to(s1, k2, idx2) by {
                        let j = choose|j: int| 0 <= j < s0.len() && s0[j] == (k2, idx2);
                        assert(s1[j] == (k2, idx2));
                    }
                }
            },
        }
        self.timeout.push((timeout_at, key));

        key
    }

    /// The timeout of the session that the queue would give up next: the
    /// greatest queued instant.
    pub fn next_timeout(&self) -> (r: Option<u64>)
        ensures
            match r {
                None => self.timeout@.len() == 0,
                Some(w) => self.timeout@.len() > 0 && (exists|i: int|
                    0 <= i < self.timeout@.len() && (#[trigger] self.timeout@[i]).0 == w) && (
                forall|i: int|
                    0 <= i < self.timeout@.len() ==> (#[trigger] self.timeout@[i]).0 <= w),
            },
    {
        if self.timeout.len() == 0 {
            return None;
        }
        let mut w = self.timeout[0].0;
        let mut i: usize = 1;
        while i < self.timeout.len()
            invariant
                1 <= i <= self.timeout@.len(),
                self.timeout@.len() > 0,
                exists|j: int| 0 <= j < i && (#[trigger] self.timeout@[j]).0 == w,
                forall|j: int| 0 <= j < i ==> (#[trigger] self.timeout@[j]).0 <= w,
            decreases self.timeout@.len() - i,
        {
            if self.timeout[i].0 > w {
                w = self.timeout[i].0;
            }
            i += 1;
        }
        Some(w)
    }

    /// Give up expired sessions. The queue is drained in order of latest
    /// timeout first, so it reaps only once even its latest entry has
    /// expired; each reaped session's key is dropped from the table.
    pub fn reap(&mut self, now: u64)
        requires
            old(self).wf(),
        ensures
            final(self).wf(),
            final(self).inner == old(self).inner,
            if old(self).timeout@.len() > 0 && (forall|i: int|
                0 <= i < old(self).timeout@.len() ==> (#[trigger] old(self).timeout@[i]).0
                    <= now) {
                final(self).timeout@.len() == 0 && (forall|k2: PuzzleKey, idx: usize|
                    maps_to(final(self).by_id@, k2, idx) <==> (maps_to(old(self).by_id@, k2, idx)
                        && !(exists|i: int|
                        0 <= i < old(self).timeout@.len() && (#[trigger] old(
                            self,
                        ).timeout@[i]).1 == k2)))
            } else {
                *final(self) == *old(self)
            },
    {
        let mut any_late = false;
        let mut i: usize = 0;
        while i < self.timeout.len()
            invariant
                i <= self.timeout@.len(),
                any_late == exists|j: int|
                    0 <= j < i && (#[trigger] self.timeout@[j]).0 > now,
            decreases self.timeout@.len() - i,
        {
            if self.timeout[i].0 > now {
                any_late = true;
            }
            i += 1;
        }
        if self.timeout.len() == 0 || any_late {
            return ;
        }

        let ghost t0 = self.timeout@;
        let ghost b0 = self.by_id@;
        let mut t: usize = 0;
        while t < self.timeout.len()
            invariant
                t <= self.timeout@.len(),
                self.wf(),
                self.timeout@ == t0,
                self.inner == old(self).inner,
                forall|k2: PuzzleKey, idx: usize|
                    #![trigger maps_to(self.by_id@, k2, idx)]
                    #![trigger maps_to(b0, k2, idx)]
                    maps_to(self.by_id@, k2, idx) <==> (maps_to(b0, k2, idx) && !(exists|j: int|
                        0 <= j < t && (#[trigger] t0[j]).1 == k2)),
            decreases self.timeout@.len() - t,
        {
            let key = self.timeout[t].1;
            let ghost b_pre = self.by_id@;
            self.remove_key(&key);
            proof {
                assert forall|k2: PuzzleKey, idx: usize|
                    maps_to(self.by_id@, k2, idx) implies (maps_to(b0, k2, idx) && !(exists|j: int|
                        0 <= j < t + 1 && (#[trigger] t0[j]).1 == k2)) by {
                    let w = choose|w: int|
                        0 <= w < self.by_id@.len() && self.by_id@[w] == (k2, idx);
                    assert(self.by_id@[w].0 == k2);
                    assert(k2 != key);
                    assert(maps_to(b_pre, k2, idx));
                    assert(!(exists|j: int| 0 <= j < t && (#[trigger] t0[j]).1 == k2));
                    assert(t0[t as int].1 == key);
                    assert forall|j: int| 0 <= j < t + 1 implies (#[trigger] t0[j]).1 != k2 by {
                        if j < t {
                            assert(!(exists|j2: int|
                                0 <= j2 < t && (#[trigger] t0[j2]).1 == k2));
                        }
                    }
                }
                assert forall|k2: PuzzleKey, idx: usize|
                    maps_to(b0, k2, idx) && !(exists|j: int|
                        0 <= j < t + 1 && (#[trigger] t0[j]).1 == k2) implies maps_to(
                    self.by_id@,
                    k2,
                    idx,
                ) by {
                    assert(t0[t as int].1 == key);
                    assert(k2 != key);
                    assert(!(exists|j: int| 0 <= j < t && (#[trigger] t0[j]).1 == k2));
                    assert(maps_to(b_pre, k2, idx));
                }
            }
            t += 1;
        }
        self.timeout.clear();
    }

    /// Close a session: whether the attempt matched the recorded outcome,
    /// and that outcome. An unknown or expired key solves nothing.
    pub fn solve(&mut self, key: &PuzzleKey, attempt: Judgement) -> (r: (bool, Option<Judgement>))
        requires
            old(self).wf(),
        ensures
            final(self).wf(),
            final(self).inner == old(self).inner,
            final(self).timeout == old(self).timeout,
            !has_key(old(self).by_id@, *key) ==> r == (false, Option::<Judgement>::None)
                && final(self).by_id == old(self).by_id,
            forall|idx: usize|
                maps_to(old(self).by_id@, *key, idx) ==> r == (
                    old(self).inner@[idx as int].judgement == attempt,
                    Some(old(self).inner@[idx as int].judgement),
                ),
            !has_key(final(self).by_id@, *key),
            forall|k2: PuzzleKey, idx: usize|
                k2 != *key ==> (maps_to(final(self).by_id@, k2, idx) <==> maps_to(
                    old(self).by_id@,
                    k2,
                    idx,
                )),
    {
        match self.remove_key(key) {
            Some(idx) => {
                let judge = self.inner[idx].judgement;
                proof {
                    assert forall|idx2: usize|
                        maps_to(old(self).by_id@, *key, idx2) implies idx2 == idx by {
                        let i = choose|i: int|
                            0 <= i < old(self).by_id@.len() && old(self).by_id@[i] == (*key, idx2);
                        let j = choose|j: int|
                            0 <= j < old(self).by_id@.len() && old(self).by_id@[j] == (*key, idx);
                        assert(i == j);
                    }
                }
                (judge == attempt, Some(judge))
            },
            None => (false, None),
        }
    }

    /// The rendered text of the puzzle behind a session key.
    pub fn get_html(&self, key: &PuzzleKey) -> (r: Option<&str>)
        requires
            self.wf(),
        ensures
            r is Some <==> has_key(self.by_id@, *key),
            forall|idx: usize|
                maps_to(self.by_id@, *key, idx) ==> (match r {
                    Some(h) => h@ == self.inner@[idx as int].html@,
                    None => false,
                }),
    {
        match self.find_pos(key) {
            Some(i) => {
                let idx = self.by_id[i].1;
                proof {
                    assert(has_key(self.by_id@, *key));
                    assert forall|idx2: usize|
                        maps_to(self.by_id@, *key, idx2) implies idx2 == idx by {
                        let j = choose|j: int|
                            0 <= j < self.by_id@.len() && self.by_id@[j] == (*key, idx2);
                        assert(j == i);
                    }
                }
                Some(self.inner[idx].html.as_str())
            },
            None => None,
        }
    }
}

/// Relies on rand::random: a fresh 16-byte key from the thread-local
/// generator. Nothing can be promised of its value.
#[verifier::external_body]
fn random_key() -> (r: PuzzleKey) {
    PuzzleKey(rand::random())
}

/// Relies on rand::Rng::random_range over `0..n`: the sample is uniform
/// within the range, so below `n`; the call panics only on an empty range,
/// which `n > 0` rules out.
#[verifier::external_body]
fn random_below(n: usize) -> (r: usize)
    requires
        n > 0,
    ensures
        r < n,
{
    rand::Rng::random_range(&mut rand::rng(), 0..n)
}

/// Reward table for a solved or failed puzzle: success cheers the rig up,
/// failure saddens it.
pub fn solve_emotion(success: bool) -> (r: Emotion)
    ensures
        r == (if success {
            Emotion::Happy
        } else {
            Emotion::Sad
        }),
{
    if success {
        Emotion::Happy
    } else {
        Emotion::Sad
    }
}

} // verus!
