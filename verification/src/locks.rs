//! The lock table: the process-wide record of which file paths this process
//! holds an open handle for. The table owns the handles; inserting a path with
//! its freshly opened handle takes the lock, removing the entry (and dropping
//! the handle, which the caller does) releases it. The table itself never
//! touches the filesystem: the caller opens the file only when the table says
//! no entry exists, and closes whatever handle the table hands back.
//!
//! The table is modelled as a `Map` from the path's characters to the handle.
//! At most one entry exists per path; re-locking a locked path changes
//! nothing, unlocking an absent path changes nothing.

use vstd::prelude::*;

verus! {

/// A table of lock entries: one open handle per locked path. `H` is the
/// host's handle type; the table never looks inside a handle.
pub struct LockTable<H> {
    entries: Vec<(String, H)>,
}

/// The map an entry sequence denotes: later entries would win, but a
/// well-formed table never holds a key twice.
pub open spec fn entries_map<H>(s: Seq<(String, H)>) -> Map<Seq<char>, H>
    decreases s.len(),
{
    if s.len() == 0 {
        Map::empty()
    } else {
        entries_map(s.drop_last()).insert(s.last().0@, s.last().1)
    }
}

/// Some entry of `s` has key `k`.
pub open spec fn has_key<H>(s: Seq<(String, H)>, k: Seq<char>) -> bool {
    exists|i: int| 0 <= i < s.len() && s[i].0@ == k
}

/// No two entries of `s` share a key.
pub open spec fn unique_keys<H>(s: Seq<(String, H)>) -> bool {
    forall|i: int, j: int| 0 <= i < j < s.len() ==> s[i].0@ != s[j].0@
}

/// What `lock` does to the table: nothing when the path is already held,
/// otherwise it records the freshly opened handle under the path.
pub open spec fn lock_transition<H>(m: Map<Seq<char>, H>, p: Seq<char>, h: H) -> Map<Seq<char>, H> {
    if m.contains_key(p) {
        m
    } else {
        m.insert(p, h)
    }
}

/// What `unlock` does to the table: it removes the entry for the path, if any.
pub open spec fn unlock_transition<H>(m: Map<Seq<char>, H>, p: Seq<char>) -> Map<Seq<char>, H> {
    m.remove(p)
}

proof fn lemma_entries_map_domain<H>(s: Seq<(String, H)>, k: Seq<char>)
    ensures
        entries_map(s).contains_key(k) == has_key(s, k),
    decreases s.len(),
{
    if s.len() == 0 {
    } else {
        let t = s.drop_last();
        lemma_entries_map_domain(t, k);
        if has_key(t, k) {
            let i = choose|i: int| 0 <= i < t.len() && t[i].0@ == k;
            assert(s[i].0@ == k);
        }
        if has_key(s, k) && s.last().0@ != k {
            let i = choose|i: int| 0 <= i < s.len() && s[i].0@ == k;
            assert(t[i].0@ == k);
        }
    }
}

proof fn lemma_entries_map_value<H>(s: Seq<(String, H)>, i: int)
    requires
        unique_keys(s),
        0 <= i < s.len(),
    ensures
        entries_map(s).contains_key(s[i].0@),
        entries_map(s)[s[i].0@] == s[i].1,
    decreases s.len(),
{
    let t = s.drop_last();
    if i == s.len() - 1 {
    } else {
        lemma_entries_map_value(t, i);
        assert(s[i].0@ != s.last().0@);
    }
}

proof fn lemma_entries_map_remove<H>(s: Seq<(String, H)>, i: int)
    requires
        unique_keys(s),
        0 <= i < s.len(),
    ensures
        entries_map(s.remove(i)) == entries_map(s).remove(s[i].0@),
        unique_keys(s.remove(i)),
    decreases s.len(),
{
    let k = s[i].0@;
    let t = s.drop_last();
    assert(forall|a: int, b: int|
        0 <= a < b < s.remove(i).len() ==> s.remove(i)[a].0@ != s.remove(i)[b].0@);
    if i == s.len() - 1 {
        assert(s.remove(i) =~= t);
        lemma_entries_map_domain(t, k);
        assert(!has_key(t, k));
        assert(entries_map(t).remove(k) =~= entries_map(t));
        assert(entries_map(s).remove(k) =~= entries_map(t).insert(k, s[i].1).remove(k));
    } else {
        lemma_entries_map_remove(t, i);
        assert(s.remove(i).drop_last() =~= t.remove(i));
        assert(s.remove(i).last() == s.last());
        assert(s.last().0@ != k);
        assert(entries_map(s.remove(i)) =~= entries_map(t.remove(i)).insert(
            s.last().0@,
            s.last().1,
        ));
        assert(entries_map(t).remove(k).insert(s.last().0@, s.last().1) =~= entries_map(t).insert(
            s.last().0@,
            s.last().1,
        ).remove(k));
    }
}

impl<H> LockTable<H> {
    /// The map this table denotes: each locked path and the handle held for it.
    pub closed spec fn view(&self) -> Map<Seq<char>, H> {
        entries_map(self.entries@)
    }

    #[verifier::type_invariant]
    spec fn well_formed(&self) -> bool {
        unique_keys(self.entries@)
    }

    /// An empty table: no path is locked.
    pub fn new() -> (r: Self)
        ensures
            r@ == Map::<Seq<char>, H>::empty(),
    {
        LockTable { entries: Vec::new() }
    }

    /// The number of locked paths.
    pub fn len(&self) -> (r: usize)
        ensures
            r == self@.dom().len(),
    {
        proof {
            use_type_invariant(&*self);
            lemma_entries_len(self.entries@);
        }
        self.entries.len()
    }

    /// Whether `path` currently has a lock entry.
    pub fn is_locked(&self, path: &String) -> (r: bool)
        ensures
            r == self@.contains_key(path@),
    {
        proof {
            use_type_invariant(&*self);
            lemma_entries_map_domain(self.entries@, path@);
        }
        let n = self.entries.len();
        let mut i: usize = 0;
        while i < n
            invariant
                0 <= i <= n,
                n == self.entries@.len(),
                forall|k: int| 0 <= k < i ==> self.entries@[k].0@ != path@,
            decreases n - i,
        {
            if self.entries[i].0 == *path {
                proof {
                    lemma_entries_map_domain(self.entries@, path@);
                }
                return true;
            }
            i = i + 1;
        }
        false
    }

    /// Record the handle opened for `path`, unless an entry already exists:
    /// an already-locked path keeps its original handle and the new one is
    /// handed back to the caller to close. This is the second half of `lock`;
    /// the caller opens the file only after `is_locked` returned false, while
    /// holding the table exclusively across both steps.
    pub fn lock_commit(&mut self, path: String, handle: H) -> (r: Option<H>)
        ensures
            final(self)@ == lock_transition(old(self)@, path@, handle),
            r is Some <==> old(self)@.contains_key(path@),
            r matches Some(h) ==> h == handle,
    {
        proof {
            use_type_invariant(&*self);
        }
        if self.is_locked(&path) {
            return Some(handle);
        }
        let ghost s0 = self.entries@;
        let mut es: Vec<(String, H)> = Vec::new();
        std::mem::swap(&mut es, &mut self.entries);
        es.push((path, handle));
        proof {
            assert(es@.drop_last() =~= s0);
            lemma_entries_map_domain(s0, es@.last().0@);
        }
        self.entries = es;
        None
    }

    /// Remove the entry for `path` and hand its handle back so the caller can
    /// close it; a no-op returning `None` when `path` has no entry.
    pub fn unlock(&mut self, path: &String) -> (r: Option<H>)
        ensures
            final(self)@ == unlock_transition(old(self)@, path@),
            r is Some <==> old(self)@.contains_key(path@),
            r matches Some(h) ==> h == old(self)@[path@],
    {
        proof {
            use_type_invariant(&*self);
        }
        let ghost s0 = self.entries@;
        let n = self.entries.len();
        let mut i: usize = 0;
        let mut found: bool = false;
        while i < n
            invariant
                0 <= i <= n,
                n == self.entries@.len(),
                forall|k: int| 0 <= k < i ==> self.entries@[k].0@ != path@,
                found ==> i < n && self.entries@[i as int].0@ == path@,
            ensures
                found ==> i < n && self.entries@[i as int].0@ == path@,
                !found ==> forall|k: int| 0 <= k < n ==> self.entries@[k].0@ != path@,
            decreases n - i,
        {
            if self.entries[i].0 == *path {
                found = true;
                break;
            }
            i = i + 1;
        }
        proof {
            lemma_entries_map_domain(s0, path@);
        }
        if found {
            proof {
                lemma_entries_map_value(s0, i as int);
                lemma_entries_map_remove(s0, i as int);
            }
            let mut es: Vec<(String, H)> = Vec::new();
            std::mem::swap(&mut es, &mut self.entries);
            let entry = es.remove(i);
            self.entries = es;
            Some(entry.1)
        } else {
            proof {
                assert(self@.remove(path@) =~= self@);
            }
            None
        }
    }
}

proof fn lemma_entries_len<H>(s: Seq<(String, H)>)
    requires
        unique_keys(s),
    ensures
        entries_map(s).dom().len() == s.len(),
        entries_map(s).dom().finite(),
    decreases s.len(),
{
    if s.len() == 0 {
        assert(entries_map(s).dom() =~= Set::<Seq<char>>::empty());
    } else {
        let t = s.drop_last();
        lemma_entries_len(t);
        lemma_entries_map_domain(t, s.last().0@);
        assert(!has_key(t, s.last().0@));
        assert(entries_map(s).dom() =~= entries_map(t).dom().insert(s.last().0@));
    }
}

/// Locking a path twice in a row without an intervening unlock succeeds both
/// times and leaves exactly one entry for the path: the second lock changes
/// nothing, and the table's domain grows by the path alone.
pub proof fn lemma_lock_idempotent<H>(m: Map<Seq<char>, H>, p: Seq<char>, h1: H, h2: H)
    ensures
        lock_transition(lock_transition(m, p, h1), p, h2) == lock_transition(m, p, h1),
        lock_transition(m, p, h1).contains_key(p),
        lock_transition(m, p, h1).dom() == m.dom().insert(p),
{
    assert(lock_transition(m, p, h1).dom() =~= m.dom().insert(p));
}

/// Unlocking a path that has no entry is a no-op: the table is unchanged.
pub proof fn lemma_unlock_absent<H>(m: Map<Seq<char>, H>, p: Seq<char>)
    requires
        !m.contains_key(p),
    ensures
        unlock_transition(m, p) == m,
{
    assert(m.remove(p) =~= m);
}

/// After locking and then unlocking a path, the table holds no entry for it
/// any more — the handle has left the table, so the caller's drop of that
/// handle releases the underlying lock. A path not held beforehand comes back
/// to exactly the original table.
pub proof fn lemma_lock_unlock_releases<H>(m: Map<Seq<char>, H>, p: Seq<char>, h: H)
    ensures
        !unlock_transition(lock_transition(m, p, h), p).contains_key(p),
        !m.contains_key(p) ==> unlock_transition(lock_transition(m, p, h), p) == m,
{
    if !m.contains_key(p) {
        assert(m.insert(p, h).remove(p) =~= m);
    }
}

/// Lock operations on distinct paths never interfere: locking or unlocking
/// `p` leaves the entry for every other path exactly as it was.
pub proof fn lemma_distinct_paths_independent<H>(m: Map<Seq<char>, H>, p: Seq<char>, h: H, q: Seq<char>)
    requires
        p != q,
    ensures
        lock_transition(m, p, h).contains_key(q) == m.contains_key(q),
        m.contains_key(q) ==> lock_transition(m, p, h)[q] == m[q],
        unlock_transition(m, p).contains_key(q) == m.contains_key(q),
        m.contains_key(q) ==> unlock_transition(m, p)[q] == m[q],
{
}

} // verus!
