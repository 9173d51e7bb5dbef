//! Memoization of output-directory creation.
//!
//! During a run, many conversion units may target the same output directory.
//! The memo records every directory already handled; the caller performs the
//! actual (idempotent) filesystem creation only when a directory is recorded
//! for the first time.  The record grows monotonically and is never cleared
//! within a run.  Callers that share a memo across workers must serialize
//! access to it, so that the check-then-record step is atomic.

use vstd::prelude::*;
use crate::paths::str_eq;

verus! {

/// The set of output directories already handled this run.
pub struct DirectoryMemo {
    created: Vec<String>,
}

impl View for DirectoryMemo {
    type V = Set<Seq<char>>;

    closed spec fn view(&self) -> Set<Seq<char>> {
        Set::new(
            |d: Seq<char>| exists|i: int| 0 <= i < self.created@.len() && self.created@[i]@ == d,
        )
    }
}

impl DirectoryMemo {
    /// How many directories are recorded.
    pub closed spec fn count(&self) -> nat {
        self.created@.len()
    }

    /// A fresh memo: no directory handled yet.
    pub fn new() -> (m: DirectoryMemo)
        ensures
            m@ == Set::<Seq<char>>::empty(),
            m.count() == 0,
    {
        let m = DirectoryMemo { created: Vec::new() };
        proof {
            assert(m@ =~= Set::<Seq<char>>::empty());
        }
        m
    }

    /// Whether `dir` has already been handled.
    pub fn contains_dir(&self, dir: &str) -> (b: bool)
        ensures
            b == self@.contains(dir@),
    {
        let mut i: usize = 0;
        while i < self.created.len()
            invariant
                i <= self.created@.len(),
                forall|j: int| 0 <= j < i ==> self.created@[j]@ != dir@,
            decreases self.created@.len() - i,
        {
            if str_eq(self.created[i].as_str(), dir) {
                return true;
            }
            i = i + 1;
        }
        false
    }

    /// Record `dir` as handled.  Returns `true` exactly when this call is the
    /// first for `dir` in this run — only then does the caller perform the
    /// filesystem creation.  Afterwards the memo holds `dir`, and everything
    /// it held before.
    pub fn ensure_marked(&mut self, dir: &str) -> (first: bool)
        ensures
            first == !old(self)@.contains(dir@),
            final(self)@ == old(self)@.insert(dir@),
            first ==> final(self).count() == old(self).count() + 1,
            !first ==> final(self).count() == old(self).count(),
    {
        if self.contains_dir(dir) {
            proof {
                assert(self@ =~= old(self)@.insert(dir@));
            }
            false
        } else {
            self.created.push(dir.to_owned());
            proof {
                let prev = old(self)@;
                assert forall|d: Seq<char>| self@.contains(d) implies prev.insert(dir@).contains(d) by {
                    let i = choose|i: int|
                        0 <= i < self.created@.len() && self.created@[i]@ == d;
                    if i < self.created@.len() - 1 {
                        assert(old(self).created@[i]@ == d);
                    }
                }
                assert forall|d: Seq<char>| prev.insert(dir@).contains(d) implies self@.contains(d) by {
                    if prev.contains(d) {
                        let i = choose|i: int|
                            0 <= i < old(self).created@.len() && old(self).created@[i]@ == d;
                        assert(self.created@[i]@ == d);
                    } else {
                        assert(self.created@[self.created@.len() - 1]@ == d);
                    }
                }
                assert(self@ =~= prev.insert(dir@));
            }
            true
        }
    }

    /// How many distinct directories have been handled this run.
    pub fn created_count(&self) -> (n: usize)
        ensures
            n == self.count(),
    {
        self.created.len()
    }
}

/// Idempotent directory creation, first half: a call that records `dir`
/// leaves every previously recorded directory recorded, and `dir` itself.
pub proof fn lemma_memo_monotone(before: Set<Seq<char>>, after: Set<Seq<char>>, dir: Seq<char>)
    requires
        after == before.insert(dir),
    ensures
        after.contains(dir),
        forall|d: Seq<char>| before.contains(d) ==> after.contains(d),
{
}

/// Idempotent directory creation, second half: once a directory is recorded,
/// every later `ensure_marked` call for it — the memo only ever grows —
/// reports it as already handled, so the creation side effect runs at most
/// once per directory and run.
pub proof fn lemma_created_at_most_once(
    earlier: Set<Seq<char>>,
    later: Set<Seq<char>>,
    dir: Seq<char>,
)
    requires
        earlier.contains(dir),
        forall|d: Seq<char>| earlier.contains(d) ==> later.contains(d),
    ensures
        later.contains(dir),
{
}

/// The set recorded after marking each directory of `dirs` in order,
/// starting from `s` — one `ensure_marked` call per element, by its
/// contract.
pub open spec fn marked_after(s: Set<Seq<char>>, dirs: Seq<Seq<char>>) -> Set<Seq<char>>
    decreases dirs.len(),
{
    if dirs.len() == 0 {
        s
    } else {
        marked_after(s, dirs.drop_last()).insert(dirs.last())
    }
}

/// How many of those markings are first markings — each one performs the one
/// filesystem creation, by `ensure_marked`'s contract on its result.
pub open spec fn creations_in(s: Set<Seq<char>>, dirs: Seq<Seq<char>>) -> nat
    decreases dirs.len(),
{
    if dirs.len() == 0 {
        0
    } else {
        creations_in(s, dirs.drop_last()) + if !marked_after(s, dirs.drop_last()).contains(
            dirs.last(),
        ) {
            1nat
        } else {
            0nat
        }
    }
}

/// Marking only adds: every directory marked during a run is recorded
/// afterwards, and so is everything recorded before.
pub proof fn lemma_marked_after_contains(s: Set<Seq<char>>, dirs: Seq<Seq<char>>, x: Seq<char>)
    requires
        s.contains(x) || dirs.contains(x),
    ensures
        marked_after(s, dirs).contains(x),
    decreases dirs.len(),
{
    if dirs.len() > 0 && !(dirs.last() == x) {
        if dirs.contains(x) && !s.contains(x) {
            let i = choose|i: int| 0 <= i < dirs.len() && dirs[i] == x;
            assert(dirs.drop_last()[i] == x);
        }
        lemma_marked_after_contains(s, dirs.drop_last(), x);
    }
}

/// Idempotent directory creation, whole-run form: when every unit of a run
/// targets the same output directory, marking them all against a fresh memo
/// performs the underlying creation exactly once, however many units there
/// are.
pub proof fn lemma_shared_directory_created_exactly_once(dirs: Seq<Seq<char>>, dir: Seq<char>)
    requires
        dirs.len() > 0,
        forall|i: int| 0 <= i < dirs.len() ==> dirs[i] == dir,
    ensures
        creations_in(Set::<Seq<char>>::empty(), dirs) == 1,
    decreases dirs.len(),
{
    let empty = Set::<Seq<char>>::empty();
    let prefix = dirs.drop_last();
    assert(dirs.last() == dir);
    if dirs.len() == 1 {
        assert(creations_in(empty, prefix) == 0);
        assert(!marked_after(empty, prefix).contains(dir));
    } else {
        assert(prefix[0] == dir);
        lemma_marked_after_contains(empty, prefix, dir);
        lemma_shared_directory_created_exactly_once(prefix, dir);
    }
}

} // verus!
