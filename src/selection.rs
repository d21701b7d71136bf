use vstd::prelude::*;
use vstd::set_lib::{lemma_int_range, lemma_len_subset, set_int_range};

verus! {

/// The set of checked rows of one table.
#[derive(Debug)]
pub struct Selection {
    /// The checked rows, each at most once.
    pub rows: Vec<usize>,
}

/// Whether `keep_rows(drop, n)` keeps row `r`: every row but `drop` where
/// one is given, else the rows below `n`.
pub open spec fn row_kept(drop: Option<usize>, n: usize, r: usize) -> bool {
    match drop {
        Some(d) => r != d,
        None => r < n,
    }
}

/// The rows `0 .. n`.
pub open spec fn all_rows(n: usize) -> Set<usize> {
    Set::new(|i: usize| i < n)
}

impl Selection {
    pub open spec fn wf(&self) -> bool {
        self.rows@.no_duplicates()
    }

    pub open spec fn view(&self) -> Set<usize> {
        self.rows@.to_set()
    }

    /// An empty selection.
    pub fn new() -> (r: Selection)
        ensures
            r.wf(),
            r@ == Set::<usize>::empty(),
    {
        let r = Selection { rows: Vec::new() };
        assert(r@ =~= Set::<usize>::empty());
        r
    }

    /// The number of checked rows.
    pub fn len(&self) -> (r: usize)
        requires
            self.wf(),
        ensures
            r == self@.len(),
    {
        proof {
            self.rows@.unique_seq_to_set();
        }
        self.rows.len()
    }

    pub fn is_empty(&self) -> (r: bool)
        requires
            self.wf(),
        ensures
            r == (self@.len() == 0),
    {
        self.len() == 0
    }

    pub fn contains(&self, row: usize) -> (r: bool)
        ensures
            r == self@.contains(row),
    {
        let mut i: usize = 0;
        while i < self.rows.len()
            invariant
                i <= self.rows.len(),
                forall|j: int| 0 <= j < i ==> self.rows@[j] != row,
            decreases self.rows.len() - i,
        {
            if self.rows[i] == row {
                return true;
            }
            i = i + 1;
        }
        false
    }

    /// Checks `row`.
    pub fn insert(&mut self, row: usize)
        requires
            old(self).wf(),
        ensures
            final(self).wf(),
            final(self)@ == old(self)@.insert(row),
    {
        if !self.contains(row) {
            self.rows.push(row);
            proof {
                assert forall|y: usize| self@.contains(y) <==> old(self)@.insert(row).contains(y) by {
                    if old(self)@.contains(y) {
                        let k = choose|k: int| 0 <= k < old(self).rows@.len() && old(self).rows@[k] == y;
                        assert(self.rows@[k] == y);
                    }
                    if y == row {
                        assert(self.rows@[self.rows@.len() - 1] == y);
                    }
                }
            }
        }
        assert(self@ =~= old(self)@.insert(row));
    }

    /// Unchecks `row`.
    pub fn remove(&mut self, row: usize)
        requires
            old(self).wf(),
        ensures
            final(self).wf(),
            final(self)@ == old(self)@.remove(row),
    {
        self.keep_rows(Some(row), 0);
        assert(self@ =~= old(self)@.remove(row));
    }

    /// Flips whether `row` is checked.
    pub fn toggle(&mut self, row: usize)
        requires
            old(self).wf(),
        ensures
            final(self).wf(),
            final(self)@ == (if old(self)@.contains(row) {
                old(self)@.remove(row)
            } else {
                old(self)@.insert(row)
            }),
    {
        if self.contains(row) {
            self.remove(row);
        } else {
            self.insert(row);
        }
    }

    /// Unchecks every row.
    pub fn clear(&mut self)
        ensures
            final(self).wf(),
            final(self)@ == Set::<usize>::empty(),
    {
        self.rows = Vec::new();
        assert(self@ =~= Set::<usize>::empty());
    }

    /// Checks exactly the rows `0 .. n`.
    pub fn select_range(&mut self, n: usize)
        ensures
            final(self).wf(),
            final(self)@ == all_rows(n),
    {
        let mut rows: Vec<usize> = Vec::new();
        let mut i: usize = 0;
        while i < n
            invariant
                i <= n,
                rows@.len() == i,
                forall|j: int| 0 <= j < i ==> rows@[j] == j,
            decreases n - i,
        {
            rows.push(i);
            i = i + 1;
        }
        self.rows = rows;
        proof {
            assert forall|j: int, k: int| 0 <= j < self.rows@.len() && 0 <= k < self.rows@.len() &&
                    j != k implies self.rows@[j] != self.rows@[k] by {}
            assert forall|x: usize| self@.contains(x) <==> all_rows(n).contains(x) by {
                if x < n {
                    assert(self.rows@[x as int] == x);
                }
            }
            assert(self@ =~= all_rows(n));
        }
    }

    /// Keeps the checked rows that `row_kept(drop, n, _)` accepts.
    fn keep_rows(&mut self, drop: Option<usize>, n: usize)
        requires
            old(self).wf(),
        ensures
            final(self).wf(),
            final(self)@ == old(self)@.filter(|r: usize| row_kept(drop, n, r)),
    {
        let mut kept: Vec<usize> = Vec::new();
        let mut i: usize = 0;
        while i < self.rows.len()
            invariant
                i <= self.rows.len(),
                self.rows@ == old(self).rows@,
                old(self).wf(),
                kept@.no_duplicates(),
                forall|x: usize| kept@.contains(x) <==> (exists|j: int| 0 <= j < i && self.rows@[j]
                        == x && row_kept(drop, n, x)),
            decreases self.rows.len() - i,
        {
            let x = self.rows[i];
            let stays = match drop {
                Some(d) => x != d,
                None => x < n,
            };
            if stays {
                proof {
                    assert forall|j: int| 0 <= j < kept@.len() implies kept@[j] != x by {
                        if kept@[j] == x {
                            assert(kept@.contains(kept@[j]));
                            let k = choose|k: int| 0 <= k < i && self.rows@[k] == x && row_kept(drop, n, x);
                            assert(self.rows@[k] == self.rows@[i as int]);
                        }
                    }
                }
                let ghost prev = kept@;
                kept.push(x);
                proof {
                    assert forall|y: usize| kept@.contains(y) <==> (exists|j: int| 0 <= j < i + 1
                            && self.rows@[j] == y && row_kept(drop, n, y)) by {
                        if kept@.contains(y) {
                            let k = choose|k: int| 0 <= k < kept@.len() && kept@[k] == y;
                            if k < prev.len() {
                                assert(prev[k] == y);
                                assert(prev.contains(y));
                                let j = choose|j: int| 0 <= j < i && self.rows@[j] == y &&
                                        row_kept(drop, n, y);
                                assert(0 <= j < i + 1 && self.rows@[j] == y);
                            } else {
                                assert(self.rows@[i as int] == y);
                            }
                        }
                        if exists|j: int| 0 <= j < i + 1 && self.rows@[j] == y && row_kept(drop, n, y) {
                            let j = choose|j: int| 0 <= j < i + 1 && self.rows@[j] == y &&
                                    row_kept(drop, n, y);
                            if j < i {
                                assert(prev.contains(y));
                                let k = choose|k: int| 0 <= k < prev.len() && prev[k] == y;
                                assert(kept@[k] == y);
                            } else {
                                assert(kept@[kept@.len() - 1] == y);
                            }
                        }
                    }
                }
            } else {
                proof {
                    assert forall|y: usize| kept@.contains(y) <==> (exists|j: int| 0 <= j < i + 1
                            && self.rows@[j] == y && row_kept(drop, n, y)) by {
                        if exists|j: int| 0 <= j < i + 1 && self.rows@[j] == y && row_kept(drop, n, y) {
                            let j = choose|j: int| 0 <= j < i + 1 && self.rows@[j] == y &&
                                    row_kept(drop, n, y);
                            assert(j < i);
                        }
                    }
                }
            }
            i = i + 1;
        }
        self.rows = kept;
        proof {
            assert forall|y: usize| self@.contains(y) <==> old(self)@.filter(|r: usize|
                    row_kept(drop, n, r)).contains(y) by {
                if old(self)@.filter(|r: usize| row_kept(drop, n, r)).contains(y) {
                    let j = choose|j: int| 0 <= j < old(self).rows@.len() && old(self).rows@[j] == y;
                    assert(exists|j: int| 0 <= j < old(self).rows@.len() && old(self).rows@[j] == y
                            && row_kept(drop, n, y));
                }
            }
            assert(self@ =~= old(self)@.filter(|r: usize| row_kept(drop, n, r)));
        }
    }
    /// Drops every checked row that is `n` or more.
    pub fn retain_below(&mut self, n: usize)
        requires
            old(self).wf(),
        ensures
            final(self).wf(),
            final(self)@ == old(self)@.filter(|r: usize| r < n),
    {
        self.keep_rows(None, n);
        assert(self@ =~= old(self)@.filter(|r: usize| r < n));
    }

}

/// A selection whose rows all lie below `n` holds at most `n` rows.
pub proof fn lemma_selection_bounded(s: &Selection, n: usize)
    requires
        s.wf(),
        forall|r: usize| s@.contains(r) ==> r < n,
    ensures
        s@.len() <= n,
{
    let ints = s.rows@.map_values(|r: usize| r as int);
    assert forall|j: int, k: int| 0 <= j < ints.len() && 0 <= k < ints.len() && j != k implies
            ints[j] != ints[k] by {
        assert(s.rows@[j] != s.rows@[k]);
    }
    assert(ints.no_duplicates());
    ints.unique_seq_to_set();
    s.rows@.unique_seq_to_set();
    assert forall|x: int| ints.to_set().contains(x) implies set_int_range(0, n as int).contains(x) by {
        let j = choose|j: int| 0 <= j < ints.len() && ints[j] == x;
        assert(s@.contains(s.rows@[j]));
    }
    lemma_int_range(0, n as int);
    lemma_len_subset(ints.to_set(), set_int_range(0, n as int));
}

} // verus!
