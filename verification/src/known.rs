//! The picture of the buttons: what each is known to be, in the order of names.
use crate::text::{before, names_are_in_one_line, same, text_before};
use vstd::prelude::*;

verus! {

/// Edges, or entries of the picture, with the characters of their names.
pub open spec fn named(s: Seq<(&'static str, bool)>) -> Seq<(Seq<char>, bool)> {
    s.map_values(|e: (&'static str, bool)| (e.0@, e.1))
}

/// What each button that was ever pressed is known to be.
pub struct Known {
    pub entries: Vec<(&'static str, bool)>,
}

impl View for Known {
    type V = Map<Seq<char>, bool>;

    /// The picture, as a map from names.
    open spec fn view(&self) -> Map<Seq<char>, bool> {
        let l = named(self.entries@);
        Map::new(
            |n: Seq<char>| exists|i: int| 0 <= i < l.len() && (#[trigger] l[i]).0 == n,
            |n: Seq<char>| l[choose|i: int| 0 <= i < l.len() && (#[trigger] l[i]).0 == n].1,
        )
    }
}

impl Known {
    /// The entries stand in the order of their names, so that each name has one.
    pub open spec fn wf(self) -> bool {
        let l = named(self.entries@);
        forall|i: int, j: int|
            0 <= i < j < l.len() ==> text_before((#[trigger] l[i]).0, (#[trigger] l[j]).0)
    }

    /// An empty picture.
    pub fn new() -> (r: Known)
        ensures
            r.wf(),
            r.entries@.len() == 0,
            r@ == Map::<Seq<char>, bool>::empty(),
    {
        let r = Known { entries: Vec::new() };
        assert(r@ =~= Map::<Seq<char>, bool>::empty());
        r
    }

    fn find(&self, name: &str) -> (r: (usize, bool))
        requires
            self.wf(),
        ensures
            r.0 <= self.entries@.len(),
            forall|i: int|
                0 <= i < r.0 ==> text_before((#[trigger] named(self.entries@)[i]).0, name@),
            r.1 ==> r.0 < self.entries@.len() && named(self.entries@)[r.0 as int].0 == name@,
            !r.1 ==> forall|i: int|
                r.0 <= i < self.entries@.len() ==> text_before(
                    name@,
                    (#[trigger] named(self.entries@)[i]).0,
                ),
            r.1 == self@.contains_key(name@),
            r.1 ==> self@[name@] == self.entries@[r.0 as int].1,
    {
        let ghost l = named(self.entries@);
        let mut i: usize = 0;
        while i < self.entries.len() && before(self.entries[i].0, name)
            invariant
                i <= self.entries.len(),
                l == named(self.entries@),
                forall|j: int| 0 <= j < i ==> text_before((#[trigger] l[j]).0, name@),
            decreases self.entries.len() - i,
        {
            assert(l[i as int].0 == self.entries@[i as int].0@);
            i = i + 1;
        }
        let hit = i < self.entries.len() && same(self.entries[i].0, name);
        proof {
            if i < l.len() {
                assert(l[i as int].0 == self.entries@[i as int].0@);
                names_are_in_one_line(l[i as int].0, name@, name@);
                assert forall|j: int| i < j < l.len() implies text_before(
                    name@,
                    (#[trigger] l[j]).0,
                ) by {
                    assert(text_before(l[i as int].0, l[j].0));
                    names_are_in_one_line(name@, l[i as int].0, l[j].0);
                }
                if !hit {
                    names_are_in_one_line(name@, l[i as int].0, name@);
                }
            }
            assert forall|j: int| 0 <= j < l.len() && (#[trigger] l[j]).0 == name@ implies hit && j
                == i by {
                names_are_in_one_line(name@, name@, name@);
            }
            if hit {
                assert(l[i as int].0 == name@);
            }
        }
        (i, hit)
    }

    /// What a button is known to be.
    pub fn get(&self, name: &str) -> (r: Option<bool>)
        requires
            self.wf(),
        ensures
            r == (if self@.contains_key(name@) {
                Some(self@[name@])
            } else {
                None
            }),
    {
        let (i, hit) = self.find(name);
        if hit {
            Some(self.entries[i].1)
        } else {
            None
        }
    }

    /// Notes what a button is.
    pub fn insert(&mut self, name: &'static str, down: bool)
        requires
            old(self).wf(),
        ensures
            final(self).wf(),
            final(self)@ == old(self)@.insert(name@, down),
    {
        let (i, hit) = self.find(name);
        let ghost l = named(self.entries@);
        if hit {
            self.entries.set(i, (name, down));
        } else {
            self.entries.insert(i, (name, down));
        }
        proof {
            let m = named(self.entries@);
            if hit {
                assert(m =~= l.update(i as int, (name@, down)));
            } else {
                assert(m =~= l.insert(i as int, (name@, down)));
            }
            assert(self.wf()) by {
                assert forall|a: int, b: int| 0 <= a < b < m.len() implies text_before(
                    (#[trigger] m[a]).0,
                    (#[trigger] m[b]).0,
                ) by {
                    if hit {
                        assert(l[a].0 == m[a].0 && l[b].0 == m[b].0);
                    } else {
                        if a < i && b < i {
                            assert(l[a] == m[a] && l[b] == m[b]);
                        } else if a < i && b == i {
                            assert(l[a] == m[a]);
                        } else if a < i {
                            assert(l[a] == m[a] && l[b - 1] == m[b]);
                        } else if a == i {
                            assert(l[b - 1] == m[b]);
                        } else {
                            assert(l[a - 1] == m[a] && l[b - 1] == m[b]);
                        }
                    }
                }
            }
            lemma_entries(*self);
            lemma_entries(*old(self));
            assert(m[i as int] == (name@, down));
            assert forall|n: Seq<char>| #[trigger] self@.contains_key(n) <==> old(
                self,
            )@.insert(name@, down).contains_key(n) by {
                if self@.contains_key(n) && n != name@ {
                    let j = choose|j: int| 0 <= j < m.len() && (#[trigger] m[j]).0 == n;
                    if hit || j < i {
                        assert(l[j] == m[j]);
                    } else {
                        assert(l[j - 1] == m[j]);
                    }
                }
                if old(self)@.contains_key(n) && n != name@ {
                    let j = choose|j: int| 0 <= j < l.len() && (#[trigger] l[j]).0 == n;
                    if hit || j < i {
                        assert(m[j] == l[j]);
                    } else {
                        assert(m[j + 1] == l[j]);
                    }
                }
            }
            assert forall|n: Seq<char>| self@.contains_key(n) implies #[trigger] self@[n] == old(
                self,
            )@.insert(name@, down)[n] by {
                let j = choose|j: int| 0 <= j < m.len() && (#[trigger] m[j]).0 == n;
                assert(self@[m[j].0] == m[j].1);
                if n != name@ {
                    if hit || j < i {
                        assert(l[j] == m[j]);
                        assert(old(self)@[l[j].0] == l[j].1);
                    } else {
                        assert(l[j - 1] == m[j]);
                        assert(old(self)@[l[j - 1].0] == l[j - 1].1);
                    }
                } else {
                    assert(self@[m[i as int].0] == m[i as int].1);
                }
            }
            assert(self@ =~= old(self)@.insert(name@, down));
        }
    }
}

/// The picture says of each entry's name what the entry says.
pub proof fn lemma_entries(k: Known)
    requires
        k.wf(),
    ensures
        forall|i: int|
            0 <= i < k.entries@.len() ==> k@.contains_key((#[trigger] named(k.entries@)[i]).0)
                && k@[named(k.entries@)[i].0] == named(k.entries@)[i].1,
{
    let l = named(k.entries@);
    assert forall|i: int| 0 <= i < l.len() implies k@.contains_key((#[trigger] l[i]).0)
        && k@[l[i].0] == l[i].1 by {
        let j = choose|j: int| 0 <= j < l.len() && (#[trigger] l[j]).0 == l[i].0;
        names_are_in_one_line(l[i].0, l[i].0, l[i].0);
        if i < j {
            assert(text_before(l[i].0, l[j].0));
        } else if j < i {
            assert(text_before(l[j].0, l[i].0));
        }
    }
}

} // verus!
