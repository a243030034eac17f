//! Nullable foreign arrays and the bounded iterators that walk them.
//!
//! Every foreign array arrives as a (possibly-null base pointer, element
//! count) pair, with the count stored in the owning record, beside the
//! array. Two layouts exist: a *direct* array stores its records by value,
//! an *indirect* array stores one pointer per record, each of which may
//! itself be null. A bounded walk over either layout visits at most the
//! declared count of records, visits nothing when the base is null, and,
//! for an indirect array, stops at the first null record pointer instead of
//! fabricating a value.

use vstd::prelude::*;

verus! {

/// A foreign array of records stored by value. `None` stands for a null
/// base pointer; the count the owning record declares lives beside it.
#[derive(Debug, Clone, PartialEq)]
pub struct DirectArray<T> {
    pub base: Option<Vec<T>>,
}

/// A foreign array of per-record pointers. The outer `None` stands for a
/// null base pointer, an inner `None` for a null record pointer.
#[derive(Debug, Clone, PartialEq)]
pub struct IndirectArray<T> {
    pub base: Option<Vec<Option<T>>>,
}

/// The records of `s` up to, but not including, the first null pointer.
pub open spec fn prefix_some<T>(s: Seq<Option<T>>) -> Seq<T>
    decreases s.len(),
{
    if s.len() == 0 {
        Seq::empty()
    } else {
        match s[0] {
            Option::Some(x) => seq![x] + prefix_some(s.skip(1)),
            Option::None => Seq::empty(),
        }
    }
}

/// When every pointer of `s` is non-null, the walk visits all of `s`.
pub proof fn lemma_prefix_some_all<T>(s: Seq<Option<T>>)
    requires
        forall|i: int| 0 <= i < s.len() ==> s[i] is Some,
    ensures
        prefix_some(s).len() == s.len(),
        forall|i: int| 0 <= i < s.len() ==> #[trigger] prefix_some(s)[i] == s[i]->Some_0,
    decreases s.len(),
{
    if s.len() > 0 {
        lemma_prefix_some_all(s.skip(1));
    }
}

impl<T> DirectArray<T> {
    /// The base pointer is null.
    pub open spec fn is_null(self) -> bool {
        self.base is None
    }

    /// The array agrees with a count field: either absent (null), or
    /// holding exactly `count` records.
    pub open spec fn matches(self, count: nat) -> bool {
        match self.base {
            Option::None => true,
            Option::Some(v) => v@.len() == count,
        }
    }

    /// The array is mandatory for `count`: it agrees with it and may be
    /// null only when the count is zero.
    pub open spec fn complete(self, count: nat) -> bool {
        self.matches(count) && (count > 0 ==> !self.is_null())
    }

    /// The records a bounded walk with declared count `count` visits:
    /// nothing from a null base, and never more than the base holds.
    pub open spec fn items(self, count: nat) -> Seq<T> {
        match self.base {
            Option::None => Seq::empty(),
            Option::Some(v) => if count <= v@.len() {
                v@.take(count as int)
            } else {
                v@
            },
        }
    }

    /// The record a bounded lookup at `i` under declared count `count`
    /// finds, if any.
    pub open spec fn entry(self, count: nat, i: nat) -> Option<T> {
        if i < count {
            match self.base {
                Option::None => Option::None,
                Option::Some(v) => if i < v@.len() {
                    Option::Some(v@[i as int])
                } else {
                    Option::None
                },
            }
        } else {
            Option::None
        }
    }

    /// Begin a bounded walk over the array with declared count `count`.
    ///
    /// A walk over a null base yields nothing whatever the count; a walk
    /// over a non-null base that agrees with the count yields exactly
    /// `count` records.
    pub fn iter(&self, count: usize) -> (it: DirectIter<'_, T>)
        ensures
            it.remaining() == self.items(count as nat),
            self.is_null() ==> it.remaining().len() == 0,
            !self.is_null() && self.matches(count as nat) ==> it.remaining().len() == count,
    {
        let it = match &self.base {
            Option::None => DirectIter { base: None, count: 0, pos: 0 },
            Option::Some(v) => {
                let n = if count <= v.len() {
                    count
                } else {
                    v.len()
                };
                DirectIter { base: Some(v), count: n, pos: 0 }
            },
        };
        proof {
            assert(it.remaining() =~= self.items(count as nat));
        }
        it
    }

    /// Bounded lookup: the record at `i`, absent when `i` is out of the
    /// declared count or the base is null or shorter than declared.
    ///
    /// On an array that agrees with a positive declared count, the lookup
    /// is present exactly for the indices below the count.
    pub fn get(&self, count: usize, i: usize) -> (r: Option<&T>)
        ensures
            match r {
                Option::Some(x) => self.entry(count as nat, i as nat) == Option::Some(*x),
                Option::None => self.entry(count as nat, i as nat) is None,
            },
            !self.is_null() && self.matches(count as nat) ==> (r is Some <==> i < count),
            self.is_null() ==> r is None,
    {
        if i < count {
            match &self.base {
                Option::None => None,
                Option::Some(v) => {
                    if i < v.len() {
                        Some(&v[i])
                    } else {
                        None
                    }
                },
            }
        } else {
            None
        }
    }
}

// The indirect-array vocabulary is written over the bare base value, so
// that a record type whose own fields hold such an array of records of
// the same type (a scene-graph node and its children) can use it too.
/// The base pointer is null.
pub open spec fn indirect_is_null<T>(base: Option<Vec<Option<T>>>) -> bool {
    base is None
}

/// The base agrees with a count field: either absent (null), or holding
/// exactly `count` record pointers.
pub open spec fn indirect_matches<T>(base: Option<Vec<Option<T>>>, count: nat) -> bool {
    match base {
        Option::None => true,
        Option::Some(v) => v@.len() == count,
    }
}

/// No record pointer within the declared count is null.
pub open spec fn indirect_all_present<T>(base: Option<Vec<Option<T>>>, count: nat) -> bool {
    match base {
        Option::None => true,
        Option::Some(v) => forall|i: int| 0 <= i < count && i < v@.len() ==> v@[i] is Some,
    }
}

/// The row of record pointers a bounded walk inspects.
pub open spec fn indirect_row<T>(base: Option<Vec<Option<T>>>, count: nat) -> Seq<Option<T>> {
    match base {
        Option::None => Seq::empty(),
        Option::Some(v) => if count <= v@.len() {
            v@.take(count as int)
        } else {
            v@
        },
    }
}

/// The records a bounded walk visits: the row up to the declared count,
/// truncated at the first null record pointer.
pub open spec fn indirect_items<T>(base: Option<Vec<Option<T>>>, count: nat) -> Seq<T> {
    prefix_some(indirect_row(base, count))
}

/// The record a bounded lookup at `i` under declared count `count`
/// finds: absent when out of count, when any pointer on the way is null,
/// or when the base is shorter than declared.
pub open spec fn indirect_entry<T>(base: Option<Vec<Option<T>>>, count: nat, i: nat) -> Option<
    T,
> {
    if i < count {
        match base {
            Option::None => Option::None,
            Option::Some(v) => if i < v@.len() {
                v@[i as int]
            } else {
                Option::None
            },
        }
    } else {
        Option::None
    }
}

/// Begin a bounded walk over an indirect base with declared count
/// `count`.
///
/// A walk over a null base yields nothing whatever the count; a walk
/// over a non-null base that agrees with the count and has no null
/// record pointer yields exactly `count` records.
pub fn indirect_iter<'a, T>(base: &'a Option<Vec<Option<T>>>, count: usize) -> (it: IndirectIter<
    'a,
    T,
>)
    ensures
        it.remaining() == indirect_items(*base, count as nat),
        indirect_is_null(*base) ==> it.remaining().len() == 0,
        !indirect_is_null(*base) && indirect_matches(*base, count as nat) && indirect_all_present(
            *base,
            count as nat,
        ) ==> it.remaining().len() == count,
{
    let it = match base {
        Option::None => IndirectIter { base: None, count: 0, pos: 0 },
        Option::Some(v) => {
            let n = if count <= v.len() {
                count
            } else {
                v.len()
            };
            IndirectIter { base: Some(v), count: n, pos: 0 }
        },
    };
    proof {
        assert(it.row() =~= indirect_row(*base, count as nat));
        if !indirect_is_null(*base) && indirect_matches(*base, count as nat)
            && indirect_all_present(*base, count as nat) {
            lemma_prefix_some_all(indirect_row(*base, count as nat));
        }
    }
    it
}

/// Bounded lookup in an indirect base: the record at `i`, absent when
/// `i` is out of the declared count, the base or the record pointer is
/// null, or the base is shorter than declared.
pub fn indirect_get<'a, T>(base: &'a Option<Vec<Option<T>>>, count: usize, i: usize) -> (r: Option<
    &'a T,
>)
    ensures
        match r {
            Option::Some(x) => indirect_entry(*base, count as nat, i as nat) == Option::Some(*x),
            Option::None => indirect_entry(*base, count as nat, i as nat) is None,
        },
        !indirect_is_null(*base) && indirect_matches(*base, count as nat) && indirect_all_present(
            *base,
            count as nat,
        ) ==> (r is Some <==> i < count),
        indirect_is_null(*base) ==> r is None,
{
    if i < count {
        match base {
            Option::None => None,
            Option::Some(v) => {
                if i < v.len() {
                    match &v[i] {
                        Option::Some(x) => Some(x),
                        Option::None => None,
                    }
                } else {
                    None
                }
            },
        }
    } else {
        None
    }
}

impl<T> IndirectArray<T> {
    /// The base pointer is null.
    pub open spec fn is_null(self) -> bool {
        indirect_is_null(self.base)
    }

    /// The array agrees with a count field: either absent (null), or
    /// holding exactly `count` record pointers.
    pub open spec fn matches(self, count: nat) -> bool {
        indirect_matches(self.base, count)
    }

    /// The array is mandatory for `count`: it agrees with it and may be
    /// null only when the count is zero.
    pub open spec fn complete(self, count: nat) -> bool {
        self.matches(count) && (count > 0 ==> !self.is_null())
    }

    /// No record pointer within the declared count is null.
    pub open spec fn all_present(self, count: nat) -> bool {
        indirect_all_present(self.base, count)
    }

    /// The records a bounded walk visits: the row up to the declared
    /// count, truncated at the first null record pointer.
    pub open spec fn items(self, count: nat) -> Seq<T> {
        indirect_items(self.base, count)
    }

    /// The record a bounded lookup at `i` under declared count `count`
    /// finds.
    pub open spec fn entry(self, count: nat, i: nat) -> Option<T> {
        indirect_entry(self.base, count, i)
    }

    /// Begin a bounded walk over the array with declared count `count`.
    pub fn iter(&self, count: usize) -> (it: IndirectIter<'_, T>)
        ensures
            it.remaining() == self.items(count as nat),
            self.is_null() ==> it.remaining().len() == 0,
            !self.is_null() && self.matches(count as nat) && self.all_present(count as nat)
                ==> it.remaining().len() == count,
    {
        indirect_iter(&self.base, count)
    }

    /// Bounded lookup: the record at `i`, absent when `i` is out of the
    /// declared count, the base or the record pointer is null, or the base
    /// is shorter than declared.
    pub fn get(&self, count: usize, i: usize) -> (r: Option<&T>)
        ensures
            match r {
                Option::Some(x) => self.entry(count as nat, i as nat) == Option::Some(*x),
                Option::None => self.entry(count as nat, i as nat) is None,
            },
            !self.is_null() && self.matches(count as nat) && self.all_present(count as nat)
                ==> (r is Some <==> i < count),
            self.is_null() ==> r is None,
    {
        indirect_get(&self.base, count, i)
    }
}

/// A bounded walk over a direct array: lazy, forward-only, restarted only
/// by constructing a new walk.
pub struct DirectIter<'a, T> {
    base: Option<&'a Vec<T>>,
    count: usize,
    pos: usize,
}

impl<'a, T> DirectIter<'a, T> {
    #[verifier::type_invariant]
    spec fn wf(self) -> bool {
        &&& self.pos <= self.count
        &&& match self.base {
            Option::None => self.count == 0,
            Option::Some(v) => self.count <= v@.len(),
        }
    }

    /// The records the walk has not visited yet.
    pub closed spec fn remaining(self) -> Seq<T> {
        match self.base {
            Option::None => Seq::empty(),
            Option::Some(v) => v@.take(self.count as int).skip(self.pos as int),
        }
    }

    /// How many records the walk will still visit.
    pub fn len(&self) -> (n: usize)
        ensures
            n == self.remaining().len(),
    {
        proof {
            use_type_invariant(self);
        }
        self.count - self.pos
    }

    /// The next record, or nothing once the declared count is exhausted.
    pub fn next(&mut self) -> (r: Option<&'a T>)
        ensures
            old(self).remaining().len() == 0 ==> r is None && final(self).remaining() == old(
                self,
            ).remaining(),
            old(self).remaining().len() > 0 ==> {
                &&& r matches Some(x) && *x == old(self).remaining()[0]
                &&& final(self).remaining() == old(self).remaining().skip(1)
            },
    {
        proof {
            use_type_invariant(&*self);
        }
        match self.base {
            Option::None => None,
            Option::Some(v) => {
                if self.pos < self.count {
                    let item = &v[self.pos];
                    self.pos = self.pos + 1;
                    Some(item)
                } else {
                    None
                }
            },
        }
    }
}

/// A bounded walk over an indirect array: lazy, forward-only, ending early
/// at an unexpected null record pointer.
pub struct IndirectIter<'a, T> {
    base: Option<&'a Vec<Option<T>>>,
    count: usize,
    pos: usize,
}

impl<'a, T> IndirectIter<'a, T> {
    #[verifier::type_invariant]
    spec fn wf(self) -> bool {
        &&& self.pos <= self.count
        &&& match self.base {
            Option::None => self.count == 0,
            Option::Some(v) => self.count <= v@.len(),
        }
    }

    /// The record pointers the walk has not inspected yet.
    spec fn row(self) -> Seq<Option<T>> {
        match self.base {
            Option::None => Seq::empty(),
            Option::Some(v) => v@.take(self.count as int).skip(self.pos as int),
        }
    }

    /// The records the walk will still visit: the rest of the row,
    /// truncated at the first null record pointer.
    pub closed spec fn remaining(self) -> Seq<T> {
        prefix_some(self.row())
    }

    /// The next record; nothing once the declared count is exhausted, and
    /// nothing ever again after a null record pointer.
    pub fn next(&mut self) -> (r: Option<&'a T>)
        ensures
            old(self).remaining().len() == 0 ==> r is None && final(self).remaining() == old(
                self,
            ).remaining(),
            old(self).remaining().len() > 0 ==> {
                &&& r matches Some(x) && *x == old(self).remaining()[0]
                &&& final(self).remaining() == old(self).remaining().skip(1)
            },
    {
        proof {
            use_type_invariant(&*self);
        }
        match self.base {
            Option::None => None,
            Option::Some(v) => {
                if self.pos < self.count {
                    match &v[self.pos] {
                        Option::Some(x) => {
                            proof {
                                assert(old(self).row()[0] is Some);
                                assert(old(self).row().skip(1) =~= IndirectIter {
                                    pos: (self.pos + 1) as usize,
                                    ..*old(self)
                                }.row());
                            }
                            self.pos = self.pos + 1;
                            Some(x)
                        },
                        Option::None => {
                            proof {
                                assert(old(self).row()[0] is None);
                                assert(old(self).remaining().len() == 0);
                            }
                            self.pos = self.count;
                            proof {
                                assert(self.row() =~= Seq::<Option<T>>::empty());
                            }
                            None
                        },
                    }
                } else {
                    None
                }
            },
        }
    }
}

} // verus!
