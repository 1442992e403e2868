//! Interned String.
//!
//! An interned string is a string value that is stored only once in memory
//! in a string intern table. It reduces memory usage when the same string
//! is used multiple times, and improves performance for string
//! comparisons.
//!
//! The table holds a reference to every interned string, so a garbage
//! collection pass has to be run by hand: it drops the strings that
//! nothing but the table refers to.

use std::rc::Rc;
use vstd::prelude::*;
use vstd::std_specs::cmp::PartialEqSpecImpl;
use crate::text::same_text;

verus! {

/// `Rc::from` for a string slice: a new allocation that holds the
/// characters of the slice.
#[verifier::external_body]
fn rc_from_str(text: &str) -> (rc: Rc<str>)
    ensures
        rc@ == text@,
{
    Rc::from(text)
}

/// `Rc::as_ref`: the characters of the allocation as a slice.
#[verifier::external_body]
fn rc_as_str(rc: &Rc<str>) -> (text: &str)
    ensures
        text@ == rc@,
{
    rc.as_ref()
}

/// `Rc::clone`: another pointer to the same allocation, hence with the same
/// characters.
#[verifier::external_body]
fn rc_clone(rc: &Rc<str>) -> (copy: Rc<str>)
    ensures
        copy@ == rc@,
{
    Rc::clone(rc)
}

/// `Rc::ptr_eq`: whether two pointers point to the same allocation. Two
/// pointers that do have the same characters; two that do not may have the
/// same characters all the same.
#[verifier::external_body]
fn rc_ptr_eq(a: &Rc<str>, b: &Rc<str>) -> (same: bool)
    ensures
        same ==> a@ == b@,
{
    Rc::ptr_eq(a, b)
}

/// `Rc::strong_count`: the number of pointers to the allocation, the given
/// one included.
#[verifier::external_body]
fn rc_strong_count(rc: &Rc<str>) -> (count: usize)
    ensures
        count >= 1,
{
    Rc::strong_count(rc)
}

/// An interned string.
#[derive(Debug, Clone, Hash)]
pub struct InternStr(Rc<str>);

impl View for InternStr {
    type V = Seq<char>;

    closed spec fn view(&self) -> Seq<char> {
        self.0@
    }
}

impl InternStr {
    /// Returns `true` if the two `InternStr`s point to the same allocation.
    /// Two that do hold the same characters.
    pub fn ptr_eq(&self, other: &Self) -> (same: bool)
        ensures
            same ==> self@ == other@,
    {
        rc_ptr_eq(&self.0, &other.0)
    }

    /// Collect garbage.
    ///
    /// Scans the string table and drops strings that no longer have references.
    pub fn gc(table: &mut InternTable)
        requires
            old(table).wf(),
        ensures
            final(table).wf(),
            exists|keep: Seq<bool>|
                keep.len() == old(table).texts().len() && final(table).texts() == select(
                    old(table).texts(),
                    keep,
                ),
    {
        table.collect_garbage()
    }

    /// A string with the characters of the slice, in an allocation of its
    /// own and in no table.
    pub fn from_str(text: &str) -> (s: Self)
        ensures
            s@ == text@,
    {
        InternStr(rc_from_str(text))
    }

    /// A string with the characters of the given one, in an allocation of
    /// its own and in no table.
    pub fn from_string(owned: String) -> (s: Self)
        ensures
            s@ == owned@,
    {
        InternStr(rc_from_str(owned.as_str()))
    }

    /// The characters as a slice.
    pub fn as_str(&self) -> (text: &str)
        ensures
            text@ == self@,
    {
        rc_as_str(&self.0)
    }

    /// Another handle to the same allocation.
    pub fn share(&self) -> (copy: Self)
        ensures
            copy@ == self@,
    {
        InternStr(rc_clone(&self.0))
    }

    /// Whether the string holds the characters of the slice.
    pub fn eq_str(&self, other: &str) -> (r: bool)
        ensures
            r == (self@ == other@),
    {
        same_text(rc_as_str(&self.0), other)
    }

    /// Whether only the given handle points to the allocation.
    fn unshared(&self) -> bool {
        rc_strong_count(&self.0) == 1
    }
}

impl PartialEq for InternStr {
    fn eq(&self, other: &InternStr) -> (r: bool) {
        // If the two RCs have the same pointer, then the string contents will be equal.
        // Multiple instances of InterStr can exist outside of a table.
        // Short circuiting spares us from hopping the pointer and doing a string comparison.
        rc_ptr_eq(&self.0, &other.0) || same_text(rc_as_str(&self.0), rc_as_str(&other.0))
    }
}

impl PartialEqSpecImpl for InternStr {
    open spec fn obeys_eq_spec() -> bool {
        true
    }

    open spec fn eq_spec(&self, other: &InternStr) -> bool {
        self@ == other@
    }
}

impl Eq for InternStr {

}

impl core::borrow::Borrow<str> for InternStr {
    /// The characters as a slice, so that a collection keyed by interned
    /// strings can be searched with a string slice.
    fn borrow(&self) -> (text: &str)
        ensures
            ({
                let slice: &str = text;
                slice@ == self@
            }),
    {
        rc_as_str(&self.0)
    }
}

/// The texts chosen by the flags, in order.
pub open spec fn select(texts: Seq<Seq<char>>, keep: Seq<bool>) -> Seq<Seq<char>>
    decreases texts.len(),
{
    if texts.len() == 0 || keep.len() != texts.len() {
        Seq::<Seq<char>>::empty()
    } else if keep.last() {
        select(texts.drop_last(), keep.drop_last()).push(texts.last())
    } else {
        select(texts.drop_last(), keep.drop_last())
    }
}

/// Intern string table.
#[derive(Debug)]
pub struct InternTable {
    entries: Vec<InternStr>,
}

impl InternTable {
    /// The texts in the table, in the order in which they were first
    /// interned.
    pub closed spec fn texts(self) -> Seq<Seq<char>> {
        Seq::new(self.entries@.len(), |i: int| self.entries@[i]@)
    }

    /// Whether every text is in the table only once.
    pub open spec fn wf(self) -> bool {
        forall|i: int, j: int|
            0 <= i < j < self.texts().len() ==> self.texts()[i] != self.texts()[j]
    }

    /// An empty table.
    pub fn new() -> (table: Self)
        ensures
            table.wf(),
            table.texts() == Seq::<Seq<char>>::empty(),
    {
        let table = Self { entries: Vec::new() };
        assert(table.texts() =~= Seq::<Seq<char>>::empty());
        table
    }

    /// The number of strings in the table.
    pub fn len(&self) -> (n: usize)
        ensures
            n == self.texts().len(),
    {
        self.entries.len()
    }

    /// Get an existing string out of the table, or insert it.
    ///
    /// The string returned for a text that is in the table shares the
    /// table's allocation; a text that is not is copied into a new
    /// allocation, which the table then holds too.
    pub fn get_or_insert(&mut self, text: &str) -> (s: InternStr)
        requires
            old(self).wf(),
        ensures
            s@ == text@,
            final(self).wf(),
            final(self).texts() == if old(self).texts().contains(text@) {
                old(self).texts()
            } else {
                old(self).texts().push(text@)
            },
    {
        let mut i: usize = 0;
        while i < self.entries.len()
            invariant
                i <= self.entries@.len(),
                *self == *old(self),
                old(self).wf(),
                forall|k: int| 0 <= k < i ==> self.texts()[k] != text@,
            decreases self.entries@.len() - i,
        {
            if self.entries[i].eq_str(text) {
                assert(self.texts()[i as int] == text@);
                return self.entries[i].share();
            }
            i += 1;
        }
        let intern_str = InternStr::from_str(text);
        let shared = intern_str.share();
        self.entries.push(intern_str);
        assert(self.texts() =~= old(self).texts().push(text@));
        shared
    }

    /// Drops the strings whose flag is false.
    pub fn retain(&mut self, keep: &Vec<bool>)
        requires
            old(self).wf(),
            keep@.len() == old(self).texts().len(),
        ensures
            final(self).wf(),
            final(self).texts() == select(old(self).texts(), keep@),
    {
        let mut entries: Vec<InternStr> = Vec::new();
        core::mem::swap(&mut entries, &mut self.entries);
        let ghost texts = old(self).texts();
        let mut kept: Vec<InternStr> = Vec::new();
        let ghost mut origin: Seq<int> = Seq::empty();
        let mut i: usize = 0;
        while i < entries.len()
            invariant
                i <= entries@.len(),
                entries@ == old(self).entries@,
                texts == old(self).texts(),
                texts.len() == entries@.len(),
                keep@.len() == entries@.len(),
                old(self).wf(),
                origin.len() == kept@.len(),
                forall|k: int|
                    0 <= k < kept@.len() ==> 0 <= #[trigger] origin[k] < i && kept@[k]@
                        == texts[origin[k]],
                forall|k: int, l: int|
                    0 <= k < l < kept@.len() ==> origin[k] < origin[l],
                Seq::new(kept@.len(), |k: int| kept@[k]@) == select(
                    texts.take(i as int),
                    keep@.take(i as int),
                ),
            decreases entries@.len() - i,
        {
            proof {
                assert(texts.take(i + 1).drop_last() =~= texts.take(i as int));
                assert(keep@.take(i + 1).drop_last() =~= keep@.take(i as int));
                assert(texts[i as int] == entries@[i as int]@);
            }
            let ghost before = Seq::new(kept@.len(), |k: int| kept@[k]@);
            if keep[i] {
                kept.push(entries[i].share());
                proof {
                    origin = origin.push(i as int);
                    assert(Seq::new(kept@.len(), |k: int| kept@[k]@) =~= before.push(
                        texts[i as int],
                    ));
                }
            }
            i += 1;
        }
        assert(texts.take(entries@.len() as int) =~= texts);
        assert(keep@.take(entries@.len() as int) =~= keep@);
        self.entries = kept;
        assert(self.texts() =~= select(texts, keep@));
        assert forall|a: int, b: int| 0 <= a < b < self.texts().len() implies self.texts()[a]
            != self.texts()[b] by {
            assert(self.texts()[a] == texts[origin[a]]);
            assert(self.texts()[b] == texts[origin[b]]);
            assert(origin[a] < origin[b]);
        }
    }

    /// Collect garbage: drops the strings that nothing but the table
    /// refers to. Which strings those are is known only while the program
    /// runs; the strings that stay keep their order.
    pub fn collect_garbage(&mut self)
        requires
            old(self).wf(),
        ensures
            final(self).wf(),
            exists|keep: Seq<bool>|
                keep.len() == old(self).texts().len() && final(self).texts() == select(
                    old(self).texts(),
                    keep,
                ),
    {
        let mut keep: Vec<bool> = Vec::new();
        let mut i: usize = 0;
        while i < self.entries.len()
            invariant
                i <= self.entries@.len(),
                *self == *old(self),
                keep@.len() == i,
            decreases self.entries@.len() - i,
        {
            // The table keeps strong references, so if only one Rc is left then
            // no further references are live.
            keep.push(!self.entries[i].unshared());
            i += 1;
        }
        self.retain(&keep);
    }

    /// The number of strings that nothing but the table refers to, and
    /// the number of strings in the table.
    pub fn garbage_score(&self) -> (score: (usize, usize))
        ensures
            score.0 <= score.1,
            score.1 == self.texts().len(),
    {
        let mut count: usize = 0;
        let mut i: usize = 0;
        while i < self.entries.len()
            invariant
                i <= self.entries@.len(),
                count <= i,
            decreases self.entries@.len() - i,
        {
            if self.entries[i].unshared() {
                count += 1;
            }
            i += 1;
        }
        (count, self.entries.len())
    }
}

} // verus!
