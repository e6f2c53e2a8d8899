//! Sets of rule codes.

use crate::text::str_eq;
use vstd::prelude::*;

verus! {

/// The contents of a list of strings, in order.
pub open spec fn string_views(list: Seq<String>) -> Seq<Seq<char>> {
    Seq::new(list.len(), |i: int| list[i]@)
}

/// A set of rule codes that remembers the order in which they arrived.
///
/// Inserting a code that is present changes nothing, so no code occurs twice.
pub struct CodeSet {
    codes: Vec<String>,
}

impl View for CodeSet {
    type V = Seq<Seq<char>>;

    closed spec fn view(&self) -> Seq<Seq<char>> {
        string_views(self.codes@)
    }
}

impl Clone for CodeSet {
    /// A set with the same codes in the same order.
    fn clone(&self) -> (copy: CodeSet)
        ensures
            copy@ == self@,
    {
        let mut codes: Vec<String> = Vec::new();
        let mut i: usize = 0;
        while i < self.codes.len()
            invariant
                i <= self.codes.len(),
                codes.len() == i,
                forall|j: int| 0 <= j < i ==> codes@[j]@ == self.codes@[j]@,
            decreases self.codes.len() - i,
        {
            codes.push(self.codes[i].clone());
            i += 1;
        }
        assert(string_views(codes@) =~= string_views(self.codes@));
        CodeSet { codes }
    }
}

impl CodeSet {
    /// No code occurs twice. Every set made by `new` and grown by `insert` is
    /// well formed.
    pub open spec fn wf(&self) -> bool {
        self@.no_duplicates()
    }

    /// The empty set.
    pub fn new() -> (set: CodeSet)
        ensures
            set@ == Seq::<Seq<char>>::empty(),
            set.wf(),
    {
        let codes: Vec<String> = Vec::new();
        assert(string_views(codes@) =~= Seq::<Seq<char>>::empty());
        CodeSet { codes }
    }

    /// How many codes the set holds.
    pub fn len(&self) -> (count: usize)
        ensures
            count == self@.len(),
    {
        self.codes.len()
    }

    /// Whether `code` is in the set.
    pub fn contains(&self, code: &str) -> (found: bool)
        ensures
            found == self@.contains(code@),
    {
        let mut i: usize = 0;
        while i < self.codes.len()
            invariant
                i <= self.codes.len(),
                forall|j: int| 0 <= j < i ==> string_views(self.codes@)[j] != code@,
            decreases self.codes.len() - i,
        {
            if str_eq(self.codes[i].as_str(), code) {
                assert(string_views(self.codes@)[i as int] == code@);
                return true;
            }
            i += 1;
        }
        false
    }

    /// Adds `code` unless it is present, and says whether it was added.
    pub fn insert(&mut self, code: String) -> (added: bool)
        ensures
            added == !old(self)@.contains(code@),
            final(self)@ == (if added {
                old(self)@.push(code@)
            } else {
                old(self)@
            }),
            old(self).wf() ==> final(self).wf(),
    {
        if self.contains(code.as_str()) {
            false
        } else {
            let ghost before = string_views(self.codes@);
            self.codes.push(code);
            assert(string_views(self.codes@) =~= before.push(code@));
            true
        }
    }

    /// The codes, in the order in which they arrived.
    pub fn as_vec(&self) -> (codes: &Vec<String>)
        ensures
            string_views(codes@) == self@,
    {
        &self.codes
    }
}

} // verus!
