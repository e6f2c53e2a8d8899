//! The control-flow query surface: a read-only table from the byte offset of a
//! statement or expression to what is known about control flow there.

use std::collections::HashMap;
use vstd::prelude::*;

verus! {

broadcast use vstd::std_specs::hash::group_hash_axioms;

/// What control-flow analysis found out about one source position.
#[derive(Clone, Copy, Debug, PartialEq, Eq, Structural)]
pub struct ControlFlowFact {
    /// Control never reaches the position.
    pub unreachable: bool,
    /// Execution does not continue past the position (it returns, throws,
    /// breaks or loops forever there).
    pub stops_execution: bool,
}

/// The facts of one analysed program, keyed by byte offset.
///
/// A rule only ever reads the table. An offset outside every analysed function
/// has no entry, and every query answers that with `None`.
pub struct ControlFlow {
    facts: HashMap<u32, ControlFlowFact>,
}

impl View for ControlFlow {
    type V = Map<u32, ControlFlowFact>;

    closed spec fn view(&self) -> Map<u32, ControlFlowFact> {
        self.facts@
    }
}

impl Clone for ControlFlow {
    /// A snapshot with the same facts.
    fn clone(&self) -> (copy: ControlFlow)
        ensures
            copy@ == self@,
    {
        ControlFlow { facts: self.facts.clone() }
    }
}

impl ControlFlow {
    /// A table without facts.
    pub fn new() -> (table: ControlFlow)
        ensures
            table@ == Map::<u32, ControlFlowFact>::empty(),
    {
        ControlFlow { facts: HashMap::new() }
    }

    /// Records `fact` for `offset`, in place of an earlier fact for it.
    pub fn record(&mut self, offset: u32, fact: ControlFlowFact)
        ensures
            final(self)@ == old(self)@.insert(offset, fact),
    {
        self.facts.insert(offset, fact);
    }

    /// The fact recorded for `offset`, if there is one.
    pub fn lookup(&self, offset: u32) -> (found: Option<ControlFlowFact>)
        ensures
            found == (if self@.contains_key(offset) {
                Some(self@[offset])
            } else {
                None
            }),
    {
        match self.facts.get(&offset) {
            Some(fact) => Some(*fact),
            None => None,
        }
    }

    /// Whether control can reach `offset`: `None` where nothing is known.
    pub fn is_reachable(&self, offset: u32) -> (answer: Option<bool>)
        ensures
            answer == reachable_at(self@, offset),
    {
        match self.lookup(offset) {
            Some(fact) => Some(!fact.unreachable),
            None => None,
        }
    }

    /// Whether execution stops at `offset`: `None` where nothing is known.
    pub fn stops_execution(&self, offset: u32) -> (answer: Option<bool>)
        ensures
            answer == stops_at(self@, offset),
    {
        match self.lookup(offset) {
            Some(fact) => Some(fact.stops_execution),
            None => None,
        }
    }
}

/// Reachability of `offset` according to `facts`, as a tri-state.
pub open spec fn reachable_at(facts: Map<u32, ControlFlowFact>, offset: u32) -> Option<bool> {
    if facts.contains_key(offset) {
        Some(!facts[offset].unreachable)
    } else {
        None
    }
}

/// Whether execution stops at `offset` according to `facts`, as a tri-state.
pub open spec fn stops_at(facts: Map<u32, ControlFlowFact>, offset: u32) -> Option<bool> {
    if facts.contains_key(offset) {
        Some(facts[offset].stops_execution)
    } else {
        None
    }
}

/// Both queries are unknown exactly where no fact is recorded, and known
/// together everywhere else.
pub proof fn lemma_unknown_iff_unrecorded(facts: Map<u32, ControlFlowFact>, offset: u32)
    ensures
        !facts.contains_key(offset) <==> reachable_at(facts, offset) is None,
        !facts.contains_key(offset) <==> stops_at(facts, offset) is None,
{
}

} // verus!
