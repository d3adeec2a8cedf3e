//! The probabilities configured for the fault types.

use std::collections::HashMap;

use vstd::prelude::*;

use crate::fault_type;
use crate::fault_type::FaultType;
use crate::probability::Probability;

verus! {

/// A probability for each of some fault types.
#[derive(Debug)]
pub struct FaultProbabilities {
    /// The probabilities, by the code of their fault type.
    chances: HashMap<u64, Probability>,
}

impl View for FaultProbabilities {
    type V = Map<FaultType, Probability>;

    closed spec fn view(&self) -> Map<FaultType, Probability> {
        Map::new(
            |t: FaultType| self.chances@.contains_key(fault_type::fault_code(t)),
            |t: FaultType| self.chances@[fault_type::fault_code(t)],
        )
    }
}

impl Clone for FaultProbabilities {
    fn clone(&self) -> (copy: Self)
        ensures
            copy@ == self@,
    {
        FaultProbabilities { chances: self.chances.clone() }
    }
}

impl FaultProbabilities {
    /// No probability for any fault type.
    pub fn new() -> (table: FaultProbabilities)
        ensures
            table@ == Map::<FaultType, Probability>::empty(),
    {
        let table: FaultProbabilities = FaultProbabilities { chances: HashMap::new() };
        assert(table@ =~= Map::<FaultType, Probability>::empty());
        table
    }

    /// Sets the probability for a fault type.
    pub fn insert(&mut self, fault_type: FaultType, probability: Probability)
        ensures
            final(self)@ == old(self)@.insert(fault_type, probability),
    {
        self.chances.insert(fault_type.code(), probability);
        assert(self@ =~= old(self)@.insert(fault_type, probability));
    }

    /// Removes the probability for a fault type.
    pub fn remove(&mut self, fault_type: FaultType)
        ensures
            final(self)@ == old(self)@.remove(fault_type),
    {
        self.chances.remove(&fault_type.code());
        assert(self@ =~= old(self)@.remove(fault_type));
    }

    /// The probability for a fault type, if one is set.
    pub fn get(&self, fault_type: FaultType) -> (probability: Option<Probability>)
        ensures
            probability == (if self@.contains_key(fault_type) {
                Some(self@[fault_type])
            } else {
                None
            }),
    {
        match self.chances.get(&fault_type.code()) {
            Some(probability) => Some(*probability),
            None => None,
        }
    }
}

} // verus!
