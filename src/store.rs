use vstd::prelude::*;

use crate::error::ContractError;
use crate::types::{Escrow, EscrowView};

verus! {

/// The persisted escrow records, keyed by engagement id.
pub struct EscrowStore {
    records: Vec<Escrow>,
    model: Ghost<Map<Seq<char>, EscrowView>>,
}

/// Each record sits in the map under its own engagement id, every key of the
/// map has a record, and no two records share an id.
spec fn records_match_model(records: Seq<Escrow>, model: Map<Seq<char>, EscrowView>) -> bool {
    &&& forall|i: int|
        0 <= i < records.len() ==> {
            &&& model.contains_key(#[trigger] records[i]@.engagement_id)
            &&& model[records[i]@.engagement_id] == records[i]@
        }
    &&& forall|k: Seq<char>|
        #[trigger] model.contains_key(k) ==> exists|i: int|
            0 <= i < records.len() && #[trigger] records[i]@.engagement_id == k
    &&& forall|i: int, j: int|
        0 <= i < records.len() && 0 <= j < records.len() && #[trigger] records[i]@.engagement_id
            == #[trigger] records[j]@.engagement_id ==> i == j
}

/// What a caller sees of an operation whose success writes `outcome`'s record.
pub open spec fn outcome_status(outcome: Result<EscrowView, ContractError>) -> Result<(), ContractError> {
    match outcome {
        Ok(_) => Ok(()),
        Err(e) => Err(e),
    }
}

/// The store after an operation with the given outcome on record `id`: the
/// new record is written on success, and nothing changes on failure.
pub open spec fn store_after(
    store: Map<Seq<char>, EscrowView>,
    id: Seq<char>,
    outcome: Result<EscrowView, ContractError>,
) -> Map<Seq<char>, EscrowView> {
    match outcome {
        Ok(v) => store.insert(id, v),
        Err(_) => store,
    }
}

impl View for EscrowStore {
    type V = Map<Seq<char>, EscrowView>;

    closed spec fn view(&self) -> Map<Seq<char>, EscrowView> {
        self.model@
    }
}

impl EscrowStore {
    /// The store's records agree with its model: the invariant below.
    spec fn well_formed(self) -> bool {
        records_match_model(self.records@, self.model@)
    }

    #[verifier::type_invariant]
    spec fn invariant_holds(self) -> bool {
        self.well_formed()
    }

    /// An empty store.
    pub fn new() -> (r: EscrowStore)
        ensures
            r@ == Map::<Seq<char>, EscrowView>::empty(),
    {
        EscrowStore { records: Vec::new(), model: Ghost(Map::empty()) }
    }

    /// The position of the record with the given id.
    fn position_of(&self, engagement_id: &String) -> (r: Option<usize>)
        ensures
            r matches Some(i) ==> i < self.records@.len() && self.records@[i as int]@.engagement_id
                == engagement_id@,
            r is None ==> !self@.contains_key(engagement_id@),
    {
        proof {
            use_type_invariant(self);
        }
        let mut i: usize = 0;
        while i < self.records.len()
            invariant
                i <= self.records@.len(),
                forall|k: int| 0 <= k < i ==> #[trigger] self.records@[k]@.engagement_id != engagement_id@,
            decreases self.records@.len() - i,
        {
            if self.records[i].engagement_id == *engagement_id {
                return Some(i);
            }
            i = i + 1;
        }
        None
    }

    /// Whether a record with the given id exists.
    pub fn has(&self, engagement_id: &String) -> (r: bool)
        ensures
            r == self@.contains_key(engagement_id@),
    {
        proof {
            use_type_invariant(self);
        }
        self.position_of(engagement_id).is_some()
    }

    /// The record with the given id, if there is one.
    pub fn get(&self, engagement_id: &String) -> (r: Option<&Escrow>)
        ensures
            r is None <==> !self@.contains_key(engagement_id@),
            r matches Some(e) ==> e@ == self@[engagement_id@] && e@.engagement_id == engagement_id@,
    {
        proof {
            use_type_invariant(self);
        }
        match self.position_of(engagement_id) {
            Some(i) => Some(&self.records[i]),
            None => None,
        }
    }

    /// Stores `escrow` under its engagement id, replacing any earlier record.
    pub fn set(&mut self, escrow: Escrow)
        ensures
            final(self)@ == old(self)@.insert(escrow@.engagement_id, escrow@),
    {
        proof {
            use_type_invariant(&*self);
        }
        let position = self.position_of(&escrow.engagement_id);
        let mut taken = EscrowStore::new();
        std::mem::swap(self, &mut taken);
        proof {
            use_type_invariant(&taken);
        }
        let EscrowStore { mut records, model } = taken;
        let ghost key = escrow@.engagement_id;
        let ghost old_records = records@;
        let ghost new_model = model@.insert(key, escrow@);
        match position {
            Some(i) => {
                records.set(i, escrow);
                assert forall|j: int| 0 <= j < records@.len() && j != i implies
                    #[trigger] records@[j]@.engagement_id != key by {
                    assert(old_records[j]@.engagement_id != old_records[i as int]@.engagement_id);
                }
                assert forall|k: Seq<char>| #[trigger] new_model.contains_key(k) implies exists|
                    j: int,
                |
                    0 <= j < records@.len() && #[trigger] records@[j]@.engagement_id == k by {
                    if k != key {
                        let j = choose|j: int|
                            0 <= j < old_records.len() && #[trigger] old_records[j]@.engagement_id == k;
                        assert(records@[j]@.engagement_id == k);
                    } else {
                        assert(records@[i as int]@.engagement_id == k);
                    }
                }
            },
            None => {
                records.push(escrow);
                let last = records.len() - 1;
                assert forall|j: int| 0 <= j < old_records.len() implies
                    #[trigger] records@[j]@.engagement_id != key by {
                    assert(model@.contains_key(old_records[j]@.engagement_id));
                }
                assert forall|k: Seq<char>| #[trigger] new_model.contains_key(k) implies exists|
                    j: int,
                |
                    0 <= j < records@.len() && #[trigger] records@[j]@.engagement_id == k by {
                    if k != key {
                        let j = choose|j: int|
                            0 <= j < old_records.len() && #[trigger] old_records[j]@.engagement_id == k;
                        assert(records@[j]@.engagement_id == k);
                    } else {
                        assert(records@[last as int]@.engagement_id == k);
                    }
                }
            },
        }
        assert forall|j: int| 0 <= j < records@.len() implies {
            &&& new_model.contains_key(#[trigger] records@[j]@.engagement_id)
            &&& new_model[records@[j]@.engagement_id] == records@[j]@
        } by {
            if records@[j]@.engagement_id != key {
                assert(records@[j] == old_records[j]);
            }
        }
        assert forall|a: int, b: int|
            0 <= a < records@.len() && 0 <= b < records@.len()
                && #[trigger] records@[a]@.engagement_id == #[trigger] records@[b]@.engagement_id
            implies a == b by {
            if records@[a]@.engagement_id != key {
                assert(records@[a] == old_records[a]);
                assert(records@[b] == old_records[b]);
            }
        }
        assert(records_match_model(records@, new_model));
        *self = EscrowStore { records, model: Ghost(new_model) };
    }
}

} // verus!
