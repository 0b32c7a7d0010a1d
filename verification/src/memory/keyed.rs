//! Rows that are found by their identifier.

use vstd::prelude::*;
use crate::ident::{lemma_position, lemma_rank, position, rank, EntityId};

verus! {

/// A row with an identifier.
pub trait Keyed {
    /// The identifier of the row.
    spec fn key(&self) -> EntityId;

    /// The identifier of the row.
    fn id(&self) -> (r: EntityId)
        ensures
            r == self.key(),
    ;
}

/// The identifiers of rows, in order.
pub open spec fn keys<R: Keyed>(rows: Seq<R>) -> Seq<EntityId> {
    Seq::new(rows.len(), |i: int| rows[i].key())
}

/// Finds the row with the identifier `id`.
pub fn find<R: Keyed>(rows: &Vec<R>, id: EntityId) -> (r: Option<usize>)
    ensures
        match r {
            Some(i) => position(keys(rows@), id) == Some(i as int) && i < rows.len(),
            None => position(keys(rows@), id) is None,
        },
{
    let mut i: usize = 0;
    while i < rows.len()
        invariant
            i <= rows.len(),
            forall|j: int| 0 <= j < i ==> keys(rows@)[j] != id,
        decreases rows.len() - i,
    {
        if rows[i].id() == id {
            proof {
                lemma_position(keys(rows@), id);
                assert(keys(rows@)[i as int] == id);
            }
            return Some(i);
        }
        i += 1;
    }
    proof {
        lemma_position(keys(rows@), id);
        if position(keys(rows@), id) is Some {
            let k = position(keys(rows@), id)->Some_0;
            assert(keys(rows@)[k] != id);
        }
    }
    None
}

/// Finds the place at which a row with the identifier `id` goes among
/// rows in ascending order of their identifiers.
pub fn place_for<R: Keyed>(rows: &Vec<R>, id: EntityId) -> (r: usize)
    ensures
        r == rank(keys(rows@), id),
        r <= rows.len(),
{
    let mut i: usize = 0;
    while i < rows.len() && rows[i].id().value < id.value
        invariant
            i <= rows.len(),
            forall|j: int| 0 <= j < i ==> (#[trigger] keys(rows@)[j]).value < id.value,
        decreases rows.len() - i,
    {
        i += 1;
    }
    proof {
        if i < rows.len() {
            assert(keys(rows@)[i as int] == rows@[i as int].key());
        }
        lemma_rank(keys(rows@), id, i as int);
    }
    i
}

} // verus!
