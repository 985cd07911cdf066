//! An entity in memory: its life from creation to deletion, and the merge
//! of a partial update into its values.

use vstd::prelude::*;
use crate::operations::{lemma_position_is_named, slot, Expect, PatchModel};
use crate::table::TableModel;
use crate::outcome::{settle, settled, OpError, Outcome};

verus! {

/// Where an entity stands in its life.
#[derive(Clone, Copy, Debug, PartialEq, Eq, Structural)]
pub enum Lifecycle {
    /// Just inserted.
    Created,
    /// Readable and changeable.
    Active,
    /// Its row is gone; nothing succeeds on it any more.
    Deleted,
}

/// What a caller does with an entity it holds.
#[derive(Clone, Copy, Debug, PartialEq, Eq, Structural)]
pub enum Action {
    Update,
    Patch,
    SetField,
    Reload,
    Delete,
}

impl Action {
    /// What the statement of the action is expected to give.
    pub open spec fn expect(self) -> Expect {
        match self {
            Action::Reload => Expect::ExactlyOne,
            _ => Expect::Affected,
        }
    }

    /// The failure that tells the caller that the row is gone.
    pub open spec fn gone<E>(self) -> OpError<E> {
        match self {
            Action::Reload => OpError::NotFound,
            _ => OpError::Conflict,
        }
    }
}

/// The state of an entity after an action and what the caller is told.
///
/// On a deleted entity every action fails, whatever the backend replied.
/// Otherwise the reply decides: a success makes the entity active, or
/// deleted where the action was a delete; a reply without a row shows that
/// the row is gone; a failure of the backend changes nothing.
pub open spec fn stepped<E>(state: Lifecycle, action: Action, reply: Result<u64, E>) -> (
    Lifecycle,
    Result<Outcome, OpError<E>>,
) {
    if state == Lifecycle::Deleted {
        (Lifecycle::Deleted, Err(action.gone()))
    } else {
        match settled(action.expect(), reply) {
            Ok(outcome) => (
                if action == Action::Delete {
                    Lifecycle::Deleted
                } else {
                    Lifecycle::Active
                },
                Ok(outcome),
            ),
            Err(OpError::Backend(e)) => (state, Err(OpError::Backend(e))),
            Err(OpError::NotFound) => (Lifecycle::Deleted, Err(OpError::NotFound)),
            Err(OpError::Conflict) => (Lifecycle::Deleted, Err(OpError::Conflict)),
        }
    }
}

/// Takes an entity through one action, given the backend's reply to the
/// action's statement: the number of rows found or changed, or a failure.
pub fn step<E>(state: Lifecycle, action: Action, reply: Result<u64, E>) -> (out: (
    Lifecycle,
    Result<Outcome, OpError<E>>,
))
    ensures
        out == stepped(state, action, reply),
{
    let expect = match action {
        Action::Reload => Expect::ExactlyOne,
        _ => Expect::Affected,
    };
    if state == Lifecycle::Deleted {
        let gone = match action {
            Action::Reload => OpError::NotFound,
            _ => OpError::Conflict,
        };
        return (Lifecycle::Deleted, Err(gone));
    }
    match settle(expect, reply) {
        Ok(outcome) => {
            let next = if action == Action::Delete {
                Lifecycle::Deleted
            } else {
                Lifecycle::Active
            };
            (next, Ok(outcome))
        },
        Err(OpError::Backend(e)) => (state, Err(OpError::Backend(e))),
        Err(OpError::NotFound) => (Lifecycle::Deleted, Err(OpError::NotFound)),
        Err(OpError::Conflict) => (Lifecycle::Deleted, Err(OpError::Conflict)),
    }
}

/// A delete that removed the row leaves the entity deleted, and a deleted
/// entity stays deleted: every later action fails with `NotFound` or
/// `Conflict`, whatever the backend replies.
pub proof fn deleted_is_terminal<E>(
    state: Lifecycle,
    removed: u64,
    later: Action,
    reply: Result<u64, E>,
)
    requires
        removed > 0,
    ensures
        stepped::<E>(state, Action::Delete, Ok(removed)).0 == Lifecycle::Deleted,
        stepped(Lifecycle::Deleted, later, reply).0 == Lifecycle::Deleted,
        stepped(Lifecycle::Deleted, later, reply).1 == Err::<Outcome, OpError<E>>(
            OpError::NotFound,
        ) || stepped(Lifecycle::Deleted, later, reply).1 == Err::<Outcome, OpError<E>>(
            OpError::Conflict,
        ),
{
}

/// The values of an entity after a partial update: the value at each
/// listed position is replaced by the patch's value for it, the first
/// where a position is listed more than once.
pub open spec fn merged<V>(values: Seq<V>, positions: Seq<usize>, patch: Seq<V>) -> Seq<V>
    decreases positions.len(),
{
    if positions.len() == 0 || patch.len() == 0 {
        values
    } else {
        merged(
            values.update(positions.last() as int, patch.last()),
            positions.drop_last(),
            patch.drop_last(),
        )
    }
}

/// Whether a patch of `patch_len` values for `positions` fits an entity
/// of `len` values.
pub open spec fn mergeable(len: nat, positions: Seq<usize>, patch_len: nat) -> bool {
    &&& positions.len() == patch_len
    &&& forall|k: int| 0 <= k < positions.len() ==> (#[trigger] positions[k]) < len
}

/// Merges the values of a partial update into the values of an entity.
///
/// Returns whether the patch fits: it has one value for each position, and
/// every position is one of the entity's. A patch that does not fit leaves
/// the entity unchanged.
pub fn merge<V>(values: &mut Vec<V>, positions: &Vec<usize>, patch: Vec<V>) -> (out: bool)
    ensures
        out == mergeable(old(values)@.len(), positions@, patch@.len()),
        out ==> final(values)@ == merged(old(values)@, positions@, patch@),
        !out ==> final(values)@ == old(values)@,
{
    if positions.len() != patch.len() {
        return false;
    }
    let mut i: usize = 0;
    while i < positions.len()
        invariant
            i <= positions.len(),
            *values == *old(values),
            forall|k: int| 0 <= k < i ==> (#[trigger] positions@[k]) < values@.len(),
        decreases positions.len() - i,
    {
        if positions[i] >= values.len() {
            return false;
        }
        i = i + 1;
    }
    let mut patch = patch;
    let ghost whole = patch@;
    assert(positions@.take(patch@.len() as int) =~= positions@);
    assert(whole.take(patch@.len() as int) =~= whole);
    while patch.len() > 0
        invariant
            patch@.len() <= positions@.len(),
            patch@ == whole.take(patch@.len() as int),
            whole.len() == positions@.len(),
            values@.len() == old(values)@.len(),
            forall|k: int| 0 <= k < positions@.len() ==> (#[trigger] positions@[k]) < values@.len(),
            merged(values@, positions@.take(patch@.len() as int), patch@) == merged(
                old(values)@,
                positions@,
                whole,
            ),
        decreases patch.len(),
    {
        let ghost shorter = patch@.len() - 1;
        let ghost before = patch@;
        let position = positions[patch.len() - 1];
        let value = patch.pop().unwrap();
        proof {
            assert(positions@.take(shorter + 1).drop_last() =~= positions@.take(shorter));
            assert(before.drop_last() =~= patch@);
            assert(patch@ =~= whole.take(shorter));
        }
        values.set(position, value);
    }
    assert(positions@.take(0) =~= Seq::<usize>::empty());
    true
}

/// A partial update leaves the number of values as it was, and every
/// value whose position is not listed unchanged.
pub proof fn merge_keeps_other_values<V>(
    values: Seq<V>,
    positions: Seq<usize>,
    patch: Seq<V>,
    at: int,
)
    requires
        mergeable(values.len(), positions, patch.len()),
        0 <= at < values.len(),
        forall|k: int| 0 <= k < positions.len() ==> positions[k] != at,
    ensures
        merged(values, positions, patch).len() == values.len(),
        merged(values, positions, patch)[at] == values[at],
    decreases positions.len(),
{
    if positions.len() > 0 {
        merge_keeps_other_values(
            values.update(positions.last() as int, patch.last()),
            positions.drop_last(),
            patch.drop_last(),
            at,
        );
    }
}

/// A partial update puts each of its values at the position listed for
/// it, where no position is listed twice.
pub proof fn merge_sets_listed_values<V>(
    values: Seq<V>,
    positions: Seq<usize>,
    patch: Seq<V>,
    k: int,
)
    requires
        mergeable(values.len(), positions, patch.len()),
        0 <= k < positions.len(),
        forall|a: int, b: int|
            0 <= a < b < positions.len() ==> positions[a] != positions[b],
    ensures
        merged(values, positions, patch)[positions[k] as int] == patch[k],
    decreases positions.len(),
{
    let next = values.update(positions.last() as int, patch.last());
    if k == positions.len() - 1 {
        merge_keeps_other_values(
            next,
            positions.drop_last(),
            patch.drop_last(),
            positions[k] as int,
        );
    } else {
        merge_sets_listed_values(next, positions.drop_last(), patch.drop_last(), k);
    }
}

/// A patch changes only the fields of its shape: merged at the positions
/// that the shape has in a table it fits, it leaves the value of every
/// field that the shape does not name as it was.
pub proof fn patch_changes_only_its_fields<V>(
    table: TableModel,
    shape: PatchModel,
    positions: Seq<usize>,
    values: Seq<V>,
    patch: Seq<V>,
    at: int,
)
    requires
        shape.fits(table),
        positions.len() == shape.fields.len(),
        forall|k: int|
            0 <= k < positions.len() ==> (#[trigger] positions[k]) as int == shape.positions(
                table,
            )[k],
        values.len() == table.fields.len(),
        patch.len() == shape.fields.len(),
        0 <= at < table.fields.len(),
        forall|k: int| 0 <= k < shape.fields.len() ==> shape.fields[k] != table.fields[at].field,
    ensures
        mergeable(values.len(), positions, patch.len()),
        merged(values, positions, patch).len() == values.len(),
        merged(values, positions, patch)[at] == values[at],
{
    assert forall|k: int| 0 <= k < positions.len() implies (#[trigger] positions[k]) < values.len()
        && positions[k] != at by {
        lemma_position_is_named(table.fields, shape.fields[k]);
        assert(slot(table, shape.fields[k], shape.columns[k]) is Some);
    }
    merge_keeps_other_values(values, positions, patch, at);
}

} // verus!
