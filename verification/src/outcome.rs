//! What the reply to a statement means for the caller.

use vstd::prelude::*;
use crate::attrs::GetterModel;
use crate::backend::{Dialect, Retrieval};
use crate::operations::{
    delete_model, get_model, getter_model, patch_model, reload_model, setter_model, update_model,
    Expect, PatchModel,
};
use crate::table::{FieldModel, TableModel};

verus! {

/// Why an operation failed.
#[derive(Debug, PartialEq, Eq)]
pub enum OpError<E> {
    /// A query that needs a row found none.
    NotFound,
    /// A statement that changes a row changed none.
    Conflict,
    /// The backend's own failure, handed on as it came.
    Backend(E),
}

/// What a successful operation gives the caller.
#[derive(Clone, Copy, Debug, PartialEq, Eq, Structural)]
pub enum Outcome {
    /// One row, with which the entity is filled.
    Row,
    /// No row, where none is no failure.
    Empty,
    /// All the rows of the reply, of which there are this many.
    Rows(u64),
    /// The row was changed.
    Done,
    /// The row was created; the entity is fetched by the identifier that
    /// the backend reports.
    Refetch,
}

/// What a reply means: `count` is the number of rows that a query returned
/// or that a statement affected.
pub open spec fn settled<E>(expect: Expect, reply: Result<u64, E>) -> Result<Outcome, OpError<E>> {
    match reply {
        Err(e) => Err(OpError::Backend(e)),
        Ok(count) => match expect {
            Expect::ExactlyOne => if count == 0 {
                Err(OpError::NotFound)
            } else {
                Ok(Outcome::Row)
            },
            Expect::ZeroOrOne => if count == 0 {
                Ok(Outcome::Empty)
            } else {
                Ok(Outcome::Row)
            },
            Expect::Many => Ok(Outcome::Rows(count)),
            Expect::Affected => if count == 0 {
                Err(OpError::Conflict)
            } else {
                Ok(Outcome::Done)
            },
            Expect::Generated(Retrieval::Returning) => if count == 0 {
                Err(OpError::NotFound)
            } else {
                Ok(Outcome::Row)
            },
            Expect::Generated(Retrieval::Refetch) => if count == 0 {
                Err(OpError::Conflict)
            } else {
                Ok(Outcome::Refetch)
            },
        },
    }
}

/// Decides what the reply to a statement means.
///
/// A failure of the backend is handed on. A query for exactly one row
/// fails with `NotFound` on no row and otherwise takes one of the rows; a
/// query for at most one row gives an empty result on no row; a statement
/// that changes a row fails with `Conflict` when it changed none.
pub fn settle<E>(expect: Expect, reply: Result<u64, E>) -> (out: Result<Outcome, OpError<E>>)
    ensures
        out == settled(expect, reply),
{
    match reply {
        Err(e) => Err(OpError::Backend(e)),
        Ok(count) => match expect {
            Expect::ExactlyOne => if count == 0 {
                Err(OpError::NotFound)
            } else {
                Ok(Outcome::Row)
            },
            Expect::ZeroOrOne => if count == 0 {
                Ok(Outcome::Empty)
            } else {
                Ok(Outcome::Row)
            },
            Expect::Many => Ok(Outcome::Rows(count)),
            Expect::Affected => if count == 0 {
                Err(OpError::Conflict)
            } else {
                Ok(Outcome::Done)
            },
            Expect::Generated(Retrieval::Returning) => if count == 0 {
                Err(OpError::NotFound)
            } else {
                Ok(Outcome::Row)
            },
            Expect::Generated(Retrieval::Refetch) => if count == 0 {
                Err(OpError::Conflict)
            } else {
                Ok(Outcome::Refetch)
            },
        },
    }
}

/// An accessor for at most one row that finds no row gives an empty
/// result, whatever the table, the field and the backend.
pub proof fn optional_accessor_without_row_is_empty<E>(
    table: TableModel,
    field: FieldModel,
    getter: GetterModel,
    dialect: Dialect,
)
    ensures
        settled::<E>(
            getter_model(table, field, getter, Expect::ZeroOrOne, dialect).expect,
            Ok(0),
        ) == Ok::<Outcome, OpError<E>>(Outcome::Empty),
{
}

/// Once the row of an entity is gone, so that a statement keyed on its
/// identifier finds or changes no row, the lookup and the reload fail with
/// `NotFound`, and update, patch, single-column update and delete fail with
/// `Conflict`: none of them succeeds.
pub proof fn missing_row_is_reported<E>(
    table: TableModel,
    shape: PatchModel,
    field: FieldModel,
    setter: Seq<char>,
    dialect: Dialect,
)
    ensures
        settled::<E>(get_model(table, dialect).expect, Ok(0)) == Err::<Outcome, OpError<E>>(
            OpError::NotFound,
        ),
        settled::<E>(reload_model(table, dialect).expect, Ok(0)) == Err::<Outcome, OpError<E>>(
            OpError::NotFound,
        ),
        settled::<E>(update_model(table, dialect).expect, Ok(0)) == Err::<Outcome, OpError<E>>(
            OpError::Conflict,
        ),
        settled::<E>(patch_model(shape, dialect).expect, Ok(0)) == Err::<Outcome, OpError<E>>(
            OpError::Conflict,
        ),
        settled::<E>(setter_model(table, field, setter, dialect).expect, Ok(0)) == Err::<
            Outcome,
            OpError<E>,
        >(OpError::Conflict),
        settled::<E>(delete_model(table, dialect).expect, Ok(0)) == Err::<Outcome, OpError<E>>(
            OpError::Conflict,
        ),
{
}

} // verus!
