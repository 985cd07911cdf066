//! SQL dialects: the lexical conventions of one backend.

use vstd::prelude::*;
use vstd::string::StringExecFns;
use crate::text::{decimal, push_decimal};

verus! {

/// How a backend writes the parameters of a statement.
#[derive(Clone, Copy, Debug, PartialEq, Eq, Structural)]
pub enum Placeholders {
    /// `$1`, `$2`, ...: each parameter carries its position.
    Numbered,
    /// `?` for every parameter, bound in order of appearance.
    Marker,
}

/// How a backend hands back the values it generated on insert.
#[derive(Clone, Copy, Debug, PartialEq, Eq, Structural)]
pub enum Retrieval {
    /// The insert statement itself returns the generated columns.
    Returning,
    /// The row is fetched again by the identifier the backend reports.
    Refetch,
}

/// The conventions of one SQL backend.
#[derive(Clone, Copy, Debug, PartialEq, Eq, Structural)]
pub struct Dialect {
    /// The character that quotes an identifier.
    pub quote: char,
    pub placeholders: Placeholders,
    pub retrieval: Retrieval,
}

/// The text of the parameter at the 1-based position `index`.
pub open spec fn placeholder_text(style: Placeholders, index: nat) -> Seq<char> {
    match style {
        Placeholders::Numbered => "$"@ + decimal(index),
        Placeholders::Marker => "?"@,
    }
}

impl Dialect {
    /// PostgreSQL: double quotes, numbered parameters, `RETURNING`.
    pub fn postgres() -> (out: Dialect)
        ensures
            out == (Dialect {
                quote: '"',
                placeholders: Placeholders::Numbered,
                retrieval: Retrieval::Returning,
            }),
    {
        Dialect { quote: '"', placeholders: Placeholders::Numbered, retrieval: Retrieval::Returning }
    }

    /// MySQL: backticks, `?` parameters, generated values fetched afterwards.
    pub fn mysql() -> (out: Dialect)
        ensures
            out == (Dialect {
                quote: '`',
                placeholders: Placeholders::Marker,
                retrieval: Retrieval::Refetch,
            }),
    {
        Dialect { quote: '`', placeholders: Placeholders::Marker, retrieval: Retrieval::Refetch }
    }

    /// The parameter at the 1-based position `index`, as this backend writes it.
    pub fn placeholder(&self, index: usize) -> (out: String)
        ensures
            out@ == placeholder_text(self.placeholders, index as nat),
    {
        self.placeholder_at(index as u128)
    }

    /// The parameter at the 1-based position `index`, for positions beyond
    /// the range of `usize`.
    pub fn placeholder_at(&self, index: u128) -> (out: String)
        ensures
            out@ == placeholder_text(self.placeholders, index as nat),
    {
        match self.placeholders {
            Placeholders::Numbered => {
                let mut out = String::from_str("$");
                push_decimal(&mut out, index);
                out
            },
            Placeholders::Marker => String::from_str("?"),
        }
    }
}

} // verus!
