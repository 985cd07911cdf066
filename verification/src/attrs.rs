//! Per-field and per-table directives of a table description.

use vstd::prelude::*;
use vstd::string::StringExecFns;

verus! {

/// A requested read accessor, with optional overrides of the generated
/// function's name and of its argument type.
#[derive(Debug)]
pub struct Getter {
    pub func: Option<String>,
    pub arg_ty: Option<String>,
}

/// What a [`Getter`] stands for.
pub struct GetterModel {
    pub func: Option<Seq<char>>,
    pub arg_ty: Option<Seq<char>>,
}

/// The declared shape for creating rows, with an optional name of its own.
#[derive(Debug)]
pub struct Insertable {
    pub ident: Option<String>,
}

/// What an [`Insertable`] stands for.
pub struct InsertableModel {
    pub ident: Option<Seq<char>>,
}

/// The characters of an optional string.
pub open spec fn text_of(s: Option<String>) -> Option<Seq<char>> {
    match s {
        Some(s) => Some(s@),
        None => None,
    }
}

/// What an optional accessor stands for.
pub open spec fn getter_of(g: Option<Getter>) -> Option<GetterModel> {
    match g {
        Some(g) => Some(g@),
        None => None,
    }
}

/// What an optional insertable shape stands for.
pub open spec fn insertable_of(i: Option<Insertable>) -> Option<InsertableModel> {
    match i {
        Some(i) => Some(i@),
        None => None,
    }
}

impl View for Getter {
    type V = GetterModel;

    open spec fn view(&self) -> GetterModel {
        GetterModel { func: text_of(self.func), arg_ty: text_of(self.arg_ty) }
    }
}

impl View for Insertable {
    type V = InsertableModel;

    open spec fn view(&self) -> InsertableModel {
        InsertableModel { ident: text_of(self.ident) }
    }
}

impl GetterModel {
    /// The accessor's function name: the override, or `by_` and the field's name.
    pub open spec fn func_or_fallback(self, field: Seq<char>) -> Seq<char> {
        match self.func {
            Some(name) => name,
            None => "by_"@ + field,
        }
    }

    /// The accessor's argument type: the override, or a reference to the
    /// field's value type.
    pub open spec fn arg_or_fallback(self, ty: Seq<char>) -> Seq<char> {
        match self.arg_ty {
            Some(arg) => arg,
            None => "&"@ + ty,
        }
    }
}

/// A copy of an optional string.
pub(crate) fn copy_text(s: &Option<String>) -> (out: Option<String>)
    ensures
        text_of(out) == text_of(*s),
{
    match s {
        Some(s) => Some(s.clone()),
        None => None,
    }
}

impl Clone for Getter {
    fn clone(&self) -> (out: Getter)
        ensures
            out@ == self@,
    {
        Getter { func: copy_text(&self.func), arg_ty: copy_text(&self.arg_ty) }
    }
}

impl Clone for Insertable {
    fn clone(&self) -> (out: Insertable)
        ensures
            out@ == self@,
    {
        Insertable { ident: copy_text(&self.ident) }
    }
}

/// A copy of an optional accessor.
pub(crate) fn copy_getter(g: &Option<Getter>) -> (out: Option<Getter>)
    ensures
        getter_of(out) == getter_of(*g),
{
    match g {
        Some(g) => Some(g.clone()),
        None => None,
    }
}

impl Getter {
    /// The generated function's name for this accessor on a field named
    /// `field`: the override where one is given, else `by_<field>`.
    pub fn func_name(&self, field: &str) -> (out: String)
        ensures
            out@ == self@.func_or_fallback(field@),
    {
        match &self.func {
            Some(name) => name.clone(),
            None => String::from_str("by_").concat(field),
        }
    }

    /// The argument type for this accessor on a field of type `ty`: the
    /// override where one is given, else `&<ty>`.
    pub fn arg_type(&self, ty: &str) -> (out: String)
        ensures
            out@ == self@.arg_or_fallback(ty@),
    {
        match &self.arg_ty {
            Some(arg) => arg.clone(),
            None => String::from_str("&").concat(ty),
        }
    }
}

} // verus!
