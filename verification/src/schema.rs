//! Validation of a table description into a table.

use vstd::prelude::*;
use vstd::string::StringExecFns;
use crate::attrs::{
    copy_getter, getter_of, insertable_of, text_of, Getter, GetterModel, Insertable,
    InsertableModel,
};
use crate::table::{lemma_filter_step, FieldModel, Table, TableField, TableModel};

verus! {

/// Why a table description is refused.
#[derive(Clone, Copy, Debug, PartialEq, Eq, Structural)]
pub enum SchemaError {
    /// No field is marked as the identifier.
    MissingIdentifier,
    /// More than one field is marked as the identifier.
    DuplicateIdentifier,
    /// The identifier asks for a single-column update of itself.
    SettableIdentifier,
    /// Two accessors of one field would get the same name.
    NameCollision,
    /// An accessor's argument type is not a type.
    UnresolvedType,
}

/// One field of a table description, with its directives.
#[derive(Debug)]
pub struct FieldInput {
    pub name: String,
    pub ty: String,
    /// The SQL column, where it is not named like the field.
    pub column: Option<String>,
    /// Whether this field holds the row key.
    pub identifier: bool,
    pub custom_type: bool,
    pub default: bool,
    pub get_one: Option<Getter>,
    pub get_optional: Option<Getter>,
    pub get_many: Option<Getter>,
    /// Whether a single-column update is requested.
    pub settable: bool,
    /// The name of the single-column update, where it is not `set_<name>`.
    pub setter: Option<String>,
}

/// What a [`FieldInput`] stands for.
pub struct FieldInputModel {
    pub name: Seq<char>,
    pub ty: Seq<char>,
    pub column: Option<Seq<char>>,
    pub identifier: bool,
    pub custom_type: bool,
    pub default: bool,
    pub get_one: Option<GetterModel>,
    pub get_optional: Option<GetterModel>,
    pub get_many: Option<GetterModel>,
    pub settable: bool,
    pub setter: Option<Seq<char>>,
}

/// A table description: the fields in declaration order.
#[derive(Debug)]
pub struct TableInput {
    pub ident: String,
    pub table: String,
    pub fields: Vec<FieldInput>,
    pub insertable: Option<Insertable>,
}

/// What a [`TableInput`] stands for.
pub struct TableInputModel {
    pub ident: Seq<char>,
    pub table: Seq<char>,
    pub fields: Seq<FieldInputModel>,
    pub insertable: Option<InsertableModel>,
}

impl View for FieldInput {
    type V = FieldInputModel;

    open spec fn view(&self) -> FieldInputModel {
        FieldInputModel {
            name: self.name@,
            ty: self.ty@,
            column: text_of(self.column),
            identifier: self.identifier,
            custom_type: self.custom_type,
            default: self.default,
            get_one: getter_of(self.get_one),
            get_optional: getter_of(self.get_optional),
            get_many: getter_of(self.get_many),
            settable: self.settable,
            setter: text_of(self.setter),
        }
    }
}

/// What a sequence of field descriptions stands for.
pub open spec fn input_models(fields: Seq<FieldInput>) -> Seq<FieldInputModel> {
    Seq::new(fields.len(), |i: int| fields[i]@)
}

impl View for TableInput {
    type V = TableInputModel;

    open spec fn view(&self) -> TableInputModel {
        TableInputModel {
            ident: self.ident@,
            table: self.table@,
            fields: input_models(self.fields@),
            insertable: insertable_of(self.insertable),
        }
    }
}

/// The longest text, in characters, that is handed to the type parser.
/// The parser calls itself once for each level of nesting in a type, and
/// a text is nested no deeper than it is long: a bound on the length keeps
/// the parser within the stack of a thread. A longer text does not resolve.
pub const TYPE_TEXT_LIMIT: usize = 64;

/// Whether `text` is the text of a Rust type, as `syn` parses one from
/// the tokens that `proc-macro2` finds in the text by itself.
pub uninterp spec fn parses_as_type(text: Seq<char>) -> bool;

/// Whether two requested accessors of a field named `field` get the same name.
pub open spec fn clash(a: Option<GetterModel>, b: Option<GetterModel>, field: Seq<char>) -> bool {
    match (a, b) {
        (Some(a), Some(b)) => a.func_or_fallback(field) == b.func_or_fallback(field),
        _ => false,
    }
}

/// Whether the argument type that an accessor overrides, if any, is a
/// type written in no more characters than the parser is handed.
pub open spec fn resolves(getter: Option<GetterModel>) -> bool {
    match getter {
        Some(GetterModel { arg_ty: Some(text), .. }) => text.len() <= TYPE_TEXT_LIMIT
            && parses_as_type(text),
        _ => true,
    }
}

impl FieldInputModel {
    /// The field that the description declares: the column defaults to the
    /// field's name, the single-column update's name to `set_<name>`.
    pub open spec fn field(self) -> FieldModel {
        FieldModel {
            field: self.name,
            ty: self.ty,
            column: match self.column {
                Some(column) => column,
                None => self.name,
            },
            custom_type: self.custom_type,
            default: self.default,
            get_one: self.get_one,
            get_optional: self.get_optional,
            get_many: self.get_many,
            set: if self.settable {
                Some(
                    match self.setter {
                        Some(name) => name,
                        None => "set_"@ + self.name,
                    },
                )
            } else {
                None
            },
        }
    }

    /// Whether two of the field's accessors get the same name.
    pub open spec fn collides(self) -> bool {
        ||| clash(self.get_one, self.get_optional, self.name)
        ||| clash(self.get_one, self.get_many, self.name)
        ||| clash(self.get_optional, self.get_many, self.name)
    }

    /// Whether every argument type that the field's accessors override is a type.
    pub open spec fn overrides_resolve(self) -> bool {
        resolves(self.get_one) && resolves(self.get_optional) && resolves(self.get_many)
    }

    /// What is wrong with the field, given whether its overrides resolve:
    /// a settable identifier, before a collision of names, before an
    /// override that is no type.
    pub open spec fn error_given(self, resolved: bool) -> Option<SchemaError> {
        if self.identifier && self.settable {
            Some(SchemaError::SettableIdentifier)
        } else if self.collides() {
            Some(SchemaError::NameCollision)
        } else if !resolved {
            Some(SchemaError::UnresolvedType)
        } else {
            None
        }
    }
}

/// The verdict on the field at position `i`: whether its overrides
/// resolve. A field without a verdict counts as unresolved.
pub open spec fn verdict(resolved: Seq<bool>, i: int) -> bool {
    0 <= i < resolved.len() && resolved[i]
}

/// The verdicts that the type parser gives on `fields`, one for each field.
pub open spec fn verdicts(fields: Seq<FieldInputModel>) -> Seq<bool> {
    Seq::new(fields.len(), |i: int| fields[i].overrides_resolve())
}

/// The error of the first field that has one, in declaration order, given
/// for each field whether its overrides resolve.
pub open spec fn first_error(fields: Seq<FieldInputModel>, resolved: Seq<bool>) -> Option<
    SchemaError,
>
    decreases fields.len(),
{
    if fields.len() == 0 {
        None
    } else {
        match first_error(fields.drop_last(), resolved) {
            Some(e) => Some(e),
            None => fields.last().error_given(verdict(resolved, fields.len() - 1)),
        }
    }
}

/// The fields marked as the identifier, in declaration order.
pub open spec fn identifiers(fields: Seq<FieldInputModel>) -> Seq<FieldInputModel> {
    fields.filter(|f: FieldInputModel| f.identifier)
}

impl TableInputModel {
    /// The table that the description declares, or why it is refused,
    /// given for each field whether its overrides resolve: a missing or
    /// repeated identifier first, then the first faulty field.
    pub open spec fn parsed_given(self, resolved: Seq<bool>) -> Result<TableModel, SchemaError> {
        let ids = identifiers(self.fields);
        if ids.len() == 0 {
            Err(SchemaError::MissingIdentifier)
        } else if ids.len() > 1 {
            Err(SchemaError::DuplicateIdentifier)
        } else {
            match first_error(self.fields, resolved) {
                Some(e) => Err(e),
                None => Ok(
                    TableModel {
                        ident: self.ident,
                        table: self.table,
                        id: ids[0].field(),
                        fields: Seq::new(self.fields.len(), |i: int| self.fields[i].field()),
                        insertable: self.insertable,
                    },
                ),
            }
        }
    }

    /// The table that the description declares, or why it is refused, with
    /// the verdicts of the type parser.
    pub open spec fn parsed(self) -> Result<TableModel, SchemaError> {
        self.parsed_given(verdicts(self.fields))
    }
}

/// Whether a text is the text of a Rust type.
///
/// Calls `syn::parse_str::<syn::Type>` and reports whether it succeeded.
/// Taken on trust: on a text within the limit the call returns, and its
/// answer is the same for the same text. It returns because `syn` turns
/// every literal that the lexer finds into a value, the forms it does not
/// know included, and because the limit bounds how deep the parser
/// descends. The answer is the same because the tokens come from
/// `proc-macro2`'s own lexer, the only one built into this crate: neither
/// `proc-macro2` nor `syn` nor `quote` is built with its `proc-macro`
/// feature.
#[verifier::external_body]
pub(crate) fn is_type(text: &str) -> (out: bool)
    requires
        text@.len() <= TYPE_TEXT_LIMIT,
    ensures
        out == parses_as_type(text@),
{
    syn::parse_str::<syn::Type>(text).is_ok()
}

/// Whether the argument type that an accessor overrides, if any, is a
/// type written in no more characters than the parser is handed.
fn getter_resolves(getter: &Option<Getter>) -> (out: bool)
    ensures
        out == resolves(getter_of(*getter)),
{
    match getter {
        Some(g) => match &g.arg_ty {
            Some(text) => text.as_str().unicode_len() <= TYPE_TEXT_LIMIT && is_type(text.as_str()),
            None => true,
        },
        None => true,
    }
}

/// Whether two requested accessors of a field named `field` get the same name.
fn getters_clash(a: &Option<Getter>, b: &Option<Getter>, field: &str) -> (out: bool)
    ensures
        out == clash(getter_of(*a), getter_of(*b), field@),
{
    match (a, b) {
        (Some(a), Some(b)) => a.func_name(field) == b.func_name(field),
        _ => false,
    }
}

impl FieldInput {
    /// Whether every argument type that the field's accessors override is a type.
    pub fn overrides_resolve(&self) -> (out: bool)
        ensures
            out == self@.overrides_resolve(),
    {
        getter_resolves(&self.get_one) && getter_resolves(&self.get_optional) && getter_resolves(
            &self.get_many,
        )
    }

    /// The field that the description declares, or what is wrong with it,
    /// given whether its overrides resolve.
    pub fn check(&self, resolved: bool) -> (out: Result<TableField, SchemaError>)
        ensures
            match out {
                Ok(field) => self@.error_given(resolved) is None && field@ == self@.field(),
                Err(e) => self@.error_given(resolved) == Some(e),
            },
    {
        if self.identifier && self.settable {
            return Err(SchemaError::SettableIdentifier);
        }
        let name = self.name.as_str();
        if getters_clash(&self.get_one, &self.get_optional, name) || getters_clash(
            &self.get_one,
            &self.get_many,
            name,
        ) || getters_clash(&self.get_optional, &self.get_many, name) {
            return Err(SchemaError::NameCollision);
        }
        if !resolved {
            return Err(SchemaError::UnresolvedType);
        }
        let column = match &self.column {
            Some(column) => column.clone(),
            None => self.name.clone(),
        };
        let set = if self.settable {
            Some(
                match &self.setter {
                    Some(name) => name.clone(),
                    None => String::from_str("set_").concat(name),
                },
            )
        } else {
            None
        };
        Ok(
            TableField {
                field: self.name.clone(),
                ty: self.ty.clone(),
                column,
                custom_type: self.custom_type,
                default: self.default,
                get_one: copy_getter(&self.get_one),
                get_optional: copy_getter(&self.get_optional),
                get_many: copy_getter(&self.get_many),
                set,
            },
        )
    }
}

/// Once a field has an error, the fields declared after it do not change
/// which error is the first.
pub proof fn lemma_first_error_stays(fields: Seq<FieldInputModel>, resolved: Seq<bool>, k: int)
    requires
        0 <= k <= fields.len(),
        first_error(fields.take(k), resolved) is Some,
    ensures
        first_error(fields, resolved) == first_error(fields.take(k), resolved),
    decreases fields.len() - k,
{
    if k < fields.len() {
        assert(fields.take(k + 1).drop_last() =~= fields.take(k));
        lemma_first_error_stays(fields, resolved, k + 1);
    } else {
        assert(fields.take(k) =~= fields);
    }
}

/// Validates a table description, given for each field in declaration
/// order whether the argument types that its accessors override resolve.
/// A field without a verdict counts as unresolved.
///
/// The description is refused when no field or more than one field is
/// marked as the identifier; otherwise when a field is faulty, with the
/// error of the first such field. A description that is not refused gives
/// the table it declares, whose identifier is one of its fields.
pub fn parse_with(input: &TableInput, resolved: &Vec<bool>) -> (out: Result<Table, SchemaError>)
    ensures
        match out {
            Ok(table) => input@.parsed_given(resolved@) == Ok::<TableModel, SchemaError>(table@)
                && table@.wf(),
            Err(e) => input@.parsed_given(resolved@) == Err::<TableModel, SchemaError>(e),
        },
{
    let ghost models = input@.fields;
    let ghost marked = |f: FieldInputModel| f.identifier;
    let mut count: usize = 0;
    let mut first: usize = 0;
    let mut i: usize = 0;
    while i < input.fields.len()
        invariant
            i <= input.fields.len(),
            models == input@.fields,
            marked == |f: FieldInputModel| f.identifier,
            count == models.take(i as int).filter(marked).len(),
            count <= i,
            count > 0 ==> first < i && models.take(i as int).filter(marked)[0] == models[first as int],
        decreases input.fields.len() - i,
    {
        proof {
            lemma_filter_step(models, marked, i as int);
        }
        if input.fields[i].identifier {
            if count == 0 {
                first = i;
            }
            count = count + 1;
        }
        i = i + 1;
    }
    assert(models.take(i as int) =~= models);
    if count == 0 {
        return Err(SchemaError::MissingIdentifier);
    }
    if count > 1 {
        return Err(SchemaError::DuplicateIdentifier);
    }
    assert(identifiers(models).len() == 1);
    assert(identifiers(models)[0] == models[first as int]);
    let mut fields: Vec<TableField> = Vec::new();
    let mut j: usize = 0;
    while j < input.fields.len()
        invariant
            j <= input.fields.len(),
            models == input@.fields,
            first < input.fields.len(),
            identifiers(models).len() == 1,
            identifiers(models)[0] == models[first as int],
            fields@.len() == j,
            first_error(models.take(j as int), resolved@) is None,
            forall|k: int| 0 <= k < j ==> (#[trigger] fields@[k])@ == models[k].field(),
            forall|k: int|
                0 <= k < j ==> (#[trigger] models[k]).error_given(verdict(resolved@, k)) is None,
        decreases input.fields.len() - j,
    {
        let known = j < resolved.len() && resolved[j];
        proof {
            assert(models.take(j + 1).drop_last() =~= models.take(j as int));
            assert(models.take(j + 1).last() == models[j as int]);
            assert(models[j as int] == input.fields@[j as int]@);
            assert(first_error(models.take(j + 1), resolved@) == models[j as int].error_given(
                verdict(resolved@, j as int),
            ));
        }
        match input.fields[j].check(known) {
            Ok(field) => {
                fields.push(field);
            },
            Err(e) => {
                proof {
                    lemma_first_error_stays(models, resolved@, j + 1);
                }
                return Err(e);
            },
        }
        j = j + 1;
    }
    assert(models.take(j as int) =~= models);
    let id = fields[first].clone();
    let table = Table {
        ident: input.ident.clone(),
        table: input.table.clone(),
        id,
        fields,
        insertable: match &input.insertable {
            Some(shape) => Some(shape.clone()),
            None => None,
        },
    };
    proof {
        let declared = Seq::new(models.len(), |i: int| models[i].field());
        assert(table@.fields =~= declared);
        assert(table@.fields[first as int] == table@.id);
        assert(models[first as int].identifier) by {
            models.lemma_filter_pred(|f: FieldInputModel| f.identifier, 0);
        }
    }
    Ok(table)
}

/// Validates a table description, asking the type parser whether the
/// argument types that the accessors override resolve.
///
/// The description is refused when no field or more than one field is
/// marked as the identifier; otherwise when a field is faulty, with the
/// error of the first such field. A description that is not refused gives
/// the table it declares, whose identifier is one of its fields.
pub fn parse(input: &TableInput) -> (out: Result<Table, SchemaError>)
    ensures
        match out {
            Ok(table) => input@.parsed() == Ok::<TableModel, SchemaError>(table@) && table@.wf(),
            Err(e) => input@.parsed() == Err::<TableModel, SchemaError>(e),
        },
{
    let mut resolved: Vec<bool> = Vec::new();
    let mut i: usize = 0;
    while i < input.fields.len()
        invariant
            i <= input.fields.len(),
            resolved@ == verdicts(input@.fields).take(i as int),
        decreases input.fields.len() - i,
    {
        let known = input.fields[i].overrides_resolve();
        resolved.push(known);
        i = i + 1;
        assert(resolved@ =~= verdicts(input@.fields).take(i as int));
    }
    assert(resolved@ =~= verdicts(input@.fields));
    parse_with(input, &resolved)
}

} // verus!
