//! The table model: columns, identifier, defaults, and the field sets and
//! column list derived from them.

use vstd::prelude::*;
use vstd::string::StringExecFns;
use crate::attrs::{
    copy_getter, copy_text, getter_of, insertable_of, text_of, Getter, GetterModel, Insertable,
    InsertableModel,
};
use crate::backend::Dialect;
use crate::operations::{generate, generated, Generated};
use crate::schema::{parse, SchemaError, TableInput};
use crate::text::{join_strings, joined, lemma_joined_push, views};

verus! {

/// One attribute of a row and the column it is stored in.
#[derive(Debug)]
pub struct TableField {
    /// The attribute's name in memory.
    pub field: String,
    /// The attribute's value type.
    pub ty: String,
    /// The SQL column.
    pub column: String,
    /// Whether a select must annotate the column with a type cast.
    pub custom_type: bool,
    /// Whether the database fills the column in on insert.
    pub default: bool,
    /// Accessor that expects exactly one row.
    pub get_one: Option<Getter>,
    /// Accessor that expects at most one row.
    pub get_optional: Option<Getter>,
    /// Accessor that yields every matching row.
    pub get_many: Option<Getter>,
    /// Name of the single-column update, where one is requested.
    pub set: Option<String>,
}

/// What a [`TableField`] stands for.
pub struct FieldModel {
    pub field: Seq<char>,
    pub ty: Seq<char>,
    pub column: Seq<char>,
    pub custom_type: bool,
    pub default: bool,
    pub get_one: Option<GetterModel>,
    pub get_optional: Option<GetterModel>,
    pub get_many: Option<GetterModel>,
    pub set: Option<Seq<char>>,
}

/// A table: its name, its identifier field and all its fields in
/// declaration order.
#[derive(Debug)]
pub struct Table {
    /// Name of the entity type.
    pub ident: String,
    /// Name of the SQL table.
    pub table: String,
    /// The field that holds the row key.
    pub id: TableField,
    pub fields: Vec<TableField>,
    pub insertable: Option<Insertable>,
}

/// What a [`Table`] stands for.
pub struct TableModel {
    pub ident: Seq<char>,
    pub table: Seq<char>,
    pub id: FieldModel,
    pub fields: Seq<FieldModel>,
    pub insertable: Option<InsertableModel>,
}

impl View for TableField {
    type V = FieldModel;

    open spec fn view(&self) -> FieldModel {
        FieldModel {
            field: self.field@,
            ty: self.ty@,
            column: self.column@,
            custom_type: self.custom_type,
            default: self.default,
            get_one: getter_of(self.get_one),
            get_optional: getter_of(self.get_optional),
            get_many: getter_of(self.get_many),
            set: text_of(self.set),
        }
    }
}

/// What a sequence of fields stands for.
pub open spec fn field_models(fields: Seq<TableField>) -> Seq<FieldModel> {
    Seq::new(fields.len(), |i: int| fields[i]@)
}

/// What a sequence of borrowed fields stands for.
pub open spec fn borrowed_models(fields: Seq<&TableField>) -> Seq<FieldModel> {
    Seq::new(fields.len(), |i: int| fields[i]@)
}

impl View for Table {
    type V = TableModel;

    open spec fn view(&self) -> TableModel {
        TableModel {
            ident: self.ident@,
            table: self.table@,
            id: self.id@,
            fields: field_models(self.fields@),
            insertable: insertable_of(self.insertable),
        }
    }
}

/// The annotation that asks the row decoder for a type cast.
pub open spec fn cast_annotation(quote: char) -> Seq<char> {
    ": _"@.push(quote)
}

impl FieldModel {
    /// The field's entry in a select list.
    pub open spec fn select_fragment(self, quote: char) -> Seq<char> {
        if self.custom_type {
            self.column + " AS "@ + seq![quote] + self.field + seq![quote] + cast_annotation(quote)
        } else if self.field == self.column {
            self.column
        } else {
            self.column + " AS "@ + self.field
        }
    }

    /// Whether the field may hold the row key: the key is fixed once the
    /// row exists, so the field has no single-column update.
    pub open spec fn may_be_identifier(self) -> bool {
        self.set is None
    }
}

/// The select-list entries of `fields`, in order.
pub open spec fn select_fragments(fields: Seq<FieldModel>, quote: char) -> Seq<Seq<char>> {
    Seq::new(fields.len(), |i: int| fields[i].select_fragment(quote))
}

impl TableModel {
    /// The identifier is one of the fields, and has no single-column update.
    pub open spec fn wf(self) -> bool {
        &&& self.fields.contains(self.id)
        &&& self.id.may_be_identifier()
    }

    /// The fields whose name differs from the identifier's, in declaration order.
    pub open spec fn fields_except_id(self) -> Seq<FieldModel> {
        self.fields.filter(|f: FieldModel| f.field != self.id.field)
    }

    /// The fields a new row is built from: neither the identifier nor a
    /// defaulted field, in declaration order.
    pub open spec fn insertable_fields(self) -> Seq<FieldModel> {
        self.fields.filter(|f: FieldModel| f.field != self.id.field && !f.default)
    }

    /// The fields that the database fills in, in declaration order.
    pub open spec fn default_fields(self) -> Seq<FieldModel> {
        self.fields.filter(|f: FieldModel| f.default)
    }

    /// The select list: every field's entry in declaration order, separated
    /// by a comma and a space.
    pub open spec fn column_list(self, quote: char) -> Seq<char> {
        joined(select_fragments(self.fields, quote), ", "@)
    }
}

impl Clone for TableField {
    fn clone(&self) -> (out: TableField)
        ensures
            out@ == self@,
    {
        TableField {
            field: self.field.clone(),
            ty: self.ty.clone(),
            column: self.column.clone(),
            custom_type: self.custom_type,
            default: self.default,
            get_one: copy_getter(&self.get_one),
            get_optional: copy_getter(&self.get_optional),
            get_many: copy_getter(&self.get_many),
            set: copy_text(&self.set),
        }
    }
}

impl TableField {
    /// The field's entry in a select list, quoted as the backend asks.
    pub fn fmt_for_select(&self, dialect: &Dialect) -> (out: String)
        ensures
            out@ == self@.select_fragment(dialect.quote),
    {
        if self.custom_type {
            let q = quote_string(dialect.quote);
            let mut out = self.column.clone();
            out.append(" AS ");
            out.append(q.as_str());
            out.append(self.field.as_str());
            out.append(q.as_str());
            out.append(": _");
            out.append(q.as_str());
            assert(out@ =~= self@.select_fragment(dialect.quote));
            out
        } else if self.field == self.column {
            self.column.clone()
        } else {
            let mut out = self.column.clone();
            out.append(" AS ");
            out.append(self.field.as_str());
            out
        }
    }
}

/// A string of one character.
///
/// Calls `String::from` on a `char`, which std documents as allocating a
/// string that holds that single character.
#[verifier::external_body]
pub(crate) fn quote_string(quote: char) -> (out: String)
    ensures
        out@ == seq![quote],
{
    String::from(quote)
}

impl Table {
    /// The fields whose name differs from the identifier's, in declaration order.
    pub fn fields_except_id(&self) -> (out: Vec<&TableField>)
        ensures
            borrowed_models(out@) == self@.fields_except_id(),
    {
        let mut out: Vec<&TableField> = Vec::new();
        let ghost keep = |f: FieldModel| f.field != self.id@.field;
        let mut i: usize = 0;
        while i < self.fields.len()
            invariant
                i <= self.fields.len(),
                keep == |f: FieldModel| f.field != self.id@.field,
                borrowed_models(out@) == field_models(self.fields@).take(i as int).filter(keep),
            decreases self.fields.len() - i,
        {
            let field = &self.fields[i];
            proof {
                lemma_filter_step(field_models(self.fields@), keep, i as int);
            }
            if !(field.field == self.id.field) {
                out.push(field);
            }
            i = i + 1;
            assert(borrowed_models(out@) =~= field_models(self.fields@).take(i as int).filter(
                keep,
            ));
        }
        assert(field_models(self.fields@).take(i as int) =~= field_models(self.fields@));
        out
    }

    /// The fields a new row is built from: neither the identifier nor a
    /// defaulted field, in declaration order.
    pub fn insertable_fields(&self) -> (out: Vec<&TableField>)
        ensures
            borrowed_models(out@) == self@.insertable_fields(),
    {
        let mut out: Vec<&TableField> = Vec::new();
        let ghost keep = |f: FieldModel| f.field != self.id@.field && !f.default;
        let mut i: usize = 0;
        while i < self.fields.len()
            invariant
                i <= self.fields.len(),
                keep == |f: FieldModel| f.field != self.id@.field && !f.default,
                borrowed_models(out@) == field_models(self.fields@).take(i as int).filter(keep),
            decreases self.fields.len() - i,
        {
            let field = &self.fields[i];
            proof {
                lemma_filter_step(field_models(self.fields@), keep, i as int);
            }
            if !(field.field == self.id.field) && !field.default {
                out.push(field);
            }
            i = i + 1;
            assert(borrowed_models(out@) =~= field_models(self.fields@).take(i as int).filter(
                keep,
            ));
        }
        assert(field_models(self.fields@).take(i as int) =~= field_models(self.fields@));
        out
    }

    /// The fields that the database fills in, in declaration order.
    pub fn default_fields(&self) -> (out: Vec<&TableField>)
        ensures
            borrowed_models(out@) == self@.default_fields(),
    {
        let mut out: Vec<&TableField> = Vec::new();
        let ghost keep = |f: FieldModel| f.default;
        let mut i: usize = 0;
        while i < self.fields.len()
            invariant
                i <= self.fields.len(),
                keep == |f: FieldModel| f.default,
                borrowed_models(out@) == field_models(self.fields@).take(i as int).filter(keep),
            decreases self.fields.len() - i,
        {
            let field = &self.fields[i];
            proof {
                lemma_filter_step(field_models(self.fields@), keep, i as int);
            }
            if field.default {
                out.push(field);
            }
            i = i + 1;
            assert(borrowed_models(out@) =~= field_models(self.fields@).take(i as int).filter(
                keep,
            ));
        }
        assert(field_models(self.fields@).take(i as int) =~= field_models(self.fields@));
        out
    }

    /// The select list of the table, quoted as the backend asks.
    pub fn column_list(&self, dialect: &Dialect) -> (out: String)
        ensures
            out@ == self@.column_list(dialect.quote),
    {
        let ghost quote = dialect.quote;
        let mut parts: Vec<String> = Vec::new();
        let mut i: usize = 0;
        while i < self.fields.len()
            invariant
                i <= self.fields.len(),
                quote == dialect.quote,
                views(parts@) == select_fragments(field_models(self.fields@), quote).take(i as int),
            decreases self.fields.len() - i,
        {
            let part = self.fields[i].fmt_for_select(dialect);
            let ghost before = views(parts@);
            parts.push(part);
            assert(views(parts@) =~= before.push(
                field_models(self.fields@)[i as int].select_fragment(quote),
            ));
            i = i + 1;
            assert(views(parts@) =~= select_fragments(field_models(self.fields@), quote).take(
                i as int,
            ));
        }
        assert(views(parts@) =~= select_fragments(field_models(self.fields@), quote));
        join_strings(&parts, ", ")
    }
}

impl Getter {
    /// The name and the argument type of the accessor that this directive
    /// requests on `field`: each is the override where one is given;
    /// otherwise the name is `by_<field>` and the argument a reference to
    /// the field's value type.
    pub fn or_fallback(&self, field: &TableField) -> (out: (String, String))
        ensures
            out.0@ == self@.func_or_fallback(field@.field),
            out.1@ == self@.arg_or_fallback(field@.ty),
    {
        (self.func_name(field.field.as_str()), self.arg_type(field.ty.as_str()))
    }
}

/// The select list follows declaration order: a field declared after all
/// others adds its entry at the end, behind a separator unless it is the
/// first, and leaves what stands before it unchanged.
pub proof fn column_list_in_declaration_order(table: TableModel, next: FieldModel, quote: char)
    ensures
        (TableModel { fields: table.fields.push(next), ..table }).column_list(quote) == if table.fields.len()
            == 0 {
            next.select_fragment(quote)
        } else {
            table.column_list(quote) + ", "@ + next.select_fragment(quote)
        },
{
    let longer = select_fragments(table.fields.push(next), quote);
    assert(longer =~= select_fragments(table.fields, quote).push(next.select_fragment(quote)));
    lemma_joined_push(select_fragments(table.fields, quote), ", "@, next.select_fragment(quote));
}

/// The select list depends on nothing but the fields and the quote
/// character: tables with the same fields have the same select list.
pub proof fn column_list_is_function_of_fields(a: TableModel, b: TableModel, quote: char)
    requires
        a.fields == b.fields,
    ensures
        a.column_list(quote) == b.column_list(quote),
{
}

/// A field is selected by its bare column exactly when its name is the
/// column's and it has no custom type. Every other entry starts with the
/// column and an `AS` alias. With a custom type the entry is the quoted alias
/// followed by the cast annotation; without one it is the column alone or
/// the plain alias, and nothing follows the name.
pub proof fn select_fragment_shape(field: FieldModel, quote: char)
    ensures
        field.select_fragment(quote) == field.column <==> field.field == field.column
            && !field.custom_type,
        !(field.field == field.column && !field.custom_type) ==> (field.column + " AS "@).is_prefix_of(
            field.select_fragment(quote),
        ),
        field.custom_type ==> field.select_fragment(quote) == field.column + " AS "@ + seq![quote]
            + field.field + seq![quote] + cast_annotation(quote),
        !field.custom_type ==> field.select_fragment(quote) == field.column
            || field.select_fragment(quote) == field.column + " AS "@ + field.field,
{
    reveal_strlit(" AS ");
    let fragment = field.select_fragment(quote);
    let prefix = field.column + " AS "@;
    if field.custom_type {
        assert(fragment.len() > field.column.len());
        assert(fragment.subrange(0, prefix.len() as int) =~= prefix);
    } else if field.field != field.column {
        assert(fragment.len() > field.column.len());
        assert(fragment.subrange(0, prefix.len() as int) =~= prefix);
    }
}

/// The insertable fields are the fields other than the identifier, less
/// those with a default.
pub proof fn insertable_is_except_id_without_defaults(table: TableModel)
    ensures
        table.insertable_fields() == table.fields_except_id().filter(|f: FieldModel| !f.default),
{
    lemma_filter_twice(
        table.fields,
        |f: FieldModel| f.field != table.id.field,
        |f: FieldModel| !f.default,
        |f: FieldModel| f.field != table.id.field && !f.default,
    );
}

/// Where the identifier is the only field, nothing is insertable.
pub proof fn insertable_is_empty_for_identifier_alone(table: TableModel)
    requires
        table.fields == seq![table.id],
    ensures
        table.insertable_fields().len() == 0,
        table.fields_except_id().len() == 0,
{
    let other = |f: FieldModel| f.field != table.id.field;
    let insertable = |f: FieldModel| f.field != table.id.field && !f.default;
    lemma_filter_step(table.fields, other, 0);
    lemma_filter_step(table.fields, insertable, 0);
    assert(table.fields.take(1) =~= table.fields);
    assert(table.fields.take(0).len() == 0);
    reveal(Seq::filter);
}

/// Filtering by one predicate and then by another is filtering by both.
pub proof fn lemma_filter_twice<A>(
    s: Seq<A>,
    first: spec_fn(A) -> bool,
    second: spec_fn(A) -> bool,
    both: spec_fn(A) -> bool,
)
    requires
        forall|a: A| #[trigger] both(a) == (first(a) && second(a)),
    ensures
        s.filter(first).filter(second) == s.filter(both),
    decreases s.len(),
{
    reveal(Seq::filter);
    if s.len() > 0 {
        lemma_filter_twice(s.drop_last(), first, second, both);
        let rest = s.drop_last().filter(first);
        if first(s.last()) {
            assert(rest.push(s.last()).drop_last() =~= rest);
        }
    }
}

/// Filtering one element more keeps it exactly when the predicate holds of it.
pub proof fn lemma_filter_step<A>(s: Seq<A>, keep: spec_fn(A) -> bool, i: int)
    requires
        0 <= i < s.len(),
    ensures
        s.take(i + 1).filter(keep) == if keep(s[i]) {
            s.take(i).filter(keep).push(s[i])
        } else {
            s.take(i).filter(keep)
        },
{
    reveal(Seq::filter);
    assert(s.take(i + 1).drop_last() =~= s.take(i));
}

/// Validates a table description and generates every operation of the
/// table it declares, for one backend. A description that is refused
/// generates nothing.
pub fn derive(input: &TableInput, dialect: &Dialect) -> (out: Result<Generated, SchemaError>)
    ensures
        match out {
            Ok(all) => input@.parsed() is Ok && all@ == generated(
                input@.parsed()->Ok_0,
                *dialect,
            ),
            Err(e) => input@.parsed() == Err::<TableModel, SchemaError>(e),
        },
{
    match parse(input) {
        Ok(table) => Ok(generate(&table, dialect)),
        Err(e) => Err(e),
    }
}

} // verus!
