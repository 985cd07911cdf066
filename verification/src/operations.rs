//! The operations on a table's rows: for each one the SQL text in a
//! backend's dialect, the fields bound to its parameters in order, and the
//! result the statement is expected to give.

use vstd::prelude::*;
use vstd::string::StringExecFns;
use crate::attrs::{insertable_of, text_of, Getter, GetterModel, Insertable, InsertableModel};
use crate::backend::{placeholder_text, Dialect, Placeholders, Retrieval};
use crate::table::{borrowed_models, FieldModel, Table, TableField, TableModel};
use crate::text::{join_strings, joined, views};

verus! {

/// What the caller does with the outcome of a statement.
#[derive(Clone, Copy, Debug, PartialEq, Eq, Structural)]
pub enum Expect {
    /// A query for one row; no row is a failure.
    ExactlyOne,
    /// A query for at most one row; no row is an empty result.
    ZeroOrOne,
    /// A query for every matching row.
    Many,
    /// A statement that changes one row; no affected row is a failure.
    Affected,
    /// An insert, whose generated values are retrieved as the backend asks.
    Generated(Retrieval),
}

/// One operation on the rows of a table.
#[derive(Debug)]
pub struct Operation {
    /// The name under which the operation is offered.
    pub name: String,
    /// The statement, with the backend's parameters in place.
    pub sql: String,
    /// The names of the values bound to the parameters, in order.
    pub binds: Vec<String>,
    /// The type of the argument, where the operation is keyed on a value
    /// that the caller passes rather than on the entity.
    pub arg_ty: Option<String>,
    pub expect: Expect,
}

/// What an [`Operation`] stands for.
pub struct OperationModel {
    pub name: Seq<char>,
    pub sql: Seq<char>,
    pub binds: Seq<Seq<char>>,
    pub arg_ty: Option<Seq<char>>,
    pub expect: Expect,
}

impl View for Operation {
    type V = OperationModel;

    open spec fn view(&self) -> OperationModel {
        OperationModel {
            name: self.name@,
            sql: self.sql@,
            binds: views(self.binds@),
            arg_ty: text_of(self.arg_ty),
            expect: self.expect,
        }
    }
}

/// What a sequence of operations stands for.
pub open spec fn operation_models(ops: Seq<Operation>) -> Seq<OperationModel> {
    Seq::new(ops.len(), |i: int| ops[i]@)
}

/// One field of a partial update and the column it is stored in.
#[derive(Debug)]
pub struct PatchField {
    pub field: String,
    pub column: String,
}

/// A declared subset of a table's fields that are updated together.
#[derive(Debug)]
pub struct PatchShape {
    /// Name of the shape.
    pub ident: String,
    /// Name of the SQL table.
    pub table_name: String,
    /// The column that holds the row key.
    pub id: String,
    pub fields: Vec<PatchField>,
}

/// What a [`PatchShape`] stands for.
pub struct PatchModel {
    pub ident: Seq<char>,
    pub table_name: Seq<char>,
    pub id: Seq<char>,
    pub fields: Seq<Seq<char>>,
    pub columns: Seq<Seq<char>>,
}

impl View for PatchShape {
    type V = PatchModel;

    open spec fn view(&self) -> PatchModel {
        PatchModel {
            ident: self.ident@,
            table_name: self.table_name@,
            id: self.id@,
            fields: Seq::new(self.fields@.len(), |i: int| self.fields@[i].field@),
            columns: Seq::new(self.fields@.len(), |i: int| self.fields@[i].column@),
        }
    }
}

/// The columns of `fields`, in order.
pub open spec fn columns_of(fields: Seq<FieldModel>) -> Seq<Seq<char>> {
    Seq::new(fields.len(), |i: int| fields[i].column)
}

/// The names of `fields`, in order.
pub open spec fn names_of(fields: Seq<FieldModel>) -> Seq<Seq<char>> {
    Seq::new(fields.len(), |i: int| fields[i].field)
}

/// The parameters at positions 1 to `count`.
pub open spec fn placeholder_texts(style: Placeholders, count: nat) -> Seq<Seq<char>> {
    Seq::new(count, |i: int| placeholder_text(style, (i + 1) as nat))
}

/// One `column = parameter` for each column, the parameters counted from 1.
pub open spec fn assignment_texts(columns: Seq<Seq<char>>, style: Placeholders) -> Seq<Seq<char>> {
    Seq::new(columns.len(), |i: int| columns[i] + " = "@ + placeholder_text(style, (i + 1) as nat))
}

/// `SELECT <list> FROM <table> WHERE <column> = <parameter 1>`.
pub open spec fn select_sql(table: TableModel, column: Seq<char>, dialect: Dialect) -> Seq<char> {
    "SELECT "@ + table.column_list(dialect.quote) + " FROM "@ + table.table + " WHERE "@ + column
        + " = "@ + placeholder_text(dialect.placeholders, 1)
}

/// `INSERT INTO <table> (<columns>) VALUES (<parameters>)`.
pub open spec fn insert_sql(table: Seq<char>, columns: Seq<Seq<char>>, style: Placeholders) -> Seq<
    char,
> {
    "INSERT INTO "@ + table + " ("@ + joined(columns, ", "@) + ") VALUES ("@ + joined(
        placeholder_texts(style, columns.len()),
        ", "@,
    ) + ")"@
}

/// `UPDATE <table> SET <assignments> WHERE <key column> = <last parameter>`.
pub open spec fn update_sql(
    table: Seq<char>,
    columns: Seq<Seq<char>>,
    key: Seq<char>,
    style: Placeholders,
) -> Seq<char> {
    "UPDATE "@ + table + " SET "@ + joined(assignment_texts(columns, style), ", "@) + " WHERE "@
        + key + " = "@ + placeholder_text(style, columns.len() + 1)
}

/// `DELETE FROM <table> WHERE <key column> = <parameter 1>`.
pub open spec fn delete_sql(table: Seq<char>, key: Seq<char>, style: Placeholders) -> Seq<char> {
    "DELETE FROM "@ + table + " WHERE "@ + key + " = "@ + placeholder_text(style, 1)
}

/// The lookup of a row by its identifier.
pub open spec fn get_model(table: TableModel, dialect: Dialect) -> OperationModel {
    OperationModel {
        name: "get_by_identifier"@,
        sql: select_sql(table, table.id.column, dialect),
        binds: seq![table.id.field],
        arg_ty: None,
        expect: Expect::ExactlyOne,
    }
}

/// The refresh of an entity from its row: the lookup by identifier again.
pub open spec fn reload_model(table: TableModel, dialect: Dialect) -> OperationModel {
    OperationModel { name: "reload"@, ..get_model(table, dialect) }
}

/// The accessor that `getter` requests on `field`.
pub open spec fn getter_model(
    table: TableModel,
    field: FieldModel,
    getter: GetterModel,
    expect: Expect,
    dialect: Dialect,
) -> OperationModel {
    OperationModel {
        name: getter.func_or_fallback(field.field),
        sql: select_sql(table, field.column, dialect),
        binds: seq![field.field],
        arg_ty: Some(getter.arg_or_fallback(field.ty)),
        expect,
    }
}

/// The accessor that an optional directive requests, if any.
pub open spec fn requested_getter(
    table: TableModel,
    field: FieldModel,
    getter: Option<GetterModel>,
    expect: Expect,
    dialect: Dialect,
) -> Seq<OperationModel> {
    match getter {
        Some(getter) => seq![getter_model(table, field, getter, expect, dialect)],
        None => Seq::empty(),
    }
}

/// The accessors of one field: exactly-one, zero-or-one, many.
pub open spec fn field_getters(table: TableModel, field: FieldModel, dialect: Dialect) -> Seq<
    OperationModel,
> {
    requested_getter(table, field, field.get_one, Expect::ExactlyOne, dialect) + requested_getter(
        table,
        field,
        field.get_optional,
        Expect::ZeroOrOne,
        dialect,
    ) + requested_getter(table, field, field.get_many, Expect::Many, dialect)
}

/// The accessors of `fields`, field by field in order.
pub open spec fn getters_of(table: TableModel, fields: Seq<FieldModel>, dialect: Dialect) -> Seq<
    OperationModel,
>
    decreases fields.len(),
{
    if fields.len() == 0 {
        Seq::empty()
    } else {
        getters_of(table, fields.drop_last(), dialect) + field_getters(
            table,
            fields.last(),
            dialect,
        )
    }
}

/// The single-column update of `field` under the name `name`.
pub open spec fn setter_model(
    table: TableModel,
    field: FieldModel,
    name: Seq<char>,
    dialect: Dialect,
) -> OperationModel {
    OperationModel {
        name,
        sql: update_sql(table.table, seq![field.column], table.id.column, dialect.placeholders),
        binds: seq![field.field, table.id.field],
        arg_ty: None,
        expect: Expect::Affected,
    }
}

/// The single-column updates of `fields`, in order.
pub open spec fn setters_of(table: TableModel, fields: Seq<FieldModel>, dialect: Dialect) -> Seq<
    OperationModel,
>
    decreases fields.len(),
{
    if fields.len() == 0 {
        Seq::empty()
    } else {
        let before = setters_of(table, fields.drop_last(), dialect);
        match fields.last().set {
            Some(name) => before.push(setter_model(table, fields.last(), name, dialect)),
            None => before,
        }
    }
}

/// The creation of a row from the insertable fields.
pub open spec fn insert_model(table: TableModel, dialect: Dialect) -> OperationModel {
    OperationModel {
        name: "insert"@,
        sql: insert_sql(table.table, columns_of(table.insertable_fields()), dialect.placeholders),
        binds: names_of(table.insertable_fields()),
        arg_ty: None,
        expect: Expect::Generated(dialect.retrieval),
    }
}

/// The update of every field but the identifier.
pub open spec fn update_model(table: TableModel, dialect: Dialect) -> OperationModel {
    OperationModel {
        name: "update"@,
        sql: update_sql(
            table.table,
            columns_of(table.fields_except_id()),
            table.id.column,
            dialect.placeholders,
        ),
        binds: names_of(table.fields_except_id()).push(table.id.field),
        arg_ty: None,
        expect: Expect::Affected,
    }
}

/// The removal of a row.
pub open spec fn delete_model(table: TableModel, dialect: Dialect) -> OperationModel {
    OperationModel {
        name: "delete"@,
        sql: delete_sql(table.table, table.id.column, dialect.placeholders),
        binds: seq![table.id.field],
        arg_ty: None,
        expect: Expect::Affected,
    }
}

/// The update of the fields of a patch shape, and of no other.
pub open spec fn patch_model(shape: PatchModel, dialect: Dialect) -> OperationModel {
    OperationModel {
        name: "patch"@,
        sql: update_sql(shape.table_name, shape.columns, shape.id, dialect.placeholders),
        binds: shape.fields.push(shape.id),
        arg_ty: None,
        expect: Expect::Affected,
    }
}

/// The columns of borrowed fields, in order.
fn column_names(fields: &Vec<&TableField>) -> (out: Vec<String>)
    ensures
        views(out@) == columns_of(borrowed_models(fields@)),
{
    let mut out: Vec<String> = Vec::new();
    let mut i: usize = 0;
    while i < fields.len()
        invariant
            i <= fields.len(),
            views(out@) == columns_of(borrowed_models(fields@)).take(i as int),
        decreases fields.len() - i,
    {
        let ghost before = views(out@);
        out.push(fields[i].column.clone());
        assert(views(out@) =~= before.push(fields@[i as int]@.column));
        i = i + 1;
        assert(views(out@) =~= columns_of(borrowed_models(fields@)).take(i as int));
    }
    assert(views(out@) =~= columns_of(borrowed_models(fields@)));
    out
}

/// The names of borrowed fields, in order.
fn field_names(fields: &Vec<&TableField>) -> (out: Vec<String>)
    ensures
        views(out@) == names_of(borrowed_models(fields@)),
{
    let mut out: Vec<String> = Vec::new();
    let mut i: usize = 0;
    while i < fields.len()
        invariant
            i <= fields.len(),
            views(out@) == names_of(borrowed_models(fields@)).take(i as int),
        decreases fields.len() - i,
    {
        let ghost before = views(out@);
        out.push(fields[i].field.clone());
        assert(views(out@) =~= before.push(fields@[i as int]@.field));
        i = i + 1;
        assert(views(out@) =~= names_of(borrowed_models(fields@)).take(i as int));
    }
    assert(views(out@) =~= names_of(borrowed_models(fields@)));
    out
}

/// The parameters at positions 1 to `count`, as the backend writes them.
pub fn placeholders(dialect: &Dialect, count: usize) -> (out: Vec<String>)
    ensures
        views(out@) == placeholder_texts(dialect.placeholders, count as nat),
{
    let mut out: Vec<String> = Vec::new();
    let mut i: usize = 0;
    while i < count
        invariant
            i <= count,
            views(out@) == placeholder_texts(dialect.placeholders, count as nat).take(i as int),
        decreases count - i,
    {
        let ghost before = views(out@);
        let text = dialect.placeholder(i + 1);
        out.push(text);
        assert(views(out@) =~= before.push(placeholder_text(dialect.placeholders, (i + 1) as nat)));
        i = i + 1;
        assert(views(out@) =~= placeholder_texts(dialect.placeholders, count as nat).take(
            i as int,
        ));
    }
    assert(views(out@) =~= placeholder_texts(dialect.placeholders, count as nat));
    out
}

/// One `column = parameter` for each column, the parameters counted from 1.
pub fn assignments(columns: &Vec<String>, dialect: &Dialect) -> (out: Vec<String>)
    ensures
        views(out@) == assignment_texts(views(columns@), dialect.placeholders),
{
    let mut out: Vec<String> = Vec::new();
    let mut i: usize = 0;
    while i < columns.len()
        invariant
            i <= columns.len(),
            views(out@) == assignment_texts(views(columns@), dialect.placeholders).take(i as int),
        decreases columns.len() - i,
    {
        let ghost before = views(out@);
        let mut text = columns[i].clone();
        text.append(" = ");
        text.append(dialect.placeholder(i + 1).as_str());
        out.push(text);
        assert(views(out@) =~= before.push(
            columns@[i as int]@ + " = "@ + placeholder_text(dialect.placeholders, (i + 1) as nat),
        ));
        i = i + 1;
        assert(views(out@) =~= assignment_texts(views(columns@), dialect.placeholders).take(
            i as int,
        ));
    }
    assert(views(out@) =~= assignment_texts(views(columns@), dialect.placeholders));
    out
}

/// The select of a table's rows whose `column` equals the first parameter.
pub fn select_statement(table: &Table, column: &str, dialect: &Dialect) -> (out: String)
    ensures
        out@ == select_sql(table@, column@, *dialect),
{
    let mut out = String::from_str("SELECT ");
    out.append(table.column_list(dialect).as_str());
    out.append(" FROM ");
    out.append(table.table.as_str());
    out.append(" WHERE ");
    out.append(column);
    out.append(" = ");
    out.append(dialect.placeholder(1).as_str());
    assert(out@ =~= select_sql(table@, column@, *dialect));
    out
}

/// The insert of one row into `table` with a value for each of `columns`.
pub fn insert_statement(table: &str, columns: &Vec<String>, dialect: &Dialect) -> (out: String)
    ensures
        out@ == insert_sql(table@, views(columns@), dialect.placeholders),
{
    let parameters = placeholders(dialect, columns.len());
    let mut out = String::from_str("INSERT INTO ");
    out.append(table);
    out.append(" (");
    out.append(join_strings(columns, ", ").as_str());
    out.append(") VALUES (");
    out.append(join_strings(&parameters, ", ").as_str());
    out.append(")");
    assert(out@ =~= insert_sql(table@, views(columns@), dialect.placeholders));
    out
}

/// The update of `columns` in the row of `table` whose `key` column equals
/// the last parameter.
pub fn update_statement(
    table: &str,
    columns: &Vec<String>,
    key: &str,
    dialect: &Dialect,
) -> (out: String)
    ensures
        out@ == update_sql(table@, views(columns@), key@, dialect.placeholders),
{
    let changes = assignments(columns, dialect);
    let last: u128 = columns.len() as u128 + 1;
    let mut out = String::from_str("UPDATE ");
    out.append(table);
    out.append(" SET ");
    out.append(join_strings(&changes, ", ").as_str());
    out.append(" WHERE ");
    out.append(key);
    out.append(" = ");
    out.append(dialect.placeholder_at(last).as_str());
    assert(out@ =~= update_sql(table@, views(columns@), key@, dialect.placeholders));
    out
}

/// The removal of the row of `table` whose `key` column equals the first
/// parameter.
pub fn delete_statement(table: &str, key: &str, dialect: &Dialect) -> (out: String)
    ensures
        out@ == delete_sql(table@, key@, dialect.placeholders),
{
    let mut out = String::from_str("DELETE FROM ");
    out.append(table);
    out.append(" WHERE ");
    out.append(key);
    out.append(" = ");
    out.append(dialect.placeholder(1).as_str());
    assert(out@ =~= delete_sql(table@, key@, dialect.placeholders));
    out
}

/// A list of one name.
fn one_name(name: &String) -> (out: Vec<String>)
    ensures
        views(out@) == seq![name@],
{
    let mut out: Vec<String> = Vec::new();
    out.push(name.clone());
    assert(views(out@) =~= seq![name@]);
    out
}

/// The lookup of a row by its identifier. No row is a failure.
pub fn get(table: &Table, dialect: &Dialect) -> (out: Operation)
    ensures
        out@ == get_model(table@, *dialect),
{
    Operation {
        name: String::from_str("get_by_identifier"),
        sql: select_statement(table, table.id.column.as_str(), dialect),
        binds: one_name(&table.id.field),
        arg_ty: None,
        expect: Expect::ExactlyOne,
    }
}

/// The refresh of an entity from its row: the lookup by identifier again,
/// whose row overwrites every field.
pub fn reload(table: &Table, dialect: &Dialect) -> (out: Operation)
    ensures
        out@ == reload_model(table@, *dialect),
{
    let mut out = get(table, dialect);
    out.name = String::from_str("reload");
    out
}

/// The creation of a row: a value for each insertable field, the
/// identifier and the defaulted fields retrieved as the backend asks.
pub fn insert(table: &Table, dialect: &Dialect) -> (out: Operation)
    ensures
        out@ == insert_model(table@, *dialect),
{
    let fields = table.insertable_fields();
    let columns = column_names(&fields);
    Operation {
        name: String::from_str("insert"),
        sql: insert_statement(table.table.as_str(), &columns, dialect),
        binds: field_names(&fields),
        arg_ty: None,
        expect: Expect::Generated(dialect.retrieval),
    }
}

/// The update of every field but the identifier, keyed on the identifier.
pub fn update(table: &Table, dialect: &Dialect) -> (out: Operation)
    ensures
        out@ == update_model(table@, *dialect),
{
    let fields = table.fields_except_id();
    let columns = column_names(&fields);
    let mut binds = field_names(&fields);
    let ghost before = views(binds@);
    binds.push(table.id.field.clone());
    assert(views(binds@) =~= before.push(table@.id.field));
    Operation {
        name: String::from_str("update"),
        sql: update_statement(table.table.as_str(), &columns, table.id.column.as_str(), dialect),
        binds,
        arg_ty: None,
        expect: Expect::Affected,
    }
}

/// The removal of a row, keyed on the identifier.
pub fn delete(table: &Table, dialect: &Dialect) -> (out: Operation)
    ensures
        out@ == delete_model(table@, *dialect),
{
    Operation {
        name: String::from_str("delete"),
        sql: delete_statement(table.table.as_str(), table.id.column.as_str(), dialect),
        binds: one_name(&table.id.field),
        arg_ty: None,
        expect: Expect::Affected,
    }
}

/// The update of exactly the fields of a patch shape, keyed on the
/// identifier column.
pub fn patch(shape: &PatchShape, dialect: &Dialect) -> (out: Operation)
    ensures
        out@ == patch_model(shape@, *dialect),
{
    let mut columns: Vec<String> = Vec::new();
    let mut binds: Vec<String> = Vec::new();
    let mut i: usize = 0;
    while i < shape.fields.len()
        invariant
            i <= shape.fields.len(),
            views(columns@) == shape@.columns.take(i as int),
            views(binds@) == shape@.fields.take(i as int),
        decreases shape.fields.len() - i,
    {
        let ghost columns_before = views(columns@);
        let ghost binds_before = views(binds@);
        columns.push(shape.fields[i].column.clone());
        binds.push(shape.fields[i].field.clone());
        assert(views(columns@) =~= columns_before.push(shape@.columns[i as int]));
        assert(views(binds@) =~= binds_before.push(shape@.fields[i as int]));
        i = i + 1;
        assert(views(columns@) =~= shape@.columns.take(i as int));
        assert(views(binds@) =~= shape@.fields.take(i as int));
    }
    assert(views(columns@) =~= shape@.columns);
    assert(views(binds@) =~= shape@.fields);
    let ghost before = views(binds@);
    binds.push(shape.id.clone());
    assert(views(binds@) =~= before.push(shape@.id));
    Operation {
        name: String::from_str("patch"),
        sql: update_statement(shape.table_name.as_str(), &columns, shape.id.as_str(), dialect),
        binds,
        arg_ty: None,
        expect: Expect::Affected,
    }
}

/// The accessor that `request` asks for on `field`, keyed on the field's column.
pub fn getter(
    table: &Table,
    field: &TableField,
    request: &Getter,
    expect: Expect,
    dialect: &Dialect,
) -> (out: Operation)
    ensures
        out@ == getter_model(table@, field@, request@, expect, *dialect),
{
    let (name, arg) = request.or_fallback(field);
    Operation {
        name,
        sql: select_statement(table, field.column.as_str(), dialect),
        binds: one_name(&field.field),
        arg_ty: Some(arg),
        expect,
    }
}

/// Every requested accessor of the table: field by field in declaration
/// order, and for one field exactly-one, zero-or-one, many.
pub fn getters(table: &Table, dialect: &Dialect) -> (out: Vec<Operation>)
    ensures
        operation_models(out@) == getters_of(table@, table@.fields, *dialect),
{
    let mut out: Vec<Operation> = Vec::new();
    let mut i: usize = 0;
    while i < table.fields.len()
        invariant
            i <= table.fields.len(),
            operation_models(out@) == getters_of(table@, table@.fields.take(i as int), *dialect),
        decreases table.fields.len() - i,
    {
        let field = &table.fields[i];
        let ghost before = operation_models(out@);
        let ghost one = requested_getter(table@, field@, field@.get_one, Expect::ExactlyOne, *dialect);
        let ghost optional = requested_getter(
            table@,
            field@,
            field@.get_optional,
            Expect::ZeroOrOne,
            *dialect,
        );
        let ghost many = requested_getter(table@, field@, field@.get_many, Expect::Many, *dialect);
        if let Some(g) = &field.get_one {
            out.push(getter(table, field, g, Expect::ExactlyOne, dialect));
        }
        assert(operation_models(out@) =~= before + one);
        if let Some(g) = &field.get_optional {
            out.push(getter(table, field, g, Expect::ZeroOrOne, dialect));
        }
        assert(operation_models(out@) =~= before + one + optional);
        if let Some(g) = &field.get_many {
            out.push(getter(table, field, g, Expect::Many, dialect));
        }
        assert(operation_models(out@) =~= before + one + optional + many);
        i = i + 1;
        proof {
            let fields = table@.fields.take(i as int);
            assert(fields.drop_last() =~= table@.fields.take(i - 1));
            assert(fields.last() == field@);
            assert(before + one + optional + many =~= before + (one + optional + many));
        }
    }
    assert(table@.fields.take(i as int) =~= table@.fields);
    out
}

/// The single-column update of every settable field, in declaration order.
pub fn setters(table: &Table, dialect: &Dialect) -> (out: Vec<Operation>)
    ensures
        operation_models(out@) == setters_of(table@, table@.fields, *dialect),
{
    let mut out: Vec<Operation> = Vec::new();
    let mut i: usize = 0;
    while i < table.fields.len()
        invariant
            i <= table.fields.len(),
            operation_models(out@) == setters_of(table@, table@.fields.take(i as int), *dialect),
        decreases table.fields.len() - i,
    {
        let field = &table.fields[i];
        let ghost before = operation_models(out@);
        if let Some(name) = &field.set {
            let column = one_name(&field.column);
            let mut binds = one_name(&field.field);
            let ghost first = views(binds@);
            binds.push(table.id.field.clone());
            assert(views(binds@) =~= first.push(table@.id.field));
            assert(views(binds@) =~= seq![field@.field, table@.id.field]);
            let op = Operation {
                name: name.clone(),
                sql: update_statement(
                    table.table.as_str(),
                    &column,
                    table.id.column.as_str(),
                    dialect,
                ),
                binds,
                arg_ty: None,
                expect: Expect::Affected,
            };
            out.push(op);
            assert(operation_models(out@) =~= before.push(
                setter_model(table@, field@, name@, *dialect),
            ));
        }
        i = i + 1;
        proof {
            let fields = table@.fields.take(i as int);
            assert(fields.drop_last() =~= table@.fields.take(i - 1));
            assert(fields.last() == field@);
        }
    }
    assert(table@.fields.take(i as int) =~= table@.fields);
    out
}

/// The position of the first of `fields` that is named `name`.
pub open spec fn position(fields: Seq<FieldModel>, name: Seq<char>) -> Option<int>
    decreases fields.len(),
{
    if fields.len() == 0 {
        None
    } else {
        match position(fields.drop_last(), name) {
            Some(i) => Some(i),
            None => if fields.last().field == name {
                Some(fields.len() - 1)
            } else {
                None
            },
        }
    }
}

/// The position in `table` of the field that a patch names and stores in
/// `column`, which must be a field other than the identifier.
pub open spec fn slot(table: TableModel, name: Seq<char>, column: Seq<char>) -> Option<int> {
    match position(table.fields, name) {
        Some(i) => if name != table.id.field && table.fields[i].column == column {
            Some(i)
        } else {
            None
        },
        None => None,
    }
}

impl PatchModel {
    /// Whether the shape is a subset of the table's fields other than the
    /// identifier, on the same SQL table and keyed on the same column.
    pub open spec fn fits(self, table: TableModel) -> bool {
        &&& self.table_name == table.table
        &&& self.id == table.id.column
        &&& forall|k: int|
            0 <= k < self.fields.len() ==> slot(table, #[trigger] self.fields[k], self.columns[k])
                is Some
    }

    /// For each field of the shape, its position among the table's fields.
    pub open spec fn positions(self, table: TableModel) -> Seq<int> {
        Seq::new(self.fields.len(), |k: int| slot(table, self.fields[k], self.columns[k])->0)
    }
}

/// A position lies within the fields, at a field of the name asked for.
pub proof fn lemma_position_is_named(fields: Seq<FieldModel>, name: Seq<char>)
    ensures
        match position(fields, name) {
            Some(i) => 0 <= i < fields.len() && fields[i].field == name,
            None => forall|j: int| 0 <= j < fields.len() ==> (#[trigger] fields[j]).field != name,
        },
    decreases fields.len(),
{
    if fields.len() > 0 {
        lemma_position_is_named(fields.drop_last(), name);
        if position(fields.drop_last(), name) is None {
            assert forall|j: int| 0 <= j < fields.len() - 1 implies (#[trigger] fields[j]).field
                != name by {
                assert(fields.drop_last()[j] == fields[j]);
            }
        }
    }
}

/// Once a field of the name is found, the fields after it do not change
/// the position.
pub proof fn lemma_position_stays(fields: Seq<FieldModel>, name: Seq<char>, k: int)
    requires
        0 <= k <= fields.len(),
        position(fields.take(k), name) is Some,
    ensures
        position(fields, name) == position(fields.take(k), name),
    decreases fields.len() - k,
{
    if k < fields.len() {
        assert(fields.take(k + 1).drop_last() =~= fields.take(k));
        lemma_position_stays(fields, name, k + 1);
    } else {
        assert(fields.take(k) =~= fields);
    }
}

/// The position of the first field of the table that is named `name`.
pub fn find_field(table: &Table, name: &String) -> (out: Option<usize>)
    ensures
        match out {
            Some(i) => position(table@.fields, name@) == Some(i as int),
            None => position(table@.fields, name@) is None,
        },
{
    let mut i: usize = 0;
    while i < table.fields.len()
        invariant
            i <= table.fields.len(),
            position(table@.fields.take(i as int), name@) is None,
        decreases table.fields.len() - i,
    {
        proof {
            assert(table@.fields.take(i + 1).drop_last() =~= table@.fields.take(i as int));
            assert(table@.fields.take(i + 1).last() == table.fields@[i as int]@);
        }
        if table.fields[i].field == *name {
            proof {
                lemma_position_stays(table@.fields, name@, i + 1);
            }
            return Some(i);
        }
        i = i + 1;
    }
    assert(table@.fields.take(i as int) =~= table@.fields);
    None
}

impl PatchShape {
    /// For each field of the shape its position among the table's fields,
    /// where the shape fits the table: it is on the table's SQL table,
    /// keyed on the identifier's column, and each of its fields is a field
    /// of the table other than the identifier, stored in the same column.
    pub fn positions(&self, table: &Table) -> (out: Option<Vec<usize>>)
        ensures
            out is Some <==> self@.fits(table@),
            out is Some ==> out->0@.len() == self@.fields.len(),
            out is Some ==> forall|k: int|
                0 <= k < self@.fields.len() ==> (#[trigger] out->0@[k]) as int
                    == self@.positions(table@)[k],
    {
        if !(self.table_name == table.table) || !(self.id == table.id.column) {
            return None;
        }
        let mut out: Vec<usize> = Vec::new();
        let mut k: usize = 0;
        while k < self.fields.len()
            invariant
                k <= self.fields.len(),
                out@.len() == k,
                forall|j: int|
                    0 <= j < k ==> slot(table@, #[trigger] self@.fields[j], self@.columns[j])
                        == Some(out@[j] as int),
            decreases self.fields.len() - k,
        {
            let field = &self.fields[k];
            assert(self@.fields[k as int] == field.field@);
            assert(self@.columns[k as int] == field.column@);
            let found = find_field(table, &field.field);
            let fitting = match found {
                Some(i) => {
                    proof {
                        lemma_position_is_named(table@.fields, field.field@);
                    }
                    !(field.field == table.id.field) && table.fields[i].column == field.column
                },
                None => false,
            };
            if !fitting {
                assert(slot(table@, self@.fields[k as int], self@.columns[k as int]) is None);
                return None;
            }
            out.push(found.unwrap());
            k = k + 1;
        }
        Some(out)
    }
}

/// The insert binds every field that the database does not fill in:
/// each field of the table is bound, or has the identifier's name, or has
/// a default.
pub proof fn insert_binds_all_but_generated(table: TableModel, dialect: Dialect, i: int)
    requires
        0 <= i < table.fields.len(),
    ensures
        table.fields[i].field == table.id.field || table.fields[i].default || insert_model(
            table,
            dialect,
        ).binds.contains(table.fields[i].field),
{
    let keep = |f: FieldModel| f.field != table.id.field && !f.default;
    if keep(table.fields[i]) {
        table.fields.lemma_filter_contains(keep, i);
        let kept = table.insertable_fields();
        let k = choose|k: int| 0 <= k < kept.len() && kept[k] == table.fields[i];
        assert(names_of(kept)[k] == table.fields[i].field);
    }
}

/// The insert binds nothing else: each of its values is that of a field
/// of the table which is not named like the identifier and has no default.
pub proof fn insert_binds_only_insertable(table: TableModel, dialect: Dialect, k: int)
    requires
        0 <= k < insert_model(table, dialect).binds.len(),
    ensures
        exists|i: int|
            0 <= i < table.fields.len() && (#[trigger] table.fields[i]).field == insert_model(
                table,
                dialect,
            ).binds[k] && table.fields[i].field != table.id.field && !table.fields[i].default,
{
    let keep = |f: FieldModel| f.field != table.id.field && !f.default;
    let kept = table.insertable_fields();
    table.fields.lemma_filter_pred(keep, k);
    assert(kept.contains(kept[k]));
    table.fields.lemma_filter_contains_rev(keep, kept[k]);
    let i = choose|i: int| 0 <= i < table.fields.len() && table.fields[i] == kept[k];
    assert(table.fields[i].field == insert_model(table, dialect).binds[k]);
}

/// The update writes every field that a reload reads: each field of the
/// table is among the values that the update binds.
pub proof fn update_binds_every_field(table: TableModel, dialect: Dialect, i: int)
    requires
        0 <= i < table.fields.len(),
    ensures
        update_model(table, dialect).binds.contains(table.fields[i].field),
{
    let keep = |f: FieldModel| f.field != table.id.field;
    let kept = table.fields_except_id();
    let binds = update_model(table, dialect).binds;
    if keep(table.fields[i]) {
        table.fields.lemma_filter_contains(keep, i);
        let k = choose|k: int| 0 <= k < kept.len() && kept[k] == table.fields[i];
        assert(binds[k] == table.fields[i].field);
    } else {
        assert(binds[kept.len() as int] == table.id.field);
    }
}

/// Every operation of a table.
#[derive(Debug)]
pub struct Generated {
    pub get: Operation,
    pub reload: Operation,
    pub insert: Operation,
    pub update: Operation,
    pub delete: Operation,
    pub getters: Vec<Operation>,
    pub setters: Vec<Operation>,
    /// The shape for creating rows as the table declares it, with the
    /// name it is given there.
    pub insertable: Option<Insertable>,
}

/// What a [`Generated`] stands for.
pub struct GeneratedModel {
    pub get: OperationModel,
    pub reload: OperationModel,
    pub insert: OperationModel,
    pub update: OperationModel,
    pub delete: OperationModel,
    pub getters: Seq<OperationModel>,
    pub setters: Seq<OperationModel>,
    pub insertable: Option<InsertableModel>,
}

impl View for Generated {
    type V = GeneratedModel;

    open spec fn view(&self) -> GeneratedModel {
        GeneratedModel {
            get: self.get@,
            reload: self.reload@,
            insert: self.insert@,
            update: self.update@,
            delete: self.delete@,
            getters: operation_models(self.getters@),
            setters: operation_models(self.setters@),
            insertable: insertable_of(self.insertable),
        }
    }
}

/// Every operation of `table` in `dialect`.
pub open spec fn generated(table: TableModel, dialect: Dialect) -> GeneratedModel {
    GeneratedModel {
        get: get_model(table, dialect),
        reload: reload_model(table, dialect),
        insert: insert_model(table, dialect),
        update: update_model(table, dialect),
        delete: delete_model(table, dialect),
        getters: getters_of(table, table.fields, dialect),
        setters: setters_of(table, table.fields, dialect),
        insertable: table.insertable,
    }
}

/// Generates every operation of a table for one backend, and hands on
/// the shape for creating rows that the table declares.
pub fn generate(table: &Table, dialect: &Dialect) -> (out: Generated)
    ensures
        out@ == generated(table@, *dialect),
{
    Generated {
        get: get(table, dialect),
        reload: reload(table, dialect),
        insert: insert(table, dialect),
        update: update(table, dialect),
        delete: delete(table, dialect),
        getters: getters(table, dialect),
        setters: setters(table, dialect),
        insertable: match &table.insertable {
            Some(shape) => Some(shape.clone()),
            None => None,
        },
    }
}

} // verus!
