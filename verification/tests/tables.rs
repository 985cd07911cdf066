use ormx_schema::attrs::{Getter, Insertable};
use ormx_schema::backend::{Dialect, Placeholders, Retrieval};
use ormx_schema::operations::{
    assignments, delete, generate, get, getters, insert, patch, placeholders, reload, setters,
    update, Expect, Operation, PatchField, PatchShape,
};
use ormx_schema::outcome::{settle, OpError, Outcome};
use ormx_schema::schema::{parse, FieldInput, SchemaError, TableInput};
use ormx_schema::table::{Table, TableField};

fn plain(name: &str, ty: &str) -> FieldInput {
    FieldInput {
        name: name.to_owned(),
        ty: ty.to_owned(),
        column: None,
        identifier: false,
        custom_type: false,
        default: false,
        get_one: None,
        get_optional: None,
        get_many: None,
        settable: false,
        setter: None,
    }
}

fn users_input() -> TableInput {
    let mut id = plain("user_id", "u32");
    id.column = Some("id".to_owned());
    id.identifier = true;
    id.get_one = Some(Getter {
        func: Some("get_by_user_id".to_owned()),
        arg_ty: Some("u32".to_owned()),
    });
    let mut email = plain("email", "String");
    email.get_optional = Some(Getter { func: None, arg_ty: Some("&str".to_owned()) });
    let mut last_login = plain("last_login", "Option<NaiveDateTime>");
    last_login.default = true;
    last_login.settable = true;
    TableInput {
        ident: "User".to_owned(),
        table: "users".to_owned(),
        fields: vec![
            id,
            plain("first_name", "String"),
            plain("last_name", "String"),
            email,
            plain("disabled", "Option<String>"),
            last_login,
        ],
        insertable: Some(Insertable { ident: None }),
    }
}

fn users() -> Table {
    parse(&users_input()).unwrap()
}

fn names(fields: &[&TableField]) -> Vec<String> {
    fields.iter().map(|f| f.field.clone()).collect()
}

fn texts(items: &[&str]) -> Vec<String> {
    items.iter().map(|s| s.to_string()).collect()
}

const USER_COLUMNS: &str = "id AS user_id, first_name, last_name, email, disabled, last_login";

#[test]
fn parse_fills_in_defaults() {
    let table = users();
    assert_eq!(table.ident, "User");
    assert_eq!(table.table, "users");
    assert_eq!(table.id.field, "user_id");
    assert_eq!(table.id.column, "id");
    assert_eq!(table.id.set, None);
    assert_eq!(table.fields.len(), 6);
    assert_eq!(table.fields[1].column, "first_name");
    assert_eq!(table.fields[5].set, Some("set_last_login".to_owned()));
    assert!(table.fields[5].default);
    assert!(table.insertable.is_some());
}

#[test]
fn parse_keeps_a_named_setter() {
    let mut input = users_input();
    input.fields[5].setter = Some("touch".to_owned());
    let table = parse(&input).unwrap();
    assert_eq!(table.fields[5].set, Some("touch".to_owned()));
}

#[test]
fn parse_refuses_missing_identifier() {
    let mut input = users_input();
    input.fields[0].identifier = false;
    assert_eq!(parse(&input).err(), Some(SchemaError::MissingIdentifier));
    let empty = TableInput {
        ident: "E".to_owned(),
        table: "e".to_owned(),
        fields: vec![],
        insertable: None,
    };
    assert_eq!(parse(&empty).err(), Some(SchemaError::MissingIdentifier));
}

#[test]
fn parse_refuses_duplicate_identifier() {
    let mut input = users_input();
    input.fields[3].identifier = true;
    assert_eq!(parse(&input).err(), Some(SchemaError::DuplicateIdentifier));
}

#[test]
fn parse_refuses_settable_identifier() {
    let mut input = users_input();
    input.fields[0].settable = true;
    assert_eq!(parse(&input).err(), Some(SchemaError::SettableIdentifier));
}

#[test]
fn parse_refuses_name_collision() {
    let mut input = users_input();
    input.fields[3].get_many = Some(Getter { func: None, arg_ty: None });
    assert_eq!(parse(&input).err(), Some(SchemaError::NameCollision));
    let mut named = users_input();
    named.fields[3].get_many = Some(Getter { func: Some("by_email".to_owned()), arg_ty: None });
    assert_eq!(parse(&named).err(), Some(SchemaError::NameCollision));
    let mut distinct = users_input();
    distinct.fields[3].get_many =
        Some(Getter { func: Some("all_by_email".to_owned()), arg_ty: None });
    assert!(parse(&distinct).is_ok());
}

#[test]
fn parse_refuses_unresolved_override() {
    let mut input = users_input();
    input.fields[3].get_optional = Some(Getter { func: None, arg_ty: Some("&".to_owned()) });
    assert_eq!(parse(&input).err(), Some(SchemaError::UnresolvedType));
    let mut unbalanced = users_input();
    unbalanced.fields[0].get_one =
        Some(Getter { func: None, arg_ty: Some("Vec<(".to_owned()) });
    assert_eq!(parse(&unbalanced).err(), Some(SchemaError::UnresolvedType));
}

#[test]
fn identifier_errors_come_before_field_errors() {
    let mut input = users_input();
    input.fields[0].identifier = false;
    input.fields[3].get_optional = Some(Getter { func: None, arg_ty: Some("&".to_owned()) });
    assert_eq!(parse(&input).err(), Some(SchemaError::MissingIdentifier));
}

#[test]
fn first_faulty_field_decides() {
    let mut input = users_input();
    input.fields[1].get_one = Some(Getter { func: None, arg_ty: Some("(".to_owned()) });
    input.fields[3].get_many = Some(Getter { func: None, arg_ty: None });
    assert_eq!(parse(&input).err(), Some(SchemaError::UnresolvedType));
}

#[test]
fn overrides_resolve_asks_the_type_parser() {
    let mut email = plain("email", "String");
    email.get_optional = Some(Getter { func: None, arg_ty: Some("&str".to_owned()) });
    assert!(email.overrides_resolve());
    email.get_many = Some(Getter { func: Some("all".to_owned()), arg_ty: Some("fn(".to_owned()) });
    assert!(!email.overrides_resolve());
    assert!(plain("a", "u8").overrides_resolve());
}

#[test]
fn check_reports_each_fault() {
    let field = plain("a", "u8");
    assert_eq!(field.check(false).err(), Some(SchemaError::UnresolvedType));
    let ok = field.check(true).unwrap();
    assert_eq!(ok.field, "a");
    assert_eq!(ok.column, "a");
    assert_eq!(ok.ty, "u8");
    assert_eq!(ok.set, None);
    let mut both = plain("a", "u8");
    both.get_one = Some(Getter { func: None, arg_ty: None });
    both.get_optional = Some(Getter { func: None, arg_ty: None });
    assert_eq!(both.check(true).err(), Some(SchemaError::NameCollision));
    assert_eq!(both.check(false).err(), Some(SchemaError::NameCollision));
    both.identifier = true;
    both.settable = true;
    assert_eq!(both.check(true).err(), Some(SchemaError::SettableIdentifier));
}

#[test]
fn field_partitions() {
    let table = users();
    assert_eq!(
        names(&table.fields_except_id()),
        texts(&["first_name", "last_name", "email", "disabled", "last_login"])
    );
    assert_eq!(
        names(&table.insertable_fields()),
        texts(&["first_name", "last_name", "email", "disabled"])
    );
    assert_eq!(names(&table.default_fields()), texts(&["last_login"]));
}

#[test]
fn identifier_alone_has_nothing_insertable() {
    let mut id = plain("id", "u64");
    id.identifier = true;
    let input = TableInput {
        ident: "Only".to_owned(),
        table: "only".to_owned(),
        fields: vec![id],
        insertable: None,
    };
    let table = parse(&input).unwrap();
    assert!(table.insertable_fields().is_empty());
    assert!(table.fields_except_id().is_empty());
    let d = Dialect::postgres();
    assert_eq!(table.column_list(&d), "id");
    assert_eq!(insert(&table, &d).sql, "INSERT INTO only () VALUES ()");
    assert!(insert(&table, &d).binds.is_empty());
    assert_eq!(update(&table, &d).sql, "UPDATE only SET  WHERE id = $1");
}

#[test]
fn select_fragments() {
    let pg = Dialect::postgres();
    let my = Dialect::mysql();
    let mut f = parse(&users_input()).unwrap().fields[1].clone();
    assert_eq!(f.fmt_for_select(&pg), "first_name");
    assert_eq!(f.fmt_for_select(&my), "first_name");
    f.column = "fname".to_owned();
    assert_eq!(f.fmt_for_select(&pg), "fname AS first_name");
    f.custom_type = true;
    assert_eq!(f.fmt_for_select(&pg), "fname AS \"first_name\": _\"");
    assert_eq!(f.fmt_for_select(&my), "fname AS `first_name`: _`");
    f.column = "first_name".to_owned();
    assert_eq!(f.fmt_for_select(&pg), "first_name AS \"first_name\": _\"");
}

#[test]
fn column_list_follows_declaration_order() {
    let table = users();
    let pg = Dialect::postgres();
    assert_eq!(table.column_list(&pg), USER_COLUMNS);
    assert_eq!(table.column_list(&pg), table.column_list(&pg));
    assert_eq!(table.column_list(&Dialect::mysql()), USER_COLUMNS);
    let mut input = users_input();
    input.fields.swap(1, 2);
    input.fields[4].custom_type = true;
    let swapped = parse(&input).unwrap();
    assert_eq!(
        swapped.column_list(&Dialect::mysql()),
        "id AS user_id, last_name, first_name, email, disabled AS `disabled`: _`, last_login"
    );
}

#[test]
fn fallback_names_and_types() {
    let table = users();
    let bare = Getter { func: None, arg_ty: None };
    let (name, arg) = bare.or_fallback(&table.fields[3]);
    assert_eq!(name, "by_email");
    assert_eq!(arg, "&String");
    let full = Getter { func: Some("find".to_owned()), arg_ty: Some("&str".to_owned()) };
    let (name, arg) = full.or_fallback(&table.fields[3]);
    assert_eq!(name, "find");
    assert_eq!(arg, "&str");
    assert_eq!(bare.func_name("x"), "by_x");
    assert_eq!(bare.arg_type("u8"), "&u8");
}

#[test]
fn dialects() {
    let pg = Dialect::postgres();
    assert_eq!(pg.quote, '"');
    assert_eq!(pg.placeholders, Placeholders::Numbered);
    assert_eq!(pg.retrieval, Retrieval::Returning);
    let my = Dialect::mysql();
    assert_eq!(my.quote, '`');
    assert_eq!(my.placeholders, Placeholders::Marker);
    assert_eq!(my.retrieval, Retrieval::Refetch);
    assert_eq!(pg.placeholder(1), "$1");
    assert_eq!(pg.placeholder(9), "$9");
    assert_eq!(pg.placeholder(10), "$10");
    assert_eq!(pg.placeholder(1234567890), "$1234567890");
    assert_eq!(pg.placeholder(0), "$0");
    assert_eq!(pg.placeholder_at(u128::MAX), "$340282366920938463463374607431768211455");
    assert_eq!(my.placeholder(1), "?");
    assert_eq!(my.placeholder(25), "?");
    assert_eq!(placeholders(&pg, 3), texts(&["$1", "$2", "$3"]));
    assert_eq!(placeholders(&my, 2), texts(&["?", "?"]));
    assert!(placeholders(&pg, 0).is_empty());
    assert_eq!(assignments(&texts(&["a", "b"]), &pg), texts(&["a = $1", "b = $2"]));
    assert_eq!(assignments(&texts(&["a", "b"]), &my), texts(&["a = ?", "b = ?"]));
}

fn check_op(op: &Operation, name: &str, sql: &str, binds: &[&str], expect: Expect) {
    assert_eq!(op.name, name);
    assert_eq!(op.sql, sql);
    assert_eq!(op.binds, texts(binds));
    assert_eq!(op.expect, expect);
}

#[test]
fn postgres_operations() {
    let table = users();
    let d = Dialect::postgres();
    check_op(
        &get(&table, &d),
        "get_by_identifier",
        &format!("SELECT {} FROM users WHERE id = $1", USER_COLUMNS),
        &["user_id"],
        Expect::ExactlyOne,
    );
    check_op(
        &reload(&table, &d),
        "reload",
        &format!("SELECT {} FROM users WHERE id = $1", USER_COLUMNS),
        &["user_id"],
        Expect::ExactlyOne,
    );
    check_op(
        &insert(&table, &d),
        "insert",
        "INSERT INTO users (first_name, last_name, email, disabled) VALUES ($1, $2, $3, $4)",
        &["first_name", "last_name", "email", "disabled"],
        Expect::Generated(Retrieval::Returning),
    );
    check_op(
        &update(&table, &d),
        "update",
        "UPDATE users SET first_name = $1, last_name = $2, email = $3, disabled = $4, last_login = $5 WHERE id = $6",
        &["first_name", "last_name", "email", "disabled", "last_login", "user_id"],
        Expect::Affected,
    );
    check_op(
        &delete(&table, &d),
        "delete",
        "DELETE FROM users WHERE id = $1",
        &["user_id"],
        Expect::Affected,
    );
}

#[test]
fn mysql_operations() {
    let table = users();
    let d = Dialect::mysql();
    check_op(
        &get(&table, &d),
        "get_by_identifier",
        &format!("SELECT {} FROM users WHERE id = ?", USER_COLUMNS),
        &["user_id"],
        Expect::ExactlyOne,
    );
    check_op(
        &insert(&table, &d),
        "insert",
        "INSERT INTO users (first_name, last_name, email, disabled) VALUES (?, ?, ?, ?)",
        &["first_name", "last_name", "email", "disabled"],
        Expect::Generated(Retrieval::Refetch),
    );
    check_op(
        &update(&table, &d),
        "update",
        "UPDATE users SET first_name = ?, last_name = ?, email = ?, disabled = ?, last_login = ? WHERE id = ?",
        &["first_name", "last_name", "email", "disabled", "last_login", "user_id"],
        Expect::Affected,
    );
    check_op(&delete(&table, &d), "delete", "DELETE FROM users WHERE id = ?", &["user_id"], Expect::Affected);
}

#[test]
fn accessors_and_setters() {
    let table = users();
    let d = Dialect::postgres();
    let found = getters(&table, &d);
    assert_eq!(found.len(), 2);
    check_op(
        &found[0],
        "get_by_user_id",
        &format!("SELECT {} FROM users WHERE id = $1", USER_COLUMNS),
        &["user_id"],
        Expect::ExactlyOne,
    );
    assert_eq!(found[0].arg_ty, Some("u32".to_owned()));
    check_op(
        &found[1],
        "by_email",
        &format!("SELECT {} FROM users WHERE email = $1", USER_COLUMNS),
        &["email"],
        Expect::ZeroOrOne,
    );
    assert_eq!(found[1].arg_ty, Some("&str".to_owned()));
    let set = setters(&table, &d);
    assert_eq!(set.len(), 1);
    check_op(
        &set[0],
        "set_last_login",
        "UPDATE users SET last_login = $1 WHERE id = $2",
        &["last_login", "user_id"],
        Expect::Affected,
    );
}

#[test]
fn accessors_of_one_field_come_in_fixed_order() {
    let mut input = users_input();
    input.fields[1].get_many = Some(Getter { func: Some("all".to_owned()), arg_ty: None });
    input.fields[1].get_one = Some(Getter { func: Some("one".to_owned()), arg_ty: None });
    input.fields[1].get_optional = Some(Getter { func: Some("maybe".to_owned()), arg_ty: None });
    let table = parse(&input).unwrap();
    let found = getters(&table, &Dialect::mysql());
    let names: Vec<&str> = found.iter().map(|op| op.name.as_str()).collect();
    assert_eq!(names, vec!["get_by_user_id", "one", "maybe", "all", "by_email"]);
    assert_eq!(found[1].expect, Expect::ExactlyOne);
    assert_eq!(found[2].expect, Expect::ZeroOrOne);
    assert_eq!(found[3].expect, Expect::Many);
    assert_eq!(found[3].arg_ty, Some("&String".to_owned()));
}

fn update_name() -> PatchShape {
    PatchShape {
        ident: "UpdateName".to_owned(),
        table_name: "users".to_owned(),
        id: "id".to_owned(),
        fields: vec![
            PatchField { field: "first_name".to_owned(), column: "first_name".to_owned() },
            PatchField { field: "last_name".to_owned(), column: "last_name".to_owned() },
            PatchField { field: "disabled".to_owned(), column: "disabled".to_owned() },
        ],
    }
}

#[test]
fn patch_touches_only_its_fields() {
    check_op(
        &patch(&update_name(), &Dialect::postgres()),
        "patch",
        "UPDATE users SET first_name = $1, last_name = $2, disabled = $3 WHERE id = $4",
        &["first_name", "last_name", "disabled", "id"],
        Expect::Affected,
    );
    check_op(
        &patch(&update_name(), &Dialect::mysql()),
        "patch",
        "UPDATE users SET first_name = ?, last_name = ?, disabled = ? WHERE id = ?",
        &["first_name", "last_name", "disabled", "id"],
        Expect::Affected,
    );
}

#[test]
fn replies_are_settled() {
    let fail: Result<u64, &str> = Err("down");
    assert_eq!(settle(Expect::ExactlyOne, fail), Err(OpError::Backend("down")));
    assert_eq!(settle(Expect::Affected, fail), Err(OpError::Backend("down")));
    let none: Result<u64, &str> = Ok(0);
    let one: Result<u64, &str> = Ok(1);
    let three: Result<u64, &str> = Ok(3);
    assert_eq!(settle(Expect::ExactlyOne, none), Err(OpError::NotFound));
    assert_eq!(settle(Expect::ExactlyOne, one), Ok(Outcome::Row));
    assert_eq!(settle(Expect::ExactlyOne, three), Ok(Outcome::Row));
    assert_eq!(settle(Expect::ZeroOrOne, none), Ok(Outcome::Empty));
    assert_eq!(settle(Expect::ZeroOrOne, one), Ok(Outcome::Row));
    assert_eq!(settle(Expect::Many, none), Ok(Outcome::Rows(0)));
    assert_eq!(settle(Expect::Many, three), Ok(Outcome::Rows(3)));
    assert_eq!(settle(Expect::Affected, none), Err(OpError::Conflict));
    assert_eq!(settle(Expect::Affected, one), Ok(Outcome::Done));
    assert_eq!(settle(Expect::Generated(Retrieval::Returning), one), Ok(Outcome::Row));
    assert_eq!(settle(Expect::Generated(Retrieval::Returning), none), Err(OpError::NotFound));
    assert_eq!(settle(Expect::Generated(Retrieval::Refetch), one), Ok(Outcome::Refetch));
    assert_eq!(settle(Expect::Generated(Retrieval::Refetch), none), Err(OpError::Conflict));
}

#[test]
fn derive_generates_everything_or_nothing() {
    let all = ormx_schema::table::derive(&users_input(), &Dialect::postgres()).unwrap();
    let table = users();
    let direct = generate(&table, &Dialect::postgres());
    assert_eq!(all.get.sql, direct.get.sql);
    assert_eq!(all.reload.name, "reload");
    assert_eq!(all.insert.sql, direct.insert.sql);
    assert_eq!(all.update.binds, direct.update.binds);
    assert_eq!(all.delete.sql, "DELETE FROM users WHERE id = $1");
    assert_eq!(all.getters.len(), 2);
    assert_eq!(all.setters.len(), 1);
    let mut bad = users_input();
    bad.fields[0].identifier = false;
    assert_eq!(ormx_schema::table::derive(&bad, &Dialect::postgres()).err(), Some(SchemaError::MissingIdentifier));
}

#[test]
fn users_scenario() {
    let d = Dialect::mysql();
    let all = ormx_schema::table::derive(&users_input(), &d).unwrap();
    // insert binds the three given values and the optional `disabled`;
    // `user_id` and `last_login` come from the database.
    assert_eq!(all.insert.binds, texts(&["first_name", "last_name", "email", "disabled"]));
    assert_eq!(all.insert.expect, Expect::Generated(Retrieval::Refetch));
    let created: Result<u64, String> = Ok(1);
    assert_eq!(settle(all.insert.expect, created), Ok(Outcome::Refetch));
    // set_field(last_login, T) changes one column, then reload reads the row.
    assert_eq!(all.setters[0].sql, "UPDATE users SET last_login = ? WHERE id = ?");
    assert_eq!(settle(all.setters[0].expect, Ok::<u64, String>(1)), Ok(Outcome::Done));
    assert_eq!(settle(all.reload.expect, Ok::<u64, String>(1)), Ok(Outcome::Row));
    // the patch names three columns; `email` is not among them.
    let p = patch(&update_name(), &d);
    assert_eq!(p.binds, texts(&["first_name", "last_name", "disabled", "id"]));
    assert!(!p.sql.contains("email"));
    // after the delete no row matches.
    assert_eq!(settle(all.delete.expect, Ok::<u64, String>(1)), Ok(Outcome::Done));
    let by_email = &all.getters[1];
    assert_eq!(by_email.name, "by_email");
    assert_eq!(settle(by_email.expect, Ok::<u64, String>(0)), Ok(Outcome::Empty));
    assert_eq!(settle(all.get.expect, Ok::<u64, String>(0)), Err(OpError::NotFound));
    assert_eq!(settle(all.update.expect, Ok::<u64, String>(0)), Err(OpError::Conflict));
    assert_eq!(settle(all.reload.expect, Ok::<u64, String>(0)), Err(OpError::NotFound));
}
