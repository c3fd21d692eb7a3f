//! The SQL that persisting a module needs: statements are planned here, from
//! the contract and the record, and run by whoever holds the connection.

use vstd::prelude::*;
use crate::contract::{Field, FieldType, LexModule};
use crate::json::JsonValue;
use crate::sanitizer::{is_safe_identifier, safe_identifier};
use crate::text::{decimal, push_decimal, same_text};

verus! {

/// What `uuid::Uuid::parse_str` makes of a text, as the 128-bit value of the
/// UUID; nothing when the text is not a UUID.
pub uninterp spec fn uuid_parse(text: Seq<char>) -> Option<u128>;

/// Parses a UUID with `uuid::Uuid::parse_str`. Trusted: the result is the
/// named parse of the text.
#[verifier::external_body]
fn parse_uuid(text: &str) -> (parsed: Option<u128>)
    ensures
        parsed == uuid_parse(text@),
{
    match uuid::Uuid::parse_str(text) {
        Ok(u) => Some(u.as_u128()),
        Err(_) => None,
    }
}

/// The key that a record id selects: its UUID, or the nil UUID when the id
/// is not one.
pub open spec fn record_key_of(id: Seq<char>) -> u128 {
    match uuid_parse(id) {
        Some(k) => k,
        None => 0,
    }
}

/// The UUID that selects the record `id`; the nil UUID when `id` is not a UUID.
pub fn record_key(id: &str) -> (key: u128)
    ensures
        key == record_key_of(id@),
{
    match parse_uuid(id) {
        Some(k) => k,
        None => 0,
    }
}

/// A value bound to a statement parameter.
pub enum SqlParam {
    /// A text.
    Text(String),
    /// A double, by its IEEE-754 bit pattern.
    Double(u64),
    /// A boolean.
    Bool(bool),
    /// A timestamp given by its text, or SQL NULL; its marker casts it.
    Timestamp(Option<String>),
    /// The JSON text of the record's member with this name.
    MemberJson(String),
    /// A UUID, by its 128-bit value.
    Uuid(u128),
}

/// The content of a statement parameter.
pub enum ParamView {
    Text(Seq<char>),
    Double(u64),
    Bool(bool),
    Timestamp(Option<Seq<char>>),
    MemberJson(Seq<char>),
    Uuid(u128),
}

impl View for SqlParam {
    type V = ParamView;

    open spec fn view(&self) -> ParamView {
        match self {
            SqlParam::Text(s) => ParamView::Text(s@),
            SqlParam::Double(b) => ParamView::Double(*b),
            SqlParam::Bool(b) => ParamView::Bool(*b),
            SqlParam::Timestamp(t) => ParamView::Timestamp(
                match t {
                    Some(x) => Some(x@),
                    None => None,
                },
            ),
            SqlParam::MemberJson(k) => ParamView::MemberJson(k@),
            SqlParam::Uuid(u) => ParamView::Uuid(*u),
        }
    }
}

/// A statement with positional parameters `$1`, `$2`, ...
pub struct SqlStatement {
    pub text: String,
    pub params: Vec<SqlParam>,
}

/// The contents of a sequence of parameters.
pub open spec fn param_views(params: Seq<SqlParam>) -> Seq<ParamView> {
    params.map_values(|p: SqlParam| p@)
}

/// Why the storage refused a module.
pub enum StorageError {
    /// The module's configuration is unusable; the text says why.
    Configuration(String),
}

/// `items` joined by `sep`.
pub open spec fn joined(items: Seq<Seq<char>>, sep: Seq<char>) -> Seq<char>
    decreases items.len(),
{
    if items.len() == 0 {
        seq![]
    } else if items.len() == 1 {
        items[0]
    } else {
        joined(items.drop_last(), sep) + sep + items.last()
    }
}

/// `namespace.name` of a module.
pub open spec fn table_path(module: LexModule) -> Seq<char> {
    module.metadata.namespace@ + "."@ + module.metadata.name@
}

fn make_table_path(module: &LexModule) -> (path: String)
    ensures
        path@ == table_path(*module),
{
    let mut path = module.metadata.namespace.clone();
    path.append(".");
    path.append(module.metadata.name.as_str());
    path
}

// ---------------------------------------------------------------- tables

/// The SQL type of a column for a field type. Binaries, enums and
/// references are stored as the JSON text of their value, so that they read
/// back as they were written.
pub open spec fn column_type(t: FieldType) -> Seq<char> {
    match t {
        FieldType::String => "TEXT"@,
        FieldType::Number => "DOUBLE PRECISION"@,
        FieldType::Boolean => "BOOLEAN"@,
        FieldType::Datetime => "TIMESTAMPTZ"@,
        _ => "TEXT"@,
    }
}

/// The nullability clause of a column.
pub open spec fn nullability(required: bool) -> Seq<char> {
    if required { "NOT NULL"@ } else { "NULL"@ }
}

/// The column definitions of the fields, each led by `, `; a field named
/// `id` is skipped, as the table defines that column itself.
pub open spec fn column_definitions(fields: Seq<Field>) -> Seq<char>
    decreases fields.len(),
{
    if fields.len() == 0 {
        seq![]
    } else {
        let f = fields.last();
        let rest = column_definitions(fields.drop_last());
        if f.id@ == "id"@ {
            rest
        } else {
            rest + ", "@ + f.id@ + " "@ + column_type(f.field_type) + " "@ + nullability(f.required)
        }
    }
}

/// The id of the first field whose id is not a safe identifier.
pub open spec fn first_unsafe_field(fields: Seq<Field>) -> Option<Seq<char>>
    decreases fields.len(),
{
    if fields.len() == 0 {
        None
    } else if !safe_identifier(fields[0].id@) {
        Some(fields[0].id@)
    } else {
        first_unsafe_field(fields.drop_first())
    }
}

/// The refusal of a module whose namespace or name is unsafe.
pub open spec fn bad_location_message() -> Seq<char> {
    "Nombre de namespace o módulo inválido (caracteres no permitidos)"@
}

/// The refusal of a module with an unsafe field id.
pub open spec fn bad_field_message(id: Seq<char>) -> Seq<char> {
    "Nombre de campo '"@ + id + "' inválido"@
}

/// The statements that make sure a module's table exists.
pub struct TablePlan {
    /// `namespace.name`.
    pub table_path: String,
    /// Creates the namespace's schema.
    pub schema_sql: String,
    /// Creates the table.
    pub table_sql: String,
}

/// The schema statement of a module.
pub open spec fn schema_statement(module: LexModule) -> Seq<char> {
    "CREATE SCHEMA IF NOT EXISTS "@ + module.metadata.namespace@
}

/// The table statement of a module.
pub open spec fn table_statement(module: LexModule) -> Seq<char> {
    "CREATE TABLE IF NOT EXISTS "@ + table_path(module)
        + " (id UUID PRIMARY KEY DEFAULT gen_random_uuid()"@
        + column_definitions(module.spec.fields@) + ");"@
}

fn column_type_text(t: FieldType) -> (s: &'static str)
    ensures
        s@ == column_type(t),
{
    match t {
        FieldType::String => "TEXT",
        FieldType::Number => "DOUBLE PRECISION",
        FieldType::Boolean => "BOOLEAN",
        FieldType::Datetime => "TIMESTAMPTZ",
        _ => "TEXT",
    }
}

fn first_unsafe(fields: &Vec<Field>) -> (found: Option<usize>)
    ensures
        found is Some <==> first_unsafe_field(fields@) is Some,
        found matches Some(i) ==> i < fields@.len() && first_unsafe_field(fields@) == Some(fields@[i as int].id@),
{
    let n = fields.len();
    let mut i: usize = 0;
    assert(fields@.skip(0) =~= fields@);
    while i < n
        invariant
            n == fields@.len(),
            i <= n,
            first_unsafe_field(fields@) == first_unsafe_field(fields@.skip(i as int)),
        decreases n - i,
    {
        assert(fields@.skip(i as int).drop_first() =~= fields@.skip(i + 1));
        if !is_safe_identifier(fields[i].id.as_str()) {
            return Some(i);
        }
        i = i + 1;
    }
    None
}

/// Plans the statements that make sure the table of `module` exists. The
/// namespace, the name and every field id must be safe identifiers; otherwise
/// the module is refused with a configuration error and no SQL is written.
pub fn plan_ensure_table(module: &LexModule) -> (plan: Result<TablePlan, StorageError>)
    ensures
        !(safe_identifier(module.metadata.namespace@) && safe_identifier(module.metadata.name@)) ==>
            (plan matches Err(StorageError::Configuration(m)) && m@ == bad_location_message()),
        safe_identifier(module.metadata.namespace@) && safe_identifier(module.metadata.name@) ==>
            (first_unsafe_field(module.spec.fields@) matches Some(id) ==>
            (plan matches Err(StorageError::Configuration(m)) && m@ == bad_field_message(id))),
        safe_identifier(module.metadata.namespace@) && safe_identifier(module.metadata.name@)
            && first_unsafe_field(module.spec.fields@) is None ==>
            (plan matches Ok(p) && p.table_path@ == table_path(*module)
                && p.schema_sql@ == schema_statement(*module)
                && p.table_sql@ == table_statement(*module)),
{
    if !is_safe_identifier(module.metadata.namespace.as_str()) || !is_safe_identifier(module.metadata.name.as_str()) {
        return Err(StorageError::Configuration(
            String::from_str("Nombre de namespace o módulo inválido (caracteres no permitidos)"),
        ));
    }
    let fields = &module.spec.fields;
    match first_unsafe(fields) {
        Some(i) => {
            let mut m = String::from_str("Nombre de campo '");
            m.append(fields[i].id.as_str());
            m.append("' inválido");
            return Err(StorageError::Configuration(m));
        },
        None => {},
    }
    let mut schema_sql = String::from_str("CREATE SCHEMA IF NOT EXISTS ");
    schema_sql.append(module.metadata.namespace.as_str());
    let path = make_table_path(module);
    let mut table_sql = String::from_str("CREATE TABLE IF NOT EXISTS ");
    table_sql.append(path.as_str());
    table_sql.append(" (id UUID PRIMARY KEY DEFAULT gen_random_uuid()");
    let ghost head = table_sql@;
    let n = fields.len();
    let mut i: usize = 0;
    while i < n
        invariant
            n == fields@.len(),
            i <= n,
            table_sql@ == head + column_definitions(fields@.take(i as int)),
        decreases n - i,
    {
        let f = &fields[i];
        assert(fields@.take(i + 1).drop_last() =~= fields@.take(i as int));
        assert(fields@.take(i + 1).last() == fields@[i as int]);
        if !same_text(f.id.as_str(), "id") {
            table_sql.append(", ");
            table_sql.append(f.id.as_str());
            table_sql.append(" ");
            table_sql.append(column_type_text(f.field_type));
            table_sql.append(" ");
            if f.required {
                table_sql.append("NOT NULL");
            } else {
                table_sql.append("NULL");
            }
        }
        assert(table_sql@ =~= head + column_definitions(fields@.take(i + 1)));
        i = i + 1;
    }
    assert(fields@.take(n as int) =~= fields@);
    table_sql.append(");");
    assert(table_sql@ =~= table_statement(*module));
    Ok(TablePlan { table_path: path, schema_sql, table_sql })
}


// ---------------------------------------------------------------- records

/// The fields that the record carries as members (a null member counts), in
/// field order.
pub open spec fn bound_fields(fields: Seq<Field>, data: JsonValue) -> Seq<Field>
    decreases fields.len(),
{
    if fields.len() == 0 {
        seq![]
    } else {
        let rest = bound_fields(fields.drop_last(), data);
        if data.member(fields.last().id@) is Some {
            rest.push(fields.last())
        } else {
            rest
        }
    }
}

/// The value bound for a field: the text of a text field (empty when the
/// member is not a string), the double of a number field (zero when it is not
/// a number), the flag of a boolean field (false when it is not a boolean), and
/// the text of a date field as a timestamp (SQL NULL when it is not a string),
/// and the member's JSON text for any other field type.
pub open spec fn bind_param(field: Field, data: JsonValue) -> ParamView {
    let v = data.member(field.id@);
    match field.field_type {
        FieldType::String => ParamView::Text(
            match v {
                Some(JsonValue::Str(s)) => s@,
                _ => ""@,
            },
        ),
        FieldType::Number => ParamView::Double(
            match v {
                Some(JsonValue::Number(n)) => n.as_f64_bits,
                _ => 0,
            },
        ),
        FieldType::Boolean => ParamView::Bool(
            match v {
                Some(JsonValue::Bool(b)) => b,
                _ => false,
            },
        ),
        FieldType::Datetime => ParamView::Timestamp(
            match v {
                Some(JsonValue::Str(s)) => Some(s@),
                _ => None,
            },
        ),
        _ => ParamView::MemberJson(field.id@),
    }
}

/// The ids of the fields.
pub open spec fn field_ids(fields: Seq<Field>) -> Seq<Seq<char>> {
    fields.map_values(|f: Field| f.id@)
}

/// The parameter marker `$i`.
pub open spec fn placeholder(i: nat) -> Seq<char> {
    "$"@ + decimal(i)
}

/// The cast a marker carries for a field type: dates are sent as text and
/// cast to timestamps.
pub open spec fn marker_cast(t: FieldType) -> Seq<char> {
    if t == FieldType::Datetime { "::timestamptz"@ } else { seq![] }
}

/// The marker of the `i`-th bound field.
pub open spec fn marker(field: Field, i: nat) -> Seq<char> {
    placeholder(i) + marker_cast(field.field_type)
}

/// The markers of the bound fields, numbered from 1.
pub open spec fn markers(fields: Seq<Field>) -> Seq<Seq<char>> {
    Seq::new(fields.len(), |i: int| marker(fields[i], (i + 1) as nat))
}

/// The assignments `id = marker` of the fields, numbered from 1.
pub open spec fn assignments(fields: Seq<Field>) -> Seq<Seq<char>> {
    Seq::new(fields.len(), |i: int| fields[i].id@ + " = "@ + marker(fields[i], (i + 1) as nat))
}

/// The values bound for the fields, in order.
pub open spec fn bound_params(fields: Seq<Field>, data: JsonValue) -> Seq<ParamView> {
    fields.map_values(|f: Field| bind_param(f, data))
}

/// The insert statement of a record.
pub open spec fn insert_statement(module: LexModule, data: JsonValue) -> Seq<char> {
    let b = bound_fields(module.spec.fields@, data);
    "INSERT INTO "@ + table_path(module) + " ("@ + joined(field_ids(b), ", "@) + ") VALUES ("@
        + joined(markers(b), ", "@) + ")"@
}

/// The update statement of a record.
pub open spec fn update_statement(module: LexModule, data: JsonValue) -> Seq<char> {
    let b = bound_fields(module.spec.fields@, data);
    "UPDATE "@ + table_path(module) + " SET "@ + joined(assignments(b), ", "@) + " WHERE id = "@
        + placeholder(b.len() + 1)
}

/// The delete statement of a module.
pub open spec fn delete_statement(module: LexModule) -> Seq<char> {
    "DELETE FROM "@ + table_path(module) + " WHERE id = $1"@
}

/// How a field's column is selected when listing: a date is rendered as
/// its ISO-8601 text, any other column is selected as it is.
pub open spec fn select_item(field: Field) -> Seq<char> {
    if field.field_type == FieldType::Datetime {
        "to_json("@ + field.id@ + ")#>>'{}' AS "@ + field.id@
    } else {
        field.id@
    }
}

/// The selected columns of the fields, each led by `, `; a field named `id`
/// is skipped, as the `id` column is selected first.
pub open spec fn select_items(fields: Seq<Field>) -> Seq<char>
    decreases fields.len(),
{
    if fields.len() == 0 {
        seq![]
    } else {
        let f = fields.last();
        let rest = select_items(fields.drop_last());
        if f.id@ == "id"@ {
            rest
        } else {
            rest + ", "@ + select_item(f)
        }
    }
}

/// The list statement of a module: the `id` column and the column of every
/// field of the contract.
pub open spec fn list_statement(module: LexModule) -> Seq<char> {
    "SELECT id"@ + select_items(module.spec.fields@) + " FROM "@ + table_path(module)
}

/// Joining one more item.
pub proof fn lemma_joined_push(items: Seq<Seq<char>>, x: Seq<char>, sep: Seq<char>)
    ensures
        joined(items.push(x), sep) == if items.len() == 0 { x } else { joined(items, sep) + sep + x },
{
    assert(items.push(x).drop_last() =~= items);
}

fn bind_value(field: &Field, data: &JsonValue) -> (param: SqlParam)
    ensures
        param@ == bind_param(*field, *data),
{
    let v = data.get(field.id.as_str());
    match field.field_type {
        FieldType::String => match v {
            Some(JsonValue::Str(s)) => SqlParam::Text(s.clone()),
            _ => SqlParam::Text(String::from_str("")),
        },
        FieldType::Number => match v {
            Some(JsonValue::Number(n)) => SqlParam::Double(n.as_f64_bits),
            _ => SqlParam::Double(0),
        },
        FieldType::Boolean => match v {
            Some(JsonValue::Bool(b)) => SqlParam::Bool(*b),
            _ => SqlParam::Bool(false),
        },
        FieldType::Datetime => match v {
            Some(JsonValue::Str(s)) => SqlParam::Timestamp(Some(s.clone())),
            _ => SqlParam::Timestamp(None),
        },
        _ => SqlParam::MemberJson(field.id.clone()),
    }
}

/// The pieces shared by the insert and update statements of a record.
struct BoundRecord {
    columns: String,
    markers: String,
    assignments: String,
    params: Vec<SqlParam>,
    count: usize,
}

#[verifier::rlimit(40)]
fn bind_record(module: &LexModule, data: &JsonValue) -> (r: BoundRecord)
    ensures
        ({
            let b = bound_fields(module.spec.fields@, *data);
            &&& r.count == b.len()
            &&& r.count < module.spec.fields@.len() + 1
            &&& r.columns@ == joined(field_ids(b), ", "@)
            &&& r.markers@ == joined(markers(b), ", "@)
            &&& r.assignments@ == joined(assignments(b), ", "@)
            &&& param_views(r.params@) == bound_params(b, *data)
        }),
{
    let fields = &module.spec.fields;
    let mut columns = String::new();
    let mut marks = String::new();
    let mut sets = String::new();
    let mut params: Vec<SqlParam> = Vec::new();
    let mut count: usize = 0;
    let n = fields.len();
    let mut i: usize = 0;
    while i < n
        invariant
            n == fields@.len(),
            i <= n,
            ({
                let b = bound_fields(fields@.take(i as int), *data);
                &&& count == b.len()
                &&& count <= i
                &&& columns@ == joined(field_ids(b), ", "@)
                &&& marks@ == joined(markers(b), ", "@)
                &&& sets@ == joined(assignments(b), ", "@)
                &&& param_views(params@) == bound_params(b, *data)
            }),
        decreases n - i,
    {
        let f = &fields[i];
        let ghost b = bound_fields(fields@.take(i as int), *data);
        assert(fields@.take(i + 1).drop_last() =~= fields@.take(i as int));
        assert(fields@.take(i + 1).last() == fields@[i as int]);
        if data.get(f.id.as_str()).is_some() {
            let ghost b2 = b.push(fields@[i as int]);
            assert(bound_fields(fields@.take(i + 1), *data) == b2);
            if count > 0 {
                columns.append(", ");
                marks.append(", ");
                sets.append(", ");
            }
            columns.append(f.id.as_str());
            marks.append("$");
            push_decimal(&mut marks, count + 1);
            sets.append(f.id.as_str());
            sets.append(" = ");
            sets.append("$");
            push_decimal(&mut sets, count + 1);
            if f.field_type == FieldType::Datetime {
                marks.append("::timestamptz");
                sets.append("::timestamptz");
            }
            let ghost old_params = params@;
            params.push(bind_value(f, data));
            proof {
                assert(param_views(params@) =~= param_views(old_params).push(bind_param(fields@[i as int], *data)));
                assert(bound_params(b2, *data) =~= bound_params(b, *data).push(bind_param(fields@[i as int], *data)));
                assert(field_ids(b2) =~= field_ids(b).push(f.id@));
                lemma_joined_push(field_ids(b), f.id@, ", "@);
                let ghost mk = marker(fields@[i as int], (count + 1) as nat);
                assert(markers(b2) =~= markers(b).push(mk));
                lemma_joined_push(markers(b), mk, ", "@);
                assert(assignments(b2) =~= assignments(b).push(f.id@ + " = "@ + mk));
                lemma_joined_push(assignments(b), f.id@ + " = "@ + mk, ", "@);
                assert(columns@ =~= joined(field_ids(b2), ", "@));
                assert(marks@ =~= joined(markers(b2), ", "@));
                assert(sets@ =~= joined(assignments(b2), ", "@));
                assert(param_views(params@) =~= bound_params(b2, *data));
            }
            count = count + 1;
        }
        i = i + 1;
    }
    assert(fields@.take(n as int) =~= fields@);
    BoundRecord { columns, markers: marks, assignments: sets, params, count }
}

/// Plans the insert of a record: one column and one numbered parameter for
/// each field of the module that the record carries, in field order.
pub fn plan_insert(module: &LexModule, data: &JsonValue) -> (statement: SqlStatement)
    ensures
        statement.text@ == insert_statement(*module, *data),
        param_views(statement.params@) == bound_params(bound_fields(module.spec.fields@, *data), *data),
{
    let bound = bind_record(module, data);
    let path = make_table_path(module);
    let mut text = String::from_str("INSERT INTO ");
    text.append(path.as_str());
    text.append(" (");
    text.append(bound.columns.as_str());
    text.append(") VALUES (");
    text.append(bound.markers.as_str());
    text.append(")");
    assert(text@ =~= insert_statement(*module, *data));
    SqlStatement { text, params: bound.params }
}

/// Plans the update of the record `id`: an assignment for each field of the
/// module that the record carries, numbered in field order, then the record's
/// key as the last parameter.
pub fn plan_update(module: &LexModule, id: &str, data: &JsonValue) -> (statement: SqlStatement)
    requires
        module.spec.fields@.len() < usize::MAX,
    ensures
        statement.text@ == update_statement(*module, *data),
        param_views(statement.params@) == bound_params(bound_fields(module.spec.fields@, *data), *data)
            .push(ParamView::Uuid(record_key_of(id@))),
{
    let bound = bind_record(module, data);
    let path = make_table_path(module);
    let mut text = String::from_str("UPDATE ");
    text.append(path.as_str());
    text.append(" SET ");
    text.append(bound.assignments.as_str());
    text.append(" WHERE id = ");
    text.append("$");
    push_decimal(&mut text, bound.count + 1);
    assert(text@ =~= update_statement(*module, *data));
    let mut params = bound.params;
    params.push(SqlParam::Uuid(record_key(id)));
    assert(param_views(params@) =~= bound_params(bound_fields(module.spec.fields@, *data), *data)
        .push(ParamView::Uuid(record_key_of(id@))));
    SqlStatement { text, params }
}

/// Plans the delete of the record `id`.
pub fn plan_delete(module: &LexModule, id: &str) -> (statement: SqlStatement)
    ensures
        statement.text@ == delete_statement(*module),
        param_views(statement.params@) == seq![ParamView::Uuid(record_key_of(id@))],
{
    let path = make_table_path(module);
    let mut text = String::from_str("DELETE FROM ");
    text.append(path.as_str());
    text.append(" WHERE id = $1");
    let mut params: Vec<SqlParam> = Vec::new();
    params.push(SqlParam::Uuid(record_key(id)));
    assert(param_views(params@) =~= seq![ParamView::Uuid(record_key_of(id@))]);
    SqlStatement { text, params }
}

/// How a listed row's column is read back for a field.
#[derive(PartialEq, Eq, Structural, Clone, Copy, Debug)]
pub enum ColumnRead {
    /// As an optional text.
    Text,
    /// As an optional double.
    Double,
    /// As an optional boolean.
    Bool,
    /// As an optional text: the timestamp, which the query renders as text.
    Timestamp,
    /// As an optional text holding the JSON text of the value, which is
    /// parsed back.
    Json,
}

/// How the column of a field type is read back.
pub open spec fn column_read(t: FieldType) -> ColumnRead {
    match t {
        FieldType::String => ColumnRead::Text,
        FieldType::Number => ColumnRead::Double,
        FieldType::Boolean => ColumnRead::Bool,
        FieldType::Datetime => ColumnRead::Timestamp,
        _ => ColumnRead::Json,
    }
}

/// How the rows of a module are listed: the query, and for each field, in
/// field order, its id and how its column is read.
pub struct ListPlan {
    pub query: String,
    pub columns: Vec<(String, ColumnRead)>,
}

/// Plans the listing of a module's rows.
pub fn plan_list(module: &LexModule) -> (plan: ListPlan)
    ensures
        plan.query@ == list_statement(*module),
        plan.columns@.len() == module.spec.fields@.len(),
        forall|i: int| 0 <= i < plan.columns@.len() ==>
            (#[trigger] plan.columns@[i]).0@ == module.spec.fields@[i].id@
            && plan.columns@[i].1 == column_read(module.spec.fields@[i].field_type),
{
    let path = make_table_path(module);
    let fields = &module.spec.fields;
    let mut query = String::from_str("SELECT id");
    let ghost head = query@;
    let n = fields.len();
    let mut k: usize = 0;
    while k < n
        invariant
            n == fields@.len(),
            k <= n,
            query@ == head + select_items(fields@.take(k as int)),
        decreases n - k,
    {
        let f = &fields[k];
        assert(fields@.take(k + 1).drop_last() =~= fields@.take(k as int));
        assert(fields@.take(k + 1).last() == fields@[k as int]);
        if !same_text(f.id.as_str(), "id") {
            query.append(", ");
            if f.field_type == FieldType::Datetime {
                query.append("to_json(");
                query.append(f.id.as_str());
                query.append(")#>>'{}' AS ");
                query.append(f.id.as_str());
            } else {
                query.append(f.id.as_str());
            }
        }
        assert(query@ =~= head + select_items(fields@.take(k + 1)));
        k = k + 1;
    }
    assert(fields@.take(n as int) =~= fields@);
    query.append(" FROM ");
    query.append(path.as_str());
    assert(query@ =~= list_statement(*module));
    let mut columns: Vec<(String, ColumnRead)> = Vec::new();
    let mut i: usize = 0;
    while i < n
        invariant
            n == fields@.len(),
            i <= n,
            columns@.len() == i,
            forall|j: int| 0 <= j < i ==>
                (#[trigger] columns@[j]).0@ == fields@[j].id@
                && columns@[j].1 == column_read(fields@[j].field_type),
        decreases n - i,
    {
        let f = &fields[i];
        let read = match f.field_type {
            FieldType::String => ColumnRead::Text,
            FieldType::Number => ColumnRead::Double,
            FieldType::Boolean => ColumnRead::Bool,
            FieldType::Datetime => ColumnRead::Timestamp,
            _ => ColumnRead::Json,
        };
        columns.push((f.id.clone(), read));
        i = i + 1;
    }
    ListPlan { query, columns }
}


/// A module's table is planned exactly when its namespace, its name and every
/// field id are safe identifiers.
pub proof fn law_table_planned_iff_identifiers_safe(module: LexModule)
    ensures
        (safe_identifier(module.metadata.namespace@) && safe_identifier(module.metadata.name@)
            && first_unsafe_field(module.spec.fields@) is None)
        <==> (safe_identifier(module.metadata.namespace@) && safe_identifier(module.metadata.name@)
            && forall|i: int| 0 <= i < module.spec.fields@.len()
                ==> safe_identifier(#[trigger] module.spec.fields@[i].id@)),
{
    lemma_first_unsafe_none(module.spec.fields@);
}

proof fn lemma_first_unsafe_none(fields: Seq<Field>)
    ensures
        first_unsafe_field(fields) is None
            <==> forall|i: int| 0 <= i < fields.len() ==> safe_identifier(#[trigger] fields[i].id@),
    decreases fields.len(),
{
    if fields.len() > 0 {
        let rest = fields.drop_first();
        lemma_first_unsafe_none(rest);
        assert forall|i: int| 0 <= i < rest.len() implies rest[i] == fields[i + 1] by {}
        if forall|i: int| 0 <= i < fields.len() ==> safe_identifier(#[trigger] fields[i].id@) {
            assert(safe_identifier(fields[0].id@));
            assert forall|i: int| 0 <= i < rest.len() implies safe_identifier(#[trigger] rest[i].id@) by {
                assert(safe_identifier(fields[i + 1].id@));
            }
        }
        if first_unsafe_field(fields) is None {
            assert forall|i: int| 0 <= i < fields.len() implies safe_identifier(#[trigger] fields[i].id@) by {
                if i > 0 {
                    assert(safe_identifier(rest[i - 1].id@));
                }
            }
        }
    }
}

/// The insert and update statements of a record number exactly as many
/// markers as the record binds values; the update adds one for the key.
pub proof fn law_markers_match_parameters(module: LexModule, data: JsonValue)
    ensures
        ({
            let b = bound_fields(module.spec.fields@, data);
            &&& markers(b).len() == bound_params(b, data).len()
            &&& assignments(b).len() == bound_params(b, data).len()
            &&& b.len() <= module.spec.fields@.len()
        }),
{
    lemma_bound_fields_len(module.spec.fields@, data);
}

proof fn lemma_bound_fields_len(fields: Seq<Field>, data: JsonValue)
    ensures
        bound_fields(fields, data).len() <= fields.len(),
    decreases fields.len(),
{
    if fields.len() > 0 {
        lemma_bound_fields_len(fields.drop_last(), data);
    }
}


/// The way of a field's value into its table and back agrees for every field
/// type: the column's SQL type, the parameter that an insert or update binds
/// (carrying the record's own value) and the way a listing reads the column
/// back belong together.
pub proof fn law_storage_round_trip(field: Field, data: JsonValue)
    ensures
        match field.field_type {
            FieldType::String => {
                &&& column_type(field.field_type) == "TEXT"@
                &&& column_read(field.field_type) == ColumnRead::Text
                &&& bind_param(field, data) matches ParamView::Text(t)
                &&& (data.member(field.id@) matches Some(JsonValue::Str(s)) ==> t == s@)
            },
            FieldType::Number => {
                &&& column_type(field.field_type) == "DOUBLE PRECISION"@
                &&& column_read(field.field_type) == ColumnRead::Double
                &&& bind_param(field, data) matches ParamView::Double(b)
                &&& (data.member(field.id@) matches Some(JsonValue::Number(n)) ==> b == n.as_f64_bits)
            },
            FieldType::Boolean => {
                &&& column_type(field.field_type) == "BOOLEAN"@
                &&& column_read(field.field_type) == ColumnRead::Bool
                &&& bind_param(field, data) matches ParamView::Bool(x)
                &&& (data.member(field.id@) matches Some(JsonValue::Bool(y)) ==> x == y)
            },
            FieldType::Datetime => {
                &&& column_type(field.field_type) == "TIMESTAMPTZ"@
                &&& column_read(field.field_type) == ColumnRead::Timestamp
                &&& marker_cast(field.field_type) == "::timestamptz"@
                &&& bind_param(field, data) matches ParamView::Timestamp(t)
                &&& (data.member(field.id@) matches Some(JsonValue::Str(s)) ==> t == Some(s@))
            },
            _ => {
                &&& column_type(field.field_type) == "TEXT"@
                &&& column_read(field.field_type) == ColumnRead::Json
                &&& bind_param(field, data) == ParamView::MemberJson(field.id@)
            },
        },
{
}


/// The table statement defines one column `, <id> <type> <nullability>` for
/// every field whose id is not exactly `id`, whatever its type (references,
/// binaries and enums included), in field order and nothing else.
pub proof fn law_every_field_gets_a_column(fields: Seq<Field>)
    ensures
        column_definitions(fields)
            == fields.filter(|f: Field| f.id@ != "id"@)
                .map_values(|f: Field| ", "@ + f.id@ + " "@ + column_type(f.field_type) + " "@
                    + (if f.required { "NOT NULL"@ } else { "NULL"@ }))
                .flatten(),
    decreases fields.len(),
{
    if fields.len() > 0 {
        let rest = fields.drop_last();
        let last = fields.last();
        law_every_field_gets_a_column(rest);
        assert(rest.push(last) =~= fields);
        rest.lemma_filter_push(last, |f: Field| f.id@ != "id"@);
        let fr = rest.filter(|f: Field| f.id@ != "id"@);
        let def = |f: Field| ", "@ + f.id@ + " "@ + column_type(f.field_type) + " "@
            + (if f.required { "NOT NULL"@ } else { "NULL"@ });
        if last.id@ != "id"@ {
            assert(fr.push(last).map_values(def) =~= fr.map_values(def).push(def(last)));
            fr.map_values(def).lemma_flatten_push(def(last));
        }
    } else {
        reveal(Seq::filter);
        assert(fields.filter(|f: Field| f.id@ != "id"@)
            .map_values(|f: Field| ", "@ + f.id@ + " "@ + column_type(f.field_type) + " "@
                + (if f.required { "NOT NULL"@ } else { "NULL"@ }))
            =~= Seq::<Seq<char>>::empty());
    }
}

/// The statement that creates a module's table names `namespace.name`, keys
/// it by a generated UUID `id`, and then defines the column of every field
/// whose id is not exactly `id`, in field order.
pub proof fn law_table_statement_defines_every_field(module: LexModule)
    ensures
        table_statement(module) == "CREATE TABLE IF NOT EXISTS "@ + module.metadata.namespace@ + "."@
            + module.metadata.name@ + " (id UUID PRIMARY KEY DEFAULT gen_random_uuid()"@
            + module.spec.fields@.filter(|f: Field| f.id@ != "id"@)
                .map_values(|f: Field| ", "@ + f.id@ + " "@ + column_type(f.field_type) + " "@
                    + (if f.required { "NOT NULL"@ } else { "NULL"@ }))
                .flatten()
            + ");"@,
{
    law_every_field_gets_a_column(module.spec.fields@);
    assert(table_path(module) =~= module.metadata.namespace@ + "."@ + module.metadata.name@);
}

/// A field is bound by an insert or update exactly when the record carries a
/// member with its id, whatever that member's value (null, zero, false or
/// empty included): the bound fields are the contract's fields filtered by
/// that test, in field order.
pub proof fn law_bound_fields_are_the_carried_fields(fields: Seq<Field>, data: JsonValue)
    ensures
        bound_fields(fields, data) == fields.filter(|f: Field| data.member(f.id@) is Some),
    decreases fields.len(),
{
    if fields.len() > 0 {
        let rest = fields.drop_last();
        let last = fields.last();
        law_bound_fields_are_the_carried_fields(rest, data);
        assert(rest.push(last) =~= fields);
        rest.lemma_filter_push(last, |f: Field| data.member(f.id@) is Some);
    } else {
        reveal(Seq::filter);
    }
}

/// The insert of a record names, in field order, the column of every field
/// of the contract that the record carries as a member (whatever its value:
/// zero, false, empty or null included), binds one parameter per such column,
/// and leaves out every other field; the update assigns the same fields.
pub proof fn law_insert_binds_every_carried_field(module: LexModule, data: JsonValue)
    ensures
        ({
            let carried = module.spec.fields@.filter(|f: Field| data.member(f.id@) is Some);
            &&& insert_statement(module, data) == "INSERT INTO "@ + module.metadata.namespace@ + "."@
                + module.metadata.name@ + " ("@ + joined(carried.map_values(|f: Field| f.id@), ", "@)
                + ") VALUES ("@ + joined(markers(carried), ", "@) + ")"@
            &&& update_statement(module, data) == "UPDATE "@ + module.metadata.namespace@ + "."@
                + module.metadata.name@ + " SET "@ + joined(assignments(carried), ", "@) + " WHERE id = "@
                + placeholder(carried.len() + 1)
            &&& bound_params(bound_fields(module.spec.fields@, data), data)
                == carried.map_values(|f: Field| bind_param(f, data))
            &&& bound_params(bound_fields(module.spec.fields@, data), data).len() == carried.len()
        }),
{
    law_bound_fields_are_the_carried_fields(module.spec.fields@, data);
    let carried = module.spec.fields@.filter(|f: Field| data.member(f.id@) is Some);
    assert(field_ids(carried) =~= carried.map_values(|f: Field| f.id@));
    assert(table_path(module) =~= module.metadata.namespace@ + "."@ + module.metadata.name@);
}

/// The list statement selects a column for every field whose id is not
/// exactly `id` (ids that merely start with `id` included), in field order
/// and nothing else.
pub proof fn law_every_field_is_listed(fields: Seq<Field>)
    ensures
        select_items(fields)
            == fields.filter(|f: Field| f.id@ != "id"@).map_values(|f: Field| ", "@ + select_item(f)).flatten(),
    decreases fields.len(),
{
    if fields.len() > 0 {
        let rest = fields.drop_last();
        let last = fields.last();
        law_every_field_is_listed(rest);
        assert(rest.push(last) =~= fields);
        rest.lemma_filter_push(last, |f: Field| f.id@ != "id"@);
        let fr = rest.filter(|f: Field| f.id@ != "id"@);
        if last.id@ != "id"@ {
            assert(fr.push(last).map_values(|f: Field| ", "@ + select_item(f))
                =~= fr.map_values(|f: Field| ", "@ + select_item(f)).push(", "@ + select_item(last)));
            fr.map_values(|f: Field| ", "@ + select_item(f)).lemma_flatten_push(", "@ + select_item(last));
        }
    } else {
        reveal(Seq::filter);
        assert(fields.filter(|f: Field| f.id@ != "id"@).map_values(|f: Field| ", "@ + select_item(f)) =~= Seq::<Seq<char>>::empty());
    }
}

/// The listing query of a module selects `id` and then, in field order, the
/// column of every field whose id is not exactly `id` (a date rendered as its
/// ISO-8601 text under its own name), from `namespace.name`.
pub proof fn law_list_statement_selects_every_field(module: LexModule)
    ensures
        list_statement(module) == "SELECT id"@
            + module.spec.fields@.filter(|f: Field| f.id@ != "id"@)
                .map_values(|f: Field| ", "@ + (if f.field_type == FieldType::Datetime {
                    "to_json("@ + f.id@ + ")#>>'{}' AS "@ + f.id@
                } else {
                    f.id@
                }))
                .flatten()
            + " FROM "@ + module.metadata.namespace@ + "."@ + module.metadata.name@,
{
    law_every_field_is_listed(module.spec.fields@);
    let fr = module.spec.fields@.filter(|f: Field| f.id@ != "id"@);
    assert(fr.map_values(|f: Field| ", "@ + select_item(f)) =~= fr.map_values(|f: Field| ", "@ + (if f.field_type == FieldType::Datetime {
                    "to_json("@ + f.id@ + ")#>>'{}' AS "@ + f.id@
                } else {
                    f.id@
                })));
    assert(table_path(module) =~= module.metadata.namespace@ + "."@ + module.metadata.name@);
}

} // verus!
