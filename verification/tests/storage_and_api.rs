use lex_engine::api::{contract_path, create_step, describe_reply, lookup_reply, storage_reply, update_step, CreateAction, CreateEvent, ReplyBody, StorageOp, UpdateAction, UpdateEvent};
use lex_engine::contract::{Capabilities, Field, FieldType, Hook, LexModule, Metadata, Spec};
use lex_engine::json::{JsonNumber, JsonValue, NumberRepr};
use lex_engine::registry::Registry;
use lex_engine::sql::{plan_delete, plan_ensure_table, plan_insert, plan_list, plan_update, record_key, ColumnRead, SqlParam, StorageError};

fn number(v: i64) -> JsonValue {
    let f = v as f64;
    let repr = if v >= 0 { NumberRepr::PosInt(v as u64) } else { NumberRepr::NegInt(v) };
    JsonValue::Number(JsonNumber { repr, as_f64_bits: f.to_bits(), as_f64_text: f.to_string() })
}

fn text(s: &str) -> JsonValue {
    JsonValue::Str(s.to_string())
}

fn object(entries: Vec<(&str, JsonValue)>) -> JsonValue {
    JsonValue::Object(entries.into_iter().map(|(k, v)| (k.to_string(), v)).collect())
}

fn field(id: &str, t: FieldType, required: bool) -> Field {
    Field { id: id.to_string(), field_type: t, required, default: None, constraints: None, options: None }
}

fn module(namespace: &str, name: &str, fields: Vec<Field>) -> LexModule {
    LexModule {
        schema: String::new(),
        version: "1.0.0".to_string(),
        kind: "Module".to_string(),
        metadata: Metadata { name: name.to_string(), namespace: namespace.to_string() },
        spec: Spec {
            fields,
            capabilities: Capabilities { persistence: "sql".to_string(), features: vec!["crud".to_string()] },
            hooks: vec![Hook { on: "afterCreate".to_string(), action: "log".to_string() }],
        },
    }
}

fn animals() -> LexModule {
    module(
        "zoo",
        "animals",
        vec![
            field("id", FieldType::String, true),
            field("nombre", FieldType::String, true),
            field("edad", FieldType::Number, false),
            field("activo", FieldType::Boolean, false),
            field("especie", FieldType::Enum, true),
        ],
    )
}

fn config_message(e: StorageError) -> String {
    match e {
        StorageError::Configuration(m) => m,
    }
}

#[test]
fn table_plan_sql() {
    let plan = match plan_ensure_table(&animals()) {
        Ok(p) => p,
        Err(_) => panic!("module should be accepted"),
    };
    assert_eq!(plan.table_path, "zoo.animals");
    assert_eq!(plan.schema_sql, "CREATE SCHEMA IF NOT EXISTS zoo");
    assert_eq!(
        plan.table_sql,
        "CREATE TABLE IF NOT EXISTS zoo.animals (id UUID PRIMARY KEY DEFAULT gen_random_uuid(), \
         nombre TEXT NOT NULL, edad DOUBLE PRECISION NULL, activo BOOLEAN NULL, especie TEXT NOT NULL);"
    );
}

#[test]
fn table_plan_datetime_column() {
    let m = module("core", "events", vec![field("at", FieldType::Datetime, true)]);
    let plan = plan_ensure_table(&m).ok().unwrap();
    assert_eq!(plan.table_sql, "CREATE TABLE IF NOT EXISTS core.events (id UUID PRIMARY KEY DEFAULT gen_random_uuid(), at TIMESTAMPTZ NOT NULL);");
}

#[test]
fn table_plan_refuses_unsafe_names() {
    let m = module("core; drop", "animals", vec![]);
    assert_eq!(
        config_message(plan_ensure_table(&m).err().unwrap()),
        "Nombre de namespace o módulo inválido (caracteres no permitidos)"
    );
    let m = module("core", "Animals", vec![]);
    assert!(plan_ensure_table(&m).is_err());
    let m = module("core", "animals", vec![field("ok", FieldType::String, false), field("bad name", FieldType::String, false), field("Worse", FieldType::String, false)]);
    assert_eq!(config_message(plan_ensure_table(&m).err().unwrap()), "Nombre de campo 'bad name' inválido");
}

#[test]
fn insert_plan() {
    let data = object(vec![
        ("nombre", text("Leo")),
        ("edad", number(4)),
        ("especie", text("leon")),
        ("extra", text("ignored")),
        ("activo", JsonValue::Null),
    ]);
    let st = plan_insert(&animals(), &data);
    assert_eq!(st.text, "INSERT INTO zoo.animals (nombre, edad, activo, especie) VALUES ($1, $2, $3, $4)");
    assert_eq!(st.params.len(), 4);
    assert!(matches!(&st.params[0], SqlParam::Text(s) if s == "Leo"));
    assert!(matches!(&st.params[1], SqlParam::Double(b) if *b == 4.0f64.to_bits()));
    assert!(matches!(&st.params[2], SqlParam::Bool(false)));
    assert!(matches!(&st.params[3], SqlParam::MemberJson(k) if k == "especie"));
}

#[test]
fn insert_plan_type_fallbacks() {
    let data = object(vec![("nombre", number(3)), ("edad", text("old")), ("activo", JsonValue::Bool(true))]);
    let st = plan_insert(&animals(), &data);
    assert_eq!(st.text, "INSERT INTO zoo.animals (nombre, edad, activo) VALUES ($1, $2, $3)");
    assert!(matches!(&st.params[0], SqlParam::Text(s) if s.is_empty()));
    assert!(matches!(&st.params[1], SqlParam::Double(0)));
    assert!(matches!(&st.params[2], SqlParam::Bool(true)));
}

#[test]
fn insert_plan_empty_record() {
    let st = plan_insert(&animals(), &object(vec![]));
    assert_eq!(st.text, "INSERT INTO zoo.animals () VALUES ()");
    assert!(st.params.is_empty());
}

#[test]
fn update_plan() {
    let id = "550e8400-e29b-41d4-a716-446655440000";
    let data = object(vec![("edad", number(5)), ("nombre", text("Leo"))]);
    let st = plan_update(&animals(), id, &data);
    assert_eq!(st.text, "UPDATE zoo.animals SET nombre = $1, edad = $2 WHERE id = $3");
    assert_eq!(st.params.len(), 3);
    assert!(matches!(&st.params[2], SqlParam::Uuid(u) if *u == 0x550e8400_e29b_41d4_a716_446655440000u128));
}

#[test]
fn update_plan_without_fields() {
    let st = plan_update(&animals(), "not-a-uuid", &object(vec![]));
    assert_eq!(st.text, "UPDATE zoo.animals SET  WHERE id = $1");
    assert!(matches!(&st.params[0], SqlParam::Uuid(0)));
}

#[test]
fn delete_plan() {
    let st = plan_delete(&animals(), "{550e8400-e29b-41d4-a716-446655440000}");
    assert_eq!(st.text, "DELETE FROM zoo.animals WHERE id = $1");
    assert!(matches!(&st.params[0], SqlParam::Uuid(u) if *u == 0x550e8400_e29b_41d4_a716_446655440000u128));
}

#[test]
fn record_keys() {
    assert_eq!(record_key("550e8400e29b41d4a716446655440000"), 0x550e8400_e29b_41d4_a716_446655440000u128);
    assert_eq!(record_key("nope"), 0);
    assert_eq!(record_key(""), 0);
}

#[test]
fn list_plan() {
    let plan = plan_list(&animals());
    assert_eq!(plan.query, "SELECT id, nombre, edad, activo, especie FROM zoo.animals");
    let cols: Vec<(String, ColumnRead)> = plan.columns;
    assert_eq!(
        cols,
        vec![
            ("id".to_string(), ColumnRead::Text),
            ("nombre".to_string(), ColumnRead::Text),
            ("edad".to_string(), ColumnRead::Double),
            ("activo".to_string(), ColumnRead::Bool),
            ("especie".to_string(), ColumnRead::Json),
        ]
    );
}

#[test]
fn registry_last_module_wins() {
    let first = module("core", "animals", vec![]);
    let other = module("core", "plants", vec![]);
    let second = module("zoo", "animals", vec![]);
    let registry = Registry::from_modules(vec![first, other, second]);
    assert_eq!(registry.len(), 2);
    assert_eq!(registry.get_module("animals").unwrap().metadata.namespace, "zoo");
    assert_eq!(registry.get_module("plants").unwrap().metadata.namespace, "core");
    assert!(registry.get_module("rocks").is_none());
}

#[test]
fn registry_insert_then_get() {
    let mut registry = Registry::new();
    assert_eq!(registry.len(), 0);
    registry.insert_module(module("core", "animals", vec![]));
    registry.insert_module(module("zoo", "animals", vec![]));
    assert_eq!(registry.len(), 1);
    assert_eq!(registry.get_module("animals").unwrap().metadata.namespace, "zoo");
}

fn reply_text(body: &ReplyBody) -> Option<String> {
    match body {
        ReplyBody::Text(t) => Some(t.clone()),
        _ => None,
    }
}

#[test]
fn create_flow() {
    let registry = Registry::from_modules(vec![animals()]);
    let good = object(vec![("id", text("x")), ("nombre", text("Leo")), ("especie", text("leon"))]);
    assert!(matches!(create_step(&registry, "animals", &good, CreateEvent::Received), Some(CreateAction::EnsureRepository)));
    assert!(matches!(create_step(&registry, "animals", &good, CreateEvent::RepositoryReady(Ok(()))), Some(CreateAction::Insert)));
    match create_step(&registry, "animals", &good, CreateEvent::Stored(Ok(()))) {
        Some(CreateAction::Respond(r)) => {
            assert_eq!(r.status, 201);
            assert_eq!(reply_text(&r.body).unwrap(), "Dato guardado con éxito");
        },
        _ => panic!("expected a reply"),
    }
    match create_step(&registry, "animals", &good, CreateEvent::Stored(Err("disk full".to_string()))) {
        Some(CreateAction::Respond(r)) => {
            assert_eq!(r.status, 500);
            assert_eq!(reply_text(&r.body).unwrap(), "disk full");
        },
        _ => panic!("expected a reply"),
    }
}

#[test]
fn create_flow_failures() {
    let registry = Registry::from_modules(vec![animals()]);
    let bad = object(vec![("nombre", text("Leo"))]);
    match create_step(&registry, "animals", &bad, CreateEvent::RepositoryReady(Ok(()))) {
        Some(CreateAction::Respond(r)) => {
            assert_eq!(r.status, 400);
            match r.body {
                ReplyBody::Errors(e) => {
                    assert_eq!(e.len(), 2);
                    assert_eq!(e[0].field, "id");
                    assert_eq!(e[1].field, "especie");
                    assert_eq!(e[1].message, "Este campo es requerido");
                },
                _ => panic!("expected errors"),
            }
        },
        _ => panic!("expected a reply"),
    }
    match create_step(&registry, "animals", &bad, CreateEvent::RepositoryReady(Err("no db".to_string()))) {
        Some(CreateAction::Respond(r)) => {
            assert_eq!(r.status, 500);
            assert_eq!(reply_text(&r.body).unwrap(), "no db");
        },
        _ => panic!("expected a reply"),
    }
    match create_step(&registry, "plants", &bad, CreateEvent::Received) {
        Some(CreateAction::Respond(r)) => {
            assert_eq!(r.status, 404);
            assert_eq!(reply_text(&r.body).unwrap(), "Módulo no encontrado");
        },
        _ => panic!("expected a reply"),
    }
}

#[test]
fn create_flow_with_broken_pattern() {
    let mut m = animals();
    m.spec.fields[1].constraints = Some(vec![("regex".to_string(), text("[a-"))]);
    let registry = Registry::from_modules(vec![m]);
    let data = object(vec![("nombre", text("Leo"))]);
    assert!(create_step(&registry, "animals", &data, CreateEvent::RepositoryReady(Ok(()))).is_none());
}

#[test]
fn storage_replies() {
    let r = storage_reply(StorageOp::List, Ok(()));
    assert_eq!(r.status, 200);
    assert!(matches!(r.body, ReplyBody::Payload));
    let r = storage_reply(StorageOp::List, Err("x".to_string()));
    assert_eq!((r.status, reply_text(&r.body).unwrap()), (500, "Error al recuperar datos".to_string()));
    let r = storage_reply(StorageOp::Delete, Ok(()));
    assert_eq!(r.status, 204);
    assert!(matches!(r.body, ReplyBody::Empty));
    let r = storage_reply(StorageOp::Delete, Err("x".to_string()));
    assert_eq!((r.status, reply_text(&r.body).unwrap()), (500, "Error al borrar".to_string()));
}

#[test]
fn lookup_and_describe() {
    let registry = Registry::from_modules(vec![animals()]);
    assert!(lookup_reply(&registry, "animals").is_none());
    let r = lookup_reply(&registry, "plants").unwrap();
    assert_eq!((r.status, reply_text(&r.body).unwrap()), (404, "Módulo no encontrado".to_string()));
    assert_eq!(contract_path("animals"), "modules/animals/lex.json");
    let r = describe_reply(false, false);
    assert_eq!((r.status, reply_text(&r.body).unwrap()), (404, "Módulo no encontrado".to_string()));
    let r = describe_reply(true, false);
    assert_eq!((r.status, reply_text(&r.body).unwrap()), (500, "Error al parsear el contrato".to_string()));
    let r = describe_reply(true, true);
    assert_eq!(r.status, 200);
}

#[test]
fn update_flow() {
    let mut m = animals();
    m.spec.fields[2].constraints = Some(vec![("min".to_string(), number(0))]);
    let registry = Registry::from_modules(vec![m]);
    let good = object(vec![("edad", number(5))]);
    assert!(matches!(update_step(&registry, "animals", &good, UpdateEvent::Received), Some(UpdateAction::Update)));
    let bad = object(vec![("edad", number(-1)), ("activo", text("yes"))]);
    match update_step(&registry, "animals", &bad, UpdateEvent::Received) {
        Some(UpdateAction::Respond(r)) => {
            assert_eq!(r.status, 400);
            match r.body {
                ReplyBody::Errors(e) => {
                    assert_eq!(e.len(), 2);
                    assert_eq!((e[0].field.as_str(), e[0].message.as_str()), ("edad", "El valor mínimo es 0"));
                    assert_eq!((e[1].field.as_str(), e[1].message.as_str()), ("activo", "Debe ser un booleano"));
                },
                _ => panic!("expected errors"),
            }
        },
        _ => panic!("expected a reply"),
    }
    match update_step(&registry, "animals", &good, UpdateEvent::Updated(Ok(()))) {
        Some(UpdateAction::Respond(r)) => assert_eq!((r.status, reply_text(&r.body).unwrap()), (200, "Registro actualizado correctamente".to_string())),
        _ => panic!("expected a reply"),
    }
    match update_step(&registry, "animals", &good, UpdateEvent::Updated(Err("x".to_string()))) {
        Some(UpdateAction::Respond(r)) => assert_eq!((r.status, reply_text(&r.body).unwrap()), (500, "Error al actualizar".to_string())),
        _ => panic!("expected a reply"),
    }
    match update_step(&registry, "plants", &good, UpdateEvent::Received) {
        Some(UpdateAction::Respond(r)) => assert_eq!(r.status, 404),
        _ => panic!("expected a reply"),
    }
}

fn events() -> LexModule {
    module("core", "events", vec![field("title", FieldType::String, true), field("at", FieldType::Datetime, false)])
}

#[test]
fn datetime_is_bound_and_listed_as_timestamp() {
    let data = object(vec![("title", text("launch")), ("at", text("2024-05-01T10:00:00Z"))]);
    let st = plan_insert(&events(), &data);
    assert_eq!(st.text, "INSERT INTO core.events (title, at) VALUES ($1, $2::timestamptz)");
    assert!(matches!(&st.params[1], SqlParam::Timestamp(Some(t)) if t == "2024-05-01T10:00:00Z"));
    let st = plan_update(&events(), "nope", &object(vec![("at", JsonValue::Null)]));
    assert_eq!(st.text, "UPDATE core.events SET at = $1::timestamptz WHERE id = $2");
    assert!(matches!(&st.params[0], SqlParam::Timestamp(None)));
    let plan = plan_list(&events());
    assert_eq!(plan.query, "SELECT id, title, to_json(at)#>>'{}' AS at FROM core.events");
    assert_eq!(plan.columns[1], ("at".to_string(), ColumnRead::Timestamp));
}
