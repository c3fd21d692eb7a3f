use lex_engine::contract::{Capabilities, Field, FieldType, Hook, LexModule, Metadata, Spec};
use lex_engine::engine::execute_create;
use lex_engine::json::{JsonNumber, JsonValue, NumberRepr};
use lex_engine::validator::{patterns_compile_for, try_validate_data, validate_data, validate_update};

fn number(v: i64) -> JsonValue {
    let f = v as f64;
    let repr = if v >= 0 { NumberRepr::PosInt(v as u64) } else { NumberRepr::NegInt(v) };
    JsonValue::Number(JsonNumber { repr, as_f64_bits: f.to_bits(), as_f64_text: f.to_string() })
}

fn float(f: f64) -> JsonValue {
    JsonValue::Number(JsonNumber { repr: NumberRepr::Float(f.to_bits()), as_f64_bits: f.to_bits(), as_f64_text: f.to_string() })
}

fn text(s: &str) -> JsonValue {
    JsonValue::Str(s.to_string())
}

fn object(entries: Vec<(&str, JsonValue)>) -> JsonValue {
    JsonValue::Object(entries.into_iter().map(|(k, v)| (k.to_string(), v)).collect())
}

fn field(id: &str, t: FieldType, required: bool, constraints: Option<Vec<(&str, JsonValue)>>) -> Field {
    Field {
        id: id.to_string(),
        field_type: t,
        required,
        default: None,
        constraints: constraints.map(|c| c.into_iter().map(|(k, v)| (k.to_string(), v)).collect()),
        options: None,
    }
}

fn inventory(regex: &str) -> LexModule {
    LexModule {
        schema: "https://lex.engine/v1/schema.json".to_string(),
        version: "1.0.0".to_string(),
        kind: "Module".to_string(),
        metadata: Metadata { name: "inventory".to_string(), namespace: "core".to_string() },
        spec: Spec {
            fields: vec![
                field("sku", FieldType::String, true, Some(vec![("regex", text(regex))])),
                field("stock", FieldType::Number, false, Some(vec![("min", number(0))])),
                field("active", FieldType::Boolean, false, None),
            ],
            capabilities: Capabilities { persistence: "sql".to_string(), features: vec![] },
            hooks: vec![
                Hook { on: "beforeCreate".to_string(), action: "validate_inventory_limits".to_string() },
                Hook { on: "afterCreate".to_string(), action: "notify".to_string() },
                Hook { on: "beforeCreate".to_string(), action: "audit".to_string() },
            ],
        },
    }
}

fn complaints(module: &LexModule, data: &JsonValue) -> Vec<(String, String)> {
    match validate_data(module, data) {
        Ok(()) => vec![],
        Err(errors) => errors.into_iter().map(|e| (e.field, e.message)).collect(),
    }
}

const SKU: &str = "^[A-Z0-9-]{8,12}$";

#[test]
fn valid_record_passes() {
    let m = inventory(SKU);
    let data = object(vec![("sku", text("ABC-12345")), ("stock", number(5))]);
    assert!(validate_data(&m, &data).is_ok());
}

#[test]
fn missing_required_and_below_minimum() {
    let m = inventory(SKU);
    let data = object(vec![("stock", number(-1))]);
    assert_eq!(
        complaints(&m, &data),
        vec![
            ("sku".to_string(), "Este campo es requerido".to_string()),
            ("stock".to_string(), "El valor mínimo es 0".to_string()),
        ]
    );
}

#[test]
fn null_required_field_is_missing() {
    let m = inventory(SKU);
    let data = object(vec![("sku", JsonValue::Null)]);
    assert_eq!(complaints(&m, &data), vec![("sku".to_string(), "Este campo es requerido".to_string())]);
}

#[test]
fn wrong_types() {
    let m = inventory(SKU);
    let data = object(vec![("sku", number(5)), ("stock", text("many"))]);
    assert_eq!(
        complaints(&m, &data),
        vec![
            ("sku".to_string(), "Debe ser un texto".to_string()),
            ("stock".to_string(), "Debe ser un número".to_string()),
        ]
    );
}

#[test]
fn pattern_mismatch_names_pattern() {
    let m = inventory(SKU);
    let data = object(vec![("sku", text("abc"))]);
    assert_eq!(
        complaints(&m, &data),
        vec![("sku".to_string(), format!("No cumple con el formato requerido: {}", SKU))]
    );
}

#[test]
fn fractional_minimum_message_and_comparison() {
    let mut m = inventory(SKU);
    m.spec.fields[1] = field("stock", FieldType::Number, false, Some(vec![("min", float(1.5))]));
    let data = object(vec![("sku", text("ABCDEFGH")), ("stock", float(1.25))]);
    assert_eq!(complaints(&m, &data), vec![("stock".to_string(), "El valor mínimo es 1.5".to_string())]);
    let data = object(vec![("sku", text("ABCDEFGH")), ("stock", float(1.5))]);
    assert!(validate_data(&m, &data).is_ok());
}

#[test]
fn non_object_payload_only_misses_required() {
    let m = inventory(SKU);
    assert_eq!(complaints(&m, &number(3)), vec![("sku".to_string(), "Este campo es requerido".to_string())]);
}

#[test]
fn optional_absent_field_and_other_types_pass() {
    let m = inventory(SKU);
    let data = object(vec![("sku", text("ABCDEFGH")), ("active", JsonValue::Bool(false))]);
    assert!(validate_data(&m, &data).is_ok());
}

#[test]
fn invalid_pattern_is_reported_as_none() {
    let m = inventory("(unclosed");
    let data = object(vec![("sku", text("ABCDEFGH"))]);
    assert!(!patterns_compile_for(&m.spec.fields, &data));
    assert!(try_validate_data(&m, &data).is_none());
    // The pattern is not run when the value is absent.
    let absent = object(vec![]);
    assert!(patterns_compile_for(&m.spec.fields, &absent));
    assert!(matches!(try_validate_data(&m, &absent), Some(Err(_))));
}

#[test]
fn try_validate_matches_validate() {
    let m = inventory(SKU);
    let data = object(vec![("sku", text("ABCDEFGH"))]);
    assert!(matches!(try_validate_data(&m, &data), Some(Ok(()))));
}

#[test]
fn create_logs_hooks_in_order() {
    let m = inventory(SKU);
    let data = object(vec![("sku", text("ABC-12345"))]);
    let r = execute_create(&m, &data);
    assert!(r.success);
    assert_eq!(r.module, "inventory");
    assert!(r.errors.is_none());
    assert_eq!(
        r.action_logs,
        vec![
            "Validación exitosa".to_string(),
            "🚀 [HOOK beforeCreate] Disparando acción: validate_inventory_limits".to_string(),
            "🚀 [HOOK beforeCreate] Disparando acción: audit".to_string(),
            "Guardando en tabla: inventory".to_string(),
            "🚀 [HOOK afterCreate] Disparando acción: notify".to_string(),
        ]
    );
}

#[test]
fn create_aborts_on_invalid_record() {
    let m = inventory(SKU);
    let data = object(vec![]);
    let r = execute_create(&m, &data);
    assert!(!r.success);
    assert_eq!(r.action_logs, vec!["Validación fallida. Abortando.".to_string()]);
    let errors = r.errors.unwrap();
    assert_eq!(errors.len(), 1);
    assert_eq!(errors[0].field, "sku");
}

#[test]
fn first_member_with_key_wins() {
    let m = inventory(SKU);
    let data = object(vec![("sku", text("ABCDEFGH")), ("sku", number(1))]);
    assert!(validate_data(&m, &data).is_ok());
}

#[test]
fn maximum_is_enforced() {
    let mut m = inventory(SKU);
    m.spec.fields[1] = field("stock", FieldType::Number, false, Some(vec![("min", number(0)), ("max", number(10))]));
    let data = object(vec![("sku", text("ABCDEFGH")), ("stock", number(11))]);
    assert_eq!(complaints(&m, &data), vec![("stock".to_string(), "El valor máximo es 10".to_string())]);
    let data = object(vec![("sku", text("ABCDEFGH")), ("stock", number(10))]);
    assert!(validate_data(&m, &data).is_ok());
    let data = object(vec![("sku", text("ABCDEFGH")), ("stock", number(-3))]);
    assert_eq!(complaints(&m, &data), vec![("stock".to_string(), "El valor mínimo es 0".to_string())]);
}

#[test]
fn boolean_and_text_kinds_are_type_checked() {
    let mut m = inventory(SKU);
    m.spec.fields.push(field("at", FieldType::Datetime, false, None));
    m.spec.fields.push(field("blob", FieldType::Binary, false, None));
    m.spec.fields.push(field("owner", FieldType::Reference, false, None));
    let data = object(vec![
        ("sku", text("ABCDEFGH")),
        ("active", text("yes")),
        ("at", number(1)),
        ("blob", JsonValue::Bool(true)),
        ("owner", number(7)),
    ]);
    assert_eq!(
        complaints(&m, &data),
        vec![
            ("active".to_string(), "Debe ser un booleano".to_string()),
            ("at".to_string(), "Debe ser una fecha".to_string()),
            ("blob".to_string(), "Debe ser un binario".to_string()),
            ("owner".to_string(), "Debe ser una referencia".to_string()),
        ]
    );
    let data = object(vec![
        ("sku", text("ABCDEFGH")),
        ("at", text("2024-05-01T10:00:00Z")),
        ("blob", text("aGVsbG8=")),
        ("owner", text("550e8400-e29b-41d4-a716-446655440000")),
    ]);
    assert!(validate_data(&m, &data).is_ok());
}

#[test]
fn enum_options_are_enforced() {
    let mut m = inventory(SKU);
    let mut especie = field("especie", FieldType::Enum, true, None);
    especie.options = Some(vec!["tigre".to_string(), "leon".to_string(), "avestruz".to_string()]);
    m.spec.fields.push(especie);
    let data = object(vec![("sku", text("ABCDEFGH")), ("especie", text("leon"))]);
    assert!(validate_data(&m, &data).is_ok());
    let data = object(vec![("sku", text("ABCDEFGH")), ("especie", text("gato"))]);
    assert_eq!(complaints(&m, &data), vec![("especie".to_string(), "No es una opción permitida: gato".to_string())]);
    let data = object(vec![("sku", text("ABCDEFGH")), ("especie", number(1))]);
    assert_eq!(complaints(&m, &data), vec![("especie".to_string(), "Debe ser un texto".to_string())]);
}

#[test]
fn enum_without_options_accepts_any_text() {
    let mut m = inventory(SKU);
    m.spec.fields.push(field("especie", FieldType::Enum, false, None));
    let data = object(vec![("sku", text("ABCDEFGH")), ("especie", text("gato"))]);
    assert!(validate_data(&m, &data).is_ok());
}

#[test]
fn keys_outside_contract_are_ignored() {
    let m = inventory(SKU);
    let data = object(vec![("stock", number(-1))]);
    let more = object(vec![("stock", number(-1)), ("color", text("red")), ("extra", JsonValue::Null)]);
    assert_eq!(complaints(&m, &data), complaints(&m, &more));
}

#[test]
fn update_checks_only_carried_fields() {
    let m = inventory(SKU);
    // No sku: an update need not carry it.
    let data = object(vec![("stock", number(3))]);
    assert!(validate_update(&m, &data).is_ok());
    let data = object(vec![("stock", number(-1))]);
    match validate_update(&m, &data) {
        Err(e) => {
            assert_eq!(e.len(), 1);
            assert_eq!((e[0].field.as_str(), e[0].message.as_str()), ("stock", "El valor mínimo es 0"));
        }
        Ok(()) => panic!("expected a complaint"),
    }
    // A required field set to null is refused.
    let data = object(vec![("sku", JsonValue::Null)]);
    match validate_update(&m, &data) {
        Err(e) => assert_eq!(e[0].message, "Este campo es requerido"),
        Ok(()) => panic!("expected a complaint"),
    }
}
