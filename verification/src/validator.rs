//! Validation of a record against the fields of a module contract.

use vstd::prelude::*;
use crate::contract::{Field, FieldType, LexModule};
use crate::json::{entry_lookup, find_entry, JsonNumber, JsonValue};
use crate::numeric::{double_less, double_less_than};
use crate::pattern::{compile_pattern, pattern_finds, regex_compiles, regex_finds};

verus! {

/// A complaint about one field of a record.
pub struct ValidationError {
    pub field: String,
    pub message: String,
}

impl View for ValidationError {
    type V = (Seq<char>, Seq<char>);

    open spec fn view(&self) -> (Seq<char>, Seq<char>) {
        (self.field@, self.message@)
    }
}

/// The message for a required field that is missing or null.
pub open spec fn required_message() -> Seq<char> {
    "Este campo es requerido"@
}

/// The message for a text field that holds something else.
pub open spec fn text_message() -> Seq<char> {
    "Debe ser un texto"@
}

/// The message for a number field that holds something else.
pub open spec fn number_message() -> Seq<char> {
    "Debe ser un número"@
}

/// The message for a text that the field's pattern does not match.
pub open spec fn format_message(pattern: Seq<char>) -> Seq<char> {
    "No cumple con el formato requerido: "@ + pattern
}

/// The message for a number below the field's minimum.
pub open spec fn minimum_message(min: JsonNumber) -> Seq<char> {
    "El valor mínimo es "@ + min.as_f64_text@
}

/// The message for a number above the field's maximum.
pub open spec fn maximum_message(max: JsonNumber) -> Seq<char> {
    "El valor máximo es "@ + max.as_f64_text@
}

/// The message for a boolean field that holds something else.
pub open spec fn boolean_message() -> Seq<char> {
    "Debe ser un booleano"@
}

/// The message for a date field that holds something other than a text.
pub open spec fn datetime_message() -> Seq<char> {
    "Debe ser una fecha"@
}

/// The message for a binary field that holds something other than a text.
pub open spec fn binary_message() -> Seq<char> {
    "Debe ser un binario"@
}

/// The message for a reference field that holds something other than a text.
pub open spec fn reference_message() -> Seq<char> {
    "Debe ser una referencia"@
}

/// The message for an enum field whose text is not one of its options.
pub open spec fn option_message(value: Seq<char>) -> Seq<char> {
    "No es una opción permitida: "@ + value
}

/// Whether `value` is one of the options.
pub open spec fn is_option(options: Seq<String>, value: Seq<char>) -> bool {
    exists|i: int| 0 <= i < options.len() && #[trigger] options[i]@ == value
}

/// The `regex` constraint of a field, when it is a string.
pub open spec fn regex_constraint(field: Field) -> Option<Seq<char>> {
    match field.constraints {
        Some(c) => match entry_lookup(c@, "regex"@) {
            Some(JsonValue::Str(p)) => Some(p@),
            _ => None,
        },
        None => None,
    }
}

/// The `min` constraint of a field, when it is a number.
pub open spec fn min_constraint(field: Field) -> Option<JsonNumber> {
    match field.constraints {
        Some(c) => match entry_lookup(c@, "min"@) {
            Some(JsonValue::Number(n)) => Some(n),
            _ => None,
        },
        None => None,
    }
}

/// The `max` constraint of a field, when it is a number.
pub open spec fn max_constraint(field: Field) -> Option<JsonNumber> {
    match field.constraints {
        Some(c) => match entry_lookup(c@, "max"@) {
            Some(JsonValue::Number(n)) => Some(n),
            _ => None,
        },
        None => None,
    }
}

/// The complaint about a number held by a number field: below its minimum,
/// else above its maximum.
pub open spec fn number_error(field: Field, n: JsonNumber) -> Option<Seq<char>> {
    match min_constraint(field) {
        Some(m) if double_less(n.as_f64_bits, m.as_f64_bits) => Some(minimum_message(m)),
        _ => match max_constraint(field) {
            Some(m) if double_less(m.as_f64_bits, n.as_f64_bits) => Some(maximum_message(m)),
            _ => None,
        },
    }
}

/// The complaint about a text held by an enum field: not one of its options.
pub open spec fn enum_error(field: Field, s: Seq<char>) -> Option<Seq<char>> {
    match field.options {
        Some(options) => if is_option(options@, s) { None } else { Some(option_message(s)) },
        None => None,
    }
}

/// The complaint about a value that is there and not null, by field type.
pub open spec fn value_error(field: Field, v: JsonValue) -> Option<Seq<char>> {
    match field.field_type {
        FieldType::String => match v {
            JsonValue::Str(s) => match regex_constraint(field) {
                Some(p) => if regex_finds(p, s@) { None } else { Some(format_message(p)) },
                None => None,
            },
            _ => Some(text_message()),
        },
        FieldType::Number => match v {
            JsonValue::Number(n) => number_error(field, n),
            _ => Some(number_message()),
        },
        FieldType::Boolean => match v {
            JsonValue::Bool(_) => None,
            _ => Some(boolean_message()),
        },
        FieldType::Datetime => match v {
            JsonValue::Str(_) => None,
            _ => Some(datetime_message()),
        },
        FieldType::Binary => match v {
            JsonValue::Str(_) => None,
            _ => Some(binary_message()),
        },
        FieldType::Reference => match v {
            JsonValue::Str(_) => None,
            _ => Some(reference_message()),
        },
        FieldType::Enum => match v {
            JsonValue::Str(s) => enum_error(field, s@),
            _ => Some(text_message()),
        },
    }
}

/// The record's value for the field, when it is there and not null.
pub open spec fn present_value(field: Field, data: JsonValue) -> Option<JsonValue> {
    match data.member(field.id@) {
        Some(v) => if v is Null { None } else { Some(v) },
        None => None,
    }
}

/// The pattern that validating this field runs: the `regex` constraint of a
/// text field whose value is a string.
pub open spec fn checked_pattern(field: Field, data: JsonValue) -> Option<Seq<char>> {
    if field.field_type == FieldType::String {
        match present_value(field, data) {
            Some(JsonValue::Str(_)) => regex_constraint(field),
            _ => None,
        }
    } else {
        None
    }
}

/// Whether every pattern that validating the record runs compiles.
pub open spec fn patterns_compile(fields: Seq<Field>, data: JsonValue) -> bool {
    forall|i: int| 0 <= i < fields.len() ==>
        (#[trigger] checked_pattern(fields[i], data) matches Some(p) ==> regex_compiles(p))
}

/// The complaint about one field, if any.
pub open spec fn field_error(field: Field, data: JsonValue) -> Option<Seq<char>> {
    match present_value(field, data) {
        None => if field.required { Some(required_message()) } else { None },
        Some(v) => value_error(field, v),
    }
}

/// The complaints about a record, one per failing field, in field order.
pub open spec fn validation_errors(fields: Seq<Field>, data: JsonValue) -> Seq<(Seq<char>, Seq<char>)>
    decreases fields.len(),
{
    if fields.len() == 0 {
        seq![]
    } else {
        let rest = validation_errors(fields.drop_last(), data);
        match field_error(fields.last(), data) {
            Some(m) => rest.push((fields.last().id@, m)),
            None => rest,
        }
    }
}

/// The complaint about one field of an update: a field that the update does
/// not carry is left as stored and draws none; a field it carries is checked
/// as on create (a null in a required field is a missing value).
pub open spec fn update_field_error(field: Field, data: JsonValue) -> Option<Seq<char>> {
    if data.member(field.id@) is None {
        None
    } else {
        field_error(field, data)
    }
}

/// The complaints about an update, one per failing field, in field order.
pub open spec fn update_errors(fields: Seq<Field>, data: JsonValue) -> Seq<(Seq<char>, Seq<char>)>
    decreases fields.len(),
{
    if fields.len() == 0 {
        seq![]
    } else {
        let rest = update_errors(fields.drop_last(), data);
        match update_field_error(fields.last(), data) {
            Some(m) => rest.push((fields.last().id@, m)),
            None => rest,
        }
    }
}

fn present<'a>(field: &Field, data: &'a JsonValue) -> (v: Option<&'a JsonValue>)
    ensures
        v is Some <==> present_value(*field, *data) is Some,
        v matches Some(x) ==> present_value(*field, *data) == Some(*x),
{
    match data.get(field.id.as_str()) {
        Some(v) => if v.is_null() { None } else { Some(v) },
        None => None,
    }
}

fn regex_of(field: &Field) -> (p: Option<&String>)
    ensures
        p is Some <==> regex_constraint(*field) is Some,
        p matches Some(s) ==> regex_constraint(*field) == Some(s@),
{
    match &field.constraints {
        Some(c) => match find_entry(c, "regex") {
            Some(JsonValue::Str(p)) => Some(p),
            _ => None,
        },
        None => None,
    }
}

fn min_of(field: &Field) -> (m: Option<&JsonNumber>)
    ensures
        m is Some <==> min_constraint(*field) is Some,
        m matches Some(n) ==> min_constraint(*field) == Some(*n),
{
    match &field.constraints {
        Some(c) => match find_entry(c, "min") {
            Some(JsonValue::Number(n)) => Some(n),
            _ => None,
        },
        None => None,
    }
}

fn pattern_to_check<'a>(field: &'a Field, data: &JsonValue) -> (p: Option<&'a String>)
    ensures
        p is Some <==> checked_pattern(*field, *data) is Some,
        p matches Some(s) ==> checked_pattern(*field, *data) == Some(s@),
{
    if field.field_type == FieldType::String {
        match present(field, data) {
            Some(JsonValue::Str(_)) => regex_of(field),
            _ => None,
        }
    } else {
        None
    }
}

fn max_of(field: &Field) -> (m: Option<&JsonNumber>)
    ensures
        m is Some <==> max_constraint(*field) is Some,
        m matches Some(n) ==> max_constraint(*field) == Some(*n),
{
    match &field.constraints {
        Some(c) => match find_entry(c, "max") {
            Some(JsonValue::Number(n)) => Some(n),
            _ => None,
        },
        None => None,
    }
}

fn check_number(field: &Field, n: &JsonNumber) -> (complaint: Option<String>)
    ensures
        complaint is Some <==> number_error(*field, *n) is Some,
        complaint matches Some(m) ==> number_error(*field, *n) == Some(m@),
{
    match min_of(field) {
        Some(min) => {
            if double_less_than(n.as_f64_bits, min.as_f64_bits) {
                let mut m = String::from_str("El valor mínimo es ");
                m.append(min.as_f64_text.as_str());
                return Some(m);
            }
        },
        None => {},
    }
    match max_of(field) {
        Some(max) => {
            if double_less_than(max.as_f64_bits, n.as_f64_bits) {
                let mut m = String::from_str("El valor máximo es ");
                m.append(max.as_f64_text.as_str());
                return Some(m);
            }
        },
        None => {},
    }
    None
}

fn check_option(field: &Field, s: &String) -> (complaint: Option<String>)
    ensures
        complaint is Some <==> enum_error(*field, s@) is Some,
        complaint matches Some(m) ==> enum_error(*field, s@) == Some(m@),
{
    match &field.options {
        Some(options) => {
            let n = options.len();
            let mut i: usize = 0;
            while i < n
                invariant
                    n == options@.len(),
                    i <= n,
                    field.options == Some(*options),
                    forall|j: int| 0 <= j < i ==> #[trigger] options@[j]@ != s@,
                decreases n - i,
            {
                let same = options[i] == *s;
                if same {
                    assert(field.options == Some(*options));
                    assert(options@[i as int]@ == s@);
                    assert(is_option(options@, s@));
                    return None;
                }
                i = i + 1;
            }
            let mut m = String::from_str("No es una opción permitida: ");
            m.append(s.as_str());
            Some(m)
        },
        None => None,
    }
}

/// Checks a value that is there and not null.
fn check_value(field: &Field, v: &JsonValue) -> (complaint: Option<String>)
    requires
        field.field_type == FieldType::String ==> (v matches JsonValue::Str(_) ==>
            (regex_constraint(*field) matches Some(p) ==> regex_compiles(p))),
    ensures
        complaint is Some <==> value_error(*field, *v) is Some,
        complaint matches Some(m) ==> value_error(*field, *v) == Some(m@),
{
    match field.field_type {
        FieldType::String => match v {
            JsonValue::Str(s) => match regex_of(field) {
                Some(p) => match compile_pattern(p.as_str()) {
                    Some(compiled) => {
                        if pattern_finds(&compiled, s.as_str()) {
                            None
                        } else {
                            let mut m = String::from_str("No cumple con el formato requerido: ");
                            m.append(p.as_str());
                            Some(m)
                        }
                    },
                    None => {
                        assert(false);
                        None
                    },
                },
                None => None,
            },
            _ => Some(String::from_str("Debe ser un texto")),
        },
        FieldType::Number => match v {
            JsonValue::Number(n) => check_number(field, n),
            _ => Some(String::from_str("Debe ser un número")),
        },
        FieldType::Boolean => match v {
            JsonValue::Bool(_) => None,
            _ => Some(String::from_str("Debe ser un booleano")),
        },
        FieldType::Datetime => match v {
            JsonValue::Str(_) => None,
            _ => Some(String::from_str("Debe ser una fecha")),
        },
        FieldType::Binary => match v {
            JsonValue::Str(_) => None,
            _ => Some(String::from_str("Debe ser un binario")),
        },
        FieldType::Reference => match v {
            JsonValue::Str(_) => None,
            _ => Some(String::from_str("Debe ser una referencia")),
        },
        FieldType::Enum => match v {
            JsonValue::Str(s) => check_option(field, s),
            _ => Some(String::from_str("Debe ser un texto")),
        },
    }
}

/// Checks one field of a record.
fn check_field(field: &Field, data: &JsonValue) -> (complaint: Option<String>)
    requires
        checked_pattern(*field, *data) matches Some(p) ==> regex_compiles(p),
    ensures
        complaint is Some <==> field_error(*field, *data) is Some,
        complaint matches Some(m) ==> field_error(*field, *data) == Some(m@),
{
    match present(field, data) {
        None => {
            if field.required {
                Some(String::from_str("Este campo es requerido"))
            } else {
                None
            }
        },
        Some(v) => check_value(field, v),
    }
}

/// Validates `data` against the fields of `module`: `Ok` when no field
/// complains, otherwise every complaint in field order.
pub fn validate_data(module: &LexModule, data: &JsonValue) -> (result: Result<(), Vec<ValidationError>>)
    requires
        patterns_compile(module.spec.fields@, *data),
    ensures
        result is Ok <==> validation_errors(module.spec.fields@, *data).len() == 0,
        result matches Err(errors) ==> errors@.map_values(|e: ValidationError| e@)
            == validation_errors(module.spec.fields@, *data),
{
    let fields = &module.spec.fields;
    let ghost all = fields@;
    let mut errors: Vec<ValidationError> = Vec::new();
    let n = fields.len();
    let mut i: usize = 0;
    while i < n
        invariant
            n == all.len(),
            all == module.spec.fields@,
            fields@ == all,
            i <= n,
            patterns_compile(all, *data),
            errors@.map_values(|e: ValidationError| e@) == validation_errors(all.take(i as int), *data),
        decreases n - i,
    {
        let field = &fields[i];
        assert(all.take(i + 1).drop_last() =~= all.take(i as int));
        assert(all.take(i + 1).last() == all[i as int]);
        assert(checked_pattern(all[i as int], *data) matches Some(p) ==> regex_compiles(p));
        match check_field(field, data) {
            Some(message) => {
                errors.push(ValidationError { field: field.id.clone(), message });
                assert(errors@.map_values(|e: ValidationError| e@) =~= validation_errors(all.take(i + 1), *data));
            },
            None => {
                assert(errors@.map_values(|e: ValidationError| e@) =~= validation_errors(all.take(i + 1), *data));
            },
        }
        i = i + 1;
    }
    assert(all.take(n as int) =~= all);
    if errors.len() == 0 {
        Ok(())
    } else {
        Err(errors)
    }
}

/// Validates the update `data` against the fields of `module`: only the
/// fields it carries are checked. `Ok` when none complains, otherwise every
/// complaint in field order.
pub fn validate_update(module: &LexModule, data: &JsonValue) -> (result: Result<(), Vec<ValidationError>>)
    requires
        patterns_compile(module.spec.fields@, *data),
    ensures
        result is Ok <==> update_errors(module.spec.fields@, *data).len() == 0,
        result matches Err(errors) ==> errors@.map_values(|e: ValidationError| e@)
            == update_errors(module.spec.fields@, *data),
{
    let fields = &module.spec.fields;
    let ghost all = fields@;
    let mut errors: Vec<ValidationError> = Vec::new();
    let n = fields.len();
    let mut i: usize = 0;
    while i < n
        invariant
            n == all.len(),
            all == module.spec.fields@,
            fields@ == all,
            i <= n,
            patterns_compile(all, *data),
            errors@.map_values(|e: ValidationError| e@) == update_errors(all.take(i as int), *data),
        decreases n - i,
    {
        let field = &fields[i];
        assert(all.take(i + 1).drop_last() =~= all.take(i as int));
        assert(all.take(i + 1).last() == all[i as int]);
        assert(checked_pattern(all[i as int], *data) matches Some(p) ==> regex_compiles(p));
        let complaint = if data.get(field.id.as_str()).is_some() {
            check_field(field, data)
        } else {
            None
        };
        match complaint {
            Some(message) => {
                errors.push(ValidationError { field: field.id.clone(), message });
                assert(errors@.map_values(|e: ValidationError| e@) =~= update_errors(all.take(i + 1), *data));
            },
            None => {
                assert(errors@.map_values(|e: ValidationError| e@) =~= update_errors(all.take(i + 1), *data));
            },
        }
        i = i + 1;
    }
    assert(all.take(n as int) =~= all);
    if errors.len() == 0 {
        Ok(())
    } else {
        Err(errors)
    }
}

/// Whether every pattern that validating `data` would run compiles; the
/// patterns are compiled here to find out.
pub fn patterns_compile_for(fields: &Vec<Field>, data: &JsonValue) -> (ok: bool)
    ensures
        ok == patterns_compile(fields@, *data),
{
    let n = fields.len();
    let mut i: usize = 0;
    while i < n
        invariant
            n == fields@.len(),
            i <= n,
            forall|j: int| 0 <= j < i ==>
                (#[trigger] checked_pattern(fields@[j], *data) matches Some(p) ==> regex_compiles(p)),
        decreases n - i,
    {
        match pattern_to_check(&fields[i], data) {
            Some(p) => {
                if compile_pattern(p.as_str()).is_none() {
                    assert(!(checked_pattern(fields@[i as int], *data) matches Some(p) ==> regex_compiles(p)));
                    return false;
                }
            },
            None => {},
        }
        i = i + 1;
    }
    true
}

/// Validates `data` against `module` where every pattern the validation runs
/// compiles; `None` where one does not.
pub fn try_validate_data(module: &LexModule, data: &JsonValue) -> (result: Option<Result<(), Vec<ValidationError>>>)
    ensures
        result is Some <==> patterns_compile(module.spec.fields@, *data),
        result matches Some(r) ==> (r is Ok <==> validation_errors(module.spec.fields@, *data).len() == 0),
        result matches Some(Err(errors)) ==> errors@.map_values(|e: ValidationError| e@)
            == validation_errors(module.spec.fields@, *data),
{
    if patterns_compile_for(&module.spec.fields, data) {
        Some(validate_data(module, data))
    } else {
        None
    }
}


/// A record draws no complaint exactly when no field complains about it.
pub proof fn law_valid_iff_every_field_passes(fields: Seq<Field>, data: JsonValue)
    ensures
        validation_errors(fields, data).len() == 0
            <==> forall|i: int| 0 <= i < fields.len() ==> #[trigger] field_error(fields[i], data) is None,
    decreases fields.len(),
{
    if fields.len() > 0 {
        law_valid_iff_every_field_passes(fields.drop_last(), data);
        assert forall|i: int| 0 <= i < fields.len() - 1 implies fields.drop_last()[i] == fields[i] by {}
        if validation_errors(fields, data).len() == 0 {
            assert forall|i: int| 0 <= i < fields.len() implies #[trigger] field_error(fields[i], data) is None by {
                if i < fields.len() - 1 {
                    assert(field_error(fields.drop_last()[i], data) is None);
                }
            }
        } else if forall|i: int| 0 <= i < fields.len() ==> #[trigger] field_error(fields[i], data) is None {
            assert(field_error(fields[fields.len() - 1], data) is None);
            assert forall|i: int| 0 <= i < fields.len() - 1 implies #[trigger] field_error(fields.drop_last()[i], data) is None by {
                assert(field_error(fields[i], data) is None);
            }
        }
    }
}

/// Each field draws at most one complaint, and every complaint names a field
/// of the contract.
pub proof fn law_at_most_one_complaint_per_field(fields: Seq<Field>, data: JsonValue)
    ensures
        validation_errors(fields, data).len() <= fields.len(),
        forall|k: int| 0 <= k < validation_errors(fields, data).len() ==>
            exists|i: int| 0 <= i < fields.len() && #[trigger] validation_errors(fields, data)[k].0 == fields[i].id@,
    decreases fields.len(),
{
    if fields.len() > 0 {
        let rest = fields.drop_last();
        law_at_most_one_complaint_per_field(rest, data);
        let errs = validation_errors(fields, data);
        assert forall|k: int| 0 <= k < errs.len() implies
            exists|i: int| 0 <= i < fields.len() && #[trigger] errs[k].0 == fields[i].id@ by {
            if k < validation_errors(rest, data).len() {
                let i = choose|i: int| 0 <= i < rest.len() && #[trigger] validation_errors(rest, data)[k].0 == rest[i].id@;
                assert(errs[k].0 == fields[i].id@);
            } else {
                assert(errs[k].0 == fields[fields.len() - 1].id@);
            }
        }
    }
}


/// Validation reads a record only through the members that the contract's
/// fields name: two records that agree on those members draw the same
/// complaints, on create and on update, and run the same patterns.
pub proof fn law_validation_reads_only_field_members(fields: Seq<Field>, data: JsonValue, other: JsonValue)
    requires
        forall|i: int| 0 <= i < fields.len() ==> other.member(#[trigger] fields[i].id@) == data.member(fields[i].id@),
    ensures
        validation_errors(fields, other) == validation_errors(fields, data),
        update_errors(fields, other) == update_errors(fields, data),
        patterns_compile(fields, other) == patterns_compile(fields, data),
    decreases fields.len(),
{
    if fields.len() > 0 {
        let rest = fields.drop_last();
        assert forall|i: int| 0 <= i < rest.len() implies other.member(#[trigger] rest[i].id@) == data.member(rest[i].id@) by {
            assert(rest[i] == fields[i]);
        }
        law_validation_reads_only_field_members(rest, data, other);
        let last = fields[fields.len() - 1];
        assert(other.member(last.id@) == data.member(last.id@));
        assert(field_error(last, other) == field_error(last, data));
        assert(update_field_error(last, other) == update_field_error(last, data));
    }
    assert forall|i: int| 0 <= i < fields.len() implies #[trigger] checked_pattern(fields[i], other) == checked_pattern(fields[i], data) by {
        assert(other.member(fields[i].id@) == data.member(fields[i].id@));
    }
    if patterns_compile(fields, data) {
        assert forall|i: int| 0 <= i < fields.len() implies
            (#[trigger] checked_pattern(fields[i], other) matches Some(p) ==> regex_compiles(p)) by {
            assert(checked_pattern(fields[i], other) == checked_pattern(fields[i], data));
        }
    }
    if patterns_compile(fields, other) {
        assert forall|i: int| 0 <= i < fields.len() implies
            (#[trigger] checked_pattern(fields[i], data) matches Some(p) ==> regex_compiles(p)) by {
            assert(checked_pattern(fields[i], other) == checked_pattern(fields[i], data));
        }
    }
}

/// A key that no field of the contract names leaves validation unchanged:
/// a record that differs from another only in that key draws the same
/// complaints, on create and on update.
pub proof fn law_keys_outside_contract_ignored(fields: Seq<Field>, data: JsonValue, other: JsonValue, key: Seq<char>)
    requires
        forall|i: int| 0 <= i < fields.len() ==> #[trigger] fields[i].id@ != key,
        forall|k: Seq<char>| k != key ==> #[trigger] other.member(k) == data.member(k),
    ensures
        validation_errors(fields, other) == validation_errors(fields, data),
        update_errors(fields, other) == update_errors(fields, data),
        patterns_compile(fields, other) == patterns_compile(fields, data),
{
    assert forall|i: int| 0 <= i < fields.len() implies other.member(#[trigger] fields[i].id@) == data.member(fields[i].id@) by {
        assert(fields[i].id@ != key);
    }
    law_validation_reads_only_field_members(fields, data, other);
}


/// An enum field with options accepts a text exactly when it equals one of
/// the options, whichever its position (the first and the last included), and
/// refuses any other text with a complaint that names the text.
pub proof fn law_enum_accepts_exactly_its_options(field: Field, data: JsonValue, options: Vec<String>, s: String)
    requires
        field.field_type == FieldType::Enum,
        field.options == Some(options),
        data.member(field.id@) == Some(JsonValue::Str(s)),
    ensures
        field_error(field, data) is None <==> exists|i: int| 0 <= i < options@.len() && #[trigger] options@[i]@ == s@,
        forall|i: int| 0 <= i < options@.len() && #[trigger] options@[i]@ == s@ ==> field_error(field, data) is None,
        !(exists|i: int| 0 <= i < options@.len() && #[trigger] options@[i]@ == s@)
            ==> field_error(field, data) == Some("No es una opción permitida: "@ + s@),
{
    assert(present_value(field, data) == Some(JsonValue::Str(s)));
}


/// Whether a present, non-null value has the JSON kind a field type asks for:
/// a string for text, date, binary, reference and enum fields, a number for
/// number fields, a boolean for boolean fields.
pub open spec fn kind_fits(t: FieldType, v: JsonValue) -> bool {
    match t {
        FieldType::Number => v is Number,
        FieldType::Boolean => v is Bool,
        _ => v is Str,
    }
}

/// A missing or null field draws the required complaint when it is required
/// and nothing otherwise; a present field of the wrong kind draws the
/// complaint of its type; and a present field of the right kind with no
/// constraints and no options draws none.
pub proof fn law_required_and_kinds(field: Field, data: JsonValue)
    ensures
        (data.member(field.id@) is None || data.member(field.id@) == Some(JsonValue::Null)) ==>
            field_error(field, data) == (if field.required { Some("Este campo es requerido"@) } else { None }),
        data.member(field.id@) matches Some(v) && !(v is Null) && !kind_fits(field.field_type, v)
            ==> field_error(field, data) is Some,
        data.member(field.id@) matches Some(v) && !(v is Null) && !kind_fits(field.field_type, v)
            ==> field_error(field, data) == Some(match field.field_type {
                FieldType::Number => "Debe ser un número"@,
                FieldType::Boolean => "Debe ser un booleano"@,
                FieldType::Datetime => "Debe ser una fecha"@,
                FieldType::Binary => "Debe ser un binario"@,
                FieldType::Reference => "Debe ser una referencia"@,
                _ => "Debe ser un texto"@,
            }),
        data.member(field.id@) matches Some(v) && !(v is Null) && kind_fits(field.field_type, v)
            && field.constraints is None && field.options is None
            ==> field_error(field, data) is None,
        data.member(field.id@) matches Some(v) && !(v is Null) && kind_fits(field.field_type, v)
            && (field.field_type == FieldType::Boolean || field.field_type == FieldType::Datetime
                || field.field_type == FieldType::Binary || field.field_type == FieldType::Reference)
            ==> field_error(field, data) is None,
{
}

/// A text field with a `regex` constraint accepts a text exactly when the
/// pattern matches it, and otherwise complains naming the pattern.
pub proof fn law_text_follows_its_pattern(field: Field, data: JsonValue, pattern: String, s: String)
    requires
        field.field_type == FieldType::String,
        field.constraints matches Some(c) && entry_lookup(c@, "regex"@) == Some(JsonValue::Str(pattern)),
        data.member(field.id@) == Some(JsonValue::Str(s)),
    ensures
        field_error(field, data) is None <==> regex_finds(pattern@, s@),
        !regex_finds(pattern@, s@) ==> field_error(field, data) == Some("No cumple con el formato requerido: "@ + pattern@),
{
}

/// A number field refuses a number below its `min` constraint with the
/// minimum's complaint; otherwise it refuses a number above its `max`
/// constraint with the maximum's complaint; a number that neither bound
/// refuses (or a field with neither bound) draws no complaint.
pub proof fn law_numbers_stay_within_bounds(field: Field, data: JsonValue, n: JsonNumber)
    requires
        field.field_type == FieldType::Number,
        data.member(field.id@) == Some(JsonValue::Number(n)),
    ensures
        ({
            let low = match field.constraints {
                Some(c) => entry_lookup(c@, "min"@),
                None => None,
            };
            let high = match field.constraints {
                Some(c) => entry_lookup(c@, "max"@),
                None => None,
            };
            let below = low matches Some(JsonValue::Number(m)) && double_less(n.as_f64_bits, m.as_f64_bits);
            let above = high matches Some(JsonValue::Number(m)) && double_less(m.as_f64_bits, n.as_f64_bits);
            &&& below ==> field_error(field, data) == Some("El valor mínimo es "@ + low->0->Number_0.as_f64_text@)
            &&& !below && above ==> field_error(field, data) == Some("El valor máximo es "@ + high->0->Number_0.as_f64_text@)
            &&& !below && !above ==> field_error(field, data) is None
        }),
{
}

/// The complaints about a record are, in field order, exactly the fields that
/// complain, each with its own complaint.
pub proof fn law_complaints_are_the_failing_fields(fields: Seq<Field>, data: JsonValue)
    ensures
        validation_errors(fields, data) == fields.filter(|f: Field| field_error(f, data) is Some)
            .map_values(|f: Field| (f.id@, field_error(f, data)->0)),
    decreases fields.len(),
{
    if fields.len() > 0 {
        let rest = fields.drop_last();
        let last = fields.last();
        law_complaints_are_the_failing_fields(rest, data);
        assert(rest.push(last) =~= fields);
        rest.lemma_filter_push(last, |f: Field| field_error(f, data) is Some);
        let fr = rest.filter(|f: Field| field_error(f, data) is Some);
        if field_error(last, data) is Some {
            assert(fr.push(last).map_values(|f: Field| (f.id@, field_error(f, data)->0))
                =~= fr.map_values(|f: Field| (f.id@, field_error(f, data)->0)).push((last.id@, field_error(last, data)->0)));
        }
    } else {
        reveal(Seq::filter);
        assert(fields.filter(|f: Field| field_error(f, data) is Some).map_values(|f: Field| (f.id@, field_error(f, data)->0))
            =~= Seq::<(Seq<char>, Seq<char>)>::empty());
    }
}

/// The complaints about an update are, in field order, exactly the fields
/// that the update carries and that complain; a field it does not carry never
/// complains, required or not.
pub proof fn law_update_complaints_are_the_carried_failing_fields(fields: Seq<Field>, data: JsonValue)
    ensures
        update_errors(fields, data) == fields.filter(|f: Field| data.member(f.id@) is Some && field_error(f, data) is Some)
            .map_values(|f: Field| (f.id@, field_error(f, data)->0)),
    decreases fields.len(),
{
    if fields.len() > 0 {
        let rest = fields.drop_last();
        let last = fields.last();
        law_update_complaints_are_the_carried_failing_fields(rest, data);
        assert(rest.push(last) =~= fields);
        rest.lemma_filter_push(last, |f: Field| data.member(f.id@) is Some && field_error(f, data) is Some);
        let fr = rest.filter(|f: Field| data.member(f.id@) is Some && field_error(f, data) is Some);
        if data.member(last.id@) is Some && field_error(last, data) is Some {
            assert(fr.push(last).map_values(|f: Field| (f.id@, field_error(f, data)->0))
                =~= fr.map_values(|f: Field| (f.id@, field_error(f, data)->0)).push((last.id@, field_error(last, data)->0)));
        }
    } else {
        reveal(Seq::filter);
        assert(fields.filter(|f: Field| data.member(f.id@) is Some && field_error(f, data) is Some)
            .map_values(|f: Field| (f.id@, field_error(f, data)->0)) =~= Seq::<(Seq<char>, Seq<char>)>::empty());
    }
}

} // verus!
