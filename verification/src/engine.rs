//! The create pipeline of the engine: validation, then the declared hooks
//! around persistence, with a log of what was done.

use vstd::prelude::*;
use crate::contract::{Hook, LexModule};
use crate::json::JsonValue;
use crate::text::same_text;
use crate::validator::{patterns_compile, validate_data, validation_errors, ValidationError};

verus! {

/// What the engine did with a record.
pub struct EngineResponse {
    pub success: bool,
    pub module: String,
    pub action_logs: Vec<String>,
    pub errors: Option<Vec<ValidationError>>,
}

/// The characters of each string.
pub open spec fn texts(v: Seq<String>) -> Seq<Seq<char>> {
    v.map_values(|s: String| s@)
}

/// The log line of a hook fired on `event`.
pub open spec fn hook_line(event: Seq<char>, action: Seq<char>) -> Seq<char> {
    "🚀 [HOOK "@ + event + "] Disparando acción: "@ + action
}

/// The log lines of the hooks that listen to `event`, in declaration order.
pub open spec fn hook_lines(hooks: Seq<Hook>, event: Seq<char>) -> Seq<Seq<char>>
    decreases hooks.len(),
{
    if hooks.len() == 0 {
        seq![]
    } else {
        let rest = hook_lines(hooks.drop_last(), event);
        if hooks.last().on@ == event {
            rest.push(hook_line(event, hooks.last().action@))
        } else {
            rest
        }
    }
}

/// The log line of a failed validation.
pub open spec fn failure_line() -> Seq<char> {
    "Validación fallida. Abortando."@
}

/// The log of a successful create: validation, the `beforeCreate` hooks, the
/// store, the `afterCreate` hooks.
pub open spec fn success_logs(module: LexModule) -> Seq<Seq<char>> {
    seq!["Validación exitosa"@]
        + hook_lines(module.spec.hooks@, "beforeCreate"@)
        + seq!["Guardando en tabla: "@ + module.metadata.name@]
        + hook_lines(module.spec.hooks@, "afterCreate"@)
}

fn hook_message(event: &str, action: &String) -> (line: String)
    ensures
        line@ == hook_line(event@, action@),
{
    let mut line = String::from_str("🚀 [HOOK ");
    line.append(event);
    line.append("] Disparando acción: ");
    line.append(action.as_str());
    line
}

/// Appends to `logs` a line for each hook of `module` that listens to `event`.
fn run_hooks(module: &LexModule, event: &str, _data: &JsonValue, logs: &mut Vec<String>)
    ensures
        texts(final(logs)@) == texts(old(logs)@) + hook_lines(module.spec.hooks@, event@),
{
    let hooks = &module.spec.hooks;
    let n = hooks.len();
    let mut i: usize = 0;
    let ghost start = texts(logs@);
    while i < n
        invariant
            n == hooks@.len(),
            i <= n,
            texts(logs@) == start + hook_lines(hooks@.take(i as int), event@),
        decreases n - i,
    {
        let hook = &hooks[i];
        assert(hooks@.take(i + 1).drop_last() =~= hooks@.take(i as int));
        assert(hooks@.take(i + 1).last() == hooks@[i as int]);
        let ghost before = logs@;
        if same_text(hook.on.as_str(), event) {
            let line = hook_message(event, &hook.action);
            logs.push(line);
            assert(texts(logs@) =~= texts(before).push(hook_line(event@, hook.action@)));
        }
        assert(texts(logs@) =~= start + hook_lines(hooks@.take(i + 1), event@));
        i = i + 1;
    }
    assert(hooks@.take(n as int) =~= hooks@);
}

/// Runs a create: validation first; on failure nothing else happens and the
/// complaints come back; on success the `beforeCreate` hooks, the store and
/// the `afterCreate` hooks are logged.
pub fn execute_create(module: &LexModule, data: &JsonValue) -> (response: EngineResponse)
    requires
        patterns_compile(module.spec.fields@, *data),
    ensures
        response.success <==> validation_errors(module.spec.fields@, *data).len() == 0,
        response.module@ == module.metadata.name@,
        response.success ==> texts(response.action_logs@) == success_logs(*module)
            && response.errors is None,
        !response.success ==> texts(response.action_logs@) == seq![failure_line()]
            && (response.errors matches Some(errors) && errors@.map_values(|e: ValidationError| e@)
                == validation_errors(module.spec.fields@, *data)),
{
    let mut logs: Vec<String> = Vec::new();
    match validate_data(module, data) {
        Err(errors) => {
            let mut failure: Vec<String> = Vec::new();
            failure.push(String::from_str("Validación fallida. Abortando."));
            assert(texts(failure@) =~= seq![failure_line()]);
            return EngineResponse {
                success: false,
                module: module.metadata.name.clone(),
                action_logs: failure,
                errors: Some(errors),
            };
        },
        Ok(()) => {},
    }
    logs.push(String::from_str("Validación exitosa"));
    assert(texts(logs@) =~= seq!["Validación exitosa"@]);
    run_hooks(module, "beforeCreate", data, &mut logs);
    let ghost after_before = logs@;
    let mut store = String::from_str("Guardando en tabla: ");
    store.append(module.metadata.name.as_str());
    logs.push(store);
    assert(texts(logs@) =~= texts(after_before).push("Guardando en tabla: "@ + module.metadata.name@));
    run_hooks(module, "afterCreate", data, &mut logs);
    assert(texts(logs@) =~= success_logs(*module));
    EngineResponse {
        success: true,
        module: module.metadata.name.clone(),
        action_logs: logs,
        errors: None,
    }
}


/// The hooks fired on an event are exactly the hooks declared for it, in
/// declaration order, each logged with its action.
pub proof fn law_hooks_fire_for_their_event(hooks: Seq<Hook>, event: Seq<char>)
    ensures
        hook_lines(hooks, event) == hooks.filter(|h: Hook| h.on@ == event)
            .map_values(|h: Hook| hook_line(event, h.action@)),
    decreases hooks.len(),
{
    if hooks.len() > 0 {
        let rest = hooks.drop_last();
        let last = hooks.last();
        law_hooks_fire_for_their_event(rest, event);
        assert(rest.push(last) =~= hooks);
        rest.lemma_filter_push(last, |h: Hook| h.on@ == event);
        let fr = rest.filter(|h: Hook| h.on@ == event);
        if last.on@ == event {
            assert(fr.push(last).map_values(|h: Hook| hook_line(event, h.action@))
                =~= fr.map_values(|h: Hook| hook_line(event, h.action@)).push(hook_line(event, last.action@)));
        }
    } else {
        reveal(Seq::filter);
        assert(hooks.filter(|h: Hook| h.on@ == event).map_values(|h: Hook| hook_line(event, h.action@))
            =~= Seq::<Seq<char>>::empty());
    }
}

} // verus!
