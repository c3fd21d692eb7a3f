//! The decisions of the HTTP endpoints: which storage work to ask for, and
//! which status and body to answer with. The endpoints themselves do the I/O.

use vstd::prelude::*;
use crate::engine::{execute_create, EngineResponse};
use crate::json::JsonValue;
use crate::registry::Registry;
use crate::validator::{patterns_compile, patterns_compile_for, update_errors, validate_update, validation_errors, ValidationError};

verus! {

/// The body of a reply.
pub enum ReplyBody {
    /// A plain text.
    Text(String),
    /// The complaints about a record, as JSON.
    Errors(Vec<ValidationError>),
    /// The data the request asked for, as JSON.
    Payload,
    /// No body.
    Empty,
}

/// The content of a reply body.
pub enum BodyView {
    Text(Seq<char>),
    Errors(Seq<(Seq<char>, Seq<char>)>),
    Payload,
    Empty,
}

/// An HTTP reply: status code and body.
pub struct Reply {
    pub status: u16,
    pub body: ReplyBody,
}

impl View for Reply {
    type V = (u16, BodyView);

    open spec fn view(&self) -> (u16, BodyView) {
        (self.status, match self.body {
            ReplyBody::Text(t) => BodyView::Text(t@),
            ReplyBody::Errors(e) => BodyView::Errors(e@.map_values(|x: ValidationError| x@)),
            ReplyBody::Payload => BodyView::Payload,
            ReplyBody::Empty => BodyView::Empty,
        })
    }
}

/// The reply to a request for a module that is not there.
pub open spec fn not_found() -> (u16, BodyView) {
    (404, BodyView::Text("Módulo no encontrado"@))
}

fn not_found_reply() -> (reply: Reply)
    ensures
        reply@ == not_found(),
{
    Reply { status: 404, body: ReplyBody::Text(String::from_str("Módulo no encontrado")) }
}

fn text_reply(status: u16, text: &str) -> (reply: Reply)
    ensures
        reply@ == (status, BodyView::Text(text@)),
{
    Reply { status, body: ReplyBody::Text(String::from_str(text)) }
}

// ---------------------------------------------------------------- describe

/// Where the contract of module `name` is read from.
pub open spec fn contract_path_of(name: Seq<char>) -> Seq<char> {
    "modules/"@ + name + "/lex.json"@
}

/// The path of the contract file of module `name`.
pub fn contract_path(name: &str) -> (path: String)
    ensures
        path@ == contract_path_of(name@),
{
    let mut path = String::from_str("modules/");
    path.append(name);
    path.append("/lex.json");
    path
}

/// The reply of the describe endpoint: not found when the contract file could
/// not be read, a server error when it is not a valid contract, and the
/// contract otherwise.
pub fn describe_reply(read: bool, parsed: bool) -> (reply: Reply)
    ensures
        !read ==> reply@ == not_found(),
        read && !parsed ==> reply@ == (500u16, BodyView::Text("Error al parsear el contrato"@)),
        read && parsed ==> reply@ == (200u16, BodyView::Payload),
{
    if !read {
        not_found_reply()
    } else if !parsed {
        text_reply(500, "Error al parsear el contrato")
    } else {
        Reply { status: 200, body: ReplyBody::Payload }
    }
}

// ---------------------------------------------------------------- create

/// What the create endpoint has just learnt.
pub enum CreateEvent {
    /// The request came in.
    Received,
    /// The storage answered the request to make sure the module's table exists.
    RepositoryReady(Result<(), String>),
    /// The storage answered the request to store the record.
    Stored(Result<(), String>),
}

/// What the create endpoint does next.
pub enum CreateAction {
    /// Ask the storage to make sure the module's table exists.
    EnsureRepository,
    /// Ask the storage to store the record.
    Insert,
    /// Answer the request.
    Respond(Reply),
}

/// The next step of the create endpoint for module `name` and record `data`.
/// `None` where the record's validation would run a pattern that does not
/// compile.
pub fn create_step(registry: &Registry, name: &str, data: &JsonValue, event: CreateEvent) -> (action: Option<CreateAction>)
    ensures
        !registry@.dom().contains(name@) ==> (action matches Some(CreateAction::Respond(r)) && r@ == not_found()),
        registry@.dom().contains(name@) ==> match event {
            CreateEvent::Received => action matches Some(CreateAction::EnsureRepository),
            CreateEvent::RepositoryReady(Err(e)) =>
                action matches Some(CreateAction::Respond(r)) && r@ == (500u16, BodyView::Text(e@)),
            CreateEvent::RepositoryReady(Ok(())) => {
                let fields = registry@[name@].spec.fields@;
                &&& (action is Some <==> patterns_compile(fields, *data))
                &&& (patterns_compile(fields, *data) && validation_errors(fields, *data).len() == 0
                    ==> (action matches Some(CreateAction::Insert)))
                &&& (patterns_compile(fields, *data) && validation_errors(fields, *data).len() != 0
                    ==> (action matches Some(CreateAction::Respond(r))
                        && r@ == (400u16, BodyView::Errors(validation_errors(fields, *data)))))
            },
            CreateEvent::Stored(Ok(())) =>
                action matches Some(CreateAction::Respond(r)) && r@ == (201u16, BodyView::Text("Dato guardado con éxito"@)),
            CreateEvent::Stored(Err(e)) =>
                action matches Some(CreateAction::Respond(r)) && r@ == (500u16, BodyView::Text(e@)),
        },
{
    let module = match registry.get_module(name) {
        Some(m) => m,
        None => return Some(CreateAction::Respond(not_found_reply())),
    };
    match event {
        CreateEvent::Received => Some(CreateAction::EnsureRepository),
        CreateEvent::RepositoryReady(Err(e)) => Some(CreateAction::Respond(Reply { status: 500, body: ReplyBody::Text(e) })),
        CreateEvent::RepositoryReady(Ok(())) => {
            if !patterns_compile_for(&module.spec.fields, data) {
                return None;
            }
            let response: EngineResponse = execute_create(module, data);
            if response.success {
                Some(CreateAction::Insert)
            } else {
                match response.errors {
                    Some(errors) => Some(CreateAction::Respond(Reply { status: 400, body: ReplyBody::Errors(errors) })),
                    None => {
                        assert(false);
                        None
                    },
                }
            }
        },
        CreateEvent::Stored(Ok(())) => Some(CreateAction::Respond(text_reply(201, "Dato guardado con éxito"))),
        CreateEvent::Stored(Err(e)) => Some(CreateAction::Respond(Reply { status: 500, body: ReplyBody::Text(e) })),
    }
}

// ---------------------------------------------------------------- list, update, delete

/// The storage work behind the list and delete endpoints.
#[derive(PartialEq, Eq, Structural, Clone, Copy, Debug)]
pub enum StorageOp {
    List,
    Delete,
}

/// What the update endpoint has just learnt.
pub enum UpdateEvent {
    /// The request came in.
    Received,
    /// The storage answered the request to update the record.
    Updated(Result<(), String>),
}

/// What the update endpoint does next.
pub enum UpdateAction {
    /// Ask the storage to update the record.
    Update,
    /// Answer the request.
    Respond(Reply),
}

/// The next step of the update endpoint for module `name` and the update
/// `data`: the fields the update carries are validated first, and a refused
/// update never reaches the storage. `None` where the validation would run a
/// pattern that does not compile.
pub fn update_step(registry: &Registry, name: &str, data: &JsonValue, event: UpdateEvent) -> (action: Option<UpdateAction>)
    ensures
        !registry@.dom().contains(name@) ==> (action matches Some(UpdateAction::Respond(r)) && r@ == not_found()),
        registry@.dom().contains(name@) ==> match event {
            UpdateEvent::Received => {
                let fields = registry@[name@].spec.fields@;
                &&& (action is Some <==> patterns_compile(fields, *data))
                &&& (patterns_compile(fields, *data) && update_errors(fields, *data).len() == 0
                    ==> (action matches Some(UpdateAction::Update)))
                &&& (patterns_compile(fields, *data) && update_errors(fields, *data).len() != 0
                    ==> (action matches Some(UpdateAction::Respond(r))
                        && r@ == (400u16, BodyView::Errors(update_errors(fields, *data)))))
            },
            UpdateEvent::Updated(Ok(())) =>
                action matches Some(UpdateAction::Respond(r)) && r@ == (200u16, BodyView::Text("Registro actualizado correctamente"@)),
            UpdateEvent::Updated(Err(_)) =>
                action matches Some(UpdateAction::Respond(r)) && r@ == (500u16, BodyView::Text("Error al actualizar"@)),
        },
{
    let module = match registry.get_module(name) {
        Some(m) => m,
        None => return Some(UpdateAction::Respond(not_found_reply())),
    };
    match event {
        UpdateEvent::Received => {
            if !patterns_compile_for(&module.spec.fields, data) {
                return None;
            }
            match validate_update(module, data) {
                Ok(()) => Some(UpdateAction::Update),
                Err(errors) => Some(UpdateAction::Respond(Reply { status: 400, body: ReplyBody::Errors(errors) })),
            }
        },
        UpdateEvent::Updated(Ok(())) => Some(UpdateAction::Respond(text_reply(200, "Registro actualizado correctamente"))),
        UpdateEvent::Updated(Err(_)) => Some(UpdateAction::Respond(text_reply(500, "Error al actualizar"))),
    }
}

/// The reply to a request whose module is missing; nothing when it is there
/// and the storage work can go ahead.
pub fn lookup_reply(registry: &Registry, name: &str) -> (reply: Option<Reply>)
    ensures
        reply is None <==> registry@.dom().contains(name@),
        reply matches Some(r) ==> r@ == not_found(),
{
    match registry.get_module(name) {
        Some(_) => None,
        None => Some(not_found_reply()),
    }
}

/// The reply once the storage has done `op`: the listed rows or no content
/// on success, a fixed server error otherwise.
pub fn storage_reply(op: StorageOp, outcome: Result<(), String>) -> (reply: Reply)
    ensures
        op == StorageOp::List && outcome is Ok ==> reply@ == (200u16, BodyView::Payload),
        op == StorageOp::List && outcome is Err ==> reply@ == (500u16, BodyView::Text("Error al recuperar datos"@)),
        op == StorageOp::Delete && outcome is Ok ==> reply@ == (204u16, BodyView::Empty),
        op == StorageOp::Delete && outcome is Err ==> reply@ == (500u16, BodyView::Text("Error al borrar"@)),
{
    match (op, outcome) {
        (StorageOp::List, Ok(())) => Reply { status: 200, body: ReplyBody::Payload },
        (StorageOp::List, Err(_)) => text_reply(500, "Error al recuperar datos"),
        (StorageOp::Delete, Ok(())) => Reply { status: 204, body: ReplyBody::Empty },
        (StorageOp::Delete, Err(_)) => text_reply(500, "Error al borrar"),
    }
}

} // verus!
