//! Slash commands: their descriptions, the checks before one runs, and the
//! payload that is recorded with its event.
use vstd::prelude::*;

use crate::http::{is_error, ApiError};
use crate::messages::opt_view;
use crate::text::{str_eq, to_owned_string};
use crate::time::Timestamp;

verus! {

/// An argument of a command.
#[derive(Debug, Clone)]
pub struct CommandArg {
    pub name: String,
    pub required: bool,
    pub completions_endpoint: Option<String>,
}

/// A command as the registry describes it.
#[derive(Debug, Clone)]
pub struct CommandDef {
    pub name: String,
    pub description: String,
    pub category: String,
    pub args: Vec<CommandArg>,
}

/// An argument of a command, as the API returns it.
#[derive(Debug, Clone)]
pub struct CommandArgResponse {
    pub name: String,
    pub required: bool,
    pub completions_endpoint: Option<String>,
}

/// A command, as the API returns it.
#[derive(Debug, Clone)]
pub struct CommandDefResponse {
    pub name: String,
    pub description: String,
    pub category: String,
    pub args: Vec<CommandArgResponse>,
}

impl CommandDefResponse {
    /// The API form of a command: every field and argument as it is.
    pub fn from_def(def: &CommandDef) -> (r: CommandDefResponse)
        ensures
            r.name@ == def.name@ && r.description@ == def.description@ && r.category@
                == def.category@,
            r.args.len() == def.args.len(),
            forall|i: int|
                0 <= i < def.args.len() ==> {
                    let a = #[trigger] r.args[i];
                    &&& a.name@ == def.args[i].name@
                    &&& a.required == def.args[i].required
                    &&& opt_view(a.completions_endpoint) == opt_view(
                        def.args[i].completions_endpoint,
                    )
                },
    {
        let mut args: Vec<CommandArgResponse> = Vec::new();
        let mut i: usize = 0;
        while i < def.args.len()
            invariant
                i <= def.args.len(),
                args.len() == i,
                forall|k: int|
                    0 <= k < i ==> {
                        let a = #[trigger] args[k];
                        &&& a.name@ == def.args[k].name@
                        &&& a.required == def.args[k].required
                        &&& opt_view(a.completions_endpoint) == opt_view(
                            def.args[k].completions_endpoint,
                        )
                    },
            decreases def.args.len() - i,
        {
            let a = &def.args[i];
            let endpoint = match &a.completions_endpoint {
                Some(e) => Some(e.clone()),
                None => None,
            };
            args.push(
                CommandArgResponse {
                    name: a.name.clone(),
                    required: a.required,
                    completions_endpoint: endpoint,
                },
            );
            i = i + 1;
        }
        CommandDefResponse {
            name: def.name.clone(),
            description: def.description.clone(),
            category: def.category.clone(),
            args,
        }
    }
}

/// Body of `POST /api/conversations/{id}/commands`.
#[derive(Debug, Clone)]
pub struct ExecuteCommandRequest {
    pub command: String,
    pub args: Vec<String>,
}

/// A command not in the registry: `400` naming it.
pub fn unknown_command(command: &str) -> (e: ApiError)
    ensures
        e.status == 400 && !e.json && e.message@ == "Unknown command: "@ + command@,
{
    let mut m = to_owned_string("Unknown command: ");
    m.append(command);
    ApiError { status: 400, message: m, json: false }
}

/// What is recorded with a command event.
#[derive(Debug, Clone)]
pub enum CommandPayload {
    /// `{"model_name": ...}`: the arguments of `model`, joined by spaces.
    ModelName(String),
    /// `{"args": [...]}`: the arguments of any other command.
    Args(Vec<String>),
    /// No arguments: nothing is recorded.
    Nothing,
}

/// `items` joined by single spaces.
pub open spec fn joined_by_space(items: Seq<String>) -> Seq<char>
    decreases items.len(),
{
    if items.len() == 0 {
        Seq::empty()
    } else if items.len() == 1 {
        items[0]@
    } else {
        joined_by_space(items.drop_last()) + " "@ + items.last()@
    }
}

/// The payload of a command event: `model` with arguments records the
/// model name (its arguments joined by spaces), any other command with
/// arguments records them, and no arguments records nothing.
pub fn command_payload(body: &ExecuteCommandRequest) -> (r: CommandPayload)
    ensures
        body.args.len() == 0 ==> r is Nothing,
        body.args.len() > 0 && body.command@ == "model"@ ==> r is ModelName && r->ModelName_0@
            == joined_by_space(body.args@),
        body.args.len() > 0 && body.command@ != "model"@ ==> r is Args && r->Args_0@
            == body.args@,
{
    if body.args.len() == 0 {
        return CommandPayload::Nothing;
    }
    if str_eq(body.command.as_str(), "model") {
        let mut s = String::new();
        let mut i: usize = 0;
        while i < body.args.len()
            invariant
                i <= body.args.len(),
                s@ == joined_by_space(body.args@.take(i as int)),
            decreases body.args.len() - i,
        {
            if i > 0 {
                s.append(" ");
            }
            s.append(body.args[i].as_str());
            proof {
                let t = body.args@.take(i + 1);
                assert(t.drop_last() =~= body.args@.take(i as int));
                assert(t.last() == body.args@[i as int]);
                if i == 0 {
                    assert(body.args@.take(0) =~= Seq::<String>::empty());
                    assert(s@ =~= joined_by_space(t));
                }
            }
            i = i + 1;
        }
        assert(body.args@.take(body.args.len() as int) =~= body.args@);
        CommandPayload::ModelName(s)
    } else {
        let mut args: Vec<String> = Vec::new();
        let mut i: usize = 0;
        while i < body.args.len()
            invariant
                i <= body.args.len(),
                args@ == body.args@.take(i as int),
            decreases body.args.len() - i,
        {
            args.push(body.args[i].clone());
            assert(args@ =~= body.args@.take(i + 1));
            i = i + 1;
        }
        assert(body.args@.take(body.args.len() as int) =~= body.args@);
        CommandPayload::Args(args)
    }
}

/// A recorded command event, as the API returns it.
#[derive(Debug)]
pub struct CommandEventResponse {
    pub id: u128,
    pub event_type: String,
    pub command: String,
    pub payload: Option<serde_json::Value>,
    pub ack_text: Option<String>,
    pub created_at: Timestamp,
}

} // verus!
