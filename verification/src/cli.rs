//! The command surface and the dispatcher that routes an invocation to one
//! of the API operations.

use vstd::prelude::*;
use crate::errors::ClientError;
use crate::refs::{resolve_references, resolved_refs_spec};
use crate::strutil::{spec_starts_with, starts_with};

verus! {

/// A parsed command line: the one subcommand to run.
pub struct Cli {
    pub command: Commands,
}

impl Cli {
    /// Plans the whole invocation: the operation its subcommand asks for.
    pub fn plan(self, file_contents: &Option<String>) -> (r: Result<Operation, ClientError>)
        ensures
            plan_spec_holds(self.command, file_contents.deep_view(), r),
    {
        plan_command(self.command, file_contents)
    }
}

/// The subcommands the client offers.
pub enum Commands {
    /// Fetch a resource by ID, detecting the kind from its prefix.
    Get { id: String },
    /// Fetch the evaluation outcome for a transformation.
    Eval { transformation_id: String },
    /// Fetch transformations by reference IDs gathered from arguments
    /// and/or a newline-delimited file.
    GetRef { references: Vec<String>, file: Option<String>, jsonl: bool },
    /// Event operations named explicitly.
    Events { action: EventsAction },
    /// Transformation operations named explicitly.
    Transformations { action: TransformationsAction },
}

pub enum EventsAction {
    /// Fetch one event by ID.
    Get { id: String },
}

pub enum TransformationsAction {
    /// Fetch one transformation by ID.
    Get { id: String },
}

/// The resource kind an identifier routes to by its prefix.
#[derive(Debug, PartialEq, Eq)]
pub enum Route {
    Event,
    Transformation,
}

/// One fully decided API operation, ready to be turned into a request.
#[derive(Debug, PartialEq, Eq)]
pub enum Operation {
    Event { id: String },
    Transformation { id: String },
    Eval { id: String },
    ByReference { refs: Vec<String>, jsonl: bool },
}

/// Routes an identifier by its prefix: `evt_` to events, `tr_` to
/// transformations; anything else is rejected before any request.
pub fn dispatch(id: &str) -> (r: Result<Route, ClientError>)
    ensures
        spec_starts_with(id@, "evt_"@) ==> r == Ok::<Route, ClientError>(Route::Event),
        !spec_starts_with(id@, "evt_"@) && spec_starts_with(id@, "tr_"@) ==> r == Ok::<
            Route,
            ClientError,
        >(Route::Transformation),
        !spec_starts_with(id@, "evt_"@) && !spec_starts_with(id@, "tr_"@) ==> r == Err::<
            Route,
            ClientError,
        >(ClientError::UnknownPrefix),
{
    if starts_with(id, "evt_") {
        Ok(Route::Event)
    } else if starts_with(id, "tr_") {
        Ok(Route::Transformation)
    } else {
        Err(ClientError::UnknownPrefix)
    }
}

/// What planning a subcommand must yield, given the contents of the
/// references file when one was named: prefix detection applies only to
/// `Get`, the explicit subcommands bypass it, and `GetRef` resolves its
/// reference set or fails when it is empty.
pub open spec fn plan_spec_holds(
    cmd: Commands,
    contents: Option<Seq<char>>,
    r: Result<Operation, ClientError>,
) -> bool {
    &&& cmd matches Commands::Get { id } ==> {
        if spec_starts_with(id@, "evt_"@) {
            r matches Ok(op) && op matches Operation::Event { id: e } && e@ == id@
        } else if spec_starts_with(id@, "tr_"@) {
            r matches Ok(op) && op matches Operation::Transformation { id: t } && t@ == id@
        } else {
            r == Err::<Operation, ClientError>(ClientError::UnknownPrefix)
        }
    }
    &&& cmd matches Commands::Eval { transformation_id } ==> (r matches Ok(op) && op matches
        Operation::Eval { id } && id@ == transformation_id@)
    &&& cmd matches Commands::Events { action: EventsAction::Get { id } } ==> (r matches Ok(op)
        && op matches Operation::Event { id: e } && e@ == id@)
    &&& cmd matches Commands::Transformations { action: TransformationsAction::Get { id } }
        ==> (r matches Ok(op) && op matches Operation::Transformation { id: t } && t@ == id@)
    &&& cmd matches Commands::GetRef { references, file, jsonl } ==> {
        let rr = resolved_refs_spec(references.deep_view(), contents);
        &&& rr.len() > 0 ==> (r matches Ok(op) && op matches Operation::ByReference {
            refs,
            jsonl: j,
        } && refs.deep_view() == rr && j == jsonl)
        &&& rr.len() == 0 ==> r == Err::<Operation, ClientError>(
            ClientError::NoReferencesProvided,
        )
    }
}

/// Turns a subcommand into the operation it asks for. For `GetRef`,
/// `file_contents` must hold the contents of the named file when one was
/// given, and the reference set is resolved here.
pub fn plan_command(cmd: Commands, file_contents: &Option<String>) -> (r: Result<
    Operation,
    ClientError,
>)
    ensures
        plan_spec_holds(cmd, file_contents.deep_view(), r),
{
    match cmd {
        Commands::Get { id } => {
            match dispatch(id.as_str()) {
                Ok(Route::Event) => Ok(Operation::Event { id }),
                Ok(Route::Transformation) => Ok(Operation::Transformation { id }),
                Err(e) => Err(e),
            }
        },
        Commands::Eval { transformation_id } => Ok(Operation::Eval { id: transformation_id }),
        Commands::Events { action: EventsAction::Get { id } } => Ok(Operation::Event { id }),
        Commands::Transformations { action: TransformationsAction::Get { id } } => Ok(
            Operation::Transformation { id },
        ),
        Commands::GetRef { references, file: _, jsonl } => {
            match resolve_references(&references, file_contents) {
                Ok(refs) => Ok(Operation::ByReference { refs, jsonl }),
                Err(e) => Err(e),
            }
        },
    }
}

} // verus!
