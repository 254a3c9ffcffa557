use bem::cli::{dispatch, plan_command, Cli, Commands, EventsAction, Operation, Route,
    TransformationsAction};
use bem::errors::ClientError;
use bem::urls::{auth_header_name, request_url};

#[test]
fn dispatch_event_prefix() {
    assert_eq!(dispatch("evt_123"), Ok(Route::Event));
    assert_eq!(dispatch("evt_"), Ok(Route::Event));
}

#[test]
fn dispatch_transformation_prefix() {
    assert_eq!(dispatch("tr_123"), Ok(Route::Transformation));
    assert_eq!(dispatch("tr_"), Ok(Route::Transformation));
}

#[test]
fn dispatch_unknown_prefix() {
    assert_eq!(dispatch("job_123"), Err(ClientError::UnknownPrefix));
    assert_eq!(dispatch(""), Err(ClientError::UnknownPrefix));
    assert_eq!(dispatch("evt"), Err(ClientError::UnknownPrefix));
    assert_eq!(dispatch("EVT_123"), Err(ClientError::UnknownPrefix));
}

#[test]
fn plan_get_routes_by_prefix() {
    let r = plan_command(Commands::Get { id: "evt_9".to_string() }, &None);
    assert_eq!(r, Ok(Operation::Event { id: "evt_9".to_string() }));
    let r = plan_command(Commands::Get { id: "tr_9".to_string() }, &None);
    assert_eq!(r, Ok(Operation::Transformation { id: "tr_9".to_string() }));
    let r = plan_command(Commands::Get { id: "x_9".to_string() }, &None);
    assert_eq!(r, Err(ClientError::UnknownPrefix));
}

#[test]
fn plan_explicit_subcommands_bypass_prefix() {
    let r = plan_command(
        Commands::Events { action: EventsAction::Get { id: "whatever".to_string() } },
        &None,
    );
    assert_eq!(r, Ok(Operation::Event { id: "whatever".to_string() }));
    let r = plan_command(
        Commands::Transformations {
            action: TransformationsAction::Get { id: "evt_shaped".to_string() },
        },
        &None,
    );
    assert_eq!(r, Ok(Operation::Transformation { id: "evt_shaped".to_string() }));
    let r = plan_command(Commands::Eval { transformation_id: "tr_5".to_string() }, &None);
    assert_eq!(r, Ok(Operation::Eval { id: "tr_5".to_string() }));
}

#[test]
fn plan_getref_resolves_references() {
    let cmd = Commands::GetRef {
        references: vec!["a".to_string(), " b ".to_string()],
        file: None,
        jsonl: false,
    };
    let r = plan_command(cmd, &None);
    assert_eq!(
        r,
        Ok(Operation::ByReference {
            refs: vec!["a".to_string(), "b".to_string()],
            jsonl: false,
        })
    );
}

#[test]
fn plan_getref_empty_fails() {
    let cmd = Commands::GetRef { references: vec![], file: None, jsonl: true };
    assert_eq!(plan_command(cmd, &None), Err(ClientError::NoReferencesProvided));
}

#[test]
fn cli_plan_combines_sources() {
    let cli = Cli {
        command: Commands::GetRef {
            references: vec!["p".to_string()],
            file: Some("refs.txt".to_string()),
            jsonl: true,
        },
    };
    let r = cli.plan(&Some("f1\nf2".to_string()));
    assert_eq!(
        r,
        Ok(Operation::ByReference {
            refs: vec!["p".to_string(), "f1".to_string(), "f2".to_string()],
            jsonl: true,
        })
    );
}

#[test]
fn url_for_event() {
    let u = request_url(&Operation::Event { id: "evt_1".to_string() });
    assert_eq!(u, "https://api.bem.ai/v1-alpha/events/evt_1");
}

#[test]
fn url_for_transformation() {
    let u = request_url(&Operation::Transformation { id: "tr_1".to_string() });
    assert_eq!(u, "https://api.bem.ai/v1-beta/transformations?transformationIDs=tr_1");
}

#[test]
fn url_for_eval() {
    let u = request_url(&Operation::Eval { id: "tr_2".to_string() });
    assert_eq!(
        u,
        "https://api.bem.ai/v1-beta/transformations/eval/results?transformationIDs=tr_2"
    );
}

#[test]
fn url_for_references_joins_with_commas() {
    let u = request_url(&Operation::ByReference {
        refs: vec!["r1".to_string(), "r2".to_string(), "r3".to_string()],
        jsonl: false,
    });
    assert_eq!(u, "https://api.bem.ai/v1-beta/transformations?referenceIDs=r1,r2,r3");
}

#[test]
fn auth_header() {
    assert_eq!(auth_header_name(), "x-api-key");
}
