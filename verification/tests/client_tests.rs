use bem::cli::Operation;
use bem::client::{classify_eval, eval_report, event_report, handle_response,
    reference_report, transformation_report, EvalOutcome};
use bem::errors::ClientError;

#[test]
fn non_2xx_is_api_error_with_raw_body() {
    let r = event_report(404, "{\"error\":\"x\"}");
    let e = r.unwrap_err();
    assert_eq!(
        e,
        ClientError::ApiError { status: 404, body: "{\"error\":\"x\"}".to_string() }
    );
    assert_eq!(
        e.message(),
        "API request failed with status 404: {\"error\":\"x\"}"
    );
}

#[test]
fn non_2xx_wins_for_every_endpoint() {
    let refs = vec!["r".to_string()];
    let e = ClientError::ApiError { status: 500, body: "boom".to_string() };
    assert_eq!(transformation_report(500, "boom", "tr_1"), Err(e.clone()));
    assert_eq!(reference_report(500, "boom", &refs, false), Err(e.clone()));
    assert_eq!(eval_report(500, "boom", "tr_1"), Err(e));
}

#[test]
fn event_success_pretty_prints_whole_body() {
    let r = event_report(200, "{\"id\":\"evt_1\",\"n\":2}").unwrap();
    assert_eq!(r.len(), 1);
    assert_eq!(r[0], "{\n  \"id\": \"evt_1\",\n  \"n\": 2\n}");
}

#[test]
fn event_invalid_json_is_malformed() {
    assert_eq!(event_report(200, "nope"), Err(ClientError::MalformedResponse));
}

#[test]
fn direct_lookup_takes_first_element() {
    let body = "{\"transformations\":[{\"id\":\"tr_1\"},{\"id\":\"tr_2\"}]}";
    let r = transformation_report(200, body, "tr_1").unwrap();
    assert_eq!(r, vec!["{\n  \"id\": \"tr_1\"\n}".to_string()]);
}

#[test]
fn empty_transformations_is_not_found_naming_id() {
    let body = "{\"transformations\":[]}";
    let r = transformation_report(200, body, "tr_77");
    assert_eq!(r, Err(ClientError::NotFound("tr_77".to_string())));
}

#[test]
fn missing_transformations_array_is_not_found() {
    let r = transformation_report(200, "{}", "tr_77");
    assert_eq!(r, Err(ClientError::NotFound("tr_77".to_string())));
}

#[test]
fn transformations_invalid_json_is_malformed() {
    assert_eq!(
        transformation_report(200, "{", "tr_1"),
        Err(ClientError::MalformedResponse)
    );
}

#[test]
fn reference_lookup_returns_entire_list() {
    let body = "{\"transformations\":[{\"a\":1},{\"b\":2}]}";
    let refs = vec!["r1".to_string()];
    let jsonl = reference_report(200, body, &refs, true).unwrap();
    assert_eq!(jsonl.len(), 2);
    for line in &jsonl {
        let v: serde_json::Value = serde_json::from_str(line).unwrap();
        assert_eq!(serde_json::to_string(&v).unwrap(), *line);
    }
    assert_eq!(jsonl, vec!["{\"a\":1}".to_string(), "{\"b\":2}".to_string()]);

    let single = reference_report(200, body, &refs, false).unwrap();
    assert_eq!(single.len(), 1);
    assert_eq!(single[0], "[{\"a\":1},{\"b\":2}]");
    let arr: serde_json::Value = serde_json::from_str(&single[0]).unwrap();
    assert_eq!(arr.as_array().unwrap().len(), 2);
}

#[test]
fn reference_lookup_not_found_names_joined_refs() {
    let refs = vec!["r1".to_string(), "r2".to_string()];
    let r = reference_report(200, "{\"transformations\":[]}", &refs, false);
    assert_eq!(r, Err(ClientError::NotFound("r1,r2".to_string())));
}

#[test]
fn completed_wins_over_pending() {
    let body = "{\"results\":{\"tr_1\":{\"score\":2}},\"pending\":[{\"transformationId\":\"tr_1\"}]}";
    let r = classify_eval(body, "tr_1").unwrap();
    assert_eq!(r, EvalOutcome::Completed("{\n  \"score\": 2\n}".to_string()));
}

#[test]
fn pending_when_no_result() {
    let body = "{\"results\":{},\"pending\":[{\"transformationId\":\"tr_9\"}]}";
    assert_eq!(classify_eval(body, "tr_9"), Ok(EvalOutcome::Pending));
    assert_eq!(
        eval_report(200, body, "tr_9"),
        Err(ClientError::Pending("tr_9".to_string()))
    );
}

#[test]
fn failed_carries_message() {
    let body = "{\"failed\":[{\"transformationId\":\"tr_3\",\"errorMessage\":\"bad input\"}]}";
    assert_eq!(
        classify_eval(body, "tr_3"),
        Ok(EvalOutcome::Failed("bad input".to_string()))
    );
    assert_eq!(
        eval_report(200, body, "tr_3"),
        Err(ClientError::Failed { id: "tr_3".to_string(), message: "bad input".to_string() })
    );
}

#[test]
fn failed_without_message_gets_generic_text() {
    let body = "{\"failed\":[{\"transformationId\":\"tr_3\"}]}";
    assert_eq!(
        classify_eval(body, "tr_3"),
        Ok(EvalOutcome::Failed("unknown error".to_string()))
    );
}

#[test]
fn eval_not_found_when_absent_everywhere() {
    let body = "{\"results\":{},\"pending\":[],\"failed\":[]}";
    assert_eq!(classify_eval(body, "tr_0"), Ok(EvalOutcome::NotFound));
    assert_eq!(
        eval_report(200, body, "tr_0"),
        Err(ClientError::NotFound("tr_0".to_string()))
    );
}

#[test]
fn eval_invalid_json_is_malformed() {
    assert_eq!(classify_eval("{{", "tr_0"), Err(ClientError::MalformedResponse));
}

#[test]
fn handle_response_routes_by_operation() {
    let ev = Operation::Event { id: "evt_1".to_string() };
    assert_eq!(
        handle_response(&ev, 200, "{\"k\":1}").unwrap(),
        vec!["{\n  \"k\": 1\n}".to_string()]
    );
    let tr = Operation::Transformation { id: "tr_1".to_string() };
    assert_eq!(
        handle_response(&tr, 200, "{\"transformations\":[{\"k\":1}]}").unwrap(),
        vec!["{\n  \"k\": 1\n}".to_string()]
    );
    let by = Operation::ByReference { refs: vec!["r".to_string()], jsonl: true };
    assert_eq!(
        handle_response(&by, 200, "{\"transformations\":[{\"k\":1}]}").unwrap(),
        vec!["{\"k\":1}".to_string()]
    );
    let ev_missing = Operation::Eval { id: "tr_1".to_string() };
    assert_eq!(
        handle_response(&ev_missing, 200, "{}"),
        Err(ClientError::NotFound("tr_1".to_string()))
    );
}

#[test]
fn error_messages_match_surface_text() {
    assert_eq!(
        ClientError::UnknownPrefix.message(),
        "Unknown ID prefix. Expected 'evt_' for events or 'tr_' for transformations"
    );
    assert_eq!(ClientError::MalformedResponse.message(), "Failed to parse JSON response");
    assert_eq!(
        ClientError::Pending("tr_1".to_string()).message(),
        "Evaluation is still pending for transformation: tr_1"
    );
    assert_eq!(
        ClientError::Failed { id: "tr_1".to_string(), message: "m".to_string() }.message(),
        "Evaluation failed for transformation tr_1: m"
    );
    assert_eq!(
        ClientError::NoReferencesProvided.message(),
        "No reference IDs provided. Supply positional references or use --file."
    );
}
