//! Classification of HTTP responses, applied uniformly to every endpoint:
//! a non-2xx status is an API error carrying the raw body; a 2xx body that
//! is not JSON is malformed; a 2xx body is then read per endpoint. The
//! caller performs the one GET request and hands the status and body here.

use vstd::prelude::*;
use vstd::string::*;
use crate::cli::Operation;
use crate::errors::ClientError;
use crate::json::{
    eval_failed_entry, eval_failed_lookup, eval_pending_has, eval_pending_lookup, eval_result_of,
    eval_result_lookup, json_valid, parse_ok, parse_transformation_list, pretty_json_of,
    to_pretty, transformation_list_of,
};
use crate::strutil::{join_commas, join_commas_spec};

verus! {

/// A 2xx status.
pub open spec fn is_success(status: u16) -> bool {
    200 <= status < 300
}

/// The outcome of one transformation's evaluation, read off the three
/// partitions of the evaluation response.
#[derive(Debug, PartialEq, Eq)]
pub enum EvalOutcome {
    /// The evaluation finished; carries the pretty text of its result.
    Completed(String),
    /// The evaluation has not finished yet.
    Pending,
    /// The evaluation failed; carries its error message.
    Failed(String),
    /// No partition mentions the transformation.
    NotFound,
}

/// The message a failed entry reports: its own text, or a generic one
/// when the entry carries none.
pub open spec fn failed_message_spec(m: Option<Seq<char>>) -> Seq<char> {
    match m {
        Some(t) => t,
        None => "unknown error"@,
    }
}

/// `r` is the API error for a non-2xx response: the status and the raw
/// body, kept verbatim.
pub open spec fn api_error_result(
    r: Result<Vec<String>, ClientError>,
    status: u16,
    body: Seq<char>,
) -> bool {
    &&& r matches Err(ClientError::ApiError { status: st, body: b }) && st == status && b@
        == body
}

/// What the event lookup reports for a given status and body: the pretty
/// rendering of the whole body, or the uniform error.
pub open spec fn event_report_spec(
    r: Result<Vec<String>, ClientError>,
    status: u16,
    body: Seq<char>,
) -> bool {
    if !is_success(status) {
        api_error_result(r, status, body)
    } else if !json_valid(body) {
        r == Err::<Vec<String>, ClientError>(ClientError::MalformedResponse)
    } else {
        match pretty_json_of(body) {
            Some(p) => r matches Ok(lines) && lines.deep_view() == seq![p],
            None => r == Err::<Vec<String>, ClientError>(ClientError::FormatError),
        }
    }
}

/// The event lookup's reading of a response: the whole body, pretty.
pub fn event_report(status: u16, body: &str) -> (r: Result<Vec<String>, ClientError>)
    ensures
        event_report_spec(r, status, body@),
{
    if status < 200 || status >= 300 {
        return Err(ClientError::ApiError { status, body: String::from_str(body) });
    }
    if !parse_ok(body) {
        return Err(ClientError::MalformedResponse);
    }
    match to_pretty(body) {
        Some(p) => {
            let lines = vec![p];
            proof {
                assert(lines.deep_view() =~= seq![pretty_json_of(body@)->Some_0]);
            }
            Ok(lines)
        },
        None => Err(ClientError::FormatError),
    }
}

/// What the direct-ID transformation lookup reports: the pretty text of
/// the first element of a non-empty `transformations` array; an empty or
/// absent array is `NotFound` naming the requested ID.
pub open spec fn transformation_report_spec(
    r: Result<Vec<String>, ClientError>,
    status: u16,
    body: Seq<char>,
    id: Seq<char>,
) -> bool {
    if !is_success(status) {
        api_error_result(r, status, body)
    } else {
        match transformation_list_of(body) {
            None => r == Err::<Vec<String>, ClientError>(ClientError::MalformedResponse),
            Some(l) => {
                if l.len() == 0 {
                    r matches Err(ClientError::NotFound(w)) && w@ == id
                } else {
                    match pretty_json_of(l[0]) {
                        Some(p) => r matches Ok(lines) && lines.deep_view() == seq![p],
                        None => r == Err::<Vec<String>, ClientError>(ClientError::FormatError),
                    }
                }
            },
        }
    }
}

/// The direct-ID transformation lookup's reading of a response.
pub fn transformation_report(status: u16, body: &str, id: &str) -> (r: Result<
    Vec<String>,
    ClientError,
>)
    ensures
        transformation_report_spec(r, status, body@, id@),
{
    if status < 200 || status >= 300 {
        return Err(ClientError::ApiError { status, body: String::from_str(body) });
    }
    match parse_transformation_list(body) {
        None => Err(ClientError::MalformedResponse),
        Some(list) => {
            if list.len() == 0 {
                Err(ClientError::NotFound(String::from_str(id)))
            } else {
                match to_pretty(list[0].as_str()) {
                    Some(p) => {
                        let lines = vec![p];
                        proof {
                            assert(list.deep_view()[0] == list@[0]@);
                            assert(lines.deep_view() =~= seq![
                                pretty_json_of(transformation_list_of(body@)->Some_0[0])->Some_0,
                            ]);
                        }
                        Ok(lines)
                    },
                    None => Err(ClientError::FormatError),
                }
            }
        },
    }
}

/// What the reference-set lookup reports: every element of a non-empty
/// `transformations` array, one output line per element in JSON-Lines
/// mode, else a single line holding the compact array of all of them; an
/// empty or absent array is `NotFound` naming the joined reference set.
pub open spec fn reference_report_spec(
    r: Result<Vec<String>, ClientError>,
    status: u16,
    body: Seq<char>,
    refs: Seq<Seq<char>>,
    jsonl: bool,
) -> bool {
    if !is_success(status) {
        api_error_result(r, status, body)
    } else {
        match transformation_list_of(body) {
            None => r == Err::<Vec<String>, ClientError>(ClientError::MalformedResponse),
            Some(l) => {
                if l.len() == 0 {
                    r matches Err(ClientError::NotFound(w)) && w@ == join_commas_spec(refs)
                } else if jsonl {
                    r matches Ok(lines) && lines.deep_view() == l
                } else {
                    r matches Ok(lines) && lines.deep_view() == seq![
                        seq!['['] + join_commas_spec(l) + seq![']'],
                    ]
                }
            },
        }
    }
}

/// The reference-set lookup's reading of a response.
pub fn reference_report(status: u16, body: &str, refs: &Vec<String>, jsonl: bool) -> (r: Result<
    Vec<String>,
    ClientError,
>)
    ensures
        reference_report_spec(r, status, body@, refs.deep_view(), jsonl),
{
    if status < 200 || status >= 300 {
        return Err(ClientError::ApiError { status, body: String::from_str(body) });
    }
    match parse_transformation_list(body) {
        None => Err(ClientError::MalformedResponse),
        Some(list) => {
            if list.len() == 0 {
                Err(ClientError::NotFound(join_commas(refs)))
            } else if jsonl {
                Ok(list)
            } else {
                let mut line = String::from_str("[");
                let joined = join_commas(&list);
                line.append(joined.as_str());
                line.append("]");
                proof {
                    reveal_strlit("[");
                    reveal_strlit("]");
                    assert("["@ =~= seq!['[']);
                    assert("]"@ =~= seq![']']);
                }
                let lines = vec![line];
                proof {
                    assert(lines.deep_view() =~= seq![
                        seq!['['] + join_commas_spec(transformation_list_of(body@)->Some_0)
                            + seq![']'],
                    ]);
                }
                Ok(lines)
            }
        },
    }
}

/// Reads the evaluation outcome for `id` off the three partitions of a
/// parsed evaluation response, in their load-bearing precedence: a key in
/// `results` is `Completed` whatever the other partitions say; else an
/// entry in `pending` is `Pending`; else an entry in `failed` is `Failed`
/// with that entry's message; else `NotFound`.
pub fn classify_eval(body: &str, id: &str) -> (r: Result<EvalOutcome, ClientError>)
    ensures
        !json_valid(body@) ==> r == Err::<EvalOutcome, ClientError>(
            ClientError::MalformedResponse,
        ),
        json_valid(body@) ==> match eval_result_of(body@, id@) {
            Some(v) => r matches Ok(EvalOutcome::Completed(p)) && p@ == v,
            None => {
                if eval_pending_has(body@, id@) {
                    r == Ok::<EvalOutcome, ClientError>(EvalOutcome::Pending)
                } else {
                    match eval_failed_entry(body@, id@) {
                        Some(m) => r matches Ok(EvalOutcome::Failed(msg)) && msg@
                            == failed_message_spec(m),
                        None => r == Ok::<EvalOutcome, ClientError>(EvalOutcome::NotFound),
                    }
                }
            },
        },
{
    if !parse_ok(body) {
        return Err(ClientError::MalformedResponse);
    }
    match eval_result_lookup(body, id) {
        Some(p) => Ok(EvalOutcome::Completed(p)),
        None => {
            if eval_pending_lookup(body, id) {
                Ok(EvalOutcome::Pending)
            } else {
                match eval_failed_lookup(body, id) {
                    Some(Some(msg)) => Ok(EvalOutcome::Failed(msg)),
                    Some(None) => Ok(EvalOutcome::Failed(String::from_str("unknown error"))),
                    None => Ok(EvalOutcome::NotFound),
                }
            }
        },
    }
}

/// What the evaluation lookup reports: the completed result's pretty
/// text, or the outcome mapped to its error, naming the transformation.
pub open spec fn eval_report_spec(
    r: Result<Vec<String>, ClientError>,
    status: u16,
    body: Seq<char>,
    id: Seq<char>,
) -> bool {
    if !is_success(status) {
        api_error_result(r, status, body)
    } else if !json_valid(body) {
        r == Err::<Vec<String>, ClientError>(ClientError::MalformedResponse)
    } else {
        match eval_result_of(body, id) {
            Some(v) => r matches Ok(lines) && lines.deep_view() == seq![v],
            None => {
                if eval_pending_has(body, id) {
                    r matches Err(ClientError::Pending(p)) && p@ == id
                } else {
                    match eval_failed_entry(body, id) {
                        Some(m) => r matches Err(ClientError::Failed { id: i, message: msg })
                            && i@ == id && msg@ == failed_message_spec(m),
                        None => r matches Err(ClientError::NotFound(n)) && n@ == id,
                    }
                }
            },
        }
    }
}

/// The evaluation lookup's reading of a response. Only a completed
/// evaluation succeeds; pending, failed and absent outcomes are errors.
pub fn eval_report(status: u16, body: &str, id: &str) -> (r: Result<Vec<String>, ClientError>)
    ensures
        eval_report_spec(r, status, body@, id@),
{
    if status < 200 || status >= 300 {
        return Err(ClientError::ApiError { status, body: String::from_str(body) });
    }
    match classify_eval(body, id) {
        Err(e) => Err(e),
        Ok(EvalOutcome::Completed(p)) => {
            let lines = vec![p];
            proof {
                assert(lines.deep_view() =~= seq![eval_result_of(body@, id@)->Some_0]);
            }
            Ok(lines)
        },
        Ok(EvalOutcome::Pending) => Err(ClientError::Pending(String::from_str(id))),
        Ok(EvalOutcome::Failed(msg)) => Err(
            ClientError::Failed { id: String::from_str(id), message: msg },
        ),
        Ok(EvalOutcome::NotFound) => Err(ClientError::NotFound(String::from_str(id))),
    }
}

/// One response classification for every operation: hands the status and
/// body to the reader the operation calls for, and returns the output
/// lines to print, or the error to surface.
pub fn handle_response(op: &Operation, status: u16, body: &str) -> (r: Result<
    Vec<String>,
    ClientError,
>)
    ensures
        op matches Operation::Event { .. } ==> event_report_spec(r, status, body@),
        op matches Operation::Transformation { id } ==> transformation_report_spec(
            r,
            status,
            body@,
            id@,
        ),
        op matches Operation::Eval { id } ==> eval_report_spec(r, status, body@, id@),
        op matches Operation::ByReference { refs, jsonl } ==> reference_report_spec(
            r,
            status,
            body@,
            refs.deep_view(),
            *jsonl,
        ),
{
    match op {
        Operation::Event { id: _ } => event_report(status, body),
        Operation::Transformation { id } => transformation_report(status, body, id.as_str()),
        Operation::Eval { id } => eval_report(status, body, id.as_str()),
        Operation::ByReference { refs, jsonl } => reference_report(status, body, refs, *jsonl),
    }
}

} // verus!
