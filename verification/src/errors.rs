use vstd::prelude::*;
use vstd::string::*;
use crate::strutil::{dec_spec, u16_to_dec};

verus! {

/// Every way a client invocation can fail. Each variant carries the
/// context a caller needs to report the failure: the identifier involved,
/// the HTTP status and body, or the path that could not be read.
#[derive(Debug, Clone, PartialEq, Eq)]
pub enum ClientError {
    /// No API token in the environment nor in the fallback dotfile.
    MissingCredential,
    /// An identifier whose prefix names no known resource kind.
    UnknownPrefix,
    /// The request could not be sent at all; carries the transport's message.
    TransportError(String),
    /// A non-2xx response; carries the status and the raw response body.
    ApiError { status: u16, body: String },
    /// A 2xx response whose body is not valid JSON.
    MalformedResponse,
    /// A well-formed response with no matching resource; names what was asked for.
    NotFound(String),
    /// The evaluation for the named transformation is still pending.
    Pending(String),
    /// The evaluation for the named transformation failed; carries its message.
    Failed { id: String, message: String },
    /// A references file could not be read; names the path.
    FileReadError(String),
    /// Neither positional references nor a file yielded any reference.
    NoReferencesProvided,
    /// A payload could not be re-serialized.
    FormatError,
}

/// The human-readable text each failure surfaces.
pub open spec fn message_spec(e: ClientError) -> Seq<char> {
    match e {
        ClientError::MissingCredential => "BEM_API_TOKEN not found in environment and ~/.bemrc does not exist or does not contain BEM_API_TOKEN. Please set BEM_API_TOKEN environment variable or create ~/.bemrc with BEM_API_TOKEN=<token>"@,
        ClientError::UnknownPrefix => "Unknown ID prefix. Expected 'evt_' for events or 'tr_' for transformations"@,
        ClientError::TransportError(m) => "Failed to send request to bem.ai API: "@ + m@,
        ClientError::ApiError { status, body } => "API request failed with status "@ + dec_spec(
            status as int,
        ) + ": "@ + body@,
        ClientError::MalformedResponse => "Failed to parse JSON response"@,
        ClientError::NotFound(w) => "No results found for: "@ + w@,
        ClientError::Pending(id) => "Evaluation is still pending for transformation: "@ + id@,
        ClientError::Failed { id, message } => "Evaluation failed for transformation "@ + id@
            + ": "@ + message@,
        ClientError::FileReadError(p) => "Failed to read references file "@ + p@,
        ClientError::NoReferencesProvided => "No reference IDs provided. Supply positional references or use --file."@,
        ClientError::FormatError => "Failed to format JSON"@,
    }
}

impl ClientError {
    /// The text of the failure, for the caller to surface on its way out.
    pub fn message(&self) -> (r: String)
        ensures
            r@ == message_spec(*self),
    {
        match self {
            ClientError::MissingCredential => String::from_str(
                "BEM_API_TOKEN not found in environment and ~/.bemrc does not exist or does not contain BEM_API_TOKEN. Please set BEM_API_TOKEN environment variable or create ~/.bemrc with BEM_API_TOKEN=<token>",
            ),
            ClientError::UnknownPrefix => String::from_str(
                "Unknown ID prefix. Expected 'evt_' for events or 'tr_' for transformations",
            ),
            ClientError::TransportError(m) => {
                let mut s = String::from_str("Failed to send request to bem.ai API: ");
                s.append(m.as_str());
                s
            },
            ClientError::ApiError { status, body } => {
                let mut s = String::from_str("API request failed with status ");
                let d = u16_to_dec(*status);
                s.append(d.as_str());
                s.append(": ");
                s.append(body.as_str());
                proof {
                    assert(s@ =~= message_spec(*self));
                }
                s
            },
            ClientError::MalformedResponse => String::from_str("Failed to parse JSON response"),
            ClientError::NotFound(w) => {
                let mut s = String::from_str("No results found for: ");
                s.append(w.as_str());
                s
            },
            ClientError::Pending(id) => {
                let mut s = String::from_str(
                    "Evaluation is still pending for transformation: ",
                );
                s.append(id.as_str());
                s
            },
            ClientError::Failed { id, message } => {
                let mut s = String::from_str("Evaluation failed for transformation ");
                s.append(id.as_str());
                s.append(": ");
                s.append(message.as_str());
                proof {
                    assert(s@ =~= message_spec(*self));
                }
                s
            },
            ClientError::FileReadError(p) => {
                let mut s = String::from_str("Failed to read references file ");
                s.append(p.as_str());
                s
            },
            ClientError::NoReferencesProvided => String::from_str(
                "No reference IDs provided. Supply positional references or use --file.",
            ),
            ClientError::FormatError => String::from_str("Failed to format JSON"),
        }
    }
}

} // verus!
