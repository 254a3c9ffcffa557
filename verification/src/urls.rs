//! Request URLs for each operation. The endpoint templates are fixed;
//! only the identifier or the comma-joined reference set varies.

use vstd::prelude::*;
use vstd::string::*;
use crate::cli::Operation;
use crate::strutil::{join_commas, join_commas_spec};

verus! {

/// The exact URL the operation's single GET request goes to.
pub fn request_url(op: &Operation) -> (r: String)
    ensures
        op matches Operation::Event { id } ==> r@ == "https://api.bem.ai/v1-alpha/events/"@
            + id@,
        op matches Operation::Transformation { id } ==> r@
            == "https://api.bem.ai/v1-beta/transformations?transformationIDs="@ + id@,
        op matches Operation::Eval { id } ==> r@
            == "https://api.bem.ai/v1-beta/transformations/eval/results?transformationIDs="@
            + id@,
        op matches Operation::ByReference { refs, .. } ==> r@
            == "https://api.bem.ai/v1-beta/transformations?referenceIDs="@ + join_commas_spec(
            refs.deep_view(),
        ),
{
    match op {
        Operation::Event { id } => {
            let mut u = String::from_str("https://api.bem.ai/v1-alpha/events/");
            u.append(id.as_str());
            u
        },
        Operation::Transformation { id } => {
            let mut u = String::from_str(
                "https://api.bem.ai/v1-beta/transformations?transformationIDs=",
            );
            u.append(id.as_str());
            u
        },
        Operation::Eval { id } => {
            let mut u = String::from_str(
                "https://api.bem.ai/v1-beta/transformations/eval/results?transformationIDs=",
            );
            u.append(id.as_str());
            u
        },
        Operation::ByReference { refs, jsonl: _ } => {
            let joined = join_commas(refs);
            let mut u = String::from_str(
                "https://api.bem.ai/v1-beta/transformations?referenceIDs=",
            );
            u.append(joined.as_str());
            u
        },
    }
}

/// The header name the credential travels under.
pub fn auth_header_name() -> (r: String)
    ensures
        r@ == "x-api-key"@,
{
    String::from_str("x-api-key")
}

} // verus!
