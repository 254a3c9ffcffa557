//! Gathering reference identifiers from positional arguments and the
//! contents of an optional references file.

use vstd::prelude::*;
use vstd::string::*;
use crate::errors::ClientError;
use crate::strutil::{split_lines, split_lines_spec, trim, trim_spec};

verus! {

/// Each item trimmed, with items that trim to nothing dropped; the
/// surviving items keep their encounter order.
pub open spec fn clean_spec(items: Seq<Seq<char>>) -> Seq<Seq<char>>
    decreases items.len(),
{
    if items.len() == 0 {
        Seq::empty()
    } else {
        let rest = clean_spec(items.drop_last());
        let t = trim_spec(items.last());
        if t.len() > 0 {
            rest.push(t)
        } else {
            rest
        }
    }
}

/// Trims every item and drops the empties, exact against `clean_spec`.
pub fn clean_references(items: &Vec<String>) -> (r: Vec<String>)
    ensures
        r.deep_view() == clean_spec(items.deep_view()),
{
    let mut out: Vec<String> = Vec::new();
    let mut i: usize = 0;
    proof {
        assert(items.deep_view().subrange(0, 0) =~= Seq::<Seq<char>>::empty());
        assert(out.deep_view() =~= Seq::<Seq<char>>::empty());
    }
    while i < items.len()
        invariant
            i <= items.len(),
            items.deep_view().len() == items.len(),
            out.deep_view() == clean_spec(items.deep_view().subrange(0, i as int)),
        decreases items.len() - i,
    {
        proof {
            assert(items.deep_view().subrange(0, i as int + 1).drop_last() =~= items.deep_view()
                .subrange(0, i as int));
            assert(items.deep_view().subrange(0, i as int + 1).last() == items.deep_view()[
                i as int
            ]);
        }
        let t = trim(items[i].as_str());
        if !t.as_str().is_empty() {
            out.push(t);
            proof {
                assert(out.deep_view() =~= out.deep_view().drop_last().push(
                    trim_spec(items.deep_view()[i as int]),
                ));
            }
        }
        i += 1;
    }
    proof {
        assert(items.deep_view().subrange(0, items.len() as int) =~= items.deep_view());
    }
    out
}

/// The reference set: cleaned positional items, then the cleaned lines of
/// the file contents, in that order.
pub open spec fn resolved_refs_spec(pos: Seq<Seq<char>>, file: Option<Seq<char>>) -> Seq<
    Seq<char>,
> {
    match file {
        Some(c) => clean_spec(pos) + clean_spec(split_lines_spec(c)),
        None => clean_spec(pos),
    }
}

/// Builds the reference set from positional arguments and, when a file was
/// given, its contents. Fails exactly when nothing non-empty was supplied.
pub fn resolve_references(positional: &Vec<String>, file_contents: &Option<String>) -> (r: Result<
    Vec<String>,
    ClientError,
>)
    ensures
        ({
            let rr = resolved_refs_spec(positional.deep_view(), file_contents.deep_view());
            &&& rr.len() > 0 ==> (r matches Ok(v) && v.deep_view() == rr)
            &&& rr.len() == 0 ==> r == Err::<Vec<String>, ClientError>(
                ClientError::NoReferencesProvided,
            )
        }),
{
    let mut collected = clean_references(positional);
    match file_contents {
        Some(contents) => {
            let lines = split_lines(contents.as_str());
            let mut extra = clean_references(&lines);
            collected.append(&mut extra);
        },
        None => {},
    }
    if collected.is_empty() {
        proof {
            assert(resolved_refs_spec(positional.deep_view(), file_contents.deep_view()).len()
                == 0);
        }
        Err(ClientError::NoReferencesProvided)
    } else {
        Ok(collected)
    }
}

} // verus!
