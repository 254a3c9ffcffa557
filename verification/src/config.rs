//! Credential resolution from plain values: the environment variable's
//! value wins; otherwise the contents of the fallback dotfile are searched
//! for a `BEM_API_TOKEN=` line. The caller reads the environment and the
//! file and hands both here; nothing ambient is consulted or mutated.

use vstd::prelude::*;
use vstd::string::*;
use crate::errors::ClientError;
use crate::strutil::{spec_starts_with, split_lines, split_lines_spec, starts_with, trim,
    trim_spec};

verus! {

/// The token a single dotfile line yields: the trimmed text after
/// `BEM_API_TOKEN=` when the trimmed line starts with that key, else
/// nothing.
pub open spec fn line_token(line: Seq<char>) -> Option<Seq<char>> {
    let t = trim_spec(line);
    if spec_starts_with(t, "BEM_API_TOKEN="@) {
        Some(trim_spec(t.skip("BEM_API_TOKEN="@.len() as int)))
    } else {
        None
    }
}

/// The token of the first line that yields one, in line order.
pub open spec fn dotfile_token(lines: Seq<Seq<char>>) -> Option<Seq<char>>
    decreases lines.len(),
{
    if lines.len() == 0 {
        None
    } else if line_token(lines.first()) is Some {
        line_token(lines.first())
    } else {
        dotfile_token(lines.drop_first())
    }
}

/// The resolved credential: the environment value when set, else the
/// dotfile's token when its contents hold one.
pub open spec fn credential_spec(env: Option<Seq<char>>, rc: Option<Seq<char>>) -> Option<
    Seq<char>,
> {
    match env {
        Some(t) => Some(t),
        None => match rc {
            Some(c) => dotfile_token(split_lines_spec(c)),
            None => None,
        },
    }
}

proof fn lemma_dotfile_skip(lines: Seq<Seq<char>>, i: int)
    requires
        0 <= i <= lines.len(),
        forall|j: int| 0 <= j < i ==> line_token(#[trigger] lines[j]) is None,
    ensures
        dotfile_token(lines) == dotfile_token(lines.skip(i)),
    decreases i,
{
    if i > 0 {
        lemma_dotfile_skip(lines, i - 1);
        let rest = lines.skip(i - 1);
        assert(rest.first() == lines[i - 1]);
        assert(rest.drop_first() =~= lines.skip(i));
    } else {
        assert(lines.skip(0) =~= lines);
    }
}

/// Resolves the credential from the environment value and the dotfile
/// contents, exactly as `credential_spec` says; fails only when neither
/// source holds a token.
pub fn resolve_credential(env_token: &Option<String>, rc_contents: &Option<String>) -> (r: Result<
    String,
    ClientError,
>)
    ensures
        match credential_spec(env_token.deep_view(), rc_contents.deep_view()) {
            Some(t) => r matches Ok(tok) && tok@ == t,
            None => r == Err::<String, ClientError>(ClientError::MissingCredential),
        },
{
    match env_token {
        Some(t) => Ok(t.clone()),
        None => {
            match rc_contents {
                Some(contents) => {
                    let lines = split_lines(contents.as_str());
                    let mut i: usize = 0;
                    while i < lines.len()
                        invariant
                            i <= lines.len(),
                            lines.deep_view() == split_lines_spec(contents@),
                            credential_spec(env_token.deep_view(), rc_contents.deep_view())
                                == dotfile_token(split_lines_spec(contents@)),
                            forall|j: int| 0 <= j < i ==> line_token(
                                #[trigger] lines.deep_view()[j],
                            ) is None,
                        decreases lines.len() - i,
                    {
                        let t = trim(lines[i].as_str());
                        if starts_with(t.as_str(), "BEM_API_TOKEN=") {
                            let key_len: usize = "BEM_API_TOKEN=".unicode_len();
                            let t_str = t.as_str();
                            let tail = t_str.substring_char(key_len, t_str.unicode_len());
                            let token = trim(tail);
                            proof {
                                let lv = lines.deep_view();
                                assert(trim_spec(lv[i as int]).skip("BEM_API_TOKEN="@.len() as int)
                                    =~= t@.subrange(key_len as int, t@.len() as int));
                                assert(line_token(lv[i as int]) == Some(token@));
                                lemma_dotfile_skip(lv, i as int);
                                assert(lv.skip(i as int).first() == lv[i as int]);
                            }
                            return Ok(token);
                        }
                        proof {
                            assert(line_token(lines.deep_view()[i as int]) is None);
                        }
                        i += 1;
                    }
                    proof {
                        lemma_dotfile_skip(lines.deep_view(), lines.len() as int);
                        assert(lines.deep_view().skip(lines.len() as int) =~= Seq::<
                            Seq<char>,
                        >::empty());
                    }
                    Err(ClientError::MissingCredential)
                },
                None => Err(ClientError::MissingCredential),
            }
        },
    }
}

} // verus!
