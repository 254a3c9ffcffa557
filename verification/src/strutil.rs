//! Verified helpers over character sequences: prefix tests, whitespace
//! trimming, splitting into lines, and comma-joining.

use vstd::prelude::*;
use vstd::string::*;

verus! {

/// `p` is a prefix of `s`.
pub open spec fn spec_starts_with(s: Seq<char>, p: Seq<char>) -> bool {
    p.len() <= s.len() && s.subrange(0, p.len() as int) == p
}

/// Prefix test on string slices, exact against `spec_starts_with`.
pub fn starts_with(s: &str, p: &str) -> (r: bool)
    ensures
        r == spec_starts_with(s@, p@),
{
    let sl: usize = s.unicode_len();
    let pl: usize = p.unicode_len();
    if pl > sl {
        return false;
    }
    let mut i: usize = 0;
    while i < pl
        invariant
            pl <= sl,
            sl == s@.len(),
            pl == p@.len(),
            i <= pl,
            forall|j: int| 0 <= j < i ==> s@[j] == p@[j],
        decreases pl - i,
    {
        if s.get_char(i) != p.get_char(i) {
            assert(s@.subrange(0, pl as int)[i as int] != p@[i as int]);
            return false;
        }
        i += 1;
    }
    assert(s@.subrange(0, pl as int) =~= p@);
    true
}

/// The whitespace characters that trimming removes.
pub open spec fn is_ws(c: char) -> bool {
    c == ' ' || c == '\t' || c == '\r' || c == '\n'
}

/// `s` with leading whitespace removed.
pub open spec fn trim_start_spec(s: Seq<char>) -> Seq<char>
    decreases s.len(),
{
    if s.len() > 0 && is_ws(s[0]) {
        trim_start_spec(s.drop_first())
    } else {
        s
    }
}

/// `s` with trailing whitespace removed.
pub open spec fn trim_end_spec(s: Seq<char>) -> Seq<char>
    decreases s.len(),
{
    if s.len() > 0 && is_ws(s[s.len() - 1]) {
        trim_end_spec(s.drop_last())
    } else {
        s
    }
}

/// `s` with whitespace removed at both ends.
pub open spec fn trim_spec(s: Seq<char>) -> Seq<char> {
    trim_end_spec(trim_start_spec(s))
}

proof fn lemma_trim_start_range(s: Seq<char>, i: int)
    requires
        0 <= i <= s.len(),
        forall|j: int| 0 <= j < i ==> is_ws(s[j]),
        i < s.len() ==> !is_ws(s[i]),
    ensures
        trim_start_spec(s) == s.subrange(i, s.len() as int),
    decreases i,
{
    if i == 0 {
        if s.len() > 0 && is_ws(s[0]) {
            assert(!is_ws(s[0]));
        }
        assert(s.subrange(0, s.len() as int) =~= s);
    } else {
        assert(is_ws(s[0]));
        let t = s.drop_first();
        assert(forall|j: int| 0 <= j < i - 1 ==> t[j] == s[j + 1] && is_ws(#[trigger] t[j]));
        lemma_trim_start_range(t, i - 1);
        assert(t.subrange(i - 1, t.len() as int) =~= s.subrange(i, s.len() as int));
    }
}

proof fn lemma_trim_end_range(s: Seq<char>, k: int)
    requires
        0 <= k <= s.len(),
        forall|j: int| k <= j < s.len() ==> is_ws(s[j]),
        k > 0 ==> !is_ws(s[k - 1]),
    ensures
        trim_end_spec(s) == s.subrange(0, k),
    decreases s.len() - k,
{
    if k == s.len() {
        if s.len() > 0 && is_ws(s[s.len() - 1]) {
            assert(!is_ws(s[s.len() - 1]));
        }
        assert(s.subrange(0, s.len() as int) =~= s);
    } else {
        assert(is_ws(s[s.len() - 1]));
        let t = s.drop_last();
        lemma_trim_end_range(t, k);
        assert(t.subrange(0, k) =~= s.subrange(0, k));
    }
}

/// Whitespace-trimmed copy of a string slice, exact against `trim_spec`.
pub fn trim(s: &str) -> (r: String)
    ensures
        r@ == trim_spec(s@),
{
    let len: usize = s.unicode_len();
    let mut i: usize = 0;
    while i < len && is_ws_char(s.get_char(i))
        invariant
            len == s@.len(),
            i <= len,
            forall|j: int| 0 <= j < i ==> is_ws(s@[j]),
        decreases len - i,
    {
        i += 1;
    }
    let mut k: usize = len;
    while k > i && is_ws_char(s.get_char(k - 1))
        invariant
            len == s@.len(),
            i <= k <= len,
            forall|j: int| 0 <= j < i ==> is_ws(s@[j]),
            forall|j: int| k <= j < len ==> is_ws(s@[j]),
            i < len ==> !is_ws(s@[i as int]),
        decreases k,
    {
        k -= 1;
    }
    proof {
        lemma_trim_start_range(s@, i as int);
        let t = s@.subrange(i as int, len as int);
        assert(forall|j: int| k - i <= j < t.len() ==> is_ws(#[trigger] t[j]));
        lemma_trim_end_range(t, k - i);
        assert(t.subrange(0, k - i) =~= s@.subrange(i as int, k as int));
    }
    let piece = s.substring_char(i, k);
    String::from_str(piece)
}

/// Executable form of `is_ws`.
pub fn is_ws_char(c: char) -> (r: bool)
    ensures
        r == is_ws(c),
{
    c == ' ' || c == '\t' || c == '\r' || c == '\n'
}

/// The lines of `s`, split at every `'\n'`. The separator belongs to no
/// line; text after the last separator forms the final line, so the result
/// always has one more line than `s` has separators.
pub open spec fn split_lines_spec(s: Seq<char>) -> Seq<Seq<char>>
    decreases s.len(),
{
    if s.len() == 0 {
        seq![Seq::empty()]
    } else if s.last() == '\n' {
        split_lines_spec(s.drop_last()).push(Seq::empty())
    } else {
        let rest = split_lines_spec(s.drop_last());
        rest.update(rest.len() - 1, rest.last().push(s.last()))
    }
}

proof fn lemma_split_lines_nonempty(s: Seq<char>)
    ensures
        split_lines_spec(s).len() >= 1,
    decreases s.len(),
{
    if s.len() > 0 {
        lemma_split_lines_nonempty(s.drop_last());
    }
}

/// Splits `s` at every `'\n'`, exact against `split_lines_spec`.
pub fn split_lines(s: &str) -> (r: Vec<String>)
    ensures
        r.deep_view() == split_lines_spec(s@),
{
    let len: usize = s.unicode_len();
    let mut out: Vec<String> = Vec::new();
    let mut start: usize = 0;
    let mut k: usize = 0;
    proof {
        assert(s@.subrange(0, 0) =~= Seq::<char>::empty());
        assert(out.deep_view() =~= Seq::<Seq<char>>::empty());
        assert(split_lines_spec(Seq::<char>::empty()) =~= seq![Seq::<char>::empty()]);
    }
    while k < len
        invariant
            len == s@.len(),
            start <= k <= len,
            split_lines_spec(s@.subrange(0, k as int)) == out.deep_view().push(
                s@.subrange(start as int, k as int),
            ),
        decreases len - k,
    {
        proof {
            assert(s@.subrange(0, k as int + 1).drop_last() =~= s@.subrange(0, k as int));
            lemma_split_lines_nonempty(s@.subrange(0, k as int));
        }
        if s.get_char(k) == '\n' {
            let piece = s.substring_char(start, k);
            out.push(String::from_str(piece));
            proof {
                assert(s@.subrange(0, k as int + 1).last() == '\n');
                assert(out.deep_view() =~= out.deep_view().drop_last().push(
                    s@.subrange(start as int, k as int),
                ));
                assert(s@.subrange(k as int + 1, k as int + 1) =~= Seq::<char>::empty());
                assert(split_lines_spec(s@.subrange(0, k as int + 1)) =~= out.deep_view().push(
                    s@.subrange(k as int + 1, k as int + 1),
                ));
            }
            start = k + 1;
        } else {
            proof {
                let pre = split_lines_spec(s@.subrange(0, k as int));
                assert(pre.last() == s@.subrange(start as int, k as int));
                assert(s@.subrange(start as int, k as int).push(s@[k as int]) =~= s@.subrange(
                    start as int,
                    k as int + 1,
                ));
                assert(split_lines_spec(s@.subrange(0, k as int + 1)) =~= out.deep_view().push(
                    s@.subrange(start as int, k as int + 1),
                ));
            }
        }
        k += 1;
    }
    let piece = s.substring_char(start, len);
    out.push(String::from_str(piece));
    proof {
        assert(s@.subrange(0, len as int) =~= s@);
        assert(out.deep_view() =~= out.deep_view().drop_last().push(
            s@.subrange(start as int, len as int),
        ));
    }
    out
}

/// The decimal digit character for `d`.
pub open spec fn dec_digit(d: int) -> char {
    if d == 0 {
        '0'
    } else if d == 1 {
        '1'
    } else if d == 2 {
        '2'
    } else if d == 3 {
        '3'
    } else if d == 4 {
        '4'
    } else if d == 5 {
        '5'
    } else if d == 6 {
        '6'
    } else if d == 7 {
        '7'
    } else if d == 8 {
        '8'
    } else {
        '9'
    }
}

/// The decimal text of `n`, most significant digit first, no sign and no
/// leading zero except for zero itself.
pub open spec fn dec_spec(n: int) -> Seq<char>
    decreases n,
{
    if n < 10 {
        seq![dec_digit(n)]
    } else {
        dec_spec(n / 10).push(dec_digit(n % 10))
    }
}

fn digit_str(d: u16) -> (r: &'static str)
    requires
        d < 10,
    ensures
        r@ == seq![dec_digit(d as int)],
{
    if d == 0 {
        proof {
            reveal_strlit("0");
            assert("0"@ =~= seq![dec_digit(0)]);
        }
        "0"
    } else if d == 1 {
        proof {
            reveal_strlit("1");
            assert("1"@ =~= seq![dec_digit(1)]);
        }
        "1"
    } else if d == 2 {
        proof {
            reveal_strlit("2");
            assert("2"@ =~= seq![dec_digit(2)]);
        }
        "2"
    } else if d == 3 {
        proof {
            reveal_strlit("3");
            assert("3"@ =~= seq![dec_digit(3)]);
        }
        "3"
    } else if d == 4 {
        proof {
            reveal_strlit("4");
            assert("4"@ =~= seq![dec_digit(4)]);
        }
        "4"
    } else if d == 5 {
        proof {
            reveal_strlit("5");
            assert("5"@ =~= seq![dec_digit(5)]);
        }
        "5"
    } else if d == 6 {
        proof {
            reveal_strlit("6");
            assert("6"@ =~= seq![dec_digit(6)]);
        }
        "6"
    } else if d == 7 {
        proof {
            reveal_strlit("7");
            assert("7"@ =~= seq![dec_digit(7)]);
        }
        "7"
    } else if d == 8 {
        proof {
            reveal_strlit("8");
            assert("8"@ =~= seq![dec_digit(8)]);
        }
        "8"
    } else {
        proof {
            reveal_strlit("9");
            assert("9"@ =~= seq![dec_digit(9)]);
        }
        "9"
    }
}

/// Renders `n` in decimal, exact against `dec_spec`.
pub fn u16_to_dec(n: u16) -> (r: String)
    ensures
        r@ == dec_spec(n as int),
    decreases n,
{
    if n < 10 {
        String::from_str(digit_str(n))
    } else {
        let mut s = u16_to_dec(n / 10);
        s.append(digit_str(n % 10));
        proof {
            assert((n / 10) as int == n as int / 10);
            assert((n % 10) as int == n as int % 10);
            assert(s@ =~= dec_spec(n as int / 10).push(dec_digit(n as int % 10)));
        }
        s
    }
}

/// The elements of `items` joined by single commas, with no terminator.
pub open spec fn join_commas_spec(items: Seq<Seq<char>>) -> Seq<char>
    decreases items.len(),
{
    if items.len() == 0 {
        Seq::empty()
    } else if items.len() == 1 {
        items[0]
    } else {
        items[0] + seq![','] + join_commas_spec(items.drop_first())
    }
}

proof fn lemma_join_push(items: Seq<Seq<char>>, x: Seq<char>)
    requires
        items.len() > 0,
    ensures
        join_commas_spec(items.push(x)) == join_commas_spec(items) + seq![','] + x,
    decreases items.len(),
{
    let p = items.push(x);
    assert(p.len() >= 2);
    assert(p[0] == items[0]);
    if items.len() == 1 {
        assert(p.drop_first() =~= seq![x]);
        assert(join_commas_spec(p.drop_first()) == x);
    } else {
        assert(p.drop_first() =~= items.drop_first().push(x));
        lemma_join_push(items.drop_first(), x);
    }
}

/// Joins the strings of `items` with commas, exact against `join_commas_spec`.
pub fn join_commas(items: &Vec<String>) -> (r: String)
    ensures
        r@ == join_commas_spec(items.deep_view()),
{
    let mut out = String::new();
    let mut i: usize = 0;
    while i < items.len()
        invariant
            i <= items.len(),
            out@ == join_commas_spec(items.deep_view().subrange(0, i as int)),
        decreases items.len() - i,
    {
        if i > 0 {
            out.append(",");
            proof {
                reveal_strlit(",");
            }
        }
        out.append(items[i].as_str());
        proof {
            let pre = items.deep_view().subrange(0, i as int);
            let now = items.deep_view().subrange(0, i as int + 1);
            assert(now =~= pre.push(items.deep_view()[i as int]));
            if i > 0 {
                lemma_join_push(pre, items.deep_view()[i as int]);
            } else {
                assert(now.len() == 1);
                assert(now[0] == items.deep_view()[i as int]);
            }
        }
        i += 1;
    }
    proof {
        assert(items.deep_view().subrange(0, items.len() as int) =~= items.deep_view());
    }
    out
}

} // verus!
