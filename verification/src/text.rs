//! Verified text utilities: character classes, substring search, line
//! splitting and decimal rendering. Everything here is specified over
//! `Seq<char>` views of `&str` and `String`.

use vstd::prelude::*;

verus! {

use vstd::string::StrSliceExecFns;
use vstd::string::StringExecFns;

/// Whitespace, as the source scanner understands it.
pub open spec fn is_ws_char(c: char) -> bool {
    c == ' ' || c == '\n' || c == '\t' || c == '\r'
}

pub fn is_ws(c: char) -> (r: bool)
    ensures
        r == is_ws_char(c),
{
    c == ' ' || c == '\n' || c == '\t' || c == '\r'
}

/// Characters that may continue an identifier.
pub open spec fn is_ident_char_spec(c: char) -> bool {
    ('a' <= c && c <= 'z') || ('A' <= c && c <= 'Z') || ('0' <= c && c <= '9') || c == '_'
}

pub fn is_ident_char(c: char) -> (r: bool)
    ensures
        r == is_ident_char_spec(c),
{
    ('a' <= c && c <= 'z') || ('A' <= c && c <= 'Z') || ('0' <= c && c <= '9') || c == '_'
}

/// Character-wise equality of two string slices.
pub fn str_eq(a: &str, b: &str) -> (r: bool)
    ensures
        r == (a@ == b@),
{
    let an = a.unicode_len();
    let bn = b.unicode_len();
    if an != bn {
        assert(a@ != b@) by {
            assert(a@.len() != b@.len());
        }
        return false;
    }
    let mut i: usize = 0;
    while i < an
        invariant
            an == a@.len(),
            an == b@.len(),
            0 <= i <= an,
            forall|j: int| 0 <= j < i ==> a@[j] == b@[j],
        decreases an - i,
    {
        if a.get_char(i) != b.get_char(i) {
            return false;
        }
        i = i + 1;
    }
    proof {
        assert(a@ =~= b@);
    }
    true
}

/// The needle occurs in the haystack starting at position `i`.
pub open spec fn matches_at(hay: Seq<char>, needle: Seq<char>, i: int) -> bool {
    0 <= i && i + needle.len() <= hay.len() && hay.subrange(i, i + needle.len()) == needle
}

/// The needle occurs somewhere in the haystack.
pub open spec fn contains_seq(hay: Seq<char>, needle: Seq<char>) -> bool {
    exists|i: int| matches_at(hay, needle, i)
}

/// Does `hay` match `needle` when both are read from position `i` of `hay`?
fn check_match_at(hay: &str, hay_len: usize, needle: &str, needle_len: usize, i: usize) -> (r:
    bool)
    requires
        hay_len == hay@.len(),
        needle_len == needle@.len(),
        i + needle_len <= hay_len,
    ensures
        r == matches_at(hay@, needle@, i as int),
{
    let mut j: usize = 0;
    while j < needle_len
        invariant
            hay_len == hay@.len(),
            needle_len == needle@.len(),
            i + needle_len <= hay_len,
            0 <= j <= needle_len,
            forall|k: int| 0 <= k < j ==> hay@[i + k] == needle@[k],
        decreases needle_len - j,
    {
        if hay.get_char(i + j) != needle.get_char(j) {
            assert(!matches_at(hay@, needle@, i as int)) by {
                assert(hay@.subrange(i as int, i + needle@.len())[j as int] != needle@[j as int]);
            }
            return false;
        }
        j = j + 1;
    }
    proof {
        assert(hay@.subrange(i as int, i + needle@.len()) =~= needle@);
    }
    true
}

/// Substring search: does `needle` occur anywhere in `hay`?
pub fn str_contains(hay: &str, needle: &str) -> (r: bool)
    ensures
        r == contains_seq(hay@, needle@),
{
    let hay_len = hay.unicode_len();
    let needle_len = needle.unicode_len();
    if needle_len > hay_len {
        return false;
    }
    if needle_len == 0 {
        proof {
            assert(hay@.subrange(0, 0) =~= needle@);
            assert(matches_at(hay@, needle@, 0));
        }
        return true;
    }
    let mut i: usize = 0;
    while i <= hay_len - needle_len
        invariant
            hay_len == hay@.len(),
            needle_len == needle@.len(),
            1 <= needle_len <= hay_len,
            0 <= i <= hay_len,
            forall|k: int| 0 <= k < i ==> !matches_at(hay@, needle@, k),
        decreases hay_len - i,
    {
        if check_match_at(hay, hay_len, needle, needle_len, i) {
            return true;
        }
        i = i + 1;
    }
    proof {
        assert(forall|k: int| #![auto] matches_at(hay@, needle@, k) ==> 0 <= k < i);
    }
    false
}

/// First position at or after `from` holding character `c`.
pub fn find_char_from(s: &str, s_len: usize, from: usize, c: char) -> (r: Option<usize>)
    requires
        s_len == s@.len(),
        from <= s_len,
    ensures
        match r {
            Some(j) => from <= j < s_len && s@[j as int] == c && forall|k: int|
                from <= k < j ==> s@[k] != c,
            None => forall|k: int| from <= k < s_len ==> s@[k] != c,
        },
{
    let mut i: usize = from;
    while i < s_len
        invariant
            s_len == s@.len(),
            from <= i <= s_len,
            forall|k: int| from <= k < i ==> s@[k] != c,
        decreases s_len - i,
    {
        if s.get_char(i) == c {
            return Some(i);
        }
        i = i + 1;
    }
    None
}



/// The lines of a text, as the standard line iterator yields them:
/// pieces split at `'\n'`, a carriage return standing immediately
/// before the newline dropped, and a trailing line ending producing no
/// empty final line.
pub open spec fn spec_lines(s: Seq<char>) -> Seq<Seq<char>>
    decreases s.len(),
{
    if s.len() == 0 {
        Seq::empty()
    } else if s[0] == '\n' {
        seq![Seq::<char>::empty()] + spec_lines(s.skip(1))
    } else if s[0] == '\r' && 1 < s.len() && s[1] == '\n' {
        seq![Seq::<char>::empty()] + spec_lines(s.skip(2))
    } else {
        let rest = spec_lines(s.skip(1));
        if rest.len() == 0 {
            seq![s]
        } else {
            seq![seq![s[0]] + rest[0]] + rest.skip(1)
        }
    }
}

/// The line ending at the newline at `j`: everything before it, less a
/// carriage return standing immediately before the newline.
pub open spec fn line_piece(s: Seq<char>, j: int) -> Seq<char> {
    if j > 0 && s[j - 1] == '\r' {
        s.take(j - 1)
    } else {
        s.take(j)
    }
}

/// Splitting at the first newline (at `j`, or none when `j == s.len()`)
/// agrees with the line-by-line definition above.
proof fn lemma_lines_split(s: Seq<char>, j: int)
    requires
        0 <= j <= s.len(),
        s.len() > 0,
        j < s.len() ==> s[j] == '\n',
        forall|k: int| 0 <= k < j ==> s[k] != '\n',
    ensures
        j < s.len() ==> spec_lines(s) == seq![line_piece(s, j)] + spec_lines(s.skip(j + 1)),
        j == s.len() ==> spec_lines(s) == seq![s],
    decreases s.len(),
{
    if j == 0 {
        if j < s.len() {
            assert(line_piece(s, 0) =~= Seq::<char>::empty());
            assert(spec_lines(s) == seq![Seq::<char>::empty()] + spec_lines(s.skip(1)));
            assert(spec_lines(s) =~= seq![line_piece(s, 0)] + spec_lines(s.skip(1int)));
        } else {
            // s.len() == 0, excluded by the precondition
        }
    } else if s[0] == '\r' && 1 < s.len() && s[1] == '\n' {
        // the first newline stands at index 1, right after the return
        assert(j == 1);
        assert(spec_lines(s) == seq![Seq::<char>::empty()] + spec_lines(s.skip(2)));
        assert(line_piece(s, 1) =~= Seq::<char>::empty());
        assert(spec_lines(s) =~= seq![line_piece(s, 1)] + spec_lines(s.skip(j + 1)));
    } else {
        let t = s.skip(1);
        assert(t.len() == s.len() - 1);
        assert(forall|k: int| 0 <= k < j - 1 ==> t[k] == s[k + 1] && t[k] != '\n');
        if t.len() > 0 {
            lemma_lines_split(t, j - 1);
        }
        let rest = spec_lines(t);
        if j < s.len() {
            assert(rest == seq![line_piece(t, j - 1)] + spec_lines(t.skip(j)));
            assert(rest.len() > 0);
            assert(spec_lines(s) == seq![seq![s[0]] + rest[0]] + rest.skip(1));
            if j == 1 {
                // a lone leading return would have been the case above
                assert(s[0] != '\r');
                assert(seq![s[0]] + line_piece(t, 0) =~= line_piece(s, 1));
            } else if s[j - 1] == '\r' {
                assert(t[j - 2] == s[j - 1]);
                assert(seq![s[0]] + t.take(j - 2) =~= s.take(j - 1));
                assert(seq![s[0]] + line_piece(t, j - 1) =~= line_piece(s, j));
            } else {
                assert(t[j - 2] == s[j - 1]);
                assert(seq![s[0]] + t.take(j - 1) =~= s.take(j));
                assert(seq![s[0]] + line_piece(t, j - 1) =~= line_piece(s, j));
            }
            assert(rest.skip(1) =~= spec_lines(t.skip(j)));
            assert(t.skip(j) =~= s.skip(j + 1));
            assert(spec_lines(s) =~= seq![line_piece(s, j)] + spec_lines(s.skip(j + 1)));
        } else {
            if t.len() == 0 {
                assert(spec_lines(s) == seq![s]);
            } else {
                assert(rest == seq![t]);
                assert(spec_lines(s) == seq![seq![s[0]] + rest[0]] + rest.skip(1));
                assert(seq![s[0]] + t =~= s);
                assert(rest.skip(1) =~= Seq::<Seq<char>>::empty());
                assert(spec_lines(s) =~= seq![s]);
            }
        }
    }
}

/// Split a text into its lines.
pub fn split_lines(s: &str) -> (r: Vec<String>)
    ensures
        r@.map_values(|l: String| l@) == spec_lines(s@),
{
    let s_len = s.unicode_len();
    let mut out: Vec<String> = Vec::new();
    let mut i: usize = 0;
    proof {
        assert(s@.skip(0) =~= s@);
        assert(out@.map_values(|l: String| l@) =~= Seq::<Seq<char>>::empty());
    }
    while i < s_len
        invariant
            s_len == s@.len(),
            0 <= i <= s_len,
            spec_lines(s@) == out@.map_values(|l: String| l@) + spec_lines(s@.skip(i as int)),
        decreases s_len - i,
    {
        let ghost rest = s@.skip(i as int);
        match find_char_from(s, s_len, i, '\n') {
            Some(j) => {
                let end: usize = if j > i && s.get_char(j - 1) == '\r' {
                    j - 1
                } else {
                    j
                };
                let piece = s.substring_char(i, end);
                let owned = piece.to_owned();
                proof {
                    lemma_lines_split(rest, j - i);
                    if j > i && s@[j - 1] == '\r' {
                        assert(rest[j - i - 1] == s@[j - 1]);
                        assert(rest.take(j - i - 1) =~= s@.subrange(i as int, end as int));
                    } else {
                        assert(rest.take(j - i) =~= s@.subrange(i as int, end as int));
                    }
                    assert(line_piece(rest, j - i) =~= s@.subrange(i as int, end as int));
                    assert(rest.skip(j - i + 1) =~= s@.skip(j + 1));
                }
                let ghost old_out = out@;
                out.push(owned);
                proof {
                    assert(out@.map_values(|l: String| l@) =~= old_out.map_values(|l: String| l@)
                        + seq![s@.subrange(i as int, end as int)]);
                    assert(out@.map_values(|l: String| l@) + spec_lines(s@.skip(j + 1))
                        =~= old_out.map_values(|l: String| l@) + spec_lines(rest));
                }
                i = j + 1;
            },
            None => {
                let piece = s.substring_char(i, s_len);
                let owned = piece.to_owned();
                proof {
                    lemma_lines_split(rest, rest.len() as int);
                    assert(rest =~= s@.subrange(i as int, s_len as int));
                }
                let ghost old_out = out@;
                out.push(owned);
                proof {
                    assert(out@.map_values(|l: String| l@) =~= old_out.map_values(|l: String| l@)
                        + seq![rest]);
                    assert(spec_lines(s@.skip(s_len as int)) =~= Seq::<Seq<char>>::empty());
                    assert(out@.map_values(|l: String| l@) + spec_lines(s@.skip(s_len as int))
                        =~= old_out.map_values(|l: String| l@) + spec_lines(rest));
                }
                i = s_len;
            },
        }
    }
    proof {
        assert(spec_lines(s@.skip(i as int)) =~= Seq::<Seq<char>>::empty());
        assert(out@.map_values(|l: String| l@) =~= out@.map_values(|l: String| l@) + spec_lines(
            s@.skip(i as int),
        ));
    }
    out
}

/// The decimal digit character for a value below ten.
pub open spec fn digit_char(d: int) -> char {
    if d == 0 {
        '0'
    } else if d == 1 {
        '1'
    } else if d == 2 {
        '2'
    } else if d == 3 {
        '3'
    } else if d == 4 {
        '4'
    } else if d == 5 {
        '5'
    } else if d == 6 {
        '6'
    } else if d == 7 {
        '7'
    } else if d == 8 {
        '8'
    } else {
        '9'
    }
}

/// The decimal rendering of a non-negative integer.
pub open spec fn dec_digits(n: int) -> Seq<char>
    decreases n,
{
    if n < 10 {
        seq![digit_char(n)]
    } else {
        dec_digits(n / 10).push(digit_char(n % 10))
    }
}

fn digit_str(d: usize) -> (r: &'static str)
    requires
        d < 10,
    ensures
        r@ == seq![digit_char(d as int)],
{
    let r: &'static str = if d == 0 {
        "0"
    } else if d == 1 {
        "1"
    } else if d == 2 {
        "2"
    } else if d == 3 {
        "3"
    } else if d == 4 {
        "4"
    } else if d == 5 {
        "5"
    } else if d == 6 {
        "6"
    } else if d == 7 {
        "7"
    } else if d == 8 {
        "8"
    } else {
        "9"
    };
    proof {
        reveal_strlit("0");
        reveal_strlit("1");
        reveal_strlit("2");
        reveal_strlit("3");
        reveal_strlit("4");
        reveal_strlit("5");
        reveal_strlit("6");
        reveal_strlit("7");
        reveal_strlit("8");
        reveal_strlit("9");
        assert(r@ =~= seq![digit_char(d as int)]);
    }
    r
}

/// Render a machine integer in decimal.
pub fn usize_to_string(n: usize) -> (r: String)
    ensures
        r@ == dec_digits(n as int),
    decreases n,
{
    if n < 10 {
        digit_str(n).to_owned()
    } else {
        let mut s = usize_to_string(n / 10);
        s.append(digit_str(n % 10));
        proof {
            assert(s@ =~= dec_digits(n as int));
        }
        s
    }
}

} // verus!
