//! The tree builder: turns one source file's text into a `SyntaxTree`.
//!
//! The builder is a structural scanner for the analyzed language. It
//! accepts a file exactly when its braces balance, finds every top-level
//! function declaration, and records for each its name, signature text,
//! attributes, parameters and body statements together with their real
//! 1-based source positions. The whole scan is specified over the text's
//! character sequence.

use vstd::prelude::*;

verus! {

use crate::text::is_ident_char_spec;
use crate::text::is_ws_char;
use crate::text::is_ws;
use crate::text::is_ident_char;
use crate::tree::AttrV;
use crate::tree::FnDeclV;
use crate::tree::ParamV;
use crate::tree::StmtV;
use crate::tree::SyntaxTreeV;
use vstd::string::StrSliceExecFns;

/// A parse failure: the offending file and a human-readable diagnostic.
#[derive(Debug)]
pub struct ParseError {
    pub file: String,
    pub message: String,
}

/// The nesting change a single character causes on braces.
pub open spec fn brace_delta(c: char) -> int {
    if c == '{' {
        1
    } else if c == '}' {
        -1
    } else {
        0
    }
}

/// Brace nesting depth of the first `i` characters.
pub open spec fn brace_depth(s: Seq<char>, i: int) -> int
    decreases i,
{
    if i <= 0 {
        0
    } else {
        brace_depth(s, i - 1) + brace_delta(s[i - 1])
    }
}

/// A text's braces balance: the depth never goes negative and ends at zero.
pub open spec fn braces_balanced(s: Seq<char>) -> bool {
    &&& brace_depth(s, s.len() as int) == 0
    &&& forall|i: int| 0 <= i <= s.len() ==> brace_depth(s, i) >= 0
}

/// Number of newline characters among the first `i` characters.
pub open spec fn count_nl(s: Seq<char>, i: int) -> int
    decreases i,
{
    if i <= 0 {
        0
    } else {
        count_nl(s, i - 1) + if s[i - 1] == '\n' {
            1int
        } else {
            0int
        }
    }
}

/// 1-based line number of position `i`.
pub open spec fn line_at(s: Seq<char>, i: int) -> int {
    1 + count_nl(s, i)
}

/// Index where the line holding position `i` begins.
pub open spec fn line_start_at(s: Seq<char>, i: int) -> int
    decreases i,
{
    if i <= 0 {
        0
    } else if s[i - 1] == '\n' {
        i
    } else {
        line_start_at(s, i - 1)
    }
}

/// 1-based column of position `i`.
pub open spec fn col_at(s: Seq<char>, i: int) -> int {
    i - line_start_at(s, i) + 1
}


pub broadcast proof fn lemma_line_start_bounds(s: Seq<char>, i: int)
    requires
        0 <= i,
    ensures
        0 <= #[trigger] line_start_at(s, i) <= i,
    decreases i,
{
    if i > 0 && s[i - 1] != '\n' {
        lemma_line_start_bounds(s, i - 1);
    }
}

/// A top-level `fn` keyword begins at position `i`.
pub open spec fn is_fn_site(s: Seq<char>, i: int) -> bool {
    &&& 0 <= i
    &&& i + 2 <= s.len()
    &&& s[i] == 'f'
    &&& s[i + 1] == 'n'
    &&& (i == 0 || !is_ident_char_spec(s[i - 1]))
    &&& (i + 2 == s.len() || !is_ident_char_spec(s[i + 2]))
    &&& brace_depth(s, i) == 0
}

/// A top-level attribute (`#[`...) begins at position `i`.
pub open spec fn is_attr_site(s: Seq<char>, i: int) -> bool {
    &&& 0 <= i
    &&& i + 2 <= s.len()
    &&& s[i] == '#'
    &&& s[i + 1] == '['
    &&& brace_depth(s, i) == 0
}

/// All top-level `fn` positions at or after `i`, in order.
pub open spec fn fn_sites_from(s: Seq<char>, i: int) -> Seq<int>
    decreases s.len() - i,
{
    if i < 0 || i >= s.len() {
        Seq::empty()
    } else {
        (if is_fn_site(s, i) {
            seq![i]
        } else {
            Seq::empty()
        }) + fn_sites_from(s, i + 1)
    }
}

pub open spec fn fn_sites(s: Seq<char>) -> Seq<int> {
    fn_sites_from(s, 0)
}

/// All top-level attribute positions at or after `i`, in order.
pub open spec fn attr_sites_from(s: Seq<char>, i: int) -> Seq<int>
    decreases s.len() - i,
{
    if i < 0 || i >= s.len() {
        Seq::empty()
    } else {
        (if is_attr_site(s, i) {
            seq![i]
        } else {
            Seq::empty()
        }) + attr_sites_from(s, i + 1)
    }
}

pub open spec fn attr_sites(s: Seq<char>) -> Seq<int> {
    attr_sites_from(s, 0)
}

/// First occurrence of `c` at or after `i`.
pub open spec fn find_from_spec(s: Seq<char>, i: int, c: char) -> Option<int>
    decreases s.len() - i,
{
    if i < 0 || i >= s.len() {
        None
    } else if s[i] == c {
        Some(i)
    } else {
        find_from_spec(s, i + 1, c)
    }
}

pub broadcast proof fn lemma_find_from_bounds(s: Seq<char>, i: int, c: char)
    ensures
        (#[trigger] find_from_spec(s, i, c)) matches Some(j) ==> i <= j < s.len() && s[j] == c,
    decreases s.len() - i,
{
    if 0 <= i < s.len() && s[i] != c {
        lemma_find_from_bounds(s, i + 1, c);
    }
}

/// First position in `[i, hi)` that is not whitespace, or `hi`.
pub open spec fn skip_ws_to(s: Seq<char>, i: int, hi: int) -> int
    decreases hi - i,
{
    if i < 0 {
        0
    } else if i >= hi || i >= s.len() {
        hi
    } else if is_ws_char(s[i]) {
        skip_ws_to(s, i + 1, hi)
    } else {
        i
    }
}

pub broadcast proof fn lemma_skip_ws_bounds(s: Seq<char>, i: int, hi: int)
    requires
        0 <= i <= hi,
    ensures
        i <= #[trigger] skip_ws_to(s, i, hi) <= hi,
    decreases hi - i,
{
    if i < hi && i < s.len() && is_ws_char(s[i]) {
        lemma_skip_ws_bounds(s, i + 1, hi);
    }
}

/// First position at or after `i` that cannot continue an identifier.
pub open spec fn ident_end_spec(s: Seq<char>, i: int) -> int
    decreases s.len() - i,
{
    if i < 0 {
        0
    } else if i >= s.len() {
        i
    } else if is_ident_char_spec(s[i]) {
        ident_end_spec(s, i + 1)
    } else {
        i
    }
}


/// The closing delimiter matching nesting depth `d`, scanning from `i`.
pub open spec fn match_close_from(s: Seq<char>, i: int, d: int, open: char, close: char) -> Option<
    int,
>
    decreases s.len() - i,
{
    if i < 0 || i >= s.len() {
        None
    } else if s[i] == close {
        if d == 0 {
            Some(i)
        } else {
            match_close_from(s, i + 1, d - 1, open, close)
        }
    } else if s[i] == open {
        match_close_from(s, i + 1, d + 1, open, close)
    } else {
        match_close_from(s, i + 1, d, open, close)
    }
}

pub broadcast proof fn lemma_match_close_bounds(s: Seq<char>, i: int, d: int, open: char, close: char)
    ensures
        (#[trigger] match_close_from(s, i, d, open, close)) matches Some(j) ==> i <= j < s.len()
            && s[j] == close,
    decreases s.len() - i,
{
    if 0 <= i < s.len() {
        if s[i] == close {
            if d != 0 {
                lemma_match_close_bounds(s, i + 1, d - 1, open, close);
            }
        } else if s[i] == open {
            lemma_match_close_bounds(s, i + 1, d + 1, open, close);
        } else {
            lemma_match_close_bounds(s, i + 1, d, open, close);
        }
    }
}

/// The grouping-depth change a character causes inside a parameter list.
pub open spec fn group_delta(c: char) -> int {
    if c == '(' || c == '[' || c == '{' || c == '<' {
        1
    } else if c == ')' || c == ']' || c == '}' || c == '>' {
        -1
    } else {
        0
    }
}

/// First comma in `[i, hi)` at grouping depth zero, starting at depth `d`.
pub open spec fn next_comma(s: Seq<char>, i: int, hi: int, d: int) -> Option<int>
    decreases hi - i,
{
    if i < 0 || i >= hi || i >= s.len() {
        None
    } else if d == 0 && s[i] == ',' {
        Some(i)
    } else {
        next_comma(s, i + 1, hi, d + group_delta(s[i]))
    }
}

pub broadcast proof fn lemma_next_comma_bounds(s: Seq<char>, i: int, hi: int, d: int)
    ensures
        (#[trigger] next_comma(s, i, hi, d)) matches Some(j) ==> i <= j < hi && j < s.len(),
    decreases hi - i,
{
    if 0 <= i < hi && i < s.len() && !(d == 0 && s[i] == ',') {
        lemma_next_comma_bounds(s, i + 1, hi, d + group_delta(s[i]));
    }
}

/// First occurrence of `c` in `[i, hi)`.
pub open spec fn find_to_spec(s: Seq<char>, i: int, hi: int, c: char) -> Option<int>
    decreases hi - i,
{
    if i < 0 || i >= hi || i >= s.len() {
        None
    } else if s[i] == c {
        Some(i)
    } else {
        find_to_spec(s, i + 1, hi, c)
    }
}

pub broadcast proof fn lemma_find_to_bounds(s: Seq<char>, i: int, hi: int, c: char)
    ensures
        (#[trigger] find_to_spec(s, i, hi, c)) matches Some(j) ==> i <= j < hi && j < s.len(),
    decreases hi - i,
{
    if 0 <= i < hi && i < s.len() && s[i] != c {
        lemma_find_to_bounds(s, i + 1, hi, c);
    }
}

/// Position after the last non-whitespace character of `[lo, hi)`, or `lo`.
pub open spec fn trim_end_spec(s: Seq<char>, lo: int, hi: int) -> int
    decreases hi,
{
    if hi <= lo || hi <= 0 || hi > s.len() {
        lo
    } else if is_ws_char(s[hi - 1]) {
        trim_end_spec(s, lo, hi - 1)
    } else {
        hi
    }
}


/// A segment of the text, empty when the range is improper.
pub open spec fn seg(s: Seq<char>, a: int, b: int) -> Seq<char> {
    if 0 <= a <= b <= s.len() {
        s.subrange(a, b)
    } else {
        Seq::empty()
    }
}

/// The parameter declared in `[lo, hi)`, if the segment declares one.
/// A segment without a `:` separator (such as `self`) declares none.
pub open spec fn param_of(s: Seq<char>, lo: int, hi: int) -> Seq<ParamV> {
    let a = skip_ws_to(s, lo, hi);
    if a >= hi {
        Seq::empty()
    } else {
        match find_to_spec(s, a, hi, ':') {
            Some(c) => {
                let name_end = trim_end_spec(s, a, c);
                let ty_start = skip_ws_to(s, c + 1, hi);
                let ty_end = trim_end_spec(s, c + 1, hi);
                seq![
                    ParamV {
                        name: seg(s, a, name_end),
                        ty: if ty_start < ty_end {
                            seg(s, ty_start, ty_end)
                        } else {
                            Seq::empty()
                        },
                        line: line_at(s, a),
                        column: col_at(s, a),
                    },
                ]
            },
            None => Seq::empty(),
        }
    }
}

/// All parameters declared in `[lo, hi)`, split at top-level commas.
pub open spec fn parse_params_spec(s: Seq<char>, lo: int, hi: int) -> Seq<ParamV>
    decreases hi - lo,
    via parse_params_spec_dec
{
    if lo < 0 || lo >= hi {
        Seq::empty()
    } else {
        match next_comma(s, lo, hi, 0) {
            Some(c) => param_of(s, lo, c) + parse_params_spec(s, c + 1, hi),
            None => param_of(s, lo, hi),
        }
    }
}

#[via_fn]
proof fn parse_params_spec_dec(s: Seq<char>, lo: int, hi: int) {
    broadcast use lemma_next_comma_bounds;

}

/// The statements of a body segment `[lo, hi)`, split at semicolons; a
/// whitespace-only tail piece yields no statement.
pub open spec fn parse_stmts_spec(s: Seq<char>, lo: int, hi: int) -> Seq<StmtV>
    decreases hi - lo,
    via parse_stmts_spec_dec
{
    if lo < 0 || lo >= hi {
        Seq::empty()
    } else {
        let a = skip_ws_to(s, lo, hi);
        if a >= hi {
            Seq::empty()
        } else {
            match find_to_spec(s, a, hi, ';') {
                Some(m) => seq![
                    StmtV { text: seg(s, a, m + 1), line: line_at(s, a), column: col_at(s, a) },
                ] + parse_stmts_spec(s, m + 1, hi),
                None => seq![
                    StmtV {
                        text: seg(s, a, trim_end_spec(s, a, hi)),
                        line: line_at(s, a),
                        column: col_at(s, a),
                    },
                ],
            }
        }
    }
}

#[via_fn]
proof fn parse_stmts_spec_dec(s: Seq<char>, lo: int, hi: int) {
    broadcast use lemma_find_to_bounds;

    if 0 <= lo < hi {
        lemma_skip_ws_bounds(s, lo, hi);
    }
}

/// Where the attribute starting at `a` ends: after its matching `]`,
/// else at the end of its line.
pub open spec fn attr_end(s: Seq<char>, a: int) -> int {
    match match_close_from(s, a + 2, 0, '[', ']') {
        Some(e) => e + 1,
        None => match find_from_spec(s, a, '\n') {
            Some(n) => n,
            None => s.len() as int,
        },
    }
}

/// The attribute whose `#[` stands at `a`.
pub open spec fn attr_of(s: Seq<char>, a: int) -> AttrV {
    AttrV { text: seg(s, a, attr_end(s, a)), line: line_at(s, a), column: col_at(s, a) }
}

/// The attributes among `sites` lying strictly between `lo` and `hi`.
pub open spec fn attrs_between(s: Seq<char>, sites: Seq<int>, lo: int, hi: int) -> Seq<AttrV>
    decreases sites.len(),
{
    if sites.len() == 0 {
        Seq::empty()
    } else {
        (if lo < sites[0] < hi {
            seq![attr_of(s, sites[0])]
        } else {
            Seq::empty()
        }) + attrs_between(s, sites.skip(1), lo, hi)
    }
}

/// The function declaration whose `fn` keyword stands at `site`; `lo`
/// bounds the attribute region on the left (the previous declaration).
pub open spec fn build_fn(s: Seq<char>, lo: int, site: int) -> FnDeclV {
    let n0 = skip_ws_to(s, site + 2, s.len() as int);
    let n1 = ident_end_spec(s, n0);
    let popen = find_from_spec(s, n1, '(');
    let pclose = match popen {
        Some(p) => match_close_from(s, p + 1, 0, '(', ')'),
        None => None,
    };
    let sig_end = match popen {
        Some(p) => match pclose {
            Some(q) => q + 1,
            None => p + 1,
        },
        None => n1,
    };
    let params = match popen {
        Some(p) => match pclose {
            Some(q) => parse_params_spec(s, p + 1, q),
            None => Seq::empty(),
        },
        None => Seq::empty(),
    };
    let bopen = find_from_spec(s, sig_end, '{');
    let stmts = match bopen {
        Some(b) => match match_close_from(s, b + 1, 0, '{', '}') {
            Some(e) => parse_stmts_spec(s, b + 1, e),
            None => Seq::empty(),
        },
        None => Seq::empty(),
    };
    FnDeclV {
        name: seg(s, n0, n1),
        sig_text: seg(s, site, sig_end),
        attrs: attrs_between(s, attr_sites(s), lo, site),
        params,
        stmts,
        line: line_at(s, site),
        column: col_at(s, site),
    }
}

/// All function declarations for the given `fn` sites, threading each
/// site as the left bound of the next one's attribute region.
pub open spec fn build_fns(s: Seq<char>, sites: Seq<int>, lo: int) -> Seq<FnDeclV>
    decreases sites.len(),
{
    if sites.len() == 0 {
        Seq::empty()
    } else {
        seq![build_fn(s, lo, sites[0])] + build_fns(s, sites.skip(1), sites[0])
    }
}

/// The tree the builder produces for a balanced source text.
pub open spec fn spec_parse(file: Seq<char>, s: Seq<char>) -> SyntaxTreeV {
    SyntaxTreeV { file, functions: build_fns(s, fn_sites(s), -1) }
}

/// Check whether the text's braces balance; the scanner's acceptance test.
pub fn check_braces(s: &str) -> (r: bool)
    ensures
        r == braces_balanced(s@),
{
    let s_len = s.unicode_len();
    let mut d: usize = 0;
    let mut i: usize = 0;
    while i < s_len
        invariant
            s_len == s@.len(),
            0 <= i <= s_len,
            d <= i,
            d == brace_depth(s@, i as int),
            forall|k: int| 0 <= k <= i ==> brace_depth(s@, k) >= 0,
        decreases s_len - i,
    {
        let c = s.get_char(i);
        if c == '{' {
            d = d + 1;
        } else if c == '}' {
            if d == 0 {
                assert(brace_depth(s@, i + 1) == -1);
                return false;
            }
            d = d - 1;
        }
        i = i + 1;
    }
    d == 0
}

/// A machine option seen as a mathematical one.
pub open spec fn opt_as_int(o: Option<usize>) -> Option<int> {
    match o {
        Some(x) => Some(x as int),
        None => None,
    }
}

fn find_char_sp(s: &str, s_len: usize, from: usize, c: char) -> (r: Option<usize>)
    requires
        s_len == s@.len(),
        from <= s_len,
    ensures
        opt_as_int(r) == find_from_spec(s@, from as int, c),
{
    let mut i: usize = from;
    while i < s_len
        invariant
            s_len == s@.len(),
            from <= i <= s_len,
            find_from_spec(s@, from as int, c) == find_from_spec(s@, i as int, c),
        decreases s_len - i,
    {
        if s.get_char(i) == c {
            return Some(i);
        }
        i = i + 1;
    }
    None
}

fn skip_ws_sp(s: &str, s_len: usize, from: usize, hi: usize) -> (r: usize)
    requires
        s_len == s@.len(),
        from <= hi <= s_len,
    ensures
        r as int == skip_ws_to(s@, from as int, hi as int),
        from <= r <= hi,
{
    let mut i: usize = from;
    while i < hi
        invariant
            s_len == s@.len(),
            from <= i <= hi <= s_len,
            skip_ws_to(s@, from as int, hi as int) == skip_ws_to(s@, i as int, hi as int),
        decreases hi - i,
    {
        if !is_ws(s.get_char(i)) {
            return i;
        }
        i = i + 1;
    }
    i
}

fn ident_end_sp(s: &str, s_len: usize, from: usize) -> (r: usize)
    requires
        s_len == s@.len(),
        from <= s_len,
    ensures
        r as int == ident_end_spec(s@, from as int),
        from <= r <= s_len,
{
    let mut i: usize = from;
    while i < s_len
        invariant
            s_len == s@.len(),
            from <= i <= s_len,
            ident_end_spec(s@, from as int) == ident_end_spec(s@, i as int),
        decreases s_len - i,
    {
        if !is_ident_char(s.get_char(i)) {
            return i;
        }
        i = i + 1;
    }
    i
}

fn match_close_sp(s: &str, s_len: usize, from: usize, open: char, close: char) -> (r: Option<
    usize,
>)
    requires
        s_len == s@.len(),
        from <= s_len,
    ensures
        opt_as_int(r) == match_close_from(s@, from as int, 0, open, close),
{
    let mut i: usize = from;
    let mut d: usize = 0;
    while i < s_len
        invariant
            s_len == s@.len(),
            from <= i <= s_len,
            d <= i,
            match_close_from(s@, from as int, 0, open, close) == match_close_from(
                s@,
                i as int,
                d as int,
                open,
                close,
            ),
        decreases s_len - i,
    {
        let c = s.get_char(i);
        if c == close {
            if d == 0 {
                return Some(i);
            }
            d = d - 1;
        } else if c == open {
            d = d + 1;
        }
        i = i + 1;
    }
    None
}

fn find_to_sp(s: &str, s_len: usize, from: usize, hi: usize, c: char) -> (r: Option<usize>)
    requires
        s_len == s@.len(),
        from <= hi <= s_len,
    ensures
        opt_as_int(r) == find_to_spec(s@, from as int, hi as int, c),
{
    let mut i: usize = from;
    while i < hi
        invariant
            s_len == s@.len(),
            from <= i <= hi <= s_len,
            find_to_spec(s@, from as int, hi as int, c) == find_to_spec(s@, i as int, hi as int, c),
        decreases hi - i,
    {
        if s.get_char(i) == c {
            return Some(i);
        }
        i = i + 1;
    }
    None
}

fn next_comma_sp(s: &str, s_len: usize, from: usize, hi: usize) -> (r: Option<usize>)
    requires
        s_len == s@.len(),
        from <= hi <= s_len,
    ensures
        opt_as_int(r) == next_comma(s@, from as int, hi as int, 0),
{
    let mut i: usize = from;
    let mut d: i128 = 0;
    while i < hi
        invariant
            s_len == s@.len(),
            from <= i <= hi <= s_len,
            -(i as int) <= d as int <= i as int,
            next_comma(s@, from as int, hi as int, 0) == next_comma(
                s@,
                i as int,
                hi as int,
                d as int,
            ),
        decreases hi - i,
    {
        let c = s.get_char(i);
        if d == 0 && c == ',' {
            return Some(i);
        }
        if c == '(' || c == '[' || c == '{' || c == '<' {
            d = d + 1;
        } else if c == ')' || c == ']' || c == '}' || c == '>' {
            d = d - 1;
        }
        i = i + 1;
    }
    None
}

fn trim_end_sp(s: &str, s_len: usize, lo: usize, hi: usize) -> (r: usize)
    requires
        s_len == s@.len(),
        lo <= hi <= s_len,
    ensures
        r as int == trim_end_spec(s@, lo as int, hi as int),
        lo <= r <= hi,
{
    let mut h: usize = hi;
    while h > lo
        invariant
            s_len == s@.len(),
            lo <= h <= hi <= s_len,
            trim_end_spec(s@, lo as int, hi as int) == trim_end_spec(s@, lo as int, h as int),
        decreases h,
    {
        if !is_ws(s.get_char(h - 1)) {
            return h;
        }
        h = h - 1;
    }
    h
}

/// Compute the 1-based line and column of position `pos`.
fn line_col_at(s: &str, s_len: usize, pos: usize) -> (r: (usize, usize))
    requires
        s_len == s@.len(),
        pos < s_len,
    ensures
        r.0 as int == line_at(s@, pos as int),
        r.1 as int == col_at(s@, pos as int),
        r.0 >= 1,
        r.1 >= 1,
{
    let mut line: usize = 1;
    let mut start: usize = 0;
    let mut i: usize = 0;
    while i < pos
        invariant
            s_len == s@.len(),
            0 <= i <= pos < s_len,
            1 <= line <= i + 1,
            start <= i,
            line as int == line_at(s@, i as int),
            start as int == line_start_at(s@, i as int),
        decreases pos - i,
    {
        if s.get_char(i) == '\n' {
            line = line + 1;
            start = i + 1;
        }
        i = i + 1;
    }
    proof {
        broadcast use lemma_line_start_bounds;

    }
    (line, pos - start + 1)
}

/// Every recorded `fn` site really is one.
proof fn lemma_fn_sites_elems(s: Seq<char>, i: int)
    ensures
        forall|k: int|
            0 <= k < fn_sites_from(s, i).len() ==> is_fn_site(s, #[trigger] fn_sites_from(s, i)[k]),
    decreases s.len() - i,
{
    if 0 <= i < s.len() {
        lemma_fn_sites_elems(s, i + 1);
        let rest = fn_sites_from(s, i + 1);
        let head: Seq<int> = if is_fn_site(s, i) {
            seq![i]
        } else {
            Seq::empty()
        };
        assert(fn_sites_from(s, i) == head + rest);
        assert forall|k: int| 0 <= k < fn_sites_from(s, i).len() implies is_fn_site(
            s,
            #[trigger] fn_sites_from(s, i)[k],
        ) by {
            if k < head.len() {
                assert(fn_sites_from(s, i)[k] == i);
            } else {
                assert(fn_sites_from(s, i)[k] == rest[k - head.len()]);
            }
        }
    }
}

/// Every recorded attribute site really is one.
proof fn lemma_attr_sites_elems(s: Seq<char>, i: int)
    ensures
        forall|k: int|
            0 <= k < attr_sites_from(s, i).len() ==> is_attr_site(
                s,
                #[trigger] attr_sites_from(s, i)[k],
            ),
    decreases s.len() - i,
{
    if 0 <= i < s.len() {
        lemma_attr_sites_elems(s, i + 1);
        let rest = attr_sites_from(s, i + 1);
        let head: Seq<int> = if is_attr_site(s, i) {
            seq![i]
        } else {
            Seq::empty()
        };
        assert(attr_sites_from(s, i) == head + rest);
        assert forall|k: int| 0 <= k < attr_sites_from(s, i).len() implies is_attr_site(
            s,
            #[trigger] attr_sites_from(s, i)[k],
        ) by {
            if k < head.len() {
                assert(attr_sites_from(s, i)[k] == i);
            } else {
                assert(attr_sites_from(s, i)[k] == rest[k - head.len()]);
            }
        }
    }
}

/// One pass over the text collecting every top-level `fn` keyword and
/// every top-level attribute opener, in order.
fn scan_sites(s: &str, s_len: usize) -> (r: (Vec<usize>, Vec<usize>))
    requires
        s_len == s@.len(),
        braces_balanced(s@),
    ensures
        r.0@.map_values(|x: usize| x as int) == fn_sites(s@),
        r.1@.map_values(|x: usize| x as int) == attr_sites(s@),
{
    let mut fns: Vec<usize> = Vec::new();
    let mut attrs: Vec<usize> = Vec::new();
    let mut d: usize = 0;
    let mut i: usize = 0;
    proof {
        assert(fns@.map_values(|x: usize| x as int) =~= Seq::<int>::empty());
        assert(attrs@.map_values(|x: usize| x as int) =~= Seq::<int>::empty());
        assert(fn_sites(s@) =~= fns@.map_values(|x: usize| x as int) + fn_sites_from(s@, 0));
        assert(attr_sites(s@) =~= attrs@.map_values(|x: usize| x as int) + attr_sites_from(s@, 0));
    }
    while i < s_len
        invariant
            s_len == s@.len(),
            0 <= i <= s_len,
            d <= i,
            d as int == brace_depth(s@, i as int),
            braces_balanced(s@),
            fn_sites(s@) == fns@.map_values(|x: usize| x as int) + fn_sites_from(s@, i as int),
            attr_sites(s@) == attrs@.map_values(|x: usize| x as int) + attr_sites_from(
                s@,
                i as int,
            ),
        decreases s_len - i,
    {
        let c = s.get_char(i);
        let mut fn_hit = false;
        let mut attr_hit = false;
        if d == 0 && i + 1 < s_len {
            if c == 'f' {
                if s.get_char(i + 1) == 'n' {
                    let prev_ok = i == 0 || !is_ident_char(s.get_char(i - 1));
                    let next_ok = i + 2 == s_len || !is_ident_char(s.get_char(i + 2));
                    if prev_ok && next_ok {
                        fn_hit = true;
                    }
                }
            } else if c == '#' {
                if s.get_char(i + 1) == '[' {
                    attr_hit = true;
                }
            }
        }
        assert(fn_hit == is_fn_site(s@, i as int));
        assert(attr_hit == is_attr_site(s@, i as int));
        let ghost old_fns = fns@;
        let ghost old_attrs = attrs@;
        if fn_hit {
            fns.push(i);
            proof {
                assert(fns@.map_values(|x: usize| x as int) =~= old_fns.map_values(
                    |x: usize| x as int,
                ) + seq![i as int]);
            }
        }
        if attr_hit {
            attrs.push(i);
            proof {
                assert(attrs@.map_values(|x: usize| x as int) =~= old_attrs.map_values(
                    |x: usize| x as int,
                ) + seq![i as int]);
            }
        }
        proof {
            if fn_hit {
                assert(fn_sites_from(s@, i as int) =~= seq![i as int] + fn_sites_from(
                    s@,
                    i + 1,
                ));
            } else {
                assert(fn_sites_from(s@, i as int) =~= fn_sites_from(s@, i + 1));
            }
            if attr_hit {
                assert(attr_sites_from(s@, i as int) =~= seq![i as int] + attr_sites_from(
                    s@,
                    i + 1,
                ));
            } else {
                assert(attr_sites_from(s@, i as int) =~= attr_sites_from(s@, i + 1));
            }
        }
        if c == '{' {
            d = d + 1;
        } else if c == '}' {
            assert(brace_depth(s@, i + 1) >= 0);
            d = d - 1;
        }
        i = i + 1;
    }
    proof {
        assert(fn_sites_from(s@, i as int) =~= Seq::<int>::empty());
        assert(attr_sites_from(s@, i as int) =~= Seq::<int>::empty());
        assert(fns@.map_values(|x: usize| x as int) =~= fns@.map_values(|x: usize| x as int)
            + fn_sites_from(s@, i as int));
        assert(attrs@.map_values(|x: usize| x as int) =~= attrs@.map_values(|x: usize| x as int)
            + attr_sites_from(s@, i as int));
    }
    (fns, attrs)
}

/// Build the parameter declared in `[lo, hi)`, if any.
fn param_piece(s: &str, s_len: usize, lo: usize, hi: usize) -> (r: Option<crate::tree::Param>)
    requires
        s_len == s@.len(),
        lo <= hi <= s_len,
    ensures
        match r {
            Some(p) => param_of(s@, lo as int, hi as int) == seq![p@] && p@.wf(),
            None => param_of(s@, lo as int, hi as int) == Seq::<ParamV>::empty(),
        },
{
    broadcast use lemma_find_to_bounds;

    let a = skip_ws_sp(s, s_len, lo, hi);
    if a >= hi {
        return None;
    }
    match find_to_sp(s, s_len, a, hi, ':') {
        Some(c) => {
            let name_end = trim_end_sp(s, s_len, a, c);
            let ty_start = skip_ws_sp(s, s_len, c + 1, hi);
            let ty_end = trim_end_sp(s, s_len, c + 1, hi);
            let name = s.substring_char(a, name_end).to_owned();
            let ty = if ty_start < ty_end {
                s.substring_char(ty_start, ty_end).to_owned()
            } else {
                String::new()
            };
            let (line, column) = line_col_at(s, s_len, a);
            let p = crate::tree::Param { name, ty, line, column };
            proof {
                assert(seg(s@, a as int, name_end as int) == s@.subrange(a as int, name_end as int));
                if ty_start < ty_end {
                    assert(seg(s@, ty_start as int, ty_end as int) == s@.subrange(
                        ty_start as int,
                        ty_end as int,
                    ));
                }
            }
            Some(p)
        },
        None => None,
    }
}

/// Build all parameters declared in `[lo, hi)`.
fn parse_params_exec(s: &str, s_len: usize, lo: usize, hi: usize) -> (r: Vec<crate::tree::Param>)
    requires
        s_len == s@.len(),
        lo <= hi <= s_len,
    ensures
        r@.map_values(|p: crate::tree::Param| p@) == parse_params_spec(s@, lo as int, hi as int),
        forall|i: int| 0 <= i < r@.len() ==> (#[trigger] r@[i]@).wf(),
{
    broadcast use lemma_next_comma_bounds;

    let mut out: Vec<crate::tree::Param> = Vec::new();
    let mut cur: usize = lo;
    proof {
        assert(out@.map_values(|p: crate::tree::Param| p@) =~= Seq::<ParamV>::empty());
    }
    loop
        invariant
            s_len == s@.len(),
            lo <= cur <= hi <= s_len,
            parse_params_spec(s@, lo as int, hi as int) == out@.map_values(
                |p: crate::tree::Param| p@,
            ) + parse_params_spec(s@, cur as int, hi as int),
            forall|i: int| 0 <= i < out@.len() ==> (#[trigger] out@[i]@).wf(),
        decreases hi - cur + 1,
    {
        if cur >= hi {
            proof {
                assert(parse_params_spec(s@, cur as int, hi as int) =~= Seq::<ParamV>::empty());
                assert(out@.map_values(|p: crate::tree::Param| p@) =~= out@.map_values(
                    |p: crate::tree::Param| p@,
                ) + parse_params_spec(s@, cur as int, hi as int));
            }
            return out;
        }
        let ghost old_map = out@.map_values(|p: crate::tree::Param| p@);
        match next_comma_sp(s, s_len, cur, hi) {
            Some(c) => {
                proof {
                    assert(next_comma(s@, cur as int, hi as int, 0) == Some(c as int));
                    lemma_next_comma_bounds(s@, cur as int, hi as int, 0);
                }
                match param_piece(s, s_len, cur, c) {
                    Some(p) => {
                        out.push(p);
                        proof {
                            assert(out@.map_values(|q: crate::tree::Param| q@) =~= old_map
                                + param_of(s@, cur as int, c as int));
                        }
                    },
                    None => {
                        proof {
                            assert(out@.map_values(|q: crate::tree::Param| q@) =~= old_map
                                + param_of(s@, cur as int, c as int));
                        }
                    },
                }
                cur = c + 1;
            },
            None => {
                match param_piece(s, s_len, cur, hi) {
                    Some(p) => {
                        out.push(p);
                        proof {
                            assert(out@.map_values(|q: crate::tree::Param| q@) =~= old_map
                                + param_of(s@, cur as int, hi as int));
                        }
                    },
                    None => {
                        proof {
                            assert(out@.map_values(|q: crate::tree::Param| q@) =~= old_map
                                + param_of(s@, cur as int, hi as int));
                        }
                    },
                }
                return out;
            },
        }
    }
}

/// Build the statements of the body segment `[lo, hi)`.
fn parse_stmts_exec(s: &str, s_len: usize, lo: usize, hi: usize) -> (r: Vec<
    crate::tree::StmtDecl,
>)
    requires
        s_len == s@.len(),
        lo <= hi <= s_len,
    ensures
        r@.map_values(|st: crate::tree::StmtDecl| st@) == parse_stmts_spec(
            s@,
            lo as int,
            hi as int,
        ),
        forall|i: int| 0 <= i < r@.len() ==> (#[trigger] r@[i]@).wf(),
{
    broadcast use lemma_find_to_bounds;

    let mut out: Vec<crate::tree::StmtDecl> = Vec::new();
    let mut cur: usize = lo;
    proof {
        assert(out@.map_values(|st: crate::tree::StmtDecl| st@) =~= Seq::<StmtV>::empty());
    }
    loop
        invariant
            s_len == s@.len(),
            lo <= cur <= hi <= s_len,
            parse_stmts_spec(s@, lo as int, hi as int) == out@.map_values(
                |st: crate::tree::StmtDecl| st@,
            ) + parse_stmts_spec(s@, cur as int, hi as int),
            forall|i: int| 0 <= i < out@.len() ==> (#[trigger] out@[i]@).wf(),
        decreases hi - cur + 1,
    {
        if cur >= hi {
            proof {
                assert(parse_stmts_spec(s@, cur as int, hi as int) =~= Seq::<StmtV>::empty());
                assert(out@.map_values(|st: crate::tree::StmtDecl| st@) =~= out@.map_values(
                    |st: crate::tree::StmtDecl| st@,
                ) + parse_stmts_spec(s@, cur as int, hi as int));
            }
            return out;
        }
        let a = skip_ws_sp(s, s_len, cur, hi);
        if a >= hi {
            proof {
                assert(parse_stmts_spec(s@, cur as int, hi as int) =~= Seq::<StmtV>::empty());
                assert(out@.map_values(|st: crate::tree::StmtDecl| st@) =~= out@.map_values(
                    |st: crate::tree::StmtDecl| st@,
                ) + parse_stmts_spec(s@, cur as int, hi as int));
            }
            return out;
        }
        let ghost old_map = out@.map_values(|st: crate::tree::StmtDecl| st@);
        let (line, column) = line_col_at(s, s_len, a);
        match find_to_sp(s, s_len, a, hi, ';') {
            Some(m) => {
                proof {
                    assert(find_to_spec(s@, a as int, hi as int, ';') == Some(m as int));
                    lemma_find_to_bounds(s@, a as int, hi as int, ';');
                }
                let text = s.substring_char(a, m + 1).to_owned();
                let st = crate::tree::StmtDecl { text, line, column };
                proof {
                    assert(seg(s@, a as int, m + 1) == s@.subrange(a as int, m + 1));
                }
                out.push(st);
                proof {
                    assert(out@.map_values(|q: crate::tree::StmtDecl| q@) =~= old_map + seq![
                        StmtV {
                            text: seg(s@, a as int, m + 1),
                            line: line_at(s@, a as int),
                            column: col_at(s@, a as int),
                        },
                    ]);
                }
                cur = m + 1;
            },
            None => {
                let e = trim_end_sp(s, s_len, a, hi);
                let text = s.substring_char(a, e).to_owned();
                let st = crate::tree::StmtDecl { text, line, column };
                proof {
                    assert(seg(s@, a as int, e as int) == s@.subrange(a as int, e as int));
                }
                out.push(st);
                proof {
                    assert(out@.map_values(|q: crate::tree::StmtDecl| q@) =~= old_map + seq![
                        StmtV {
                            text: seg(s@, a as int, trim_end_spec(s@, a as int, hi as int)),
                            line: line_at(s@, a as int),
                            column: col_at(s@, a as int),
                        },
                    ]);
                }
                return out;
            },
        }
    }
}

/// The left bound an optional previous site stands for: one before the
/// text's start when there is none.
pub open spec fn prev_bound(prev: Option<usize>) -> int {
    match prev {
        Some(p) => p as int,
        None => -1,
    }
}

/// Collect the attributes lying strictly between the previous site and `hi`.
fn attrs_pick(s: &str, s_len: usize, sites: &Vec<usize>, prev: Option<usize>, hi: usize) -> (r:
    Vec<crate::tree::AttrDecl>)
    requires
        s_len == s@.len(),
        sites@.map_values(|x: usize| x as int) == attr_sites(s@),
        hi <= s_len,
    ensures
        r@.map_values(|a: crate::tree::AttrDecl| a@) == attrs_between(
            s@,
            attr_sites(s@),
            prev_bound(prev),
            hi as int,
        ),
        forall|i: int| 0 <= i < r@.len() ==> (#[trigger] r@[i]@).wf(),
{
    let mut out: Vec<crate::tree::AttrDecl> = Vec::new();
    let mut j: usize = 0;
    proof {
        lemma_attr_sites_elems(s@, 0);
        assert(out@.map_values(|a: crate::tree::AttrDecl| a@) =~= Seq::<AttrV>::empty());
        assert(attr_sites(s@).skip(0) =~= attr_sites(s@));
    }
    while j < sites.len()
        invariant
            s_len == s@.len(),
            sites@.map_values(|x: usize| x as int) == attr_sites(s@),
            hi <= s_len,
            0 <= j <= sites@.len(),
            forall|k: int|
                0 <= k < attr_sites(s@).len() ==> is_attr_site(s@, #[trigger] attr_sites(s@)[k]),
            attrs_between(s@, attr_sites(s@), prev_bound(prev), hi as int) == out@.map_values(
                |a: crate::tree::AttrDecl| a@,
            ) + attrs_between(s@, attr_sites(s@).skip(j as int), prev_bound(prev), hi as int),
            forall|i: int| 0 <= i < out@.len() ==> (#[trigger] out@[i]@).wf(),
        decreases sites@.len() - j,
    {
        let site = sites[j];
        let ghost tail = attr_sites(s@).skip(j as int);
        proof {
            assert(tail[0] == attr_sites(s@)[j as int]);
            assert(attr_sites(s@)[j as int] == site as int);
            assert(is_attr_site(s@, site as int));
            assert(tail.skip(1) =~= attr_sites(s@).skip(j + 1));
        }
        let ghost old_map = out@.map_values(|a: crate::tree::AttrDecl| a@);
        let prev_ok = match prev {
            Some(p) => p < site,
            None => true,
        };
        let in_range = prev_ok && site < hi;
        if in_range {
            let end: usize = match match_close_sp(s, s_len, site + 2, '[', ']') {
                Some(e) => {
                    proof {
                        assert(match_close_from(s@, site + 2, 0, '[', ']') == Some(e as int));
                        lemma_match_close_bounds(s@, site + 2, 0, '[', ']');
                    }
                    e + 1
                },
                None => {
                    match find_char_sp(s, s_len, site, '\n') {
                        Some(n) => {
                            proof {
                                assert(find_from_spec(s@, site as int, '\n') == Some(n as int));
                                lemma_find_from_bounds(s@, site as int, '\n');
                            }
                            n
                        },
                        None => s_len,
                    }
                },
            };
            assert(end as int == attr_end(s@, site as int));
            let text = s.substring_char(site, end).to_owned();
            let (line, column) = line_col_at(s, s_len, site);
            out.push(crate::tree::AttrDecl { text, line, column });
            proof {
                assert(seg(s@, site as int, end as int) == s@.subrange(site as int, end as int));
                assert(out@.map_values(|a: crate::tree::AttrDecl| a@) =~= old_map + seq![
                    attr_of(s@, site as int),
                ]);
                assert(attrs_between(s@, tail, prev_bound(prev), hi as int) == seq![
                    attr_of(s@, site as int),
                ] + attrs_between(s@, attr_sites(s@).skip(j + 1), prev_bound(prev), hi as int));
            }
        } else {
            proof {
                assert(!(prev_bound(prev) < site as int && (site as int) < hi as int));
                assert(attrs_between(s@, tail, prev_bound(prev), hi as int) =~= attrs_between(
                    s@,
                    attr_sites(s@).skip(j + 1),
                    prev_bound(prev),
                    hi as int,
                ));
            }
        }
        j = j + 1;
    }
    proof {
        assert(attr_sites(s@).skip(j as int) =~= Seq::<int>::empty());
        assert(attrs_between(s@, attr_sites(s@).skip(j as int), prev_bound(prev), hi as int)
            =~= Seq::<AttrV>::empty());
        assert(out@.map_values(|a: crate::tree::AttrDecl| a@) =~= out@.map_values(
            |a: crate::tree::AttrDecl| a@,
        ) + attrs_between(s@, attr_sites(s@).skip(j as int), prev_bound(prev), hi as int));
    }
    out
}

/// Build the declaration whose `fn` keyword stands at `site`.
fn build_fn_exec(
    s: &str,
    s_len: usize,
    asites: &Vec<usize>,
    prev: Option<usize>,
    site: usize,
) -> (f: crate::tree::FnDecl)
    requires
        s_len == s@.len(),
        asites@.map_values(|x: usize| x as int) == attr_sites(s@),
        is_fn_site(s@, site as int),
    ensures
        f@ == build_fn(s@, prev_bound(prev), site as int),
        f@.wf(),
{
    let n0 = skip_ws_sp(s, s_len, site + 2, s_len);
    let n1 = ident_end_sp(s, s_len, n0);
    let name = s.substring_char(n0, n1).to_owned();
    let popen = find_char_sp(s, s_len, n1, '(');
    let mut sig_end: usize = n1;
    let mut params: Vec<crate::tree::Param> = Vec::new();
    proof {
        assert(params@.map_values(|p: crate::tree::Param| p@) =~= Seq::<ParamV>::empty());
    }
    match popen {
        Some(p) => {
            proof {
                assert(find_from_spec(s@, n1 as int, '(') == Some(p as int));
                lemma_find_from_bounds(s@, n1 as int, '(');
            }
            match match_close_sp(s, s_len, p + 1, '(', ')') {
                Some(q) => {
                    proof {
                        assert(match_close_from(s@, p + 1, 0, '(', ')') == Some(q as int));
                        lemma_match_close_bounds(s@, p + 1, 0, '(', ')');
                    }
                    sig_end = q + 1;
                    params = parse_params_exec(s, s_len, p + 1, q);
                },
                None => {
                    sig_end = p + 1;
                },
            }
        },
        None => {
            sig_end = n1;
        },
    }
    let sig_text = s.substring_char(site, sig_end).to_owned();
    let mut stmts: Vec<crate::tree::StmtDecl> = Vec::new();
    proof {
        assert(stmts@.map_values(|st: crate::tree::StmtDecl| st@) =~= Seq::<StmtV>::empty());
    }
    match find_char_sp(s, s_len, sig_end, '{') {
        Some(b) => {
            proof {
                assert(find_from_spec(s@, sig_end as int, '{') == Some(b as int));
                lemma_find_from_bounds(s@, sig_end as int, '{');
            }
            match match_close_sp(s, s_len, b + 1, '{', '}') {
                Some(e) => {
                    proof {
                        assert(match_close_from(s@, b + 1, 0, '{', '}') == Some(e as int));
                        lemma_match_close_bounds(s@, b + 1, 0, '{', '}');
                    }
                    stmts = parse_stmts_exec(s, s_len, b + 1, e);
                },
                None => {},
            }
        },
        None => {},
    }
    let attrs = attrs_pick(s, s_len, asites, prev, site);
    let (line, column) = line_col_at(s, s_len, site);
    let f = crate::tree::FnDecl { name, sig_text, attrs, params, stmts, line, column };
    proof {
        assert(seg(s@, n0 as int, n1 as int) == s@.subrange(n0 as int, n1 as int));
        assert(seg(s@, site as int, sig_end as int) == s@.subrange(site as int, sig_end as int));
    }
    f
}

/// Parse one source file into its syntax tree.
///
/// The file is accepted exactly when its braces balance; the tree then
/// is the structural scan of the text, every recorded position 1-based
/// and real.
pub fn parse_source(path: &str, content: &str) -> (r: Result<crate::tree::SyntaxTree, ParseError>)
    ensures
        r is Ok <==> braces_balanced(content@),
        r matches Ok(t) ==> t@ == spec_parse(path@, content@),
        r matches Ok(t) ==> t@.wf(),
        r matches Err(e) ==> e.file@ == path@ && e.message@ == "unbalanced braces in source"@,
{
    if !check_braces(content) {
        return Err(
            ParseError {
                file: path.to_owned(),
                message: "unbalanced braces in source".to_owned(),
            },
        );
    }
    let s_len = content.unicode_len();
    let (fsites, asites) = scan_sites(content, s_len);
    proof {
        lemma_fn_sites_elems(content@, 0);
    }
    let mut functions: Vec<crate::tree::FnDecl> = Vec::new();
    let mut k: usize = 0;
    let mut prev: Option<usize> = None;
    proof {
        assert(functions@.map_values(|f: crate::tree::FnDecl| f@) =~= Seq::<FnDeclV>::empty());
        assert(fn_sites(content@).skip(0) =~= fn_sites(content@));
    }
    while k < fsites.len()
        invariant
            s_len == content@.len(),
            fsites@.map_values(|x: usize| x as int) == fn_sites(content@),
            asites@.map_values(|x: usize| x as int) == attr_sites(content@),
            0 <= k <= fsites@.len(),
            forall|j: int|
                0 <= j < fn_sites(content@).len() ==> is_fn_site(
                    content@,
                    #[trigger] fn_sites(content@)[j],
                ),
            prev_bound(prev) == if k == 0 {
                -1int
            } else {
                fn_sites(content@)[k - 1]
            },
            build_fns(content@, fn_sites(content@), -1) == functions@.map_values(
                |f: crate::tree::FnDecl| f@,
            ) + build_fns(content@, fn_sites(content@).skip(k as int), prev_bound(prev)),
            forall|j: int| 0 <= j < functions@.len() ==> (#[trigger] functions@[j]@).wf(),
        decreases fsites@.len() - k,
    {
        let site = fsites[k];
        let ghost tail = fn_sites(content@).skip(k as int);
        proof {
            assert(tail[0] == fn_sites(content@)[k as int]);
            assert(fn_sites(content@)[k as int] == site as int);
            assert(is_fn_site(content@, site as int));
            assert(tail.skip(1) =~= fn_sites(content@).skip(k + 1));
        }
        let ghost old_map = functions@.map_values(|f: crate::tree::FnDecl| f@);
        let f = build_fn_exec(content, s_len, &asites, prev, site);
        functions.push(f);
        proof {
            assert(functions@.map_values(|g: crate::tree::FnDecl| g@) =~= old_map + seq![
                build_fn(content@, prev_bound(prev), site as int),
            ]);
            assert(build_fns(content@, tail, prev_bound(prev)) == seq![
                build_fn(content@, prev_bound(prev), site as int),
            ] + build_fns(content@, fn_sites(content@).skip(k + 1), site as int));
        }
        prev = Some(site);
        k = k + 1;
    }
    proof {
        assert(fn_sites(content@).skip(k as int) =~= Seq::<int>::empty());
        assert(build_fns(content@, fn_sites(content@).skip(k as int), prev_bound(prev)) =~= Seq::<
            FnDeclV,
        >::empty());
        assert(functions@.map_values(|f: crate::tree::FnDecl| f@) =~= functions@.map_values(
            |f: crate::tree::FnDecl| f@,
        ) + build_fns(content@, fn_sites(content@).skip(k as int), prev_bound(prev)));
    }
    let t = crate::tree::SyntaxTree { file: path.to_owned(), functions };
    Ok(t)
}

} // verus!
