//! Records of the file index as the store hands them over.
use vstd::prelude::*;
use vstd::string::{StringExecFns, StringSliceAdditionalSpecFns};
use vstd::utf8::{encode_utf8, encode_utf8_valid_utf8, is_char_boundary_iff_not_is_continuation_byte};
use crate::text::{chars_of, is_space, is_white_space, text_of_chars};

verus! {

/// An indexed file or folder.
#[derive(Clone, Debug)]
pub struct FileEntry {
    pub id: i64,
    /// The path in the shared tree, "/" for the root.
    pub path: String,
    pub name: String,
    pub is_folder: bool,
    pub size: i64,
    pub type_code: Option<String>,
    pub creator_code: Option<String>,
    pub comment: Option<String>,
    pub created_at: i64,
    pub modified_at: i64,
    pub physical_path: String,
}

/// The length of the first `n` bytes without their trailing slashes.
pub open spec fn trimmed_len(b: Seq<u8>, n: int) -> int
    decreases n,
{
    if n > 0 && b[n - 1] == 47 {
        trimmed_len(b, n - 1)
    } else {
        n
    }
}

/// The position of the last slash among the first `n` bytes.
pub open spec fn last_slash(b: Seq<u8>, n: int) -> Option<int>
    decreases n,
{
    if n <= 0 {
        None
    } else if b[n - 1] == 47 {
        Some(n - 1)
    } else {
        last_slash(b, n - 1)
    }
}

/// The bytes of the parent path: none for the root "/"; otherwise the path
/// without trailing slashes, cut before its last slash, or "/" when it has none.
pub open spec fn parent_bytes(b: Seq<u8>) -> Option<Seq<u8>> {
    if b == seq![47u8] {
        None
    } else {
        match last_slash(b, trimmed_len(b, b.len() as int)) {
            Some(p) => Some(b.take(p)),
            None => Some(seq![47u8]),
        }
    }
}

impl FileEntry {
    /// The path of the folder holding this entry.
    pub fn parent_path(&self) -> (r: Option<String>)
        ensures
            r.is_some() == parent_bytes(encode_utf8(self.path@)).is_some(),
            r matches Some(p) ==> parent_bytes(encode_utf8(self.path@)) == Some(encode_utf8(p@)),
    {
        let text = self.path.as_str();
        let b = text.as_bytes();
        if b.len() == 1 && b[0] == 47 {
            assert(b@ =~= seq![47u8]);
            return None;
        }
        assert(b@ != seq![47u8]);
        proof {
            assert(b@ == encode_utf8(self.path@));
        }
        let mut n = b.len();
        while n > 0 && b[n - 1] == 47
            invariant
                n <= b@.len(),
                trimmed_len(b@, b@.len() as int) == trimmed_len(b@, n as int),
            decreases n,
        {
            n -= 1;
        }
        assert(trimmed_len(b@, n as int) == n);
        let mut i = n;
        while i > 0
            invariant
                i <= n <= b@.len(),
                b@ == encode_utf8(self.path@),
                b@ == text.spec_bytes(),
                b@ != seq![47u8],
                trimmed_len(b@, b@.len() as int) == n,
                last_slash(b@, n as int) == last_slash(b@, i as int),
            decreases i,
        {
            if b[i - 1] == 47 {
                let pos = i - 1;
                proof {
                    encode_utf8_valid_utf8(self.path@);
                    is_char_boundary_iff_not_is_continuation_byte(b@, pos as int);
                }
                let (head, _) = text.split_at(pos);
                let r = <String as StringExecFns>::from_str(head);
                proof {
                    vstd::utf8::encode_utf8_decode_utf8(r@);
                }
                assert(head.spec_bytes() =~= b@.take(pos as int));
                return Some(r);
            }
            i -= 1;
        }
        let root = <String as StringExecFns>::from_str("/");
        proof {
            reveal_strlit("/");
            assert(encode_utf8(root@) =~= seq![47u8]) by {
                vstd::utf8::is_ascii_chars_encode_utf8(root@);
            }
        }
        Some(root)
    }
}

/// What `str::lines` makes of a text.
pub uninterp spec fn lines_of(s: Seq<char>) -> Seq<Seq<char>>;

/// Relies on `str::lines`: the lines of a text, split at line feeds, a
/// carriage return before a line feed dropped; the result depends on the
/// text alone.
#[verifier::external_body]
fn text_lines(s: &str) -> (r: Vec<String>)
    ensures
        r@.map_values(|l: String| l@) == lines_of(s@),
{
    s.lines().map(|l| l.to_string()).collect()
}

/// Where the text starts once leading white space is skipped, from `i` on.
pub open spec fn first_non_space(s: Seq<char>, i: int) -> int
    decreases s.len() - i,
{
    if i >= s.len() || !is_white_space(s[i]) {
        i
    } else {
        first_non_space(s, i + 1)
    }
}

/// Where the text ends once trailing white space is dropped, from `j` down.
pub open spec fn last_non_space(s: Seq<char>, j: int) -> int
    decreases j,
{
    if j <= 0 || !is_white_space(s[j - 1]) {
        j
    } else {
        last_non_space(s, j - 1)
    }
}

/// A text without its leading and trailing white space.
pub open spec fn trim(s: Seq<char>) -> Seq<char> {
    let a = first_non_space(s, 0);
    if a >= s.len() {
        Seq::empty()
    } else {
        s.subrange(a, last_non_space(s, s.len() as int))
    }
}

proof fn lemma_first_non_space(s: Seq<char>, i: int)
    requires
        0 <= i <= s.len(),
    ensures
        i <= first_non_space(s, i) <= s.len(),
        first_non_space(s, i) < s.len() ==> !is_white_space(s[first_non_space(s, i)]),
    decreases s.len() - i,
{
    if i < s.len() && is_white_space(s[i]) {
        lemma_first_non_space(s, i + 1);
    }
}

proof fn lemma_last_non_space(s: Seq<char>, j: int, a: int)
    requires
        0 <= a < j <= s.len(),
        !is_white_space(s[a]),
    ensures
        a < last_non_space(s, j) <= j,
    decreases j,
{
    if j > 0 && is_white_space(s[j - 1]) {
        lemma_last_non_space(s, j - 1, a);
    }
}

fn trim_chars(v: &Vec<char>) -> (r: Vec<char>)
    ensures
        r@ == trim(v@),
{
    let n = v.len();
    let mut a: usize = 0;
    while a < n && is_space(v[a])
        invariant
            a <= n == v@.len(),
            first_non_space(v@, 0) == first_non_space(v@, a as int),
        decreases n - a,
    {
        a += 1;
    }
    if a >= n {
        return Vec::new();
    }
    let mut b: usize = n;
    proof {
        lemma_last_non_space(v@, n as int, a as int);
    }
    while b > 0 && is_space(v[b - 1])
        invariant
            a < b <= n == v@.len(),
            !is_white_space(v@[a as int]),
            last_non_space(v@, n as int) == last_non_space(v@, b as int),
        decreases b,
    {
        b -= 1;
    }
    let mut out: Vec<char> = Vec::new();
    let mut k = a;
    while k < b
        invariant
            a <= k <= b <= n == v@.len(),
            out@ == v@.subrange(a as int, k as int),
        decreases b - k,
    {
        out.push(v[k]);
        k += 1;
        assert(out@ =~= v@.subrange(a as int, k as int));
    }
    out
}

/// A comment line starts with two dashes.
pub open spec fn dash_dash(s: Seq<char>) -> bool {
    s.len() >= 2 && s[0] == '-' && s[1] == '-'
}

fn starts_with_dash_dash(v: &Vec<char>) -> (r: bool)
    ensures
        r == dash_dash(v@),
{
    v.len() >= 2 && v[0] == '-' && v[1] == '-'
}

/// The state of the statement splitter: statements found, the statement
/// being read, and whether a quoted string (opened by `quote`) is open.
pub ghost struct SplitState {
    pub statements: Seq<Seq<char>>,
    pub current: Seq<char>,
    pub in_string: bool,
    pub quote: char,
}

/// A statement is kept when, trimmed, it is not empty and not a comment.
pub open spec fn keep(statements: Seq<Seq<char>>, stmt: Seq<char>) -> Seq<Seq<char>> {
    let t = trim(stmt);
    if t.len() > 0 && !dash_dash(t) {
        statements.push(t)
    } else {
        statements
    }
}

/// One character: inside a string everything is kept until the closing
/// quote; outside, a quote opens a string and a semicolon ends a statement.
pub open spec fn split_char(st: SplitState, ch: char) -> SplitState {
    if st.in_string {
        SplitState { current: st.current.push(ch), in_string: ch != st.quote, ..st }
    } else if ch == '\'' || ch == '"' {
        SplitState { current: st.current.push(ch), in_string: true, quote: ch, ..st }
    } else if ch == ';' {
        SplitState { statements: keep(st.statements, st.current), current: Seq::empty(), ..st }
    } else {
        SplitState { current: st.current.push(ch), ..st }
    }
}

pub open spec fn split_chars(st: SplitState, cs: Seq<char>) -> SplitState
    decreases cs.len(),
{
    if cs.len() == 0 {
        st
    } else {
        split_char(split_chars(st, cs.drop_last()), cs.last())
    }
}

/// One line: a comment line is skipped; after any other line a line break
/// is added to an unfinished statement that holds more than white space.
pub open spec fn split_line(st: SplitState, line: Seq<char>) -> SplitState {
    if dash_dash(trim(line)) {
        st
    } else {
        let s2 = split_chars(st, line);
        if trim(s2.current).len() > 0 {
            SplitState { current: s2.current.push('\n'), ..s2 }
        } else {
            s2
        }
    }
}

pub open spec fn split_lines(st: SplitState, ls: Seq<Seq<char>>) -> SplitState
    decreases ls.len(),
{
    if ls.len() == 0 {
        st
    } else {
        split_line(split_lines(st, ls.drop_last()), ls.last())
    }
}

/// The statements of an SQL script, trimmed, without comment lines and
/// empty statements; semicolons inside quoted strings do not end a statement.
pub open spec fn sql_statements(sql: Seq<char>) -> Seq<Seq<char>> {
    statements_of(lines_of(sql))
}

/// The statements of an SQL script given as its lines.
pub open spec fn statements_of(ls: Seq<Seq<char>>) -> Seq<Seq<char>> {
    let init = SplitState { statements: Seq::empty(), current: Seq::empty(), in_string: false, quote: ' ' };
    let end = split_lines(init, ls);
    keep(end.statements, end.current)
}

fn keep_statement(statements: &mut Vec<String>, current: &Vec<char>)
    ensures
        final(statements)@.map_values(|x: String| x@) == keep(old(statements)@.map_values(|x: String| x@), current@),
{
    let t = trim_chars(current);
    if t.len() > 0 && !starts_with_dash_dash(&t) {
        let ghost before = statements@.map_values(|x: String| x@);
        let s = text_of_chars(&t);
        statements.push(s);
        assert(statements@.map_values(|x: String| x@) =~= before.push(t@));
    }
}

/// Splits an SQL script into its statements.
pub fn parse_sql_statements(sql: &str) -> (r: Vec<String>)
    ensures
        r@.map_values(|x: String| x@) == sql_statements(sql@),
{
    let lines = text_lines(sql);
    statements_of_lines(&lines)
}

/// Splits an SQL script, given as its lines, into its statements.
pub fn statements_of_lines(lines: &Vec<String>) -> (r: Vec<String>)
    ensures
        r@.map_values(|x: String| x@) == statements_of(lines@.map_values(|l: String| l@)),
{
    let ghost ls = lines@.map_values(|l: String| l@);
    let ghost init = SplitState { statements: Seq::empty(), current: Seq::empty(), in_string: false, quote: ' ' };
    let mut statements: Vec<String> = Vec::new();
    let mut current: Vec<char> = Vec::new();
    let mut in_string = false;
    let mut quote = ' ';
    let mut li: usize = 0;
    assert(ls.take(0) =~= Seq::<Seq<char>>::empty());
    assert(statements@.map_values(|x: String| x@) =~= Seq::<Seq<char>>::empty());
    while li < lines.len()
        invariant
            li <= lines@.len(),
            lines@.map_values(|l: String| l@) == ls,
            split_lines(init, ls.take(li as int)) == (SplitState {
                statements: statements@.map_values(|x: String| x@),
                current: current@,
                in_string,
                quote,
            }),
        decreases lines@.len() - li,
    {
        let line = chars_of(lines[li].as_str());
        assert(line@ == ls[li as int]);
        assert(ls.take(li + 1).drop_last() =~= ls.take(li as int));
        let trimmed = trim_chars(&line);
        if !starts_with_dash_dash(&trimmed) {
            let ghost st0 = SplitState {
                statements: statements@.map_values(|x: String| x@),
                current: current@,
                in_string,
                quote,
            };
            let mut ci: usize = 0;
            assert(line@.take(0) =~= Seq::<char>::empty());
            while ci < line.len()
                invariant
                    ci <= line@.len(),
                    split_chars(st0, line@.take(ci as int)) == (SplitState {
                        statements: statements@.map_values(|x: String| x@),
                        current: current@,
                        in_string,
                        quote,
                    }),
                decreases line@.len() - ci,
            {
                let ch = line[ci];
                assert(line@.take(ci + 1).drop_last() =~= line@.take(ci as int));
                assert(line@.take(ci + 1).last() == ch);
                if in_string {
                    current.push(ch);
                    if ch == quote {
                        in_string = false;
                    }
                } else if ch == '\'' || ch == '"' {
                    in_string = true;
                    quote = ch;
                    current.push(ch);
                } else if ch == ';' {
                    keep_statement(&mut statements, &current);
                    current = Vec::new();
                    assert(current@ =~= Seq::<char>::empty());
                } else {
                    current.push(ch);
                }
                ci += 1;
            }
            assert(line@.take(line@.len() as int) =~= line@);
            let t = trim_chars(&current);
            if t.len() > 0 {
                current.push('\n');
            }
        }
        li += 1;
    }
    assert(ls.take(lines@.len() as int) =~= ls);
    keep_statement(&mut statements, &current);
    statements
}

} // verus!
