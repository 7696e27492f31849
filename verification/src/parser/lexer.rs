//! Tokenizer for the PostScript-like PGF drawing language inside `.ai` files.
use vstd::prelude::*;

use crate::error::{Error, Result};
use crate::text::{chars_of, is_ascii_digit, is_ascii_hexdigit, lossy_utf8, push_char, string_of, string_of_range, utf8_lossy};

verus! {

/// Most tokens that one call of [`tokenize`] hands back, the final
/// end-of-input token included.
pub const MAX_TOKEN_COUNT: usize = 10_000_000;

#[derive(Debug, Clone, Copy, PartialEq, Eq, Structural)]
pub enum TokenType {
    Number,
    String,
    Operator,
    Comment,
    PseudoComment,
    ArrayStart,
    ArrayEnd,
    Name,
    Eof,
}

#[derive(Debug, Clone)]
pub struct Token {
    pub token_type: TokenType,
    pub value: String,
    pub line: usize,
    pub col: usize,
}

/// A token as a mathematical value: kind, text, line and column.
pub type TokenModel = (TokenType, Seq<char>, int, int);

impl Token {
    pub open spec fn model(&self) -> TokenModel {
        (self.token_type, self.value@, self.line as int, self.col as int)
    }
}

/// The models of a sequence of tokens.
pub open spec fn models(ts: Seq<Token>) -> Seq<TokenModel> {
    Seq::new(ts.len(), |i: int| ts[i].model())
}

// ---------------------------------------------------------------------------
// The token grammar, over the characters `s` of the source.
// ---------------------------------------------------------------------------
/// The line (from 1) of position `p`: one more than the newlines before it.
pub open spec fn line_at(s: Seq<char>, p: int) -> int
    decreases p,
{
    if p <= 0 {
        1
    } else {
        line_at(s, p - 1) + if s[p - 1] == '\n' {
            1int
        } else {
            0int
        }
    }
}

/// The column (from 1) of position `p`: one more than the characters between
/// the last newline before it and it.
pub open spec fn col_at(s: Seq<char>, p: int) -> int
    decreases p,
{
    if p <= 0 {
        1
    } else if s[p - 1] == '\n' {
        1
    } else {
        col_at(s, p - 1) + 1
    }
}

/// Characters skipped between tokens.
pub open spec fn is_lex_space(c: char) -> bool {
    c == ' ' || c == '\t' || c == '\r' || c == '\n' || c == '\0' || c == '\x0c'
}

/// Characters that end a name or an operator.
pub open spec fn is_delim(c: char) -> bool {
    c == ' ' || c == '\t' || c == '\r' || c == '\n' || c == '(' || c == ')' || c == '[' || c
        == ']' || c == '{' || c == '}' || c == '/' || c == '<' || c == '>' || c == '%'
}

/// The first position at or after `p` that is not a space.
pub open spec fn skip_space(s: Seq<char>, p: int) -> int
    decreases s.len() - p,
{
    if 0 <= p < s.len() && is_lex_space(s[p]) {
        skip_space(s, p + 1)
    } else {
        p
    }
}

/// The first position at or after `p` that holds a delimiter, or the end.
pub open spec fn run_end(s: Seq<char>, p: int) -> int
    decreases s.len() - p,
{
    if 0 <= p < s.len() && !is_delim(s[p]) {
        run_end(s, p + 1)
    } else {
        p
    }
}

/// The first position at or after `p` that holds a line break, or the end.
pub open spec fn line_end(s: Seq<char>, p: int) -> int
    decreases s.len() - p,
{
    if 0 <= p < s.len() && s[p] != '\r' && s[p] != '\n' {
        line_end(s, p + 1)
    } else {
        p
    }
}

/// The end of a run of digits holding at most one `'.'` (one already if `dot`).
pub open spec fn digits_end(s: Seq<char>, p: int, dot: bool) -> int
    decreases s.len() - p,
{
    if 0 <= p < s.len() && ((s[p] == '.' && !dot) || is_ascii_digit(s[p])) {
        digits_end(s, p + 1, dot || s[p] == '.')
    } else {
        p
    }
}

/// The end of a number starting at `p`: an optional sign, then digits with
/// at most one decimal point.
pub open spec fn number_end(s: Seq<char>, p: int) -> int {
    let q = if 0 <= p < s.len() && (s[p] == '-' || s[p] == '+') {
        p + 1
    } else {
        p
    };
    digits_end(s, q, false)
}

/// The end of the octal digits at `p`, at most `n` of them.
pub open spec fn octal_end(s: Seq<char>, p: int, n: int) -> int
    decreases n,
{
    if n > 0 && 0 <= p < s.len() && '0' <= s[p] && s[p] <= '7' {
        octal_end(s, p + 1, n - 1)
    } else {
        p
    }
}

/// The value of a run of octal digits.
pub open spec fn octal_value(d: Seq<char>) -> int
    decreases d.len(),
{
    if d.len() == 0 {
        0
    } else {
        octal_value(d.drop_last()) * 8 + (d.last() as int - '0' as int)
    }
}

/// What a backslash followed by `c` (not an octal digit) stands for.
pub open spec fn escape_char(c: char) -> char {
    if c == 'n' {
        '\n'
    } else if c == 'r' {
        '\r'
    } else if c == 't' {
        '\t'
    } else {
        c
    }
}

/// The body of a `( ... )` string literal from position `p`, where `depth`
/// parentheses are open: its value and the position after it. Balanced
/// inner parentheses are kept; backslash escapes are decoded.
pub open spec fn string_body(s: Seq<char>, p: int, depth: int) -> (Seq<char>, int)
    decreases s.len() - p,
{
    if !(0 <= p < s.len() && depth > 0) {
        (seq![], p)
    } else {
        let ch = s[p];
        if ch == '\\' {
            if p + 1 < s.len() {
                let esc = s[p + 1];
                if '0' <= esc && esc <= '7' {
                    let q = octal_end(s, p + 2, 2);
                    proof {
                        lemma_octal_end(s, p + 2, 2);
                    }
                    let code = octal_value(s.subrange(p + 1, q));
                    let rest = string_body(s, q, depth);
                    (seq![code as char] + rest.0, rest.1)
                } else {
                    let rest = string_body(s, p + 2, depth);
                    (seq![escape_char(esc)] + rest.0, rest.1)
                }
            } else {
                (seq![], p + 1)
            }
        } else if ch == '(' {
            let rest = string_body(s, p + 1, depth + 1);
            (seq!['('] + rest.0, rest.1)
        } else if ch == ')' {
            let rest = string_body(s, p + 1, depth - 1);
            if depth - 1 > 0 {
                (seq![')'] + rest.0, rest.1)
            } else {
                rest
            }
        } else {
            let rest = string_body(s, p + 1, depth);
            (seq![ch] + rest.0, rest.1)
        }
    }
}

/// The hex digits of a `< ... >` string from position `p` up to the closing
/// `'>'`, and the position after it; other characters are skipped.
pub open spec fn hex_body(s: Seq<char>, p: int) -> (Seq<char>, int)
    decreases s.len() - p,
{
    if !(0 <= p < s.len()) {
        (seq![], p)
    } else if s[p] == '>' {
        (seq![], p + 1)
    } else if is_ascii_hexdigit(s[p]) {
        let rest = hex_body(s, p + 1);
        (seq![s[p]] + rest.0, rest.1)
    } else {
        hex_body(s, p + 1)
    }
}

pub open spec fn hex_digit_value(c: char) -> int {
    if '0' <= c && c <= '9' {
        c as int - '0' as int
    } else if 'a' <= c && c <= 'f' {
        c as int - 'a' as int + 10
    } else {
        c as int - 'A' as int + 10
    }
}

/// The bytes spelled by pairs of hex digits.
pub open spec fn hex_bytes(d: Seq<char>) -> Seq<u8> {
    Seq::new(
        (d.len() / 2) as nat,
        |i: int| (hex_digit_value(d[2 * i]) * 16 + hex_digit_value(d[2 * i + 1])) as u8,
    )
}

/// The value of a hex string whose digits are `d`: the bytes they spell,
/// read as UTF-8, when there is an even number of them, else the digits.
pub open spec fn hex_value(d: Seq<char>) -> Seq<char> {
    if d.len() % 2 == 0 {
        lossy_utf8(hex_bytes(d))
    } else {
        d
    }
}

/// A comment whose text starts with `%_` or `%AI` is a pseudo-comment.
pub open spec fn comment_type(text: Seq<char>) -> TokenType {
    if seq!['%', '_'].is_prefix_of(text) || seq!['%', 'A', 'I'].is_prefix_of(text) {
        TokenType::PseudoComment
    } else {
        TokenType::Comment
    }
}

/// An operator from `q`: the run up to the next delimiter, or the single
/// character at `q` where that run is empty.
pub open spec fn operator_end(s: Seq<char>, q: int) -> int {
    if run_end(s, q) == q {
        q + 1
    } else {
        run_end(s, q)
    }
}

/// The token that starts at `q` (a position that holds no space), if any,
/// and the position after what it consumes.
pub open spec fn token_at(s: Seq<char>, q: int) -> (Option<(TokenType, Seq<char>)>, int) {
    let ch = s[q];
    let has_next = q + 1 < s.len();
    if ch == '(' {
        let b = string_body(s, q + 1, 1);
        (Some((TokenType::String, b.0)), b.1)
    } else if ch == '/' {
        let e = run_end(s, q + 1);
        (Some((TokenType::Name, s.subrange(q + 1, e))), e)
    } else if ch == '[' {
        (Some((TokenType::ArrayStart, seq!['['])), q + 1)
    } else if ch == ']' {
        (Some((TokenType::ArrayEnd, seq![']'])), q + 1)
    } else if ch == '%' {
        let e = line_end(s, q + 1);
        (Some((comment_type(s.subrange(q, e)), s.subrange(q, e))), e)
    } else if ((ch == '-' || ch == '+') && has_next && (is_ascii_digit(s[q + 1]) || s[q + 1]
        == '.')) || is_ascii_digit(ch) || (ch == '.' && has_next && is_ascii_digit(s[q + 1])) {
        let e = number_end(s, q);
        (Some((TokenType::Number, s.subrange(q, e))), e)
    } else if ch == '<' {
        if has_next && s[q + 1] == '<' {
            (Some((TokenType::Operator, seq!['<', '<'])), q + 2)
        } else if has_next {
            let b = hex_body(s, q + 1);
            (Some((TokenType::String, hex_value(b.0))), b.1)
        } else {
            (None, q + 1)
        }
    } else if ch == '>' {
        if has_next && s[q + 1] == '>' {
            (Some((TokenType::Operator, seq!['>', '>'])), q + 2)
        } else {
            (None, q + 1)
        }
    } else if ch == '{' || ch == '}' {
        (Some((TokenType::Operator, seq![ch])), q + 1)
    } else {
        let e = operator_end(s, q);
        (Some((TokenType::Operator, s.subrange(q, e))), e)
    }
}

/// The tokens of `s` from position `p` on, each with the line and column of
/// its first character (the end-of-input token not included).
pub open spec fn lex_from(s: Seq<char>, p: int) -> Seq<TokenModel>
    decreases s.len() - p,
{
    if p < 0 {
        seq![]
    } else {
        let q = skip_space(s, p);
        if q >= s.len() {
            seq![]
        } else {
            let (t, n) = token_at(s, q);
            proof {
                lemma_skip_space(s, p);
                lemma_token_at(s, q);
            }
            let here: Seq<TokenModel> = match t {
                Some((k, v)) => seq![(k, v, line_at(s, q), col_at(s, q))],
                None => seq![],
            };
            here + lex_from(s, n)
        }
    }
}

/// The end-of-input token at position `p`.
pub open spec fn eof_token(s: Seq<char>, p: int) -> TokenModel {
    (TokenType::Eof, seq![], line_at(s, p), col_at(s, p))
}

/// All tokens of `s` from position `p` on, ending with the end-of-input token.
pub open spec fn lex_spec(s: Seq<char>, p: int) -> Seq<TokenModel> {
    lex_from(s, p).push(eof_token(s, s.len() as int))
}

// ---------------------------------------------------------------------------
// Facts about the grammar.
// ---------------------------------------------------------------------------
proof fn lemma_no_eof_within(s: Seq<char>, p: int)
    ensures
        forall|k: int| 0 <= k < lex_from(s, p).len() ==> (#[trigger] lex_from(s, p)[k]).0 != TokenType::Eof,
    decreases s.len() - p,
{
    if p >= 0 {
        let q = skip_space(s, p);
        if q < s.len() {
            lemma_skip_space(s, p);
            lemma_token_at(s, q);
            let (t, n) = token_at(s, q);
            lemma_no_eof_within(s, n);
            let here: Seq<TokenModel> = match t {
                Some((k, v)) => seq![(k, v, line_at(s, q), col_at(s, q))],
                None => seq![],
            };
            let all = lex_from(s, p);
            assert(all == here + lex_from(s, n));
            assert forall|k: int| 0 <= k < all.len() implies (#[trigger] all[k]).0 != TokenType::Eof by {
                if k < here.len() {
                    assert(all[k] == here[k]);
                } else {
                    assert(all[k] == lex_from(s, n)[k - here.len()]);
                }
            }
        }
    }
}

/// The token list of any source ends with the end-of-input token, and no
/// other token is one, so a reader stops exactly at the end.
pub proof fn single_eof_law(s: Seq<char>)
    ensures
        lex_spec(s, 0).len() >= 1,
        lex_spec(s, 0).last().0 == TokenType::Eof,
        forall|k: int| 0 <= k < lex_spec(s, 0).len() - 1 ==> (#[trigger] lex_spec(s, 0)[k]).0 != TokenType::Eof,
{
    lemma_no_eof_within(s, 0);
    let all = lex_spec(s, 0);
    assert forall|k: int| 0 <= k < all.len() - 1 implies (#[trigger] all[k]).0 != TokenType::Eof by {
        assert(all[k] == lex_from(s, 0)[k]);
    }
}

pub proof fn lemma_line_col_bound(s: Seq<char>, p: int)
    requires
        0 <= p,
    ensures
        1 <= line_at(s, p) <= p + 1,
        1 <= col_at(s, p) <= p + 1,
    decreases p,
{
    if p > 0 {
        lemma_line_col_bound(s, p - 1);
    }
}

pub proof fn lemma_skip_space(s: Seq<char>, p: int)
    requires
        0 <= p <= s.len(),
    ensures
        p <= skip_space(s, p) <= s.len(),
        skip_space(s, p) < s.len() ==> !is_lex_space(s[skip_space(s, p)]),
    decreases s.len() - p,
{
    if p < s.len() && is_lex_space(s[p]) {
        lemma_skip_space(s, p + 1);
    }
}

pub proof fn lemma_run_end(s: Seq<char>, p: int)
    requires
        0 <= p <= s.len(),
    ensures
        p <= run_end(s, p) <= s.len(),
    decreases s.len() - p,
{
    if p < s.len() && !is_delim(s[p]) {
        lemma_run_end(s, p + 1);
    }
}

pub proof fn lemma_line_end(s: Seq<char>, p: int)
    requires
        0 <= p <= s.len(),
    ensures
        p <= line_end(s, p) <= s.len(),
    decreases s.len() - p,
{
    if p < s.len() && s[p] != '\r' && s[p] != '\n' {
        lemma_line_end(s, p + 1);
    }
}

pub proof fn lemma_digits_end(s: Seq<char>, p: int, dot: bool)
    requires
        0 <= p <= s.len(),
    ensures
        p <= digits_end(s, p, dot) <= s.len(),
    decreases s.len() - p,
{
    if p < s.len() && ((s[p] == '.' && !dot) || is_ascii_digit(s[p])) {
        lemma_digits_end(s, p + 1, dot || s[p] == '.');
    }
}

pub proof fn lemma_octal_end(s: Seq<char>, p: int, n: int)
    requires
        0 <= p,
        0 <= n,
    ensures
        p <= octal_end(s, p, n) <= p + n,
        p < s.len() ==> octal_end(s, p, n) <= s.len(),
    decreases n,
{
    if n > 0 && 0 <= p < s.len() && '0' <= s[p] && s[p] <= '7' {
        lemma_octal_end(s, p + 1, n - 1);
    }
}

pub proof fn lemma_string_body(s: Seq<char>, p: int, depth: int)
    requires
        0 <= p <= s.len(),
    ensures
        p <= string_body(s, p, depth).1 <= s.len(),
    decreases s.len() - p,
{
    if 0 <= p < s.len() && depth > 0 {
        let ch = s[p];
        if ch == '\\' {
            if p + 1 < s.len() {
                let esc = s[p + 1];
                if '0' <= esc && esc <= '7' {
                    lemma_octal_end(s, p + 2, 2);
                    lemma_string_body(s, octal_end(s, p + 2, 2), depth);
                } else {
                    lemma_string_body(s, p + 2, depth);
                }
            }
        } else if ch == '(' {
            lemma_string_body(s, p + 1, depth + 1);
        } else if ch == ')' {
            lemma_string_body(s, p + 1, depth - 1);
        } else {
            lemma_string_body(s, p + 1, depth);
        }
    }
}

pub proof fn lemma_hex_body(s: Seq<char>, p: int)
    requires
        0 <= p <= s.len(),
    ensures
        p <= hex_body(s, p).1 <= s.len(),
    decreases s.len() - p,
{
    if p < s.len() && s[p] != '>' {
        lemma_hex_body(s, p + 1);
    }
}

/// Every token consumes at least one character and stays within the source.
pub proof fn lemma_token_at(s: Seq<char>, q: int)
    requires
        0 <= q < s.len(),
    ensures
        q < token_at(s, q).1 <= s.len(),
{
    lemma_run_end(s, q);
    lemma_run_end(s, q + 1);
    lemma_line_end(s, q + 1);
    lemma_string_body(s, q + 1, 1);
    lemma_hex_body(s, q + 1);
    lemma_digits_end(s, q, false);
    lemma_digits_end(s, q + 1, false);
    lemma_digits_end(s, q + 1, true);
    if q + 2 <= s.len() {
        lemma_digits_end(s, q + 2, false);
        lemma_digits_end(s, q + 2, true);
    }
}

// ---------------------------------------------------------------------------
// The lexer.
// ---------------------------------------------------------------------------
pub struct Lexer {
    source: Vec<char>,
    pos: usize,
    length: usize,
    line: usize,
    col: usize,
}

/// `char::from_u32`: the character with a given code, where there is one;
/// the standard library documents `None` for surrogate codes and codes past
/// U+10FFFF, and the character otherwise.
#[verifier::external_body]
fn char_from_u32(code: u32) -> (r: Option<char>)
    ensures
        (code < 0xd800 || (0xe000 <= code && code <= 0x10ffff)) ==> r == Some(code as char),
        !(code < 0xd800 || (0xe000 <= code && code <= 0x10ffff)) ==> r is None,
{
    char::from_u32(code)
}

fn is_delim_char(c: char) -> (r: bool)
    ensures
        r == is_delim(c),
{
    c == ' ' || c == '\t' || c == '\r' || c == '\n' || c == '(' || c == ')' || c == '[' || c
        == ']' || c == '{' || c == '}' || c == '/' || c == '<' || c == '>' || c == '%'
}

fn is_space_char(c: char) -> (r: bool)
    ensures
        r == is_lex_space(c),
{
    c == ' ' || c == '\t' || c == '\r' || c == '\n' || c == '\0' || c == '\x0c'
}

fn is_octal_char(c: char) -> (r: bool)
    ensures
        r == ('0' <= c && c <= '7'),
{
    '0' <= c && c <= '7'
}

fn is_digit_char(c: char) -> (r: bool)
    ensures
        r == is_ascii_digit(c),
{
    '0' <= c && c <= '9'
}

fn is_hex_char(c: char) -> (r: bool)
    ensures
        r == is_ascii_hexdigit(c),
{
    ('0' <= c && c <= '9') || ('a' <= c && c <= 'f') || ('A' <= c && c <= 'F')
}

fn hex_val(c: char) -> (v: u8)
    requires
        is_ascii_hexdigit(c),
    ensures
        v as int == hex_digit_value(c),
        v < 16,
{
    if '0' <= c && c <= '9' {
        (c as u32 - '0' as u32) as u8
    } else if 'a' <= c && c <= 'f' {
        (c as u32 - 'a' as u32 + 10) as u8
    } else {
        (c as u32 - 'A' as u32 + 10) as u8
    }
}

impl Lexer {
    /// The lexer is consistent: its position lies within the source and its
    /// line and column are those of that position.
    pub closed spec fn wf(&self) -> bool {
        &&& self.length == self.source@.len()
        &&& self.length < usize::MAX
        &&& self.pos <= self.length
        &&& self.line == line_at(self.source@, self.pos as int)
        &&& self.col == col_at(self.source@, self.pos as int)
    }

    /// The characters being tokenized.
    pub closed spec fn source_chars(&self) -> Seq<char> {
        self.source@
    }

    /// The position of the next character to read.
    pub closed spec fn position(&self) -> int {
        self.pos as int
    }

    pub fn new(source: &str) -> (l: Lexer)
        requires
            source@.len() < usize::MAX,
        ensures
            l.wf(),
            l.source_chars() == source@,
            l.position() == 0,
    {
        let chars = chars_of(source);
        let length = chars.len();
        Lexer { source: chars, pos: 0, length, line: 1, col: 1 }
    }

    fn peek(&self) -> (r: Option<char>)
        requires
            self.wf(),
        ensures
            r == if self.pos < self.length {
                Some(self.source@[self.pos as int])
            } else {
                None::<char>
            },
    {
        if self.pos < self.length {
            Some(self.source[self.pos])
        } else {
            None
        }
    }

    fn advance(&mut self) -> (r: Option<char>)
        requires
            old(self).wf(),
        ensures
            final(self).wf(),
            final(self).source == old(self).source,
            old(self).pos < old(self).length ==> r == Some(old(self).source@[old(self).pos as int])
                && final(self).pos == old(self).pos + 1,
            old(self).pos >= old(self).length ==> r is None && final(self).pos == old(self).pos,
    {
        if self.pos < self.length {
            let ch = self.source[self.pos];
            proof {
                lemma_line_col_bound(self.source@, self.pos as int);
            }
            self.pos += 1;
            if ch == '\n' {
                self.line += 1;
                self.col = 1;
            } else {
                self.col += 1;
            }
            Some(ch)
        } else {
            None
        }
    }

    fn skip_whitespace(&mut self)
        requires
            old(self).wf(),
        ensures
            final(self).wf(),
            final(self).source == old(self).source,
            final(self).pos == skip_space(old(self).source@, old(self).pos as int),
    {
        while self.pos < self.length && is_space_char(self.source[self.pos])
            invariant
                self.wf(),
                self.source == old(self).source,
                skip_space(self.source@, self.pos as int) == skip_space(
                    old(self).source@,
                    old(self).pos as int,
                ),
            decreases self.length - self.pos,
        {
            self.advance();
        }
    }

    fn read_number(&mut self) -> (t: Token)
        requires
            old(self).wf(),
            old(self).pos < old(self).length,
        ensures
            final(self).wf(),
            final(self).source == old(self).source,
            final(self).pos == number_end(old(self).source@, old(self).pos as int),
            t.model() == (
                TokenType::Number,
                old(self).source@.subrange(old(self).pos as int, final(self).pos as int),
                line_at(old(self).source@, old(self).pos as int),
                col_at(old(self).source@, old(self).pos as int),
            ),
    {
        let line = self.line;
        let col = self.col;
        let start = self.pos;
        if let Some(ch) = self.peek() {
            if ch == '-' || ch == '+' {
                self.advance();
            }
        }
        let mut has_dot = false;
        while self.pos < self.length && ((self.source[self.pos] == '.' && !has_dot)
            || is_digit_char(self.source[self.pos]))
            invariant
                self.wf(),
                self.source == old(self).source,
                start <= self.pos,
                digits_end(self.source@, self.pos as int, has_dot) == number_end(
                    self.source@,
                    start as int,
                ),
            decreases self.length - self.pos,
        {
            if self.source[self.pos] == '.' {
                has_dot = true;
            }
            self.advance();
        }
        let text = string_of_range(&self.source, start, self.pos);
        Token { token_type: TokenType::Number, value: text, line, col }
    }

    fn read_string(&mut self) -> (t: Token)
        requires
            old(self).wf(),
            old(self).pos < old(self).length,
        ensures
            final(self).wf(),
            final(self).source == old(self).source,
            ({
                let b = string_body(old(self).source@, old(self).pos + 1, 1);
                &&& final(self).pos == b.1
                &&& t.model() == (
                    TokenType::String,
                    b.0,
                    line_at(old(self).source@, old(self).pos as int),
                    col_at(old(self).source@, old(self).pos as int),
                )
            }),
    {
        let ghost s = self.source@;
        let line = self.line;
        let col = self.col;
        self.advance();
        let ghost start = self.pos as int;
        let mut result = String::new();
        let mut depth: usize = 1;
        while self.pos < self.length && depth > 0
            invariant
                self.wf(),
                self.source == old(self).source,
                s == self.source@,
                start <= self.pos,
                1 <= start,
                depth <= self.pos - start + 1,
                result@ + string_body(s, self.pos as int, depth as int).0 == string_body(
                    s,
                    start,
                    1,
                ).0,
                string_body(s, self.pos as int, depth as int).1 == string_body(s, start, 1).1,
            decreases self.length - self.pos,
        {
            let ghost p = self.pos as int;
            let ghost d = depth as int;
            let ghost old_result = result@;
            let ch = self.advance().unwrap();
            if ch == '\\' {
                if let Some(esc) = self.advance() {
                    if '0' <= esc && esc <= '7' {
                        let mut code: u32 = (esc as u32) - ('0' as u32);
                        let mut n: usize = 0;
                        let ghost q0 = self.pos as int;
                        proof {
                            assert(s.subrange(p + 1, p + 2).drop_last() =~= Seq::<char>::empty());
                            assert(s.subrange(p + 1, p + 2).last() == esc);
                            assert(octal_value(s.subrange(p + 1, p + 2).drop_last()) == 0);
                        }
                        while n < 2 && self.pos < self.length && is_octal_char(self.source[self.pos])
                            invariant
                                self.wf(),
                                self.source == old(self).source,
                                s == self.source@,
                                n <= 2,
                                self.pos == q0 + n,
                                q0 == p + 2,
                                0 <= p,
                                octal_end(s, q0, 2) == octal_end(s, self.pos as int, 2 - n),
                                code as int == octal_value(s.subrange(p + 1, self.pos as int)),
                                code < if n == 0 {
                                    8int
                                } else if n == 1 {
                                    64int
                                } else {
                                    512int
                                },
                            decreases 2 - n,
                        {
                            let next = self.source[self.pos];
                            self.advance();
                            proof {
                                let sub = s.subrange(p + 1, self.pos as int);
                                assert(sub.drop_last() =~= s.subrange(p + 1, self.pos - 1));
                                assert(sub.last() == next);
                            }
                            code = code * 8 + ((next as u32) - ('0' as u32));
                            n += 1;
                        }
                        if let Some(c) = char_from_u32(code) {
                            push_char(&mut result, c);
                        }
                    } else {
                        let c = if esc == 'n' {
                            '\n'
                        } else if esc == 'r' {
                            '\r'
                        } else if esc == 't' {
                            '\t'
                        } else {
                            esc
                        };
                        push_char(&mut result, c);
                    }
                }
            } else if ch == '(' {
                depth += 1;
                push_char(&mut result, ch);
            } else if ch == ')' {
                depth -= 1;
                if depth > 0 {
                    push_char(&mut result, ch);
                }
            } else {
                push_char(&mut result, ch);
            }
            proof {
                let b = string_body(s, p, d);
                let r = string_body(s, self.pos as int, depth as int);
                assert(b.1 == r.1);
                assert(old_result + b.0 =~= result@ + r.0);
            }
        }
        Token { token_type: TokenType::String, value: result, line, col }
    }

    fn read_hex_string(&mut self) -> (t: Token)
        requires
            old(self).wf(),
            old(self).pos < old(self).length,
        ensures
            final(self).wf(),
            final(self).source == old(self).source,
            ({
                let b = hex_body(old(self).source@, old(self).pos + 1);
                &&& final(self).pos == b.1
                &&& t.model() == (
                    TokenType::String,
                    hex_value(b.0),
                    line_at(old(self).source@, old(self).pos as int),
                    col_at(old(self).source@, old(self).pos as int),
                )
            }),
    {
        let ghost s = self.source@;
        let line = self.line;
        let col = self.col;
        self.advance();
        let ghost start = self.pos as int;
        let mut hex_chars: Vec<char> = Vec::new();
        while self.pos < self.length && self.source[self.pos] != '>'
            invariant
                self.wf(),
                self.source == old(self).source,
                s == self.source@,
                start <= self.pos,
                1 <= start,
                hex_chars@ + hex_body(s, self.pos as int).0 == hex_body(s, start).0,
                hex_body(s, self.pos as int).1 == hex_body(s, start).1,
                forall|c: int| 0 <= c < hex_chars@.len() ==> is_ascii_hexdigit(#[trigger] hex_chars@[c]),
            decreases self.length - self.pos,
        {
            let ghost p = self.pos as int;
            let ghost old_chars = hex_chars@;
            let ch = self.source[self.pos];
            if is_hex_char(ch) {
                hex_chars.push(ch);
            }
            self.advance();
            proof {
                assert(old_chars + hex_body(s, p).0 =~= hex_chars@ + hex_body(s, self.pos as int).0);
            }
        }
        if self.pos < self.length {
            self.advance();
        }
        let value = if hex_chars.len() % 2 == 0 {
            let mut bytes: Vec<u8> = Vec::new();
            let mut k: usize = 0;
            let total = hex_chars.len();
            let half = total / 2;
            while k < half
                invariant
                    total == hex_chars@.len(),
                    half == total / 2,
                    2 * half <= total,
                    k <= half,
                    forall|c: int| 0 <= c < hex_chars@.len() ==> is_ascii_hexdigit(#[trigger] hex_chars@[c]),
                    bytes@ =~= hex_bytes(hex_chars@).take(k as int),
                decreases half - k,
            {
                let i = k + k;
                let hi = hex_val(hex_chars[i]);
                let lo = hex_val(hex_chars[i + 1]);
                bytes.push(hi * 16 + lo);
                k += 1;
            }
            proof {
                assert(hex_bytes(hex_chars@).take(half as int) =~= hex_bytes(hex_chars@));
            }
            utf8_lossy(&bytes)
        } else {
            string_of(&hex_chars)
        };
        Token { token_type: TokenType::String, value, line, col }
    }

    fn read_name(&mut self) -> (t: Token)
        requires
            old(self).wf(),
            old(self).pos < old(self).length,
        ensures
            final(self).wf(),
            final(self).source == old(self).source,
            final(self).pos == run_end(old(self).source@, old(self).pos + 1),
            t.model() == (
                TokenType::Name,
                old(self).source@.subrange(old(self).pos + 1, final(self).pos as int),
                line_at(old(self).source@, old(self).pos as int),
                col_at(old(self).source@, old(self).pos as int),
            ),
    {
        let line = self.line;
        let col = self.col;
        self.advance();
        let start = self.pos;
        while self.pos < self.length && !is_delim_char(self.source[self.pos])
            invariant
                self.wf(),
                self.source == old(self).source,
                start <= self.pos,
                run_end(self.source@, self.pos as int) == run_end(self.source@, start as int),
            decreases self.length - self.pos,
        {
            self.advance();
        }
        let text = string_of_range(&self.source, start, self.pos);
        Token { token_type: TokenType::Name, value: text, line, col }
    }

    fn read_comment(&mut self) -> (t: Token)
        requires
            old(self).wf(),
            old(self).pos < old(self).length,
            old(self).source@[old(self).pos as int] == '%',
        ensures
            final(self).wf(),
            final(self).source == old(self).source,
            final(self).pos == line_end(old(self).source@, old(self).pos + 1),
            ({
                let text = old(self).source@.subrange(old(self).pos as int, final(self).pos as int);
                t.model() == (
                    comment_type(text),
                    text,
                    line_at(old(self).source@, old(self).pos as int),
                    col_at(old(self).source@, old(self).pos as int),
                )
            }),
    {
        let line = self.line;
        let col = self.col;
        let start = self.pos;
        self.advance();
        while self.pos < self.length && self.source[self.pos] != '\r' && self.source[self.pos] != '\n'
            invariant
                self.wf(),
                self.source == old(self).source,
                start < self.pos,
                line_end(self.source@, self.pos as int) == line_end(self.source@, start + 1),
            decreases self.length - self.pos,
        {
            self.advance();
        }
        let n = self.pos - start;
        let pseudo = (n >= 2 && self.source[start + 1] == '_') || (n >= 3 && self.source[start + 1]
            == 'A' && self.source[start + 2] == 'I');
        proof {
            let text = self.source@.subrange(start as int, self.pos as int);
            assert(text[0] == '%');
            if n >= 2 {
                assert(text[1] == self.source@[start + 1]);
            }
            if n >= 3 {
                assert(text[2] == self.source@[start + 2]);
            }
            if seq!['%', '_'].is_prefix_of(text) {
                assert(seq!['%', '_'][1] == text[1]);
            }
            if seq!['%', 'A', 'I'].is_prefix_of(text) {
                assert(seq!['%', 'A', 'I'][1] == text[1]);
                assert(seq!['%', 'A', 'I'][2] == text[2]);
            }
            if n >= 2 && text[1] == '_' {
                assert(seq!['%', '_'] =~= text.subrange(0, 2));
            }
            if n >= 3 && text[1] == 'A' && text[2] == 'I' {
                assert(seq!['%', 'A', 'I'] =~= text.subrange(0, 3));
            }
        }
        let text = string_of_range(&self.source, start, self.pos);
        let token_type = if pseudo {
            TokenType::PseudoComment
        } else {
            TokenType::Comment
        };
        Token { token_type, value: text, line, col }
    }

    fn read_operator(&mut self) -> (t: Token)
        requires
            old(self).wf(),
            old(self).pos < old(self).length,
        ensures
            final(self).wf(),
            final(self).source == old(self).source,
            final(self).pos == operator_end(old(self).source@, old(self).pos as int),
            t.model() == (
                TokenType::Operator,
                old(self).source@.subrange(old(self).pos as int, final(self).pos as int),
                line_at(old(self).source@, old(self).pos as int),
                col_at(old(self).source@, old(self).pos as int),
            ),
    {
        let line = self.line;
        let col = self.col;
        let start = self.pos;
        while self.pos < self.length && !is_delim_char(self.source[self.pos])
            invariant
                self.wf(),
                self.source == old(self).source,
                start <= self.pos,
                run_end(self.source@, self.pos as int) == run_end(self.source@, start as int),
            decreases self.length - self.pos,
        {
            self.advance();
        }
        if self.pos == start {
            self.advance();
        }
        let text = string_of_range(&self.source, start, self.pos);
        Token { token_type: TokenType::Operator, value: text, line, col }
    }

    fn single(&self, token_type: TokenType, c: char) -> (t: Token)
        requires
            self.wf(),
        ensures
            t.model() == (
                token_type,
                seq![c],
                line_at(self.source@, self.pos as int),
                col_at(self.source@, self.pos as int),
            ),
    {
        let mut value = String::new();
        push_char(&mut value, c);
        Token { token_type, value, line: self.line, col: self.col }
    }

    fn double(&self, c: char) -> (t: Token)
        requires
            self.wf(),
        ensures
            t.model() == (
                TokenType::Operator,
                seq![c, c],
                line_at(self.source@, self.pos as int),
                col_at(self.source@, self.pos as int),
            ),
    {
        let mut value = String::new();
        push_char(&mut value, c);
        push_char(&mut value, c);
        proof {
            assert(value@ =~= seq![c, c]);
        }
        Token { token_type: TokenType::Operator, value, line: self.line, col: self.col }
    }

    fn tokenize_raw(&mut self) -> (r: Result<Vec<Token>>)
        requires
            old(self).wf(),
        ensures
            final(self).wf(),
            final(self).source == old(self).source,
            final(self).pos == final(self).length,
            r matches Ok(ts) && models(ts@) == lex_spec(old(self).source@, old(self).pos as int),
    {
        let ghost s = self.source@;
        let ghost p0 = self.pos as int;
        let mut tokens: Vec<Token> = Vec::new();
        while self.pos < self.length
            invariant
                self.wf(),
                self.source == old(self).source,
                s == self.source@,
                0 <= p0,
                models(tokens@) + lex_from(s, self.pos as int) == lex_from(s, p0),
            ensures
                self.wf(),
                self.source == old(self).source,
                self.pos == self.length,
                models(tokens@) == lex_from(s, p0),
            decreases self.length - self.pos,
        {
            let ghost p = self.pos as int;
            let ghost before = models(tokens@);
            self.skip_whitespace();
            proof {
                lemma_skip_space(s, p);
            }
            if self.pos >= self.length {
                proof {
                    assert(lex_from(s, p) == Seq::<TokenModel>::empty());
                    assert(before + lex_from(s, p) == before);
                }
                break;
            }
            let q = self.pos;
            proof {
                lemma_token_at(s, q as int);
            }
            let ch = self.source[q];
            let has_next = q + 1 < self.length;
            let next = if has_next {
                self.source[q + 1]
            } else {
                ' '
            };
            let tok: Option<Token> = if ch == '(' {
                Some(self.read_string())
            } else if ch == '/' {
                Some(self.read_name())
            } else if ch == '[' {
                let t = self.single(TokenType::ArrayStart, '[');
                self.advance();
                Some(t)
            } else if ch == ']' {
                let t = self.single(TokenType::ArrayEnd, ']');
                self.advance();
                Some(t)
            } else if ch == '%' {
                Some(self.read_comment())
            } else if ((ch == '-' || ch == '+') && has_next && (is_digit_char(next) || next == '.'))
                || is_digit_char(ch) || (ch == '.' && has_next && is_digit_char(next)) {
                Some(self.read_number())
            } else if ch == '<' {
                if has_next && next == '<' {
                    let t = self.double('<');
                    self.advance();
                    self.advance();
                    Some(t)
                } else if has_next {
                    Some(self.read_hex_string())
                } else {
                    self.advance();
                    None
                }
            } else if ch == '>' {
                if has_next && next == '>' {
                    let t = self.double('>');
                    self.advance();
                    self.advance();
                    Some(t)
                } else {
                    self.advance();
                    None
                }
            } else if ch == '{' || ch == '}' {
                let t = self.single(TokenType::Operator, ch);
                self.advance();
                Some(t)
            } else {
                Some(self.read_operator())
            };
            proof {
                let (tm, n) = token_at(s, q as int);
                assert(self.pos == n);
                match &tok {
                    Some(t) => {
                        assert(tm == Some((t.model().0, t.model().1)));
                        assert(t.model() == (tm.unwrap().0, tm.unwrap().1, line_at(s, q as int), col_at(s, q as int)));
                    },
                    None => {
                        assert(tm is None);
                    },
                }
            }
            match tok {
                Some(t) => {
                    tokens.push(t);
                    proof {
                        assert(models(tokens@) =~= before.push(t.model()));
                        assert(lex_from(s, p) == seq![t.model()] + lex_from(s, self.pos as int));
                        assert(before + lex_from(s, p) =~= models(tokens@) + lex_from(s, self.pos as int));
                    }
                },
                None => {
                    proof {
                        assert(lex_from(s, p) == lex_from(s, self.pos as int));
                    }
                },
            }
        }
        proof {
            lemma_skip_space(s, self.pos as int);
        }
        let eof_value = String::new();
        let eof = Token { token_type: TokenType::Eof, value: eof_value, line: self.line, col: self.col };
        let ghost before = models(tokens@);
        tokens.push(eof);
        proof {
            assert(models(tokens@) =~= before.push(eof.model()));
        }
        Ok(tokens)
    }

    /// Tokenizes the rest of the source. Fails with [`Error::Lexer`] exactly
    /// when there would be more than [`MAX_TOKEN_COUNT`] tokens.
    pub fn tokenize(&mut self) -> (r: Result<Vec<Token>>)
        requires
            old(self).wf(),
        ensures
            final(self).wf(),
            final(self).source_chars() == old(self).source_chars(),
            final(self).position() == final(self).source_chars().len(),
            ({
                let expected = lex_spec(old(self).source_chars(), old(self).position());
                match r {
                    Ok(ts) => expected.len() <= MAX_TOKEN_COUNT && models(ts@) == expected,
                    Err(e) => expected.len() > MAX_TOKEN_COUNT && (e matches Error::Lexer(m)
                        && m@ == "token count limit exceeded (10000000)"@),
                }
            }),
    {
        let tokens = self.tokenize_raw()?;
        if tokens.len() > MAX_TOKEN_COUNT {
            return Err(Error::Lexer("token count limit exceeded (10000000)".to_owned()));
        }
        Ok(tokens)
    }
}

/// Tokenizes `source`: [`lex_spec`] describes the tokens, the last of which
/// marks the end of input.
pub fn tokenize(source: &str) -> (r: Result<Vec<Token>>)
    requires
        source@.len() < usize::MAX,
    ensures
        match r {
            Ok(ts) => lex_spec(source@, 0).len() <= MAX_TOKEN_COUNT && models(ts@) == lex_spec(
                source@,
                0,
            ),
            Err(e) => lex_spec(source@, 0).len() > MAX_TOKEN_COUNT && (e matches Error::Lexer(m)
                && m@ == "token count limit exceeded (10000000)"@),
        },
{
    let mut lexer = Lexer::new(source);
    lexer.tokenize()
}

} // verus!
