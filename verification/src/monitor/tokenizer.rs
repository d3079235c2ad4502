use vstd::prelude::*;
use super::parse::{is_hex_digit, hex_value, from_hex_be_usize, lemma_all_hex};

verus! {

/// ASCII whitespace: space, tab, line feed, form feed, carriage return.
pub open spec fn is_whitespace(c: u8) -> bool {
    c == 32 || c == 9 || c == 10 || c == 12 || c == 13
}

pub open spec fn is_alphabetic(c: u8) -> bool {
    (65 <= c <= 90) || (97 <= c <= 122)
}

/// First position at or after `p` that does not hold whitespace.
pub open spec fn skip_whitespace(s: Seq<u8>, p: int) -> int
    decreases s.len() - p,
{
    if p < 0 || p >= s.len() || !is_whitespace(s[p]) {
        p
    } else {
        skip_whitespace(s, p + 1)
    }
}

/// First position at or after `p` that does not hold a hex digit.
pub open spec fn skip_hex_digits(s: Seq<u8>, p: int) -> int
    decreases s.len() - p,
{
    if p < 0 || p >= s.len() || !is_hex_digit(s[p]) {
        p
    } else {
        skip_hex_digits(s, p + 1)
    }
}

pub proof fn lemma_skip_whitespace(s: Seq<u8>, p: int)
    requires
        0 <= p <= s.len(),
    ensures
        p <= skip_whitespace(s, p) <= s.len(),
        forall|i: int| p <= i < skip_whitespace(s, p) ==> is_whitespace(s[i]),
        skip_whitespace(s, p) < s.len() ==> !is_whitespace(s[skip_whitespace(s, p)]),
    decreases s.len() - p,
{
    if p < s.len() && is_whitespace(s[p]) {
        lemma_skip_whitespace(s, p + 1);
    }
}

pub proof fn lemma_skip_hex_digits(s: Seq<u8>, p: int)
    requires
        0 <= p <= s.len(),
    ensures
        p <= skip_hex_digits(s, p) <= s.len(),
        forall|i: int| p <= i < skip_hex_digits(s, p) ==> is_hex_digit(s[i]),
        skip_hex_digits(s, p) < s.len() ==> !is_hex_digit(s[skip_hex_digits(s, p)]),
    decreases s.len() - p,
{
    if p < s.len() && is_hex_digit(s[p]) {
        lemma_skip_hex_digits(s, p + 1);
    }
}

#[derive(Clone, Copy, PartialEq, Eq, Structural)]
pub enum TokenType {
    Unknown,
    WhiteSpace,
    USize(usize),
    SingleLetter(u8),
    Dot,
    Colon,
    Minus,
    Plus,
}

/// A token and the byte range `[start, end)` it covers.
#[derive(Clone, Copy, PartialEq, Eq, Structural)]
pub struct Token {
    pub token_type: TokenType,
    pub start: usize,
    pub end: usize,
}

impl Token {
    pub fn new(token_type: TokenType, start: usize, end: usize) -> (r: Self)
        ensures
            r == (Token { token_type, start, end }),
    {
        Token { token_type, start, end }
    }
}

/// The one-byte symbol token that `c` stands for, if any: `:`, `.`, `+`, `-`, or a
/// letter that is not a hex digit.
pub open spec fn symbol(c: u8) -> Option<TokenType> {
    if c == 58 {
        Some(TokenType::Colon)
    } else if c == 46 {
        Some(TokenType::Dot)
    } else if c == 43 {
        Some(TokenType::Plus)
    } else if c == 45 {
        Some(TokenType::Minus)
    } else if is_alphabetic(c) && !is_hex_digit(c) {
        Some(TokenType::SingleLetter(c))
    } else {
        None
    }
}

/// The token found at `pos` in `s` and the position after it; whitespace is skipped
/// when `filter_ws`, else it forms a token of its own. A run of hex digits is a number,
/// or `Unknown` when its value does not fit a `usize`; any other byte is `Unknown`.
pub open spec fn spec_next_token(s: Seq<u8>, pos: int, filter_ws: bool) -> (Option<Token>, int) {
    if pos == s.len() {
        (None, pos)
    } else {
        let p = skip_whitespace(s, pos);
        if !filter_ws && p != pos {
            (Some(Token { token_type: TokenType::WhiteSpace, start: pos as usize, end: p as usize }), p)
        } else if p >= s.len() {
            (None, p)
        } else if symbol(s[p]) is Some {
            (Some(Token { token_type: symbol(s[p]).unwrap(), start: p as usize, end: (p + 1) as usize }), p + 1)
        } else {
            let q = skip_hex_digits(s, p);
            if q != p {
                if hex_value(s.subrange(p, q)) <= usize::MAX {
                    (Some(Token { token_type: TokenType::USize(hex_value(s.subrange(p, q)) as usize), start: p as usize, end: q as usize }), q)
                } else {
                    (Some(Token { token_type: TokenType::Unknown, start: p as usize, end: q as usize }), q)
                }
            } else {
                (Some(Token { token_type: TokenType::Unknown, start: p as usize, end: (p + 1) as usize }), p + 1)
            }
        }
    }
}

/// The tokens that repeated calls of `Tokenizer::next` return from position `pos` on,
/// up to the first `None`.
pub open spec fn tokens_from(s: Seq<u8>, pos: int, filter_ws: bool) -> Seq<Token>
    decreases s.len() - pos,
{
    if pos < 0 || pos > s.len() {
        Seq::empty()
    } else {
        let (t, q) = spec_next_token(s, pos, filter_ws);
        match t {
            None => Seq::empty(),
            Some(tok) => if pos < q <= s.len() {
                seq![tok] + tokens_from(s, q, filter_ws)
            } else {
                Seq::empty()
            },
        }
    }
}

/// Whether byte `k` lies in the span of one of `tokens`.
pub open spec fn in_tokens(tokens: Seq<Token>, k: int) -> bool {
    exists|i: int| 0 <= i < tokens.len() && (#[trigger] tokens[i]).start <= k < tokens[i].end
}

/// What one call finds: a token that ends where the next call starts, after whitespace
/// only (none when whitespace is kept), whose bytes are all whitespace exactly when it
/// is a whitespace token; or nothing, when only whitespace is left.
proof fn lemma_next_token_span(s: Seq<u8>, pos: int, filter_ws: bool)
    requires
        0 <= pos <= s.len(),
        s.len() <= usize::MAX,
    ensures
        ({
            let (t, q) = spec_next_token(s, pos, filter_ws);
            &&& pos <= q <= s.len()
            &&& t is None ==> q == s.len() && (forall|k: int| pos <= k < s.len() ==> is_whitespace(s[k]))
                && (!filter_ws ==> pos == s.len())
            &&& t matches Some(tok) ==> {
                &&& tok.end == q
                &&& pos <= tok.start < tok.end
                &&& !filter_ws ==> tok.start == pos
                &&& filter_ws ==> !(tok.token_type is WhiteSpace)
                &&& forall|k: int| pos <= k < tok.start ==> is_whitespace(s[k])
                &&& forall|k: int| tok.start <= k < tok.end ==> (is_whitespace(s[k]) <==> tok.token_type is WhiteSpace)
            }
        }),
{
    if pos < s.len() {
        lemma_skip_whitespace(s, pos);
        let p = skip_whitespace(s, pos);
        if p < s.len() {
            lemma_skip_hex_digits(s, p);
        }
    }
}

/// The tokens of a line, in order, cover it: each spans at least one byte, they do not
/// overlap and come in order, there are at most as many as bytes, every byte that is
/// not whitespace lies in a token, and a token's bytes are whitespace exactly when it
/// is a whitespace token. With whitespace filtered out no whitespace token comes, so
/// the tokens cover exactly the bytes that are not whitespace; with whitespace kept,
/// the tokens tile the line from `pos` to its end.
pub proof fn lemma_tokens_cover_line(s: Seq<u8>, pos: int, filter_ws: bool)
    requires
        0 <= pos <= s.len(),
        s.len() <= usize::MAX,
    ensures
        ({
            let t = tokens_from(s, pos, filter_ws);
            &&& t.len() <= s.len() - pos
            &&& forall|i: int| 0 <= i < t.len() ==> pos <= #[trigger] t[i].start < t[i].end <= s.len()
            &&& forall|i: int, j: int| 0 <= i < j < t.len() ==> #[trigger] t[i].end <= #[trigger] t[j].start
            &&& forall|k: int| pos <= k < s.len() ==> in_tokens(t, k) || is_whitespace(s[k])
            &&& forall|i: int, k: int| 0 <= i < t.len() && t[i].start <= k < t[i].end
                ==> (is_whitespace(#[trigger] s[k]) <==> (#[trigger] t[i]).token_type is WhiteSpace)
            &&& filter_ws ==> forall|i: int| 0 <= i < t.len() ==> !((#[trigger] t[i]).token_type is WhiteSpace)
            &&& !filter_ws && pos < s.len() ==> {
                &&& t.len() > 0
                &&& t[0].start == pos
                &&& t[t.len() - 1].end == s.len()
                &&& forall|i: int| 0 <= i < t.len() - 1 ==> #[trigger] t[i].end == t[i + 1].start
            }
        }),
    decreases s.len() - pos,
{
    lemma_next_token_span(s, pos, filter_ws);
    let (first, q) = spec_next_token(s, pos, filter_ws);
    let t = tokens_from(s, pos, filter_ws);
    match first {
        None => {
            assert(t =~= Seq::<Token>::empty());
        },
        Some(tok) => {
            lemma_tokens_cover_line(s, q, filter_ws);
            let rest = tokens_from(s, q, filter_ws);
            assert(t =~= seq![tok] + rest);
            assert(t[0] == tok);
            assert(forall|i: int| 0 < i < t.len() ==> t[i] == rest[i - 1]);
            assert forall|k: int| pos <= k < s.len() implies in_tokens(t, k) || is_whitespace(s[k]) by {
                if tok.start <= k < tok.end {
                    assert(t[0].start <= k < t[0].end);
                } else if k >= q && in_tokens(rest, k) {
                    let i = choose|i: int| 0 <= i < rest.len() && (#[trigger] rest[i]).start <= k < rest[i].end;
                    assert(t[i + 1] == rest[i]);
                }
            }
            assert forall|i: int, j: int| 0 <= i < j < t.len() implies #[trigger] t[i].end <= #[trigger] t[j].start by {
                if i > 0 {
                    assert(t[i] == rest[i - 1] && t[j] == rest[j - 1]);
                } else {
                    assert(t[j] == rest[j - 1]);
                }
            }
            assert forall|i: int, k: int| 0 <= i < t.len() && t[i].start <= k < t[i].end
                implies (is_whitespace(#[trigger] s[k]) <==> (#[trigger] t[i]).token_type is WhiteSpace) by {
                if i > 0 {
                    assert(t[i] == rest[i - 1]);
                }
            }
            if !filter_ws && pos < s.len() {
                if q < s.len() {
                    assert forall|i: int| 0 <= i < t.len() - 1 implies #[trigger] t[i].end == t[i + 1].start by {
                        if i > 0 {
                            assert(t[i] == rest[i - 1] && t[i + 1] == rest[i]);
                        } else {
                            assert(t[1] == rest[0]);
                        }
                    }
                    assert(t[t.len() - 1] == rest[rest.len() - 1]);
                } else {
                    assert(rest =~= Seq::<Token>::empty());
                }
            }
        },
    }
}

/// Splits a line into tokens.
pub struct Tokenizer<'a> {
    pub filter_ws: bool,
    pub position: usize,
    pub c_str: &'a [u8],
}

impl<'a> Tokenizer<'a> {
    pub fn new(c_str: &'a [u8], filter_ws: bool) -> (r: Self)
        ensures
            r.filter_ws == filter_ws,
            r.position == 0,
            r.c_str@ == c_str@,
    {
        Tokenizer { filter_ws, position: 0, c_str }
    }

    /// The next token.
    pub fn next(&mut self) -> (r: Option<Token>)
        requires
            old(self).position <= old(self).c_str@.len(),
        ensures
            final(self).c_str@ == old(self).c_str@,
            final(self).filter_ws == old(self).filter_ws,
            final(self).position <= final(self).c_str@.len(),
            (r, final(self).position as int) == spec_next_token(old(self).c_str@, old(self).position as int, old(self).filter_ws),
    {
        let s = self.c_str;
        let len = s.len();
        if self.position == len {
            return None;
        }
        let start = self.position;
        proof { lemma_skip_whitespace(s@, start as int); }
        while self.position < len && (s[self.position] == 32 || s[self.position] == 9 || s[self.position] == 10
            || s[self.position] == 12 || s[self.position] == 13)
            invariant
                start <= self.position <= len,
                len == s@.len(),
                self.c_str == s,
                self.filter_ws == old(self).filter_ws,
                start == old(self).position,
                skip_whitespace(s@, self.position as int) == skip_whitespace(s@, start as int),
            decreases len - self.position,
        {
            self.position += 1;
        }
        if !self.filter_ws && self.position != start {
            return Some(Token::new(TokenType::WhiteSpace, start, self.position));
        }
        if self.position >= len {
            return None;
        }
        let start = self.position;
        let c = s[start];
        let end = start + 1;
        let symbol: Option<TokenType> = if c == 58 {
            Some(TokenType::Colon)
        } else if c == 46 {
            Some(TokenType::Dot)
        } else if c == 43 {
            Some(TokenType::Plus)
        } else if c == 45 {
            Some(TokenType::Minus)
        } else if ((65 <= c && c <= 90) || (97 <= c && c <= 122)) && !((48 <= c && c <= 57) || (65 <= c && c <= 70) || (97 <= c && c <= 102)) {
            Some(TokenType::SingleLetter(c))
        } else {
            None
        };
        if let Some(token_type) = symbol {
            self.position = end;
            return Some(Token::new(token_type, start, end));
        }
        proof { lemma_skip_hex_digits(s@, start as int); }
        while self.position < len && ((48 <= s[self.position] && s[self.position] <= 57)
            || (65 <= s[self.position] && s[self.position] <= 70) || (97 <= s[self.position] && s[self.position] <= 102))
            invariant
                start <= self.position <= len,
                len == s@.len(),
                self.c_str == s,
                self.filter_ws == old(self).filter_ws,
                skip_hex_digits(s@, self.position as int) == skip_hex_digits(s@, start as int),
            decreases len - self.position,
        {
            self.position += 1;
        }
        if self.position != start {
            let digits = slice_subrange(s, start, self.position);
            proof {
                assert forall|i: int| 0 <= i < digits@.len() implies is_hex_digit(digits@[i]) by {
                    assert(digits@[i] == s@[start + i]);
                }
                lemma_all_hex(digits@);
            }
            match from_hex_be_usize(digits) {
                Ok(value) => {
                    return Some(Token::new(TokenType::USize(value), start, self.position));
                },
                Err(_) => {
                    return Some(Token::new(TokenType::Unknown, start, self.position));
                },
            }
        }
        self.position += 1;
        Some(Token::new(TokenType::Unknown, start, self.position))
    }
}

/// The bytes `s[from..to]`.
pub fn slice_subrange(s: &[u8], from: usize, to: usize) -> (r: &[u8])
    requires
        from <= to <= s@.len(),
    ensures
        r@ == s@.subrange(from as int, to as int),
{
    vstd::slice::slice_subrange(s, from, to)
}

} // verus!
