//! The lexer: a single pass over the source bytes producing an ordered
//! token stream together with lexical errors.
//!
//! Every byte of the source lands in exactly one token, so concatenating the
//! token texts reproduces the source; malformed spans become `Error` tokens
//! with a diagnostic, and lexing resumes right after them.

use vstd::prelude::*;
use vstd::string::{StrSliceExecFns, StringExecFns, StringSliceAdditionalSpecFns};

use crate::error::{errors_wf, Error};
use crate::token::{
    classify_ident, lemma_toks_text_push, lemma_toks_text_unchanged, toks_cover, toks_text,
    toks_text_upto, Kw, Token, TokenKind,
};

verus! {

/// Space, tab, carriage return or line feed.
pub open spec fn is_ws(b: u8) -> bool {
    b == 32 || b == 9 || b == 13 || b == 10
}

/// An ASCII decimal digit.
pub open spec fn is_digit(b: u8) -> bool {
    48 <= b <= 57
}

/// An ASCII letter.
pub open spec fn is_letter(b: u8) -> bool {
    (65 <= b <= 90) || (97 <= b <= 122)
}

/// A byte that may start an identifier.
pub open spec fn is_ident_start(b: u8) -> bool {
    is_letter(b) || b == 95
}

/// A byte that may continue an identifier.
pub open spec fn is_ident_cont(b: u8) -> bool {
    is_ident_start(b) || is_digit(b)
}

/// A nonempty run of decimal digits.
pub open spec fn digits(t: Seq<u8>) -> bool {
    t.len() > 0 && forall|i: int| 0 <= i < t.len() ==> is_digit(#[trigger] t[i])
}

/// The shape of an integer literal: an optional minus sign, then either a
/// single `0` or a nonzero digit followed by digits.
pub open spec fn int_shape(t: Seq<u8>) -> bool {
    let u = if t.len() > 0 && t[0] == 45 {
        t.subrange(1, t.len() as int)
    } else {
        t
    };
    t.len() > 0 && digits(u) && (u[0] != 48 || u.len() == 1)
}

/// The shape of a fractional part: nothing, or a dot followed by digits.
pub open spec fn frac_shape(t: Seq<u8>) -> bool {
    t.len() == 0 || (t.len() >= 2 && t[0] == 46 && digits(t.subrange(1, t.len() as int)))
}

/// The shape of an exponent part: nothing, or `e`/`E`, an optional sign,
/// and digits.
pub open spec fn exp_shape(t: Seq<u8>) -> bool {
    ||| t.len() == 0
    ||| (t.len() >= 2 && (t[0] == 101 || t[0] == 69) && {
        let u = if t[1] == 43 || t[1] == 45 {
            t.subrange(2, t.len() as int)
        } else {
            t.subrange(1, t.len() as int)
        };
        digits(u)
    })
}

/// The shape of a float literal: an integer part, then a fractional part
/// and/or an exponent, at least one of the two present.
pub open spec fn float_shape(t: Seq<u8>) -> bool {
    exists|p: int, q: int|
        0 <= p <= q <= t.len() && int_shape(#[trigger] t.subrange(0, p)) && frac_shape(
            #[trigger] t.subrange(p, q),
        ) && exp_shape(t.subrange(q, t.len() as int)) && (p < q || q < t.len())
}

/// What the text of a token of each lexical class looks like.
pub open spec fn shape_ok(kind: TokenKind, t: Seq<u8>) -> bool {
    match kind {
        TokenKind::Whitespace => t.len() > 0 && forall|i: int|
            0 <= i < t.len() ==> is_ws(#[trigger] t[i]),
        TokenKind::Comma => t.len() == 1 && t[0] == 44,
        TokenKind::Comment => t.len() > 0 && t[0] == 35 && forall|i: int|
            1 <= i < t.len() ==> (#[trigger] t[i]) != 10,
        TokenKind::Ident => t.len() > 0 && is_ident_start(t[0]) && forall|i: int|
            0 <= i < t.len() ==> is_ident_cont(#[trigger] t[i]),
        TokenKind::Int => int_shape(t),
        TokenKind::Float => float_shape(t),
        TokenKind::StringValue => t.len() >= 2 && t[0] == 34 && t[t.len() - 1] == 34,
        TokenKind::Bang => t.len() == 1 && t[0] == 33,
        TokenKind::Dollar => t.len() == 1 && t[0] == 36,
        TokenKind::Amp => t.len() == 1 && t[0] == 38,
        TokenKind::LParen => t.len() == 1 && t[0] == 40,
        TokenKind::RParen => t.len() == 1 && t[0] == 41,
        TokenKind::Spread => t.len() == 3 && t[0] == 46 && t[1] == 46 && t[2] == 46,
        TokenKind::Colon => t.len() == 1 && t[0] == 58,
        TokenKind::Eq => t.len() == 1 && t[0] == 61,
        TokenKind::At => t.len() == 1 && t[0] == 64,
        TokenKind::LBrack => t.len() == 1 && t[0] == 91,
        TokenKind::RBrack => t.len() == 1 && t[0] == 93,
        TokenKind::LCurly => t.len() == 1 && t[0] == 123,
        TokenKind::Pipe => t.len() == 1 && t[0] == 124,
        TokenKind::RCurly => t.len() == 1 && t[0] == 125,
        TokenKind::Error => t.len() > 0,
    }
}

/// An `Error`-kind token never passes silently: some diagnostic starts
/// exactly where it does and stays inside its span.
pub open spec fn error_token_reported(errs: Seq<Error>, t: Token) -> bool {
    t.kind == TokenKind::Error ==> exists|e: int|
        0 <= e < errs.len() && (#[trigger] errs[e]).offset == t.offset && errs[e].length
            <= t.text@.len()
}

/// Every `Error`-kind token of a stream is covered by a diagnostic.
pub open spec fn error_tokens_reported(toks: Seq<Token>, errs: Seq<Error>) -> bool {
    forall|k: int| 0 <= k < toks.len() ==> error_token_reported(errs, #[trigger] toks[k])
}

/// Whitespace byte, as exec code tests it.
fn ws_byte(b: u8) -> (r: bool)
    ensures
        r == is_ws(b),
{
    b == 32 || b == 9 || b == 13 || b == 10
}

/// Digit byte, as exec code tests it.
fn digit_byte(b: u8) -> (r: bool)
    ensures
        r == is_digit(b),
{
    48 <= b && b <= 57
}

/// Identifier-start byte, as exec code tests it.
fn ident_start_byte(b: u8) -> (r: bool)
    ensures
        r == is_ident_start(b),
{
    (65 <= b && b <= 90) || (97 <= b && b <= 122) || b == 95
}

/// Identifier-continue byte, as exec code tests it.
fn ident_cont_byte(b: u8) -> (r: bool)
    ensures
        r == is_ident_cont(b),
{
    ident_start_byte(b) || digit_byte(b)
}

/// An ASCII hexadecimal digit.
fn hex_byte(b: u8) -> bool {
    (48 <= b && b <= 57) || (65 <= b && b <= 70) || (97 <= b && b <= 102)
}

/// Copy the bytes `[i, j)` of the source into an owned vector.
fn copy_range(src: &Vec<u8>, i: usize, j: usize) -> (r: Vec<u8>)
    requires
        i <= j <= src@.len(),
    ensures
        r@ == src@.subrange(i as int, j as int),
{
    let mut r: Vec<u8> = Vec::new();
    let s = vstd::slice::slice_subrange(src.as_slice(), i, j);
    r.extend_from_slice(s);
    proof {
        assert(r@ =~= src@.subrange(i as int, j as int));
    }
    r
}

/// Scan a maximal whitespace run starting at `i`.
#[verifier::loop_isolation(false)]
fn scan_ws(src: &Vec<u8>, i: usize) -> (j: usize)
    requires
        i < src@.len(),
        is_ws(src@[i as int]),
    ensures
        i < j <= src@.len(),
        forall|k: int| i <= k < j ==> is_ws(#[trigger] src@[k]),
    {
    let n = src.len();
    let mut j = i + 1;
    while j < n && ws_byte(src[j])
        invariant
            i < j <= n,
            forall|k: int| i <= k < j ==> is_ws(#[trigger] src@[k]),
        decreases n - j,
    {
        j = j + 1;
    }
    j
}

/// Scan a comment: from `#` to the next line feed, exclusive.
#[verifier::loop_isolation(false)]
fn scan_comment(src: &Vec<u8>, i: usize) -> (j: usize)
    requires
        i < src@.len(),
        src@[i as int] == 35,
    ensures
        i < j <= src@.len(),
        forall|k: int| i < k < j ==> (#[trigger] src@[k]) != 10,
    {
    let n = src.len();
    let mut j = i + 1;
    while j < n && src[j] != 10
        invariant
            i < j <= n,
            forall|k: int| i < k < j ==> (#[trigger] src@[k]) != 10,
        decreases n - j,
    {
        j = j + 1;
    }
    j
}

/// Scan an identifier run starting at an identifier-start byte.
#[verifier::loop_isolation(false)]
fn scan_ident(src: &Vec<u8>, i: usize) -> (j: usize)
    requires
        i < src@.len(),
        is_ident_start(src@[i as int]),
    ensures
        i < j <= src@.len(),
        forall|k: int| i <= k < j ==> is_ident_cont(#[trigger] src@[k]),
    {
    let n = src.len();
    let mut j = i + 1;
    while j < n && ident_cont_byte(src[j])
        invariant
            i < j <= n,
            forall|k: int| i <= k < j ==> is_ident_cont(#[trigger] src@[k]),
        decreases n - j,
    {
        j = j + 1;
    }
    j
}

/// The result of scanning a numeric literal.
struct NumScan {
    end: usize,
    is_float: bool,
    ok: bool,
}

/// Scan a numeric literal: an optional minus sign, an integer part, then an
/// optional fraction and/or exponent.  A malformed number, or one followed
/// directly by a name character or a dot, is scanned to the end of the
/// offending run with `ok` false.
#[verifier::loop_isolation(false)]
#[verifier::rlimit(80)]
fn scan_number(src: &Vec<u8>, i: usize) -> (r: NumScan)
    requires
        i < src@.len(),
        src@[i as int] == 45 || is_digit(src@[i as int]),
    ensures
        i < r.end <= src@.len(),
        r.ok && !r.is_float ==> int_shape(src@.subrange(i as int, r.end as int)),
        r.ok && r.is_float ==> float_shape(src@.subrange(i as int, r.end as int)),
    {
    let n = src.len();
    let mut j = i;
    if src[j] == 45 {
        j = j + 1;
    }
    if j >= n || !digit_byte(src[j]) {
        // A bare minus sign with nothing after it.
        return NumScan { end: j.max(i + 1), is_float: false, ok: false };
    }
    let int_start = j;
    let first_digit = src[j];
    j = j + 1;
    while j < n && digit_byte(src[j])
        invariant
            int_start < j <= n,
            forall|k: int| int_start <= k < j ==> is_digit(#[trigger] src@[k]),
        decreases n - j,
    {
        j = j + 1;
    }
    let int_end = j;
    let mut ok = !(first_digit == 48 && int_end - int_start > 1);
    let mut is_float = false;
    if j < n && src[j] == 46 {
        is_float = true;
        j = j + 1;
        let frac_start = j;
        while j < n && digit_byte(src[j])
            invariant
                frac_start <= j <= n,
                forall|k: int| frac_start <= k < j ==> is_digit(#[trigger] src@[k]),
            decreases n - j,
        {
            j = j + 1;
        }
        if j == frac_start {
            ok = false;
        }
    }
    let frac_end = j;
    if j < n && (src[j] == 101 || src[j] == 69) {
        is_float = true;
        j = j + 1;
        if j < n && (src[j] == 43 || src[j] == 45) {
            j = j + 1;
        }
        let exp_start = j;
        while j < n && digit_byte(src[j])
            invariant
                exp_start <= j <= n,
                forall|k: int| exp_start <= k < j ==> is_digit(#[trigger] src@[k]),
            decreases n - j,
        {
            j = j + 1;
        }
        if j == exp_start {
            ok = false;
        }
    }
    let num_end = j;
    if j < n && (ident_cont_byte(src[j]) || src[j] == 46) {
        // A name character or a second dot directly after the number: the
        // whole run is one lexical error.
        ok = false;
        while j < n && (ident_cont_byte(src[j]) || src[j] == 46)
            invariant
                num_end <= j <= n,
            decreases n - j,
        {
            j = j + 1;
        }
    }
    proof {
        let t = src@.subrange(i as int, j as int);
        if ok && !is_float {
            assert(j == int_end);
            if src@[i as int] == 45 {
                assert(t.subrange(1, t.len() as int) =~= src@.subrange(
                    int_start as int,
                    int_end as int,
                ));
            } else {
                assert(t =~= src@.subrange(int_start as int, int_end as int));
            }
        }
        if ok && is_float {
            let p = int_end - i;
            let q = frac_end - i;
            assert(t.subrange(0, p as int) =~= src@.subrange(i as int, int_end as int));
            assert(t.subrange(p as int, q as int) =~= src@.subrange(
                int_end as int,
                frac_end as int,
            ));
            assert(t.subrange(q as int, t.len() as int) =~= src@.subrange(
                frac_end as int,
                j as int,
            ));
            let ip = src@.subrange(i as int, int_end as int);
            if src@[i as int] == 45 {
                assert(ip.subrange(1, ip.len() as int) =~= src@.subrange(
                    int_start as int,
                    int_end as int,
                ));
            } else {
                assert(ip =~= src@.subrange(int_start as int, int_end as int));
            }
            let fp = src@.subrange(int_end as int, frac_end as int);
            if int_end < frac_end {
                assert(fp[0] == src@[int_end as int]);
                assert(fp.subrange(1, fp.len() as int) =~= src@.subrange(
                    int_end as int + 1,
                    frac_end as int,
                ));
            }
            let ep = src@.subrange(frac_end as int, j as int);
            if frac_end < j {
                assert(ep[0] == src@[frac_end as int]);
                if src@[frac_end as int + 1] == 43 || src@[frac_end as int + 1] == 45 {
                    assert(ep.subrange(2, ep.len() as int) =~= src@.subrange(
                        frac_end as int + 2,
                        j as int,
                    ));
                } else {
                    assert(ep.subrange(1, ep.len() as int) =~= src@.subrange(
                        frac_end as int + 1,
                        j as int,
                    ));
                }
            }
            assert(float_shape(t));
        }
    }
    NumScan { end: j, is_float, ok }
}

/// The result of scanning a string literal.
struct StrScan {
    end: usize,
    terminated: bool,
}

/// Scan a single-line string literal from its opening quote.  Escapes are
/// validated; an invalid escape is reported and skipped.  The scan stops at
/// the closing quote, at a line feed, or at the end of the source; only the
/// first counts as terminated.
#[verifier::loop_isolation(false)]
fn scan_string(src: &Vec<u8>, i: usize, errs: &mut Vec<Error>) -> (r: StrScan)
    requires
        i < src@.len(),
        src@.len() <= u32::MAX,
        src@[i as int] == 34,
        errors_wf(old(errs)@, src@.len() as int),
    ensures
        i < r.end <= src@.len(),
        errors_wf(final(errs)@, src@.len() as int),
        old(errs)@.is_prefix_of(final(errs)@),
        r.terminated ==> r.end - i >= 2 && src@[r.end - 1] == 34,
    {
    let n = src.len();
    let mut j = i + 1;
    let mut terminated = false;
    proof {
        assert(errs@.subrange(0, old(errs)@.len() as int) =~= old(errs)@);
    }
    while j < n
        invariant
            i < j <= n,
            !terminated,
            errors_wf(errs@, n as int),
            old(errs)@.is_prefix_of(errs@),
        decreases n - j,
    {
        let c = src[j];
        if c == 34 {
            j = j + 1;
            terminated = true;
            break ;
        }
        if c == 10 {
            break ;
        }
        if c == 92 {
            if n - j > 1 {
                let e = src[j + 1];
                if e == 34 || e == 92 || e == 47 || e == 98 || e == 102 || e == 110 || e == 114
                    || e == 116 {
                    j = j + 2;
                } else if e == 117 {
                    if n - j > 5 && hex_byte(src[j + 2]) && hex_byte(src[j + 3]) && hex_byte(
                        src[j + 4],
                    ) && hex_byte(src[j + 5]) {
                        j = j + 6;
                    } else {
                        errs.push(
                            Error::new(unexpected_escape_message(), j as u32, 2),
                        );
                        proof {
                            assert(errs@.subrange(0, old(errs)@.len() as int) =~= old(errs)@);
                        }
                        j = j + 2;
                    }
                } else {
                    errs.push(Error::new(unexpected_escape_message(), j as u32, 2));
                    proof {
                        assert(errs@.subrange(0, old(errs)@.len() as int) =~= old(errs)@);
                    }
                    j = j + 2;
                }
                if j > n {
                    j = n;
                }
            } else {
                j = j + 1;
            }
        } else {
            j = j + 1;
        }
    }
    StrScan { end: j, terminated }
}

/// Scan a block string literal from its opening triple quote.  The sole
/// escape is a backslash before a closing triple quote; block strings may
/// span lines.
#[verifier::loop_isolation(false)]
fn scan_block_string(src: &Vec<u8>, i: usize) -> (r: StrScan)
    requires
        i + 3 <= src@.len(),
        src@[i as int] == 34,
        src@[i as int + 1] == 34,
        src@[i as int + 2] == 34,
    ensures
        i < r.end <= src@.len(),
        r.terminated ==> r.end - i >= 2 && src@[r.end - 1] == 34,
    {
    let n = src.len();
    let mut j = i + 3;
    let mut terminated = false;
    while j < n
        invariant
            i + 3 <= j <= n,
            !terminated,
        decreases n - j,
    {
        let c = src[j];
        if c == 92 && n - j > 3 && src[j + 1] == 34 && src[j + 2] == 34 && src[j + 3] == 34 {
            j = j + 4;
        } else if c == 34 && n - j > 2 && src[j + 1] == 34 && src[j + 2] == 34 {
            j = j + 3;
            terminated = true;
            break ;
        } else if c == 34 && n - j == 2 && src[j + 1] == 34 {
            // Exactly `""` left: not a close; consume and finish
            // unterminated.
            j = j + 2;
            break ;
        } else {
            j = j + 1;
        }
    }
    StrScan { end: j, terminated }
}

/// The diagnostic for an invalid escape sequence.
fn unexpected_escape_message() -> (r: String)
    ensures
        r@ == "unsupported escape sequence"@,
{
    String::from_str("unsupported escape sequence")
}

/// The diagnostic for a malformed numeric literal.
fn malformed_number_message() -> (r: String)
    ensures
        r@ == "unexpected character in numeric literal"@,
{
    String::from_str("unexpected character in numeric literal")
}

/// The diagnostic for an unterminated string literal.
fn unterminated_string_message() -> (r: String)
    ensures
        r@ == "unterminated string value"@,
{
    String::from_str("unterminated string value")
}

/// The diagnostic for dots that do not form a spread punctuator.
fn stray_dots_message() -> (r: String)
    ensures
        r@ == "a spread needs exactly three dots"@,
{
    String::from_str("a spread needs exactly three dots")
}

/// The diagnostic for a byte no token can start with.
fn unexpected_character_message() -> (r: String)
    ensures
        r@ == "unexpected character"@,
{
    String::from_str("unexpected character")
}

/// Turn source bytes into an ordered token stream plus lexical errors.
///
/// Every byte lands in exactly one token, in source order, so the stream
/// covers the source exactly; malformed spans come back as `Error` tokens
/// with a diagnostic each.
#[verifier::loop_isolation(false)]
#[verifier::rlimit(100)]
pub fn lex_bytes(src: &Vec<u8>) -> (r: (Vec<Token>, Vec<Error>))
    requires
        src@.len() <= u32::MAX,
    ensures
        toks_cover(r.0@, src@),
        forall|k: int|
            0 <= k < r.0@.len() ==> (#[trigger] r.0@[k]).wf(src@.len() as int) && shape_ok(
                r.0@[k].kind,
                r.0@[k].text@,
            ),
        errors_wf(r.1@, src@.len() as int),
        error_tokens_reported(r.0@, r.1@),
{
    let n = src.len();
    let mut toks: Vec<Token> = Vec::new();
    let mut errs: Vec<Error> = Vec::new();
    let mut i: usize = 0;
    while i < n
        invariant
            i <= n,
            toks_text(toks@) == src@.subrange(0, i as int),
            forall|k: int|
                0 <= k < toks@.len() ==> (#[trigger] toks@[k].offset) == toks_text_upto(
                    toks@,
                    k,
                ).len(),
            forall|k: int|
                0 <= k < toks@.len() ==> (#[trigger] toks@[k]).wf(n as int) && shape_ok(
                    toks@[k].kind,
                    toks@[k].text@,
                ),
            errors_wf(errs@, n as int),
            error_tokens_reported(toks@, errs@),
        decreases n - i,
    {
        let ghost pre_errs = errs@;
        let b = src[i];
        let mut kind: TokenKind = TokenKind::Error;
        let mut j: usize = i + 1;
        let mut kw: Kw = Kw::Other;
        if ws_byte(b) {
            j = scan_ws(src, i);
            kind = TokenKind::Whitespace;
        } else if b == 44 {
            kind = TokenKind::Comma;
        } else if b == 35 {
            j = scan_comment(src, i);
            kind = TokenKind::Comment;
        } else if ident_start_byte(b) {
            j = scan_ident(src, i);
            kind = TokenKind::Ident;
        } else if b == 45 || digit_byte(b) {
            let num = scan_number(src, i);
            j = num.end;
            if num.ok {
                kind = if num.is_float {
                    TokenKind::Float
                } else {
                    TokenKind::Int
                };
            } else {
                kind = TokenKind::Error;
                errs.push(Error::new(malformed_number_message(), i as u32, (j - i) as u32));
            }
        } else if b == 34 {
            let scan = if n - i > 2 && src[i + 1] == 34 && src[i + 2] == 34 {
                scan_block_string(src, i)
            } else {
                scan_string(src, i, &mut errs)
            };
            j = scan.end;
            if scan.terminated {
                kind = TokenKind::StringValue;
            } else {
                kind = TokenKind::Error;
                errs.push(Error::new(unterminated_string_message(), i as u32, (j - i) as u32));
            }
        } else if b == 46 {
            if n - i > 2 && src[i + 1] == 46 && src[i + 2] == 46 {
                j = i + 3;
                kind = TokenKind::Spread;
            } else {
                while j < n && src[j] == 46
                    invariant
                        i < j <= n,
                    decreases n - j,
                {
                    j = j + 1;
                }
                kind = TokenKind::Error;
                errs.push(Error::new(stray_dots_message(), i as u32, (j - i) as u32));
            }
        } else if b == 33 {
            kind = TokenKind::Bang;
        } else if b == 36 {
            kind = TokenKind::Dollar;
        } else if b == 38 {
            kind = TokenKind::Amp;
        } else if b == 40 {
            kind = TokenKind::LParen;
        } else if b == 41 {
            kind = TokenKind::RParen;
        } else if b == 58 {
            kind = TokenKind::Colon;
        } else if b == 61 {
            kind = TokenKind::Eq;
        } else if b == 64 {
            kind = TokenKind::At;
        } else if b == 91 {
            kind = TokenKind::LBrack;
        } else if b == 93 {
            kind = TokenKind::RBrack;
        } else if b == 123 {
            kind = TokenKind::LCurly;
        } else if b == 124 {
            kind = TokenKind::Pipe;
        } else if b == 125 {
            kind = TokenKind::RCurly;
        } else {
            kind = TokenKind::Error;
            errs.push(Error::new(unexpected_character_message(), i as u32, 1));
        }
        let text = copy_range(src, i, j);
        if kind == TokenKind::Ident {
            kw = classify_ident(&text);
        }
        let ghost pre_toks = toks@;
        let t = Token { kind, kw, text, offset: i as u32 };
        toks.push(t);
        proof {
            assert(pre_errs.is_prefix_of(errs@));
            assert forall|k: int| 0 <= k < toks@.len() implies error_token_reported(
                errs@,
                #[trigger] toks@[k],
            ) by {
                if k < pre_toks.len() {
                    assert(error_token_reported(pre_errs, pre_toks[k]));
                    if pre_toks[k].kind == TokenKind::Error {
                        let e = choose|e: int|
                            0 <= e < pre_errs.len() && (#[trigger] pre_errs[e]).offset
                                == pre_toks[k].offset && pre_errs[e].length
                                <= pre_toks[k].text@.len();
                        assert(errs@[e] == pre_errs[e]);
                    }
                } else {
                    if t.kind == TokenKind::Error {
                        assert(errs@[errs@.len() - 1].offset == t.offset && errs@[errs@.len()
                            - 1].length <= t.text@.len());
                    }
                }
            }
            lemma_toks_text_push(pre_toks, t);
            assert(src@.subrange(0, i as int) + src@.subrange(i as int, j as int) =~= src@.subrange(
                0,
                j as int,
            ));
            assert forall|k: int| 0 <= k < toks@.len() implies (#[trigger] toks@[k].offset)
                == toks_text_upto(toks@, k).len() by {
                lemma_toks_text_unchanged(pre_toks, toks@, k);
            }
            assert(shape_ok(t.kind, t.text@));
        }
        i = j;
    }
    proof {
        assert(src@.subrange(0, n as int) =~= src@);
    }
    (toks, errs)
}

/// The lexer: turns source text into tokens and lexical errors, each token
/// annotated with its byte offset.
pub struct Lexer {
    pub tokens: Vec<Token>,
    pub errors: Vec<Error>,
}

impl Lexer {
    /// Lex a whole source.  The token stream covers the source exactly, in
    /// order; every error span lies inside the source.
    pub fn new(input: &str) -> (r: Lexer)
        requires
            input.spec_bytes().len() <= u32::MAX,
        ensures
            toks_cover(r.tokens@, input.spec_bytes()),
            forall|k: int|
                0 <= k < r.tokens@.len() ==> (#[trigger] r.tokens@[k]).wf(
                    input.spec_bytes().len() as int,
                ) && shape_ok(r.tokens@[k].kind, r.tokens@[k].text@),
            errors_wf(r.errors@, input.spec_bytes().len() as int),
            error_tokens_reported(r.tokens@, r.errors@),
    {
        let bytes = input.as_bytes_vec();
        let (tokens, errors) = lex_bytes(&bytes);
        Lexer { tokens, errors }
    }

    /// The token stream, in source order.
    pub fn tokens(&self) -> (r: &Vec<Token>)
        ensures
            r@ == self.tokens@,
    {
        &self.tokens
    }

    /// The lexical errors, in source order.
    pub fn errors(&self) -> (r: &Vec<Error>)
        ensures
            r@ == self.errors@,
    {
        &self.errors
    }
}

} // verus!
