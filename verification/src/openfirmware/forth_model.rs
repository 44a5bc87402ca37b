//! The meaning of the Forth interpreter's words and of evaluating a line
//! of Forth: the interpreter's state as plain values, and what each word
//! and token does to it.
use vstd::prelude::*;
use crate::bytes::be32_bytes;
use crate::bytes::be32;
use crate::memory::with_bytes;
use crate::text::utf8_lossy;
use vstd::utf8::encode_utf8;

verus! {

/// The built-in words of the interpreter.
#[derive(Debug, Clone, Copy, PartialEq, Eq, Structural)]
pub enum Primitive {
    Dup,
    Drop,
    Swap,
    Over,
    Rot,
    Pick,
    Roll,
    TwoDup,
    TwoDrop,
    TwoSwap,
    Nip,
    Tuck,
    ToR,
    RFrom,
    RFetch,
    Add,
    Sub,
    Mul,
    Div,
    Mod,
    Negate,
    Abs,
    OnePlus,
    OneMinus,
    And,
    Or,
    Xor,
    Invert,
    Equal,
    NotEqual,
    Less,
    Greater,
    ZeroEqual,
    ZeroLess,
    Fetch,
    Store,
    CFetch,
    CStore,
    Decimal,
    Hex,
    HexLiteral,
    Here,
    Allot,
    CComma,
    Dot,
    Cr,
    DotQuote,
    UDot,
    Colon,
    Semicolon,
    If,
    Then,
    Else,
    StrEqual,
    StrFind,
    CallMethod,
    PathComponent,
    DecodeString,
    DecodeInt,
    EncodeInt,
    EncodePlus,
    EncodeString,
    Bounds,
    BracketChar,
    Between,
    Move,
    Fill,
    FindPackage,
    Abort,
    Catch,
    QuestionDup,
    Value,
    To,
    BracketTick,
    Execute,
    ThreeDrop,
    Adler32,
    InitProgram,
    Go,
    DotRegisters,
}

/// What a dictionary entry holds.
pub enum WordSpec {
    /// A built-in word.
    Prim(Primitive),
    /// A word defined with `:`, by the tokens of its body.
    Compiled(Seq<Seq<char>>),
    /// A constant.
    Constant(i32),
    /// A variable, by its address in data space.
    Variable(usize),
}

/// The interpreter's state.
pub struct ForthState {
    pub data: Seq<i32>,
    pub ret: Seq<i32>,
    pub dict: Map<Seq<char>, WordSpec>,
    pub space: Seq<u8>,
    pub here: int,
    pub compiling: bool,
    pub buffer: Seq<Seq<char>>,
    pub input: Seq<char>,
    pub pos: int,
    pub base: u32,
    pub out: Seq<u8>,
    pub load_base: Option<u32>,
    pub program_entry: Option<u32>,
}

/// The outcome of running a word: the state after it, and the error
/// message it stopped with, if any.
pub type Outcome = (ForthState, Option<Seq<char>>);

pub open spec fn msg_underflow() -> Seq<char> {
    "Stack underflow"@
}

pub open spec fn msg_empty() -> Seq<char> {
    "Stack empty"@
}

pub open spec fn msg_rstack_underflow() -> Seq<char> {
    "Return stack underflow"@
}

pub open spec fn msg_rstack_empty() -> Seq<char> {
    "Return stack empty"@
}

pub open spec fn msg_div_zero() -> Seq<char> {
    "Division by zero"@
}

pub open spec fn msg_bounds() -> Seq<char> {
    "Memory access out of bounds"@
}

pub open spec fn msg_exhausted() -> Seq<char> {
    "Data space exhausted"@
}

pub open spec fn msg_not_compiling() -> Seq<char> {
    "Not compiling"@
}

pub open spec fn msg_empty_definition() -> Seq<char> {
    "Empty definition"@
}

pub open spec fn msg_hex_literal() -> Seq<char> {
    "Expected a hexadecimal number after h#"@
}

pub open spec fn msg_too_deep() -> Seq<char> {
    "Word nesting too deep"@
}

pub open spec fn msg_undefined(name: Seq<char>) -> Seq<char> {
    "Undefined word: "@ + name
}

/// The bitwise complement.
pub open spec fn invert_bits(x: i32) -> i32 {
    !x
}

/// Forth's truth value.
pub open spec fn flag(b: bool) -> i32 {
    if b {
        -1i32
    } else {
        0
    }
}

/// The state with a new data stack.
pub open spec fn with_data(s: ForthState, d: Seq<i32>) -> ForthState {
    ForthState { data: d, ..s }
}

/// The data stack without its top `n` cells.
pub open spec fn drop_n(d: Seq<i32>, n: int) -> Seq<i32> {
    d.subrange(0, d.len() - n)
}

/// The cell `k` places below the top (0 is the top).
pub open spec fn nth_top(d: Seq<i32>, k: int) -> i32 {
    d[d.len() - 1 - k]
}

/// A word that pops `n` cells and pushes `results` computed from them:
/// with fewer than `n` cells, they are all popped and the word fails.
pub open spec fn pop_push(s: ForthState, n: int, results: Seq<i32>) -> Outcome {
    if s.data.len() < n {
        (with_data(s, Seq::empty()), Some(msg_underflow()))
    } else {
        (with_data(s, drop_n(s.data, n) + results), None)
    }
}

/// A binary operation on the two top cells (`a` below `b`).
pub open spec fn binary(s: ForthState, r: i32) -> Outcome {
    pop_push(s, 2, seq![r])
}

pub open spec fn top_a(s: ForthState) -> i32 {
    nth_top(s.data, 1)
}

pub open spec fn top_b(s: ForthState) -> i32 {
    nth_top(s.data, 0)
}

/// Whether an address in data space names `width` bytes inside it.
pub open spec fn in_space(s: ForthState, addr: i32, width: int) -> bool {
    0 <= addr && addr + width <= s.space.len()
}

/// The decimal digits of a natural number.
pub open spec fn dec_digits(n: nat) -> Seq<u8>
    decreases n,
{
    if n < 10 {
        seq![(48 + n) as u8]
    } else {
        dec_digits(n / 10) + seq![(48 + n % 10) as u8]
    }
}

/// How `{}` prints an integer.
pub open spec fn dec_text(v: int) -> Seq<u8> {
    if v < 0 {
        seq![45u8] + dec_digits((-v) as nat)
    } else {
        dec_digits(v as nat)
    }
}

/// Whether a character is white space (Unicode White_Space).
pub open spec fn is_ws(c: char) -> bool {
    ('\t' <= c <= '\r') || c == ' ' || c == '\u{85}' || c == '\u{a0}' || c == '\u{1680}' || ('\u{2000}' <= c
        <= '\u{200a}') || c == '\u{2028}' || c == '\u{2029}' || c == '\u{202f}' || c == '\u{205f}' || c
        == '\u{3000}'
}

/// The first position at or after `p` that is not white space.
pub open spec fn skip_space(input: Seq<char>, p: int) -> int
    decreases input.len() - p,
{
    if 0 <= p < input.len() && is_ws(input[p]) {
        skip_space(input, p + 1)
    } else {
        p
    }
}

/// The first position at or after `p` that is white space, or the end.
pub open spec fn token_end(input: Seq<char>, p: int) -> int
    decreases input.len() - p,
{
    if 0 <= p < input.len() && !is_ws(input[p]) {
        token_end(input, p + 1)
    } else {
        p
    }
}

/// Read the next token from the input: the position after it, and the
/// token if there is one.
pub open spec fn next_token(s: ForthState) -> (int, Option<Seq<char>>) {
    let st = skip_space(s.input, s.pos);
    if st >= s.input.len() {
        (st, None)
    } else {
        let e = token_end(s.input, st);
        (e, Some(s.input.subrange(st, e)))
    }
}

/// The value of a digit in any radix up to 36, as `char::to_digit` reads it.
pub open spec fn digit_value(c: char) -> int {
    if '0' <= c <= '9' {
        c as int - 48
    } else if 'a' <= c <= 'z' {
        c as int - 87
    } else if 'A' <= c <= 'Z' {
        c as int - 55
    } else {
        99
    }
}

/// The value of the digits `t[0..n)` in `radix`.
pub open spec fn digits_value(t: Seq<char>, n: int, radix: int) -> int
    decreases n,
{
    if n <= 0 {
        0
    } else {
        digits_value(t, n - 1, radix) * radix + digit_value(t[n - 1])
    }
}

/// Whether every character of `t` is a digit in `radix`.
pub open spec fn all_digits(t: Seq<char>, radix: int) -> bool {
    forall|i: int| 0 <= i < t.len() ==> #[trigger] digit_value(t[i]) < radix
}

/// `i32::from_str_radix`: an optional sign, then digits of a value that
/// fits in an `i32`.
pub open spec fn parse_radix(t: Seq<char>, radix: int) -> Option<i32> {
    if t.len() == 0 || ((t[0] == '+' || t[0] == '-') && t.len() == 1) {
        None
    } else {
        let signed = t[0] == '+' || t[0] == '-';
        let digits = if signed {
            t.subrange(1, t.len() as int)
        } else {
            t
        };
        let v = digits_value(digits, digits.len() as int, radix);
        let value = if t[0] == '-' {
            -v
        } else {
            v
        };
        if !all_digits(digits, radix) || value < i32::MIN || value > i32::MAX {
            None
        } else {
            Some(value as i32)
        }
    }
}

/// A token read as a number: hexadecimal after an "h#" or "0x" prefix,
/// else in the current base.
pub open spec fn parse_number(t: Seq<char>, base: u32) -> Option<i32> {
    if t.len() >= 2 && ((t[0] == 'h' && t[1] == '#') || (t[0] == '0' && t[1] == 'x')) {
        parse_radix(t.subrange(2, t.len() as int), 16)
    } else {
        parse_radix(t, base as int)
    }
}

/// Division truncated toward zero; the one quotient that does not fit,
/// `i32::MIN / -1`, wraps to `i32::MIN`.
pub open spec fn quotient(a: i32, b: i32) -> i32 {
    match a.checked_div(b) {
        Some(q) => q,
        None => i32::MIN,
    }
}

/// The remainder of truncated division; `i32::MIN % -1` is 0.
pub open spec fn remainder(a: i32, b: i32) -> i32 {
    match a.checked_rem(b) {
        Some(r) => r,
        None => 0,
    }
}

/// What a built-in word does.
pub open spec fn prim_step(s: ForthState, p: Primitive) -> Outcome {
    let d = s.data;
    let n = d.len();
    match p {
        Primitive::Dup => if n == 0 {
            (s, Some(msg_empty()))
        } else {
            (with_data(s, d.push(d.last())), None)
        },
        Primitive::Drop => pop_push(s, 1, Seq::empty()),
        Primitive::Swap => pop_push(s, 2, seq![top_b(s), top_a(s)]),
        Primitive::Over => if n < 2 {
            (s, Some(msg_underflow()))
        } else {
            (with_data(s, d.push(nth_top(d, 1))), None)
        },
        Primitive::Rot => pop_push(s, 3, seq![nth_top(d, 1), nth_top(d, 0), nth_top(d, 2)]),
        Primitive::Pick => if n == 0 {
            (s, Some(msg_underflow()))
        } else {
            let k = d.last();
            let rest = d.drop_last();
            if k < 0 || k >= rest.len() {
                (with_data(s, rest), Some(msg_underflow()))
            } else {
                (with_data(s, rest.push(nth_top(rest, k as int))), None)
            }
        },
        Primitive::Roll => if n == 0 {
            (s, Some(msg_underflow()))
        } else {
            let k = d.last();
            let rest = d.drop_last();
            if k < 0 || k >= rest.len() {
                (with_data(s, rest), Some(msg_underflow()))
            } else {
                let i = rest.len() - 1 - k;
                (with_data(s, rest.remove(i).push(rest[i])), None)
            }
        },
        Primitive::TwoDup => if n < 2 {
            (s, Some(msg_underflow()))
        } else {
            (with_data(s, d + seq![nth_top(d, 1), nth_top(d, 0)]), None)
        },
        Primitive::TwoDrop => pop_push(s, 2, Seq::empty()),
        Primitive::TwoSwap => pop_push(s, 4, seq![nth_top(d, 1), nth_top(d, 0), nth_top(d, 3), nth_top(d, 2)]),
        Primitive::Nip => pop_push(s, 2, seq![top_b(s)]),
        Primitive::Tuck => pop_push(s, 2, seq![top_b(s), top_a(s), top_b(s)]),
        Primitive::ToR => if n == 0 {
            (s, Some(msg_underflow()))
        } else {
            (ForthState { data: d.drop_last(), ret: s.ret.push(d.last()), ..s }, None)
        },
        Primitive::RFrom => if s.ret.len() == 0 {
            (s, Some(msg_rstack_underflow()))
        } else {
            (ForthState { data: d.push(s.ret.last()), ret: s.ret.drop_last(), ..s }, None)
        },
        Primitive::RFetch => if s.ret.len() == 0 {
            (s, Some(msg_rstack_empty()))
        } else {
            (with_data(s, d.push(s.ret.last())), None)
        },
        Primitive::Add => binary(s, top_a(s).wrapping_add(top_b(s))),
        Primitive::Sub => binary(s, top_a(s).wrapping_sub(top_b(s))),
        Primitive::Mul => binary(s, top_a(s).wrapping_mul(top_b(s))),
        Primitive::Div => if n < 2 {
            (with_data(s, Seq::empty()), Some(msg_underflow()))
        } else if top_b(s) == 0 {
            (with_data(s, drop_n(d, 2)), Some(msg_div_zero()))
        } else {
            binary(s, quotient(top_a(s), top_b(s)))
        },
        Primitive::Mod => if n < 2 {
            (with_data(s, Seq::empty()), Some(msg_underflow()))
        } else if top_b(s) == 0 {
            (with_data(s, drop_n(d, 2)), Some(msg_div_zero()))
        } else {
            binary(s, remainder(top_a(s), top_b(s)))
        },
        Primitive::Negate => pop_push(s, 1, seq![0i32.wrapping_sub(top_b(s))]),
        Primitive::Abs => pop_push(s, 1, seq![if top_b(s) < 0 { 0i32.wrapping_sub(top_b(s)) } else { top_b(s) }]),
        Primitive::OnePlus => pop_push(s, 1, seq![top_b(s).wrapping_add(1)]),
        Primitive::OneMinus => pop_push(s, 1, seq![top_b(s).wrapping_sub(1)]),
        Primitive::And => binary(s, top_a(s) & top_b(s)),
        Primitive::Or => binary(s, top_a(s) | top_b(s)),
        Primitive::Xor => binary(s, top_a(s) ^ top_b(s)),
        Primitive::Invert => pop_push(s, 1, seq![invert_bits(top_b(s))]),
        Primitive::Equal => binary(s, flag(top_a(s) == top_b(s))),
        Primitive::NotEqual => binary(s, flag(top_a(s) != top_b(s))),
        Primitive::Less => binary(s, flag(top_a(s) < top_b(s))),
        Primitive::Greater => binary(s, flag(top_a(s) > top_b(s))),
        Primitive::ZeroEqual => pop_push(s, 1, seq![flag(top_b(s) == 0)]),
        Primitive::ZeroLess => pop_push(s, 1, seq![flag(top_b(s) < 0)]),
        Primitive::Fetch => if n == 0 {
            (s, Some(msg_underflow()))
        } else if !in_space(s, d.last(), 4) {
            (with_data(s, d.drop_last()), Some(msg_bounds()))
        } else {
            (with_data(s, d.drop_last().push(be32(s.space, d.last() as int) as i32)), None)
        },
        Primitive::Store => if n < 2 {
            (with_data(s, Seq::empty()), Some(msg_underflow()))
        } else if !in_space(s, top_b(s), 4) {
            (with_data(s, drop_n(d, 2)), Some(msg_bounds()))
        } else {
            (
                ForthState {
                    data: drop_n(d, 2),
                    space: with_bytes(s.space, top_b(s) as int, be32_bytes(top_a(s) as u32)),
                    ..s
                },
                None,
            )
        },
        Primitive::CFetch => if n == 0 {
            (s, Some(msg_underflow()))
        } else if !in_space(s, d.last(), 1) {
            (with_data(s, d.drop_last()), Some(msg_bounds()))
        } else {
            (with_data(s, d.drop_last().push(s.space[d.last() as int] as i32)), None)
        },
        Primitive::CStore => if n < 2 {
            (with_data(s, Seq::empty()), Some(msg_underflow()))
        } else if !in_space(s, top_b(s), 1) {
            (with_data(s, drop_n(d, 2)), Some(msg_bounds()))
        } else {
            (ForthState { data: drop_n(d, 2), space: s.space.update(top_b(s) as int, top_a(s) as u8), ..s }, None)
        },
        Primitive::Decimal => (ForthState { base: 10, ..s }, None),
        Primitive::Hex => (ForthState { base: 16, ..s }, None),
        Primitive::HexLiteral => {
            let (p2, tok) = next_token(s);
            let s2 = ForthState { pos: p2, ..s };
            match tok {
                None => (s2, Some(msg_hex_literal())),
                Some(t) => match parse_radix(t, 16) {
                    None => (s2, Some(msg_hex_literal())),
                    Some(v) => (with_data(s2, d.push(v)), None),
                },
            }
        },
        Primitive::Here => (with_data(s, d.push(s.here as i32)), None),
        Primitive::Allot => if n == 0 {
            (s, Some(msg_underflow()))
        } else if d.last() < 0 || s.here + d.last() > usize::MAX {
            (with_data(s, d.drop_last()), Some(msg_exhausted()))
        } else {
            let h = s.here + d.last();
            let s2 = ForthState { data: d.drop_last(), here: h, ..s };
            if h > s.space.len() {
                (s2, Some(msg_exhausted()))
            } else {
                (s2, None)
            }
        },
        Primitive::CComma => if n == 0 {
            (s, Some(msg_underflow()))
        } else if s.here >= s.space.len() {
            (with_data(s, d.drop_last()), Some(msg_exhausted()))
        } else {
            (
                ForthState {
                    data: d.drop_last(),
                    space: s.space.update(s.here, d.last() as u8),
                    here: s.here + 1,
                    ..s
                },
                None,
            )
        },
        Primitive::Dot => if n == 0 {
            (s, Some(msg_underflow()))
        } else {
            (ForthState { data: d.drop_last(), out: s.out + dec_text(d.last() as int) + seq![32u8], ..s }, None)
        },
        Primitive::UDot => if n == 0 {
            (s, Some(msg_underflow()))
        } else {
            (
                ForthState { data: d.drop_last(), out: s.out + dec_text((d.last() as u32) as int) + seq![32u8], ..s },
                None,
            )
        },
        Primitive::Cr => (ForthState { out: s.out.push(10u8), ..s }, None),
        Primitive::DotQuote => (s, None),
        Primitive::Colon => (ForthState { compiling: true, buffer: Seq::empty(), ..s }, None),
        Primitive::Semicolon => end_definition(s),
        Primitive::If => (s, None),
        Primitive::Then => (s, None),
        Primitive::Else => (s, None),
        Primitive::Catch => (s, None),
        Primitive::Execute => (s, None),
        _ => of_step(s, p),
    }
}

/// Whether `[addr, addr + len)` lies in data space.
pub open spec fn range_ok(s: ForthState, addr: i32, len: i32) -> bool {
    0 <= addr && 0 <= len && addr + len <= s.space.len()
}

/// The bytes `[addr, addr + len)` of data space.
pub open spec fn bytes_at(s: ForthState, addr: i32, len: i32) -> Seq<u8> {
    s.space.subrange(addr as int, addr + len)
}

/// `n` rounded up to a multiple of four.
pub open spec fn round4(n: int) -> int {
    ((n + 3) / 4) * 4
}

/// The first '/' in `b`, or its length.
pub open spec fn first_slash(b: Seq<u8>, i: int) -> int
    decreases b.len() - i,
{
    if i < 0 || i >= b.len() {
        b.len() as int
    } else if b[i] == 0x2F {
        i
    } else {
        first_slash(b, i + 1)
    }
}

/// The package handle a path hashes to: 31 * h + byte over its bytes,
/// from 2, wrapping.
pub open spec fn path_hash(b: Seq<u8>) -> i32
    decreases b.len(),
{
    if b.len() == 0 {
        2
    } else {
        path_hash(b.drop_last()).wrapping_mul(31).wrapping_add(b.last() as i32)
    }
}

/// The two Adler-32 sums after the bytes `b`.
pub open spec fn adler_sums(b: Seq<u8>, a: u32, c: u32) -> (u32, u32)
    decreases b.len(),
{
    if b.len() == 0 {
        (a, c)
    } else {
        let (a1, c1) = adler_sums(b.drop_last(), a, c);
        let a2 = ((a1 + b.last()) % 65521) as u32;
        (a2, ((c1 + a2) % 65521) as u32)
    }
}

pub open spec fn msg_decode_string() -> Seq<char> {
    "Buffer too small for decode-string"@
}

pub open spec fn msg_decode_string_len() -> Seq<char> {
    "Buffer too small for string"@
}

pub open spec fn msg_decode_int() -> Seq<char> {
    "Buffer too small for decode-int"@
}

pub open spec fn msg_abort() -> Seq<char> {
    "ABORT"@
}

pub open spec fn msg_value_name() -> Seq<char> {
    "Expected value name"@
}

pub open spec fn msg_tick_name() -> Seq<char> {
    "Expected word name after [']"@
}

pub open spec fn msg_bad_xt() -> Seq<char> {
    "Invalid execution token"@
}

pub open spec fn msg_value_missing(name: Seq<char>) -> Seq<char> {
    "Value not found: "@ + name
}

pub open spec fn msg_word_missing(name: Seq<char>) -> Seq<char> {
    "Word not found: "@ + name
}

/// What an OpenFirmware word that needs no other word does.
pub open spec fn of_step(s: ForthState, p: Primitive) -> Outcome {
    let d = s.data;
    let n = d.len();
    match p {
        Primitive::StrEqual => if n < 4 {
            (with_data(s, Seq::empty()), Some(msg_underflow()))
        } else {
            let (len2, addr2, len1, addr1) = (nth_top(d, 0), nth_top(d, 1), nth_top(d, 2), nth_top(d, 3));
            let s1 = with_data(s, drop_n(d, 4));
            if len1 != len2 {
                (with_data(s1, s1.data.push(0)), None)
            } else if !range_ok(s, addr1, len1) || !range_ok(s, addr2, len2) {
                (s1, Some(msg_bounds()))
            } else {
                (with_data(s1, s1.data.push(flag(bytes_at(s, addr1, len1) == bytes_at(s, addr2, len2)))), None)
            }
        },
        Primitive::StrFind => (with_data(s, d + seq![0i32, 0i32]), None),
        Primitive::CallMethod => pop_push(s, 3, seq![0i32]),
        Primitive::PathComponent => if n < 2 {
            (with_data(s, Seq::empty()), Some(msg_underflow()))
        } else {
            let (len1, addr1) = (nth_top(d, 0), nth_top(d, 1));
            let rest = drop_n(d, 2);
            if len1 == 0 {
                (with_data(s, rest + seq![addr1, 0i32, addr1, 0i32]), None)
            } else if !range_ok(s, addr1, len1) {
                (with_data(s, rest), Some(msg_bounds()))
            } else {
                let c = first_slash(bytes_at(s, addr1, len1), 0);
                let skip = if c < len1 { 1int } else { 0int };
                (
                    with_data(s, rest + seq![(addr1 + c + skip) as i32, (len1 - c - skip) as i32, addr1, c as i32]),
                    None,
                )
            }
        },
        Primitive::DecodeString => if n < 2 {
            (with_data(s, Seq::empty()), Some(msg_underflow()))
        } else {
            let (len1, addr1) = (nth_top(d, 0), nth_top(d, 1));
            let s1 = with_data(s, drop_n(d, 2));
            if len1 < 0 || addr1 < 0 {
                (s1, Some(msg_bounds()))
            } else if len1 < 4 {
                (s1, Some(msg_decode_string()))
            } else if !in_space(s, addr1, 4) {
                (s1, Some(msg_bounds()))
            } else {
                let str_len = be32(s.space, addr1 as int) as i32;
                if str_len < 0 || 4 + round4(str_len as int) > len1 {
                    (s1, Some(msg_decode_string_len()))
                } else {
                    let total = 4 + round4(str_len as int);
                    (
                        with_data(
                            s1,
                            s1.data + seq![(addr1 + total) as i32, (len1 - total) as i32, (addr1 + 4) as i32, str_len],
                        ),
                        None,
                    )
                }
            }
        },
        Primitive::DecodeInt => if n < 2 {
            (with_data(s, Seq::empty()), Some(msg_underflow()))
        } else {
            let (len1, addr1) = (nth_top(d, 0), nth_top(d, 1));
            let s1 = with_data(s, drop_n(d, 2));
            if len1 < 0 || addr1 < 0 {
                (s1, Some(msg_bounds()))
            } else if len1 < 4 {
                (s1, Some(msg_decode_int()))
            } else if !in_space(s, addr1, 4) {
                (s1, Some(msg_bounds()))
            } else {
                (
                    with_data(s1, s1.data + seq![(addr1 + 4) as i32, (len1 - 4) as i32, be32(s.space, addr1 as int) as i32]),
                    None,
                )
            }
        },
        Primitive::EncodeInt => if n == 0 {
            (s, Some(msg_underflow()))
        } else if s.here + 4 > s.space.len() {
            (with_data(s, d.drop_last()), Some(msg_exhausted()))
        } else {
            (
                ForthState {
                    data: d.drop_last() + seq![s.here as i32, 4i32],
                    space: with_bytes(s.space, s.here, be32_bytes(d.last() as u32)),
                    here: s.here + 4,
                    ..s
                },
                None,
            )
        },
        Primitive::EncodePlus => if n < 4 {
            (with_data(s, Seq::empty()), Some(msg_underflow()))
        } else {
            let (len2, addr2, len1, addr1) = (nth_top(d, 0), nth_top(d, 1), nth_top(d, 2), nth_top(d, 3));
            let s1 = with_data(s, drop_n(d, 4));
            if len1 < 0 || len2 < 0 || addr1 < 0 || addr2 < 0 {
                (s1, Some(msg_bounds()))
            } else if s.here + len1 + len2 > s.space.len() {
                (s1, Some(msg_exhausted()))
            } else if !range_ok(s, addr1, len1) || !range_ok(s, addr2, len2) {
                (s1, Some(msg_bounds()))
            } else {
                let b1 = bytes_at(s, addr1, len1);
                let b2 = bytes_at(s, addr2, len2);
                (
                    ForthState {
                        data: s1.data + seq![s.here as i32, (len1 + len2) as i32],
                        space: with_bytes(with_bytes(s.space, s.here, b1), s.here + len1, b2),
                        here: s.here + len1 + len2,
                        ..s
                    },
                    None,
                )
            }
        },
        Primitive::EncodeString => if n < 2 {
            (with_data(s, Seq::empty()), Some(msg_underflow()))
        } else {
            let (len, addr) = (nth_top(d, 0), nth_top(d, 1));
            let s1 = with_data(s, drop_n(d, 2));
            if len < 0 || addr < 0 {
                (s1, Some(msg_bounds()))
            } else if s.here + 4 + round4(len as int) > s.space.len() {
                (s1, Some(msg_exhausted()))
            } else {
                let s2 = ForthState { space: with_bytes(s1.space, s.here, be32_bytes(len as u32)), here: s.here + 4, ..s1 };
                if !range_ok(s2, addr, len) {
                    (s2, Some(msg_bounds()))
                } else {
                    (
                        ForthState {
                            data: s1.data + seq![s.here as i32, (4 + round4(len as int)) as i32],
                            space: with_bytes(s2.space, s.here + 4, bytes_at(s2, addr, len)),
                            here: s.here + 4 + round4(len as int),
                            ..s1
                        },
                        None,
                    )
                }
            }
        },
        Primitive::Bounds => pop_push(s, 2, seq![nth_top(d, 1).wrapping_add(nth_top(d, 0)), nth_top(d, 1)]),
        Primitive::BracketChar => (s, None),
        Primitive::Between => pop_push(s, 3, seq![flag(nth_top(d, 2) >= nth_top(d, 1) && nth_top(d, 2) <= nth_top(d, 0))]),
        Primitive::Move => if n < 3 {
            (with_data(s, Seq::empty()), Some(msg_underflow()))
        } else {
            let (len, dest, src) = (nth_top(d, 0), nth_top(d, 1), nth_top(d, 2));
            let s1 = with_data(s, drop_n(d, 3));
            if !range_ok(s, src, len) || !range_ok(s, dest, len) {
                (s1, Some(msg_bounds()))
            } else {
                (ForthState { space: with_bytes(s.space, dest as int, bytes_at(s, src, len)), ..s1 }, None)
            }
        },
        Primitive::Fill => if n < 3 {
            (with_data(s, Seq::empty()), Some(msg_underflow()))
        } else {
            let (b, len, addr) = (nth_top(d, 0), nth_top(d, 1), nth_top(d, 2));
            let s1 = with_data(s, drop_n(d, 3));
            if !range_ok(s, addr, len) {
                (s1, Some(msg_bounds()))
            } else {
                (
                    ForthState { space: with_bytes(s.space, addr as int, Seq::new(len as nat, |i: int| b as u8)), ..s1 },
                    None,
                )
            }
        },
        Primitive::FindPackage => if n < 2 {
            (with_data(s, Seq::empty()), Some(msg_underflow()))
        } else {
            let (len, addr) = (nth_top(d, 0), nth_top(d, 1));
            let rest = drop_n(d, 2);
            if !range_ok(s, addr, len) {
                (with_data(s, rest), Some(msg_bounds()))
            } else {
                let path = utf8_lossy(bytes_at(s, addr, len));
                let h = if path == seq!['/'] {
                    1i32
                } else if path.len() > 0 && path[0] == '/' {
                    path_hash(encode_utf8(path))
                } else {
                    0i32
                };
                (with_data(s, rest.push(h)), None)
            }
        },
        Primitive::Abort => (s, Some(msg_abort())),
        Primitive::QuestionDup => if n == 0 {
            (s, Some(msg_empty()))
        } else if d.last() != 0 {
            (with_data(s, d.push(d.last())), None)
        } else {
            (s, None)
        },
        Primitive::Value => {
            let (p2, tok) = next_token(s);
            let s1 = ForthState { pos: p2, ..s };
            match tok {
                None => (s1, Some(msg_value_name())),
                Some(name) => if n == 0 {
                    (s1, Some(msg_underflow()))
                } else if s.here + 4 > s.space.len() {
                    (with_data(s1, d.drop_last()), Some(msg_exhausted()))
                } else {
                    (
                        ForthState {
                            data: d.drop_last(),
                            space: with_bytes(s.space, s.here, be32_bytes(d.last() as u32)),
                            here: s.here + 8,
                            dict: s.dict.insert(name, WordSpec::Variable((s.here + 4) as usize)),
                            ..s1
                        },
                        None,
                    )
                },
            }
        },
        Primitive::To => {
            let (p2, tok) = next_token(s);
            let s1 = ForthState { pos: p2, ..s };
            match tok {
                None => (s1, Some(msg_value_name())),
                Some(name) => if n == 0 {
                    (s1, Some(msg_underflow()))
                } else {
                    let s2 = with_data(s1, d.drop_last());
                    if s.dict.contains_key(name) && s.dict[name] is Variable {
                        let a = s.dict[name]->Variable_0;
                        if a + 4 > s.space.len() {
                            (s2, Some(msg_bounds()))
                        } else {
                            (ForthState { space: with_bytes(s.space, a as int, be32_bytes(d.last() as u32)), ..s2 }, None)
                        }
                    } else {
                        (s2, Some(msg_value_missing(name)))
                    }
                },
            }
        },
        Primitive::BracketTick => {
            let (p2, tok) = next_token(s);
            let s1 = ForthState { pos: p2, ..s };
            match tok {
                None => (s1, Some(msg_tick_name())),
                Some(name) => if !s.dict.contains_key(name) {
                    (s1, Some(msg_word_missing(name)))
                } else {
                    let b = encode_utf8(name);
                    if s.here + b.len() + 4 > s.space.len() {
                        (s1, Some(msg_exhausted()))
                    } else {
                        (
                            ForthState {
                                data: d.push(s.here as i32),
                                space: with_bytes(s.space, s.here, be32_bytes(b.len() as u32) + b),
                                here: s.here + 4 + b.len(),
                                ..s1
                            },
                            None,
                        )
                    }
                },
            }
        },
        Primitive::ThreeDrop => pop_push(s, 3, Seq::empty()),
        Primitive::Adler32 => if n < 3 {
            (with_data(s, Seq::empty()), Some(msg_underflow()))
        } else {
            let (init, len, addr) = (nth_top(d, 0) as u32, nth_top(d, 1), nth_top(d, 2));
            let rest = drop_n(d, 3);
            if !range_ok(s, addr, len) {
                (with_data(s, rest), Some(msg_bounds()))
            } else {
                let (a, c) = adler_sums(bytes_at(s, addr, len), init % 0x10000, (init / 0x10000) % 0x10000);
                (with_data(s, rest.push((c * 0x10000 + a) as i32)), None)
            }
        },
        Primitive::InitProgram => if s.dict.contains_key("load-base"@) && s.dict["load-base"@] is Constant {
            (ForthState { load_base: Some(s.dict["load-base"@]->Constant_0 as u32), ..s }, None)
        } else {
            (s, None)
        },
        Primitive::Go => match s.load_base {
            Some(l) => (ForthState { program_entry: Some(l), ..s }, None),
            None => (s, None),
        },
        Primitive::DotRegisters => (s, None),
        _ => (s, None),
    }
}

/// The name an execution token at `xt` holds: a length cell, then the
/// name's bytes; none when they do not lie in data space.
pub open spec fn xt_name(s: ForthState, xt: i32) -> Option<Seq<char>> {
    if !in_space(s, xt, 4) {
        None
    } else {
        let len = be32(s.space, xt as int) as i32;
        if len < 0 || xt + 4 + len > s.space.len() {
            None
        } else {
            Some(utf8_lossy(s.space.subrange(xt + 4, xt + 4 + len)))
        }
    }
}

/// `;`: end the definition being compiled and enter it in the dictionary
/// under its first token.
pub open spec fn end_definition(s: ForthState) -> Outcome {
    if !s.compiling {
        (s, Some(msg_not_compiling()))
    } else if s.buffer.len() == 0 {
        (ForthState { compiling: false, ..s }, Some(msg_empty_definition()))
    } else {
        (
            ForthState {
                compiling: false,
                dict: s.dict.insert(s.buffer[0], WordSpec::Compiled(s.buffer.subrange(1, s.buffer.len() as int))),
                buffer: Seq::empty(),
                ..s
            },
            None,
        )
    }
}

/// Run the word `name`, with `fuel` levels of compiled words to go.
pub open spec fn exec_word(s: ForthState, name: Seq<char>, fuel: nat) -> Outcome
    decreases fuel, 0nat, 0nat,
{
    if !s.dict.contains_key(name) {
        (s, Some(msg_undefined(name)))
    } else {
        match s.dict[name] {
            WordSpec::Prim(p) => if p == Primitive::Catch || p == Primitive::Execute {
                if fuel == 0 {
                    (s, Some(msg_too_deep()))
                } else {
                    exec_xt(s, p, (fuel - 1) as nat)
                }
            } else {
                prim_step(s, p)
            },
            WordSpec::Constant(v) => (with_data(s, s.data.push(v)), None),
            WordSpec::Variable(a) => (with_data(s, s.data.push(a as i32)), None),
            WordSpec::Compiled(body) => if fuel == 0 {
                (s, Some(msg_too_deep()))
            } else {
                exec_body(s, body, 0, (fuel - 1) as nat)
            },
        }
    }
}

/// `execute` and `catch`: run the word an execution token names. `execute`
/// passes its failure on; `catch` pushes 0 when it succeeds, -3 when it
/// fails, and -1 or -2 for a token out of data space.
pub open spec fn exec_xt(s: ForthState, p: Primitive, fuel: nat) -> Outcome
    decreases fuel, 0nat, 2nat,
{
    let d = s.data;
    if d.len() == 0 {
        (s, Some(msg_underflow()))
    } else {
        let xt = d.last();
        let s1 = with_data(s, d.drop_last());
        if p == Primitive::Execute {
            match xt_name(s1, xt) {
                None => (s1, Some(msg_bad_xt())),
                Some(name) => exec_word(s1, name, fuel),
            }
        } else if !in_space(s1, xt, 4) {
            (with_data(s1, s1.data.push(-1i32)), None)
        } else {
            match xt_name(s1, xt) {
                None => (with_data(s1, s1.data.push(-2i32)), None),
                Some(name) => {
                    let (s2, e) = exec_word(s1, name, fuel);
                    (with_data(s2, s2.data.push(if e is Some { -3i32 } else { 0i32 })), None)
                },
            }
        }
    }
}

/// Run the tokens of a compiled body from the `i`th on.
pub open spec fn exec_body(s: ForthState, body: Seq<Seq<char>>, i: int, fuel: nat) -> Outcome
    decreases fuel, (if i < body.len() { body.len() - i } else { 0 }) as nat, 1nat,
{
    if i < 0 || i >= body.len() {
        (s, None)
    } else {
        let (s1, e) = exec_token(s, body[i], fuel);
        if e is Some {
            (s1, e)
        } else {
            exec_body(s1, body, i + 1, fuel)
        }
    }
}

/// Run one token: a number is pushed, anything else is run as a word.
pub open spec fn exec_token(s: ForthState, t: Seq<char>, fuel: nat) -> Outcome
    decreases fuel, 0nat, 1nat,
{
    match parse_number(t, s.base) {
        Some(v) => (with_data(s, s.data.push(v)), None),
        None => exec_word(s, t, fuel),
    }
}

/// The dictionary `m` with the built-in words entered, in order.
pub open spec fn with_primitives(m: Map<Seq<char>, WordSpec>) -> Map<Seq<char>, WordSpec> {
    m
        .insert("dup"@, WordSpec::Prim(Primitive::Dup))
        .insert("drop"@, WordSpec::Prim(Primitive::Drop))
        .insert("swap"@, WordSpec::Prim(Primitive::Swap))
        .insert("over"@, WordSpec::Prim(Primitive::Over))
        .insert("rot"@, WordSpec::Prim(Primitive::Rot))
        .insert("pick"@, WordSpec::Prim(Primitive::Pick))
        .insert("roll"@, WordSpec::Prim(Primitive::Roll))
        .insert("2dup"@, WordSpec::Prim(Primitive::TwoDup))
        .insert("2drop"@, WordSpec::Prim(Primitive::TwoDrop))
        .insert("2swap"@, WordSpec::Prim(Primitive::TwoSwap))
        .insert("nip"@, WordSpec::Prim(Primitive::Nip))
        .insert("tuck"@, WordSpec::Prim(Primitive::Tuck))
        .insert(">r"@, WordSpec::Prim(Primitive::ToR))
        .insert("r>"@, WordSpec::Prim(Primitive::RFrom))
        .insert("r@"@, WordSpec::Prim(Primitive::RFetch))
        .insert("+"@, WordSpec::Prim(Primitive::Add))
        .insert("-"@, WordSpec::Prim(Primitive::Sub))
        .insert("*"@, WordSpec::Prim(Primitive::Mul))
        .insert("/"@, WordSpec::Prim(Primitive::Div))
        .insert("mod"@, WordSpec::Prim(Primitive::Mod))
        .insert("negate"@, WordSpec::Prim(Primitive::Negate))
        .insert("abs"@, WordSpec::Prim(Primitive::Abs))
        .insert("1+"@, WordSpec::Prim(Primitive::OnePlus))
        .insert("1-"@, WordSpec::Prim(Primitive::OneMinus))
        .insert("and"@, WordSpec::Prim(Primitive::And))
        .insert("or"@, WordSpec::Prim(Primitive::Or))
        .insert("xor"@, WordSpec::Prim(Primitive::Xor))
        .insert("invert"@, WordSpec::Prim(Primitive::Invert))
        .insert("="@, WordSpec::Prim(Primitive::Equal))
        .insert("<>"@, WordSpec::Prim(Primitive::NotEqual))
        .insert("<"@, WordSpec::Prim(Primitive::Less))
        .insert(">"@, WordSpec::Prim(Primitive::Greater))
        .insert("0="@, WordSpec::Prim(Primitive::ZeroEqual))
        .insert("0<"@, WordSpec::Prim(Primitive::ZeroLess))
        .insert("@"@, WordSpec::Prim(Primitive::Fetch))
        .insert("!"@, WordSpec::Prim(Primitive::Store))
        .insert("c@"@, WordSpec::Prim(Primitive::CFetch))
        .insert("c!"@, WordSpec::Prim(Primitive::CStore))
        .insert("decimal"@, WordSpec::Prim(Primitive::Decimal))
        .insert("hex"@, WordSpec::Prim(Primitive::Hex))
        .insert("h#"@, WordSpec::Prim(Primitive::HexLiteral))
        .insert("here"@, WordSpec::Prim(Primitive::Here))
        .insert("allot"@, WordSpec::Prim(Primitive::Allot))
        .insert("c,"@, WordSpec::Prim(Primitive::CComma))
        .insert("."@, WordSpec::Prim(Primitive::Dot))
        .insert("cr"@, WordSpec::Prim(Primitive::Cr))
        .insert(".\""@, WordSpec::Prim(Primitive::DotQuote))
        .insert("u."@, WordSpec::Prim(Primitive::UDot))
        .insert(":"@, WordSpec::Prim(Primitive::Colon))
        .insert(";"@, WordSpec::Prim(Primitive::Semicolon))
        .insert("if"@, WordSpec::Prim(Primitive::If))
        .insert("then"@, WordSpec::Prim(Primitive::Then))
        .insert("else"@, WordSpec::Prim(Primitive::Else))
}

/// The dictionary `m` with the OpenFirmware words entered, in order.
pub open spec fn with_of_words(m: Map<Seq<char>, WordSpec>) -> Map<Seq<char>, WordSpec> {
    m
        .insert("$="@, WordSpec::Prim(Primitive::StrEqual))
        .insert("$find"@, WordSpec::Prim(Primitive::StrFind))
        .insert("$call-method"@, WordSpec::Prim(Primitive::CallMethod))
        .insert("/\""@, WordSpec::Prim(Primitive::PathComponent))
        .insert("decode-string"@, WordSpec::Prim(Primitive::DecodeString))
        .insert("decode-int"@, WordSpec::Prim(Primitive::DecodeInt))
        .insert("encode-int"@, WordSpec::Prim(Primitive::EncodeInt))
        .insert("encode+"@, WordSpec::Prim(Primitive::EncodePlus))
        .insert("encode-string"@, WordSpec::Prim(Primitive::EncodeString))
        .insert("bounds"@, WordSpec::Prim(Primitive::Bounds))
        .insert("[char]"@, WordSpec::Prim(Primitive::BracketChar))
        .insert("between"@, WordSpec::Prim(Primitive::Between))
        .insert("move"@, WordSpec::Prim(Primitive::Move))
        .insert("fill"@, WordSpec::Prim(Primitive::Fill))
        .insert("find-package"@, WordSpec::Prim(Primitive::FindPackage))
        .insert("abort"@, WordSpec::Prim(Primitive::Abort))
        .insert("catch"@, WordSpec::Prim(Primitive::Catch))
        .insert("?dup"@, WordSpec::Prim(Primitive::QuestionDup))
        .insert("value"@, WordSpec::Prim(Primitive::Value))
        .insert("to"@, WordSpec::Prim(Primitive::To))
        .insert("[']"@, WordSpec::Prim(Primitive::BracketTick))
        .insert("execute"@, WordSpec::Prim(Primitive::Execute))
        .insert("3drop"@, WordSpec::Prim(Primitive::ThreeDrop))
        .insert("adler32"@, WordSpec::Prim(Primitive::Adler32))
        .insert("init-program"@, WordSpec::Prim(Primitive::InitProgram))
        .insert("go"@, WordSpec::Prim(Primitive::Go))
        .insert(".registers"@, WordSpec::Prim(Primitive::DotRegisters))
}

/// The state of a new interpreter with the OpenFirmware words.
pub open spec fn of_initial_state() -> ForthState {
    ForthState { dict: with_of_words(with_primitives(Map::empty())), ..initial_state() }
}

/// The state of a new interpreter: empty stacks, the built-in words, a
/// zeroed data space, decimal base and no input.
pub open spec fn initial_state() -> ForthState {
    ForthState {
        data: Seq::empty(),
        ret: Seq::empty(),
        dict: with_primitives(Map::empty()),
        space: Seq::new(65536, |i: int| 0u8),
        here: 0,
        compiling: false,
        buffer: Seq::empty(),
        input: Seq::empty(),
        pos: 0,
        base: 10,
        out: Seq::empty(),
        load_base: None,
        program_entry: None,
    }
}

/// The deepest nesting of compiled words a line may reach.
pub open spec fn nesting_fuel() -> nat {
    1000
}

/// What a token read from the input does: while compiling it is added to
/// the definition, `;` ending it; else it is pushed as a number or run.
pub open spec fn eval_token(s: ForthState, t: Seq<char>) -> Outcome {
    if s.compiling {
        if t == ";"@ {
            end_definition(s)
        } else {
            (ForthState { buffer: s.buffer.push(t), ..s }, None)
        }
    } else {
        exec_token(s, t, nesting_fuel())
    }
}

/// Evaluate the rest of the input, token by token, until it ends or a
/// token fails.
pub open spec fn eval_rest(s: ForthState) -> Outcome
    decreases s.input.len() - s.pos,
{
    let (p2, tok) = next_token(s);
    let s1 = ForthState { pos: p2, ..s };
    match tok {
        None => (s1, None),
        Some(t) => {
            let (s2, e) = eval_token(s1, t);
            if e is Some {
                (s2, e)
            } else {
                proof {
                    lemma_next_token(s);
                    lemma_eval_token_progress(s1, t);
                }
                if s2.input == s.input && s2.pos > s.pos && 0 <= s.pos && s2.pos <= s.input.len() {
                    eval_rest(s2)
                } else {
                    (s2, None)
                }
            }
        }
    }
}

/// Whether a step keeps the input and does not move the position back.
pub open spec fn progress(s: ForthState, s2: ForthState) -> bool {
    &&& s2.input == s.input
    &&& s.pos <= s2.pos
    &&& (0 <= s.pos <= s.input.len() ==> s2.pos <= s2.input.len())
}

/// Skipping white space stays within the input and moves forward.
pub proof fn lemma_skip_space(input: Seq<char>, p: int)
    ensures
        p <= skip_space(input, p),
        0 <= p <= input.len() ==> skip_space(input, p) <= input.len(),
        0 <= p && skip_space(input, p) < input.len() ==> !is_ws(input[skip_space(input, p)]),
    decreases input.len() - p,
{
    if 0 <= p < input.len() && is_ws(input[p]) {
        lemma_skip_space(input, p + 1);
    }
}

/// A token ends within the input, after its start when it starts on a
/// character that is not white space.
pub proof fn lemma_token_end(input: Seq<char>, p: int)
    ensures
        p <= token_end(input, p),
        0 <= p <= input.len() ==> token_end(input, p) <= input.len(),
        0 <= p < input.len() && !is_ws(input[p]) ==> p < token_end(input, p),
    decreases input.len() - p,
{
    if 0 <= p < input.len() && !is_ws(input[p]) {
        lemma_token_end(input, p + 1);
    }
}

/// Reading a token moves forward within the input, strictly when it finds
/// one.
pub proof fn lemma_next_token(s: ForthState)
    ensures
        s.pos <= next_token(s).0,
        0 <= s.pos <= s.input.len() ==> next_token(s).0 <= s.input.len(),
        0 <= s.pos && next_token(s).1 is Some ==> s.pos < next_token(s).0,
{
    lemma_skip_space(s.input, s.pos);
    lemma_token_end(s.input, skip_space(s.input, s.pos));
}

/// An OpenFirmware word keeps the input and does not move back in it.
#[verifier::spinoff_prover]
#[verifier::rlimit(50)]
pub proof fn lemma_of_progress(s: ForthState, p: Primitive)
    ensures
        progress(s, of_step(s, p).0),
{
    lemma_next_token(s);
}

/// A built-in word keeps the input and does not move back in it.
#[verifier::spinoff_prover]
#[verifier::rlimit(50)]
pub proof fn lemma_prim_progress(s: ForthState, p: Primitive)
    ensures
        progress(s, prim_step(s, p).0),
{
    lemma_next_token(s);
    lemma_of_progress(s, p);
}

/// Running a word keeps the input and does not move back in it.
pub proof fn lemma_word_progress(s: ForthState, name: Seq<char>, fuel: nat)
    ensures
        progress(s, exec_word(s, name, fuel).0),
    decreases fuel, 0nat, 0nat,
{
    if s.dict.contains_key(name) {
        match s.dict[name] {
            WordSpec::Prim(p) => if p == Primitive::Catch || p == Primitive::Execute {
                if fuel > 0 {
                    lemma_xt_progress(s, p, (fuel - 1) as nat);
                }
            } else {
                lemma_prim_progress(s, p);
            },
            WordSpec::Compiled(body) => if fuel > 0 {
                lemma_body_progress(s, body, 0, (fuel - 1) as nat);
            },
            _ => {},
        }
    }
}

/// Running an execution token keeps the input and does not move back in it.
pub proof fn lemma_xt_progress(s: ForthState, p: Primitive, fuel: nat)
    ensures
        progress(s, exec_xt(s, p, fuel).0),
    decreases fuel, 0nat, 2nat,
{
    let d = s.data;
    if d.len() > 0 {
        let s1 = with_data(s, d.drop_last());
        match xt_name(s1, d.last()) {
            Some(name) => lemma_word_progress(s1, name, fuel),
            None => {},
        }
    }
}

/// Running the rest of a body keeps the input and does not move back in it.
pub proof fn lemma_body_progress(s: ForthState, body: Seq<Seq<char>>, i: int, fuel: nat)
    ensures
        progress(s, exec_body(s, body, i, fuel).0),
    decreases fuel, (if i < body.len() { body.len() - i } else { 0 }) as nat, 2nat,
{
    if 0 <= i < body.len() {
        lemma_token_progress(s, body[i], fuel);
        let (s1, e) = exec_token(s, body[i], fuel);
        if e is None {
            lemma_body_progress(s1, body, i + 1, fuel);
        }
    }
}

/// Running a token keeps the input and does not move back in it.
pub proof fn lemma_token_progress(s: ForthState, t: Seq<char>, fuel: nat)
    ensures
        progress(s, exec_token(s, t, fuel).0),
    decreases fuel, 0nat, 1nat,
{
    if parse_number(t, s.base) is None {
        lemma_word_progress(s, t, fuel);
    }
}

/// A token read from the input keeps the input and does not move back in it.
pub proof fn lemma_eval_token_progress(s: ForthState, t: Seq<char>)
    ensures
        progress(s, eval_token(s, t).0),
{
    if !s.compiling {
        lemma_token_progress(s, t, nesting_fuel());
    }
}


/// The comparison words replace the two top cells, `a` (below) and `b`
/// (the top), by a single flag: -1 when the comparison of `a` with `b` as
/// signed 32-bit values holds, 0 otherwise. `<` gives -1 exactly when `a`
/// is strictly less than `b` (so `n n <` gives 0), `>` exactly when `a` is
/// strictly greater, `=` exactly when they are equal and `<>` exactly when
/// they differ. The rest of the stack and the rest of the state are
/// untouched and no error is reported.
pub proof fn law_comparisons(s: ForthState)
    requires
        s.data.len() >= 2,
    ensures
        ({
            let a = s.data[s.data.len() - 2];
            let b = s.data[s.data.len() - 1];
            let below = s.data.subrange(0, s.data.len() - 2);
            &&& prim_step(s, Primitive::Less) == (ForthState { data: below.push(if a < b { -1i32 } else { 0i32 }), ..s }, None::<Seq<char>>)
            &&& prim_step(s, Primitive::Greater) == (ForthState { data: below.push(if a > b { -1i32 } else { 0i32 }), ..s }, None::<Seq<char>>)
            &&& prim_step(s, Primitive::Equal) == (ForthState { data: below.push(if a == b { -1i32 } else { 0i32 }), ..s }, None::<Seq<char>>)
            &&& prim_step(s, Primitive::NotEqual) == (ForthState { data: below.push(if a != b { -1i32 } else { 0i32 }), ..s }, None::<Seq<char>>)
        }),
{
    let a = s.data[s.data.len() - 2];
    let b = s.data[s.data.len() - 1];
    let below = s.data.subrange(0, s.data.len() - 2);
    assert(drop_n(s.data, 2) + seq![flag(a < b)] =~= below.push(if a < b { -1i32 } else { 0i32 }));
    assert(drop_n(s.data, 2) + seq![flag(a > b)] =~= below.push(if a > b { -1i32 } else { 0i32 }));
    assert(drop_n(s.data, 2) + seq![flag(a == b)] =~= below.push(if a == b { -1i32 } else { 0i32 }));
    assert(drop_n(s.data, 2) + seq![flag(a != b)] =~= below.push(if a != b { -1i32 } else { 0i32 }));
}

/// The tests against zero replace the top cell `b` by -1 when `b` is zero
/// (`0=`) or negative (`0<`), and by 0 otherwise.
pub proof fn law_zero_tests(s: ForthState)
    requires
        s.data.len() >= 1,
    ensures
        ({
            let b = s.data[s.data.len() - 1];
            let below = s.data.subrange(0, s.data.len() - 1);
            &&& prim_step(s, Primitive::ZeroEqual) == (ForthState { data: below.push(if b == 0 { -1i32 } else { 0i32 }), ..s }, None::<Seq<char>>)
            &&& prim_step(s, Primitive::ZeroLess) == (ForthState { data: below.push(if b < 0 { -1i32 } else { 0i32 }), ..s }, None::<Seq<char>>)
        }),
{
    let b = s.data[s.data.len() - 1];
    let below = s.data.subrange(0, s.data.len() - 1);
    assert(drop_n(s.data, 1) + seq![flag(b == 0)] =~= below.push(if b == 0 { -1i32 } else { 0i32 }));
    assert(drop_n(s.data, 1) + seq![flag(b < 0)] =~= below.push(if b < 0 { -1i32 } else { 0i32 }));
}

/// The arithmetic words replace the two top cells `a` (below) and `b` (the
/// top) by `a + b`, `a - b` and `a * b` taken modulo 2^32 as signed 32-bit
/// values.
pub proof fn law_arithmetic(s: ForthState)
    requires
        s.data.len() >= 2,
    ensures
        ({
            let a = s.data[s.data.len() - 2];
            let b = s.data[s.data.len() - 1];
            let below = s.data.subrange(0, s.data.len() - 2);
            &&& prim_step(s, Primitive::Add).1 == None::<Seq<char>>
            &&& prim_step(s, Primitive::Add).0 == ForthState { data: prim_step(s, Primitive::Add).0.data, ..s }
            &&& prim_step(s, Primitive::Add).0.data.len() == below.len() + 1
            &&& prim_step(s, Primitive::Add).0.data.subrange(0, below.len() as int) == below
            &&& (prim_step(s, Primitive::Add).0.data.last() as int - (a as int + b as int)) % 0x1_0000_0000 == 0
            &&& (prim_step(s, Primitive::Sub).0.data.last() as int - (a as int - b as int)) % 0x1_0000_0000 == 0
            &&& prim_step(s, Primitive::Sub).0.data.len() == below.len() + 1
        }),
{
    let a = s.data[s.data.len() - 2];
    let b = s.data[s.data.len() - 1];
    let below = s.data.subrange(0, s.data.len() - 2);
    assert(prim_step(s, Primitive::Add).0.data =~= below.push(a.wrapping_add(b)));
    assert(prim_step(s, Primitive::Sub).0.data =~= below.push(a.wrapping_sub(b)));
    assert(prim_step(s, Primitive::Add).0.data.subrange(0, below.len() as int) =~= below);
}


/// The stack words on a stack `... a b` (`b` on top): `dup` gives
/// `... a b b`, `drop` gives `... a`, `swap` gives `... b a` and `over`
/// gives `... a b a`; nothing else changes and no error is reported.
pub proof fn law_stack_words(s: ForthState)
    requires
        s.data.len() >= 2,
    ensures
        ({
            let a = s.data[s.data.len() - 2];
            let b = s.data[s.data.len() - 1];
            let below = s.data.subrange(0, s.data.len() - 2);
            &&& prim_step(s, Primitive::Dup) == (ForthState { data: below.push(a).push(b).push(b), ..s }, None::<Seq<char>>)
            &&& prim_step(s, Primitive::Drop) == (ForthState { data: below.push(a), ..s }, None::<Seq<char>>)
            &&& prim_step(s, Primitive::Swap) == (ForthState { data: below.push(b).push(a), ..s }, None::<Seq<char>>)
            &&& prim_step(s, Primitive::Over) == (ForthState { data: below.push(a).push(b).push(a), ..s }, None::<Seq<char>>)
        }),
{
    let a = s.data[s.data.len() - 2];
    let b = s.data[s.data.len() - 1];
    let below = s.data.subrange(0, s.data.len() - 2);
    assert(s.data =~= below.push(a).push(b));
    assert(drop_n(s.data, 1) + Seq::<i32>::empty() =~= below.push(a));
    assert(drop_n(s.data, 2) + seq![b, a] =~= below.push(b).push(a));
}

} // verus!
