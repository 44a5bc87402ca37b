//! Forth interpreter for OpenFirmware
//!
//! This implements the subset of Forth needed to execute OpenFirmware boot
//! scripts: data and return stacks, arithmetic and logic, stack words,
//! memory access in a data space, number bases, and word definitions with
//! `:` and `;`.
use vstd::prelude::*;
use vstd::string::StringExecFns;
use vstd::string::StrSliceExecFns;
use crate::error::Error;
use crate::text::{str_eq, first_match, keyed_map, lemma_first_match_is, lemma_keyed_map_update, lemma_keyed_map_push};
use crate::bytes::{read_be32, write_be32, be32_vec, be32_bytes, copy_range, bytes_equal_at};
use crate::memory::with_bytes;
use crate::text::string_from_utf8_lossy;
use crate::openfirmware::forth_model::{
    Primitive, WordSpec, ForthState, prim_step, exec_word, exec_body, exec_token, eval_rest, next_token,
    with_data, with_primitives, top_b, invert_bits, initial_state, skip_space, token_end, is_ws, parse_radix, parse_number,
    digit_value, digits_value, all_digits, dec_text, dec_digits, msg_underflow, msg_empty,
    lemma_next_token, lemma_eval_token_progress, eval_token, exec_xt, xt_name, first_slash, path_hash,
    adler_sums, of_step, with_of_words,
};

verus! {

/// Forth value type: all values are 32-bit signed integers.
pub type ForthValue = i32;

/// The size of the data space in bytes.
pub const DATA_SPACE_SIZE: usize = 65536;

/// How many compiled words may be running inside one another.
pub const MAX_NESTING: u32 = 1000;

/// Forth word definition
#[derive(Debug)]
pub enum ForthWord {
    /// Built-in primitive word
    Primitive(Primitive),
    /// User-defined word (compiled sequence of other words)
    Compiled(Vec<String>),
    /// Constant value
    Constant(ForthValue),
    /// Variable (address in data space)
    Variable(usize),
}

/// A word as plain values.
pub open spec fn word_view(w: ForthWord) -> WordSpec {
    match w {
        ForthWord::Primitive(p) => WordSpec::Prim(p),
        ForthWord::Compiled(body) => WordSpec::Compiled(strings_view(body@)),
        ForthWord::Constant(v) => WordSpec::Constant(v),
        ForthWord::Variable(a) => WordSpec::Variable(a),
    }
}

/// A sequence of strings as sequences of characters.
pub open spec fn strings_view(v: Seq<String>) -> Seq<Seq<char>> {
    v.map_values(|t: String| t@)
}

/// A dictionary entry: a name and its definition.
#[derive(Debug)]
pub struct DictEntry {
    pub name: String,
    pub word: ForthWord,
}

pub open spec fn entry_name() -> spec_fn(DictEntry) -> Seq<char> {
    |e: DictEntry| e.name@
}

pub open spec fn entry_word() -> spec_fn(DictEntry) -> WordSpec {
    |e: DictEntry| word_view(e.word)
}

/// Whether an operation's result is the outcome's error, if any.
pub open spec fn result_is(r: Result<(), Error>, e: Option<Seq<char>>) -> bool {
    match e {
        None => r is Ok,
        Some(m) => r matches Err(Error::Other(x)) && x@ == m,
    }
}

/// An error with the given message.
fn fault(msg: &str) -> (r: Error)
    ensures
        r matches Error::Other(m) && m@ == msg@,
{
    Error::Other(String::from_str(msg))
}

/// A copy of a list of strings.
fn copy_strings(v: &Vec<String>) -> (r: Vec<String>)
    ensures
        strings_view(r@) == strings_view(v@),
{
    let mut out: Vec<String> = Vec::new();
    let mut i: usize = 0;
    while i < v.len()
        invariant
            i <= v@.len(),
            out@.len() == i,
            forall|k: int| 0 <= k < i ==> #[trigger] out@[k]@ == v@[k]@,
        decreases v@.len() - i,
    {
        out.push(v[i].clone());
        i = i + 1;
    }
    assert(strings_view(out@) =~= strings_view(v@));
    out
}

/// A copy of a word definition.
fn copy_word(w: &ForthWord) -> (r: ForthWord)
    ensures
        word_view(r) == word_view(*w),
{
    match w {
        ForthWord::Primitive(p) => ForthWord::Primitive(*p),
        ForthWord::Compiled(body) => ForthWord::Compiled(copy_strings(body)),
        ForthWord::Constant(v) => ForthWord::Constant(*v),
        ForthWord::Variable(a) => ForthWord::Variable(*a),
    }
}

/// Whether a character is white space.
pub(crate) fn is_ws_char(c: char) -> (r: bool)
    ensures
        r == is_ws(c),
{
    ('\t' <= c && c <= '\r') || c == ' ' || c == '\u{85}' || c == '\u{a0}' || c == '\u{1680}' || ('\u{2000}' <= c
        && c <= '\u{200a}') || c == '\u{2028}' || c == '\u{2029}' || c == '\u{202f}' || c == '\u{205f}' || c
        == '\u{3000}'
}

/// The value of a digit character, or 99 for any other character.
fn digit_of(c: char) -> (r: u32)
    ensures
        r == digit_value(c),
{
    if '0' <= c && c <= '9' {
        (c as u32) - 48
    } else if 'a' <= c && c <= 'z' {
        (c as u32) - 87
    } else if 'A' <= c && c <= 'Z' {
        (c as u32) - 55
    } else {
        99
    }
}

/// The value of a longer run of digits is at least that of a shorter one.
proof fn lemma_digits_mono(t: Seq<char>, m: int, n: int, radix: int)
    requires
        0 <= m <= n <= t.len(),
        radix >= 2,
        forall|k: int| 0 <= k < n ==> #[trigger] digit_value(t[k]) < radix,
    ensures
        0 <= digits_value(t, m, radix) <= digits_value(t, n, radix),
    decreases n,
{
    if n > m {
        lemma_digits_mono(t, m, n - 1, radix);
        let v = digits_value(t, n - 1, radix);
        assert(digit_value(t[n - 1]) >= 0);
        assert(v * radix >= v) by (nonlinear_arith)
            requires
                v >= 0,
                radix >= 2,
        ;
    } else if m > 0 {
        lemma_digits_mono(t, m - 1, m - 1, radix);
        let v = digits_value(t, m - 1, radix);
        assert(digit_value(t[m - 1]) >= 0);
        assert(v * radix >= 0) by (nonlinear_arith)
            requires
                v >= 0,
                radix >= 2,
        ;
    }
}

/// `i32::from_str_radix` on a token.
fn parse_radix_str(t: &str, radix: u32) -> (r: Option<i32>)
    requires
        2 <= radix <= 36,
    ensures
        r == parse_radix(t@, radix as int),
{
    let len = t.unicode_len();
    if len == 0 {
        return None;
    }
    let c0 = t.get_char(0);
    let signed = c0 == '+' || c0 == '-';
    if signed && len == 1 {
        return None;
    }
    let neg = c0 == '-';
    let start: usize = if signed {
        1
    } else {
        0
    };
    let ghost digits = if signed {
        t@.subrange(1, t@.len() as int)
    } else {
        t@
    };
    assert(digits =~= t@.subrange(start as int, t@.len() as int));
    let mut v: i64 = 0;
    let mut i: usize = start;
    while i < len
        invariant
            start <= i <= len,
            len == t@.len(),
            start == (if signed { 1int } else { 0int }),
            signed == (t@[0] == '+' || t@[0] == '-'),
            neg == (t@[0] == '-'),
            2 <= radix <= 36,
            digits == (if signed { t@.subrange(1, t@.len() as int) } else { t@ }),
            digits == t@.subrange(start as int, t@.len() as int),
            forall|k: int| 0 <= k < i - start ==> #[trigger] digit_value(digits[k]) < radix,
            v == digits_value(digits, i - start, radix as int),
            0 <= v <= 0x8000_0000,
        decreases len - i,
    {
        let c = t.get_char(i);
        let d = digit_of(c);
        proof {
            assert(digits[i - start] == c);
        }
        if d >= radix {
            proof {
                assert(!all_digits(digits, radix as int));
            }
            return None;
        }
        assert(v * radix <= 0x8000_0000 * 36) by (nonlinear_arith)
            requires
                0 <= v <= 0x8000_0000,
                radix <= 36,
        ;
        let nv: i64 = v * (radix as i64) + (d as i64);
        proof {
            assert(nv == digits_value(digits, i + 1 - start, radix as int));
        }
        if nv > 0x8000_0000 {
            proof {
                if all_digits(digits, radix as int) {
                    lemma_digits_mono(digits, i + 1 - start, digits.len() as int, radix as int);
                }
            }
            return None;
        }
        v = nv;
        i = i + 1;
    }
    let value: i64 = if neg {
        -v
    } else {
        v
    };
    if value > 0x7FFF_FFFF {
        return None;
    }
    Some(value as i32)
}

/// A token read as a number: hexadecimal after "h#" or "0x", else in
/// `base`.
fn parse_number_str(t: &str, base: u32) -> (r: Option<i32>)
    requires
        base == 10 || base == 16,
    ensures
        r == parse_number(t@, base),
{
    let len = t.unicode_len();
    if len >= 2 {
        let c0 = t.get_char(0);
        let c1 = t.get_char(1);
        if (c0 == 'h' && c1 == '#') || (c0 == '0' && c1 == 'x') {
            return parse_radix_str(t.substring_char(2, len), 16);
        }
    }
    parse_radix_str(t, base)
}

/// Append the decimal digits of `n`.
fn push_digits(out: &mut Vec<u8>, n: u64)
    ensures
        final(out)@ == old(out)@ + dec_digits(n as nat),
    decreases n,
{
    if n >= 10 {
        push_digits(out, n / 10);
    }
    out.push((48 + n % 10) as u8);
    proof {
        assert(final(out)@ =~= old(out)@ + dec_digits(n as nat));
    }
}

/// Append `v` as `{}` prints it.
fn append_decimal(out: &mut Vec<u8>, v: i64)
    requires
        v > i64::MIN,
    ensures
        final(out)@ == old(out)@ + dec_text(v as int),
{
    if v < 0 {
        out.push(45u8);
        push_digits(out, (-v) as u64);
        proof {
            assert(final(out)@ =~= old(out)@ + dec_text(v as int));
        }
    } else {
        push_digits(out, v as u64);
    }
}

/// Whether `[addr, addr + len)` lies in a data space of the usual size.
fn span_ok(addr: i32, len: i32) -> (r: bool)
    ensures
        r == (0 <= addr && 0 <= len && addr + len <= DATA_SPACE_SIZE),
{
    0 <= addr && 0 <= len && (addr as usize) <= DATA_SPACE_SIZE && (len as usize) <= DATA_SPACE_SIZE - (addr as usize)
}

/// Write `b` into `d` at `at`.
fn put_bytes(d: &mut Vec<u8>, at: usize, b: &Vec<u8>)
    requires
        at + b@.len() <= old(d)@.len(),
    ensures
        final(d)@ == with_bytes(old(d)@, at as int, b@),
{
    let ghost d0 = d@;
    let mut i: usize = 0;
    while i < b.len()
        invariant
            i <= b@.len(),
            at + b@.len() <= d@.len(),
            at + b.len() <= d.len(),
            d@.len() == d0.len(),
            forall|k: int| 0 <= k < d@.len() ==> #[trigger] d@[k] == (if at <= k < at + i { b@[k - at] } else { d0[k] }),
        decreases b@.len() - i,
    {
        d.set(at + i, b[i]);
        i = i + 1;
    }
    assert(d@ =~= with_bytes(d0, at as int, b@));
}

/// The package handle of a path's bytes.
fn hash_path(b: &[u8]) -> (r: i32)
    ensures
        r == path_hash(b@),
{
    let mut h: i32 = 2;
    let mut i: usize = 0;
    while i < b.len()
        invariant
            i <= b@.len(),
            h == path_hash(b@.subrange(0, i as int)),
        decreases b@.len() - i,
    {
        proof {
            assert(b@.subrange(0, i + 1).drop_last() =~= b@.subrange(0, i as int));
        }
        h = h.wrapping_mul(31).wrapping_add(b[i] as i32);
        i = i + 1;
    }
    assert(b@.subrange(0, b@.len() as int) =~= b@);
    h
}

/// Forth interpreter state
pub struct ForthInterpreter {
    /// Data stack (parameter stack)
    data_stack: Vec<ForthValue>,
    /// Return stack
    return_stack: Vec<ForthValue>,
    /// Dictionary of defined words; a later definition replaces an earlier
    /// one of the same name
    dictionary: Vec<DictEntry>,
    /// Data space for variables
    data_space: Vec<u8>,
    /// Here pointer (next free address in data space)
    here: usize,
    /// Compilation state (true = compiling, false = interpreting)
    compiling: bool,
    /// Current word being compiled
    compile_buffer: Vec<String>,
    /// Input buffer
    input_buffer: String,
    /// Input position, in characters
    input_pos: usize,
    /// Base for number parsing (10 = decimal, 16 = hex)
    base: u32,
    /// Text printed by the output words, not yet taken
    output: Vec<u8>,
    /// The load base `init-program` found
    load_base: Option<u32>,
    /// The entry point `go` set
    program_entry: Option<u32>,
}

impl View for ForthInterpreter {
    type V = ForthState;

    closed spec fn view(&self) -> ForthState {
        ForthState {
            data: self.data_stack@,
            ret: self.return_stack@,
            dict: keyed_map(self.dictionary@, entry_name(), entry_word()),
            space: self.data_space@,
            here: self.here as int,
            compiling: self.compiling,
            buffer: strings_view(self.compile_buffer@),
            input: self.input_buffer@,
            pos: self.input_pos as int,
            base: self.base,
            out: self.output@,
            load_base: self.load_base,
            program_entry: self.program_entry,
        }
    }
}

impl ForthInterpreter {
    /// The interpreter's invariant: a data space of fixed size, an input
    /// position within the input, and a decimal or hexadecimal base.
    pub closed spec fn wf(&self) -> bool {
        &&& self.data_space@.len() == DATA_SPACE_SIZE
        &&& self.input_pos <= self.input_buffer@.len()
        &&& (self.base == 10 || self.base == 16)
    }

    /// Create a new Forth interpreter with the built-in words.
    pub fn new() -> (r: Self)
        ensures
            r.wf(),
            r@ == initial_state(),
    {
        let mut space: Vec<u8> = Vec::new();
        let mut i: usize = 0;
        while i < DATA_SPACE_SIZE
            invariant
                i <= DATA_SPACE_SIZE,
                space@ == Seq::new(i as nat, |j: int| 0u8),
            decreases DATA_SPACE_SIZE - i,
        {
            space.push(0u8);
            assert(space@ =~= Seq::new((i + 1) as nat, |j: int| 0u8));
            i = i + 1;
        }
        let mut interpreter = Self {
            data_stack: Vec::new(),
            return_stack: Vec::new(),
            dictionary: Vec::new(),
            data_space: space,
            here: 0,
            compiling: false,
            compile_buffer: Vec::new(),
            input_buffer: String::new(),
            input_pos: 0,
            base: 10,
            output: Vec::new(),
            load_base: None,
            program_entry: None,
        };
        proof {
            assert(interpreter@.dict =~= Map::<Seq<char>, WordSpec>::empty());
            assert(strings_view(interpreter.compile_buffer@) =~= Seq::<Seq<char>>::empty());
        }
        interpreter.register_primitives();
        interpreter
    }

    /// Register all built-in primitive words
    fn register_primitives(&mut self)
        requires
            old(self).wf(),
        ensures
            final(self).wf(),
            final(self)@ == (ForthState { dict: with_primitives(old(self)@.dict), ..old(self)@ }),
    {
        self.register_primitive("dup", Primitive::Dup);
        self.register_primitive("drop", Primitive::Drop);
        self.register_primitive("swap", Primitive::Swap);
        self.register_primitive("over", Primitive::Over);
        self.register_primitive("rot", Primitive::Rot);
        self.register_primitive("pick", Primitive::Pick);
        self.register_primitive("roll", Primitive::Roll);
        self.register_primitive("2dup", Primitive::TwoDup);
        self.register_primitive("2drop", Primitive::TwoDrop);
        self.register_primitive("2swap", Primitive::TwoSwap);
        self.register_primitive("nip", Primitive::Nip);
        self.register_primitive("tuck", Primitive::Tuck);
        self.register_primitive(">r", Primitive::ToR);
        self.register_primitive("r>", Primitive::RFrom);
        self.register_primitive("r@", Primitive::RFetch);
        self.register_primitive("+", Primitive::Add);
        self.register_primitive("-", Primitive::Sub);
        self.register_primitive("*", Primitive::Mul);
        self.register_primitive("/", Primitive::Div);
        self.register_primitive("mod", Primitive::Mod);
        self.register_primitive("negate", Primitive::Negate);
        self.register_primitive("abs", Primitive::Abs);
        self.register_primitive("1+", Primitive::OnePlus);
        self.register_primitive("1-", Primitive::OneMinus);
        self.register_primitive("and", Primitive::And);
        self.register_primitive("or", Primitive::Or);
        self.register_primitive("xor", Primitive::Xor);
        self.register_primitive("invert", Primitive::Invert);
        self.register_primitive("=", Primitive::Equal);
        self.register_primitive("<>", Primitive::NotEqual);
        self.register_primitive("<", Primitive::Less);
        self.register_primitive(">", Primitive::Greater);
        self.register_primitive("0=", Primitive::ZeroEqual);
        self.register_primitive("0<", Primitive::ZeroLess);
        self.register_primitive("@", Primitive::Fetch);
        self.register_primitive("!", Primitive::Store);
        self.register_primitive("c@", Primitive::CFetch);
        self.register_primitive("c!", Primitive::CStore);
        self.register_primitive("decimal", Primitive::Decimal);
        self.register_primitive("hex", Primitive::Hex);
        self.register_primitive("h#", Primitive::HexLiteral);
        self.register_primitive("here", Primitive::Here);
        self.register_primitive("allot", Primitive::Allot);
        self.register_primitive("c,", Primitive::CComma);
        self.register_primitive(".", Primitive::Dot);
        self.register_primitive("cr", Primitive::Cr);
        self.register_primitive(".\"", Primitive::DotQuote);
        self.register_primitive("u.", Primitive::UDot);
        self.register_primitive(":", Primitive::Colon);
        self.register_primitive(";", Primitive::Semicolon);
        self.register_primitive("if", Primitive::If);
        self.register_primitive("then", Primitive::Then);
        self.register_primitive("else", Primitive::Else);
    }

    /// Register the OpenFirmware-specific words: string, property-encoding,
    /// memory-block, package and execution-token words.
    pub fn register_of_words(&mut self)
        requires
            old(self).wf(),
        ensures
            final(self).wf(),
            final(self)@ == (ForthState { dict: with_of_words(old(self)@.dict), ..old(self)@ }),
    {
        self.register_primitive("$=", Primitive::StrEqual);
        self.register_primitive("$find", Primitive::StrFind);
        self.register_primitive("$call-method", Primitive::CallMethod);
        self.register_primitive("/\"", Primitive::PathComponent);
        self.register_primitive("decode-string", Primitive::DecodeString);
        self.register_primitive("decode-int", Primitive::DecodeInt);
        self.register_primitive("encode-int", Primitive::EncodeInt);
        self.register_primitive("encode+", Primitive::EncodePlus);
        self.register_primitive("encode-string", Primitive::EncodeString);
        self.register_primitive("bounds", Primitive::Bounds);
        self.register_primitive("[char]", Primitive::BracketChar);
        self.register_primitive("between", Primitive::Between);
        self.register_primitive("move", Primitive::Move);
        self.register_primitive("fill", Primitive::Fill);
        self.register_primitive("find-package", Primitive::FindPackage);
        self.register_primitive("abort", Primitive::Abort);
        self.register_primitive("catch", Primitive::Catch);
        self.register_primitive("?dup", Primitive::QuestionDup);
        self.register_primitive("value", Primitive::Value);
        self.register_primitive("to", Primitive::To);
        self.register_primitive("[']", Primitive::BracketTick);
        self.register_primitive("execute", Primitive::Execute);
        self.register_primitive("3drop", Primitive::ThreeDrop);
        self.register_primitive("adler32", Primitive::Adler32);
        self.register_primitive("init-program", Primitive::InitProgram);
        self.register_primitive("go", Primitive::Go);
        self.register_primitive(".registers", Primitive::DotRegisters);
    }

    /// The load base `init-program` found, if any.
    pub fn load_base(&self) -> (r: Option<u32>)
        ensures
            r == self@.load_base,
    {
        self.load_base
    }

    /// The entry point `go` set, if any.
    pub fn program_entry(&self) -> (r: Option<u32>)
        ensures
            r == self@.program_entry,
    {
        self.program_entry
    }

    /// Register a primitive word
    pub fn register_primitive(&mut self, name: &str, func: Primitive)
        requires
            old(self).wf(),
        ensures
            final(self).wf(),
            final(self)@ == (ForthState { dict: old(self)@.dict.insert(name@, WordSpec::Prim(func)), ..old(self)@ }),
    {
        self.define(name.to_owned(), ForthWord::Primitive(func));
    }

    /// Index of the dictionary entry named `name`.
    fn find_entry(&self, name: &str) -> (r: Option<usize>)
        ensures
            r matches Some(i) ==> i < self.dictionary@.len() && first_match(self.dictionary@, entry_name(), name@) == Some(i as int),
            r is None ==> first_match(self.dictionary@, entry_name(), name@) is None,
    {
        let mut i: usize = 0;
        while i < self.dictionary.len()
            invariant
                0 <= i <= self.dictionary@.len(),
                forall|j: int| 0 <= j < i ==> entry_name()(#[trigger] self.dictionary@[j]) != name@,
            decreases self.dictionary@.len() - i,
        {
            if str_eq(self.dictionary[i].name.as_str(), name) {
                proof {
                    lemma_first_match_is(self.dictionary@, entry_name(), name@, i as int);
                }
                return Some(i);
            }
            i = i + 1;
        }
        proof {
            lemma_first_match_is(self.dictionary@, entry_name(), name@, i as int);
        }
        None
    }

    /// Enter a definition, replacing any of the same name.
    fn define(&mut self, name: String, word: ForthWord)
        requires
            old(self).wf(),
        ensures
            final(self).wf(),
            final(self)@ == (ForthState { dict: old(self)@.dict.insert(name@, word_view(word)), ..old(self)@ }),
    {
        let ghost old_entries = self.dictionary@;
        let found = self.find_entry(name.as_str());
        let e = DictEntry { name, word };
        proof {
            assert(entry_name()(e) == e.name@);
            assert(entry_word()(e) == word_view(e.word));
        }
        match found {
            Some(i) => {
                self.dictionary.set(i, e);
                proof {
                    lemma_keyed_map_update(old_entries, entry_name(), entry_word(), i as int, e);
                }
            },
            None => {
                self.dictionary.push(e);
                proof {
                    lemma_keyed_map_push(old_entries, entry_name(), entry_word(), e);
                }
            },
        }
    }

    /// The definition of `name`, if any.
    fn lookup(&self, name: &str) -> (r: Option<ForthWord>)
        ensures
            r matches Some(w) ==> self@.dict.contains_key(name@) && self@.dict[name@] == word_view(w),
            r is None ==> !self@.dict.contains_key(name@),
    {
        match self.find_entry(name) {
            Some(i) => {
                proof {
                    assert(entry_word()(self.dictionary@[i as int]) == word_view(self.dictionary@[i as int].word));
                }
                Some(copy_word(&self.dictionary[i].word))
            },
            None => None,
        }
    }

    /// The data stack, bottom first.
    pub fn data_stack(&self) -> (r: Vec<ForthValue>)
        ensures
            r@ == self@.data,
    {
        let mut v: Vec<ForthValue> = Vec::new();
        let mut i: usize = 0;
        while i < self.data_stack.len()
            invariant
                i <= self.data_stack@.len(),
                v@ == self.data_stack@.subrange(0, i as int),
            decreases self.data_stack@.len() - i,
        {
            v.push(self.data_stack[i]);
            assert(v@ =~= self.data_stack@.subrange(0, i + 1));
            i = i + 1;
        }
        assert(v@ =~= self.data_stack@);
        v
    }

    /// Get reference to data space
    pub fn data_space(&self) -> (r: &[u8])
        ensures
            r@ == self@.space,
    {
        self.data_space.as_slice()
    }

    /// Get current here pointer
    pub fn here_ptr(&self) -> (r: usize)
        ensures
            r == self@.here,
    {
        self.here
    }

    /// Set here pointer
    pub fn set_here(&mut self, here: usize)
        requires
            old(self).wf(),
        ensures
            final(self).wf(),
            final(self)@ == (ForthState { here: here as int, ..old(self)@ }),
    {
        self.here = here;
    }

    /// Push value onto data stack
    pub fn push(&mut self, value: ForthValue)
        requires
            old(self).wf(),
        ensures
            final(self).wf(),
            final(self)@ == with_data(old(self)@, old(self)@.data.push(value)),
    {
        self.data_stack.push(value);
    }

    /// Pop value from data stack
    pub fn pop(&mut self) -> (r: Result<ForthValue, Error>)
        requires
            old(self).wf(),
        ensures
            final(self).wf(),
            old(self)@.data.len() > 0 ==> r == Ok::<ForthValue, Error>(old(self)@.data.last()) && final(self)@ == with_data(
                old(self)@,
                old(self)@.data.drop_last(),
            ),
            old(self)@.data.len() == 0 ==> *final(self) == *old(self) && (r matches Err(Error::Other(m)) && m@
                == msg_underflow()),
    {
        if self.data_stack.len() == 0 {
            return Err(fault("Stack underflow"));
        }
        Ok(self.take_top())
    }

    /// Peek at top of data stack without popping
    pub fn peek(&self) -> (r: Result<ForthValue, Error>)
        ensures
            self@.data.len() > 0 ==> r == Ok::<ForthValue, Error>(self@.data.last()),
            self@.data.len() == 0 ==> (r matches Err(Error::Other(m)) && m@ == msg_empty()),
    {
        let n = self.data_stack.len();
        if n == 0 {
            return Err(fault("Stack empty"));
        }
        Ok(self.data_stack[n - 1])
    }

    /// Get stack depth
    pub fn depth(&self) -> (r: usize)
        ensures
            r == self@.data.len(),
    {
        self.data_stack.len()
    }

    /// The text the output words have printed since it was last taken.
    pub fn take_output(&mut self) -> (r: Vec<u8>)
        requires
            old(self).wf(),
        ensures
            final(self).wf(),
            r@ == old(self)@.out,
            final(self)@ == (ForthState { out: Seq::empty(), ..old(self)@ }),
    {
        let mut out: Vec<u8> = Vec::new();
        std::mem::swap(&mut out, &mut self.output);
        out
    }

    /// Remove and give the top of the data stack.
    fn take_top(&mut self) -> (v: ForthValue)
        requires
            old(self).wf(),
            old(self).data_stack@.len() > 0,
        ensures
            final(self).wf(),
            v == old(self)@.data.last(),
            final(self)@ == with_data(old(self)@, old(self)@.data.drop_last()),
    {
        match self.data_stack.pop() {
            Some(v) => v,
            None => 0,
        }
    }

    /// Read the next token from the input.
    fn read_token(&mut self) -> (r: Option<String>)
        requires
            old(self).wf(),
        ensures
            final(self).wf(),
            final(self)@ == (ForthState { pos: next_token(old(self)@).0, ..old(self)@ }),
            match next_token(old(self)@).1 {
                None => r is None,
                Some(t) => r matches Some(x) && x@ == t,
            },
    {
        let input = self.input_buffer.as_str();
        let len = input.unicode_len();
        let mut p = self.input_pos;
        while p < len && is_ws_char(input.get_char(p))
            invariant
                self.input_pos <= p <= len,
                len == input@.len(),
                input@ == self.input_buffer@,
                skip_space(input@, p as int) == skip_space(input@, self.input_pos as int),
            decreases len - p,
        {
            p = p + 1;
        }
        if p >= len {
            self.input_pos = p;
            return None;
        }
        let start = p;
        while p < len && !is_ws_char(input.get_char(p))
            invariant
                start <= p <= len,
                len == input@.len(),
                token_end(input@, p as int) == token_end(input@, start as int),
            decreases len - p,
        {
            p = p + 1;
        }
        let t = input.substring_char(start, p).to_owned();
        self.input_pos = p;
        Some(t)
    }

    /// Run a built-in word.
    fn run_primitive(&mut self, p: Primitive) -> (r: Result<(), Error>)
        requires
            old(self).wf(),
        ensures
            final(self).wf(),
            final(self)@ == prim_step(old(self)@, p).0,
            result_is(r, prim_step(old(self)@, p).1),
    {
        match p {
            Primitive::Dup => self.dup(),
            Primitive::Drop => self.drop_word(),
            Primitive::Swap => self.swap(),
            Primitive::Over => self.over(),
            Primitive::Rot => self.rot(),
            Primitive::Pick => self.pick(),
            Primitive::Roll => self.roll(),
            Primitive::TwoDup => self.two_dup(),
            Primitive::TwoDrop => self.two_drop(),
            Primitive::TwoSwap => self.two_swap(),
            Primitive::Nip => self.nip(),
            Primitive::Tuck => self.tuck(),
            Primitive::ToR => self.to_r(),
            Primitive::RFrom => self.r_from(),
            Primitive::RFetch => self.r_fetch(),
            Primitive::Add => self.add(),
            Primitive::Sub => self.sub(),
            Primitive::Mul => self.mul(),
            Primitive::Div => self.div(),
            Primitive::Mod => self.modulo(),
            Primitive::Negate => self.negate(),
            Primitive::Abs => self.abs(),
            Primitive::OnePlus => self.one_plus(),
            Primitive::OneMinus => self.one_minus(),
            Primitive::And => self.and(),
            Primitive::Or => self.or(),
            Primitive::Xor => self.xor(),
            Primitive::Invert => self.invert(),
            Primitive::Equal => self.equal(),
            Primitive::NotEqual => self.not_equal(),
            Primitive::Less => self.less_than(),
            Primitive::Greater => self.greater_than(),
            Primitive::ZeroEqual => self.zero_equal(),
            Primitive::ZeroLess => self.zero_less(),
            Primitive::Fetch => self.fetch(),
            Primitive::Store => self.store(),
            Primitive::CFetch => self.c_fetch(),
            Primitive::CStore => self.c_store(),
            Primitive::Here => self.here_word(),
            Primitive::Allot => self.allot(),
            Primitive::CComma => self.c_comma(),
            Primitive::Dot => self.dot(),
            Primitive::UDot => self.u_dot(),
            Primitive::Cr => self.cr(),
            Primitive::Colon => self.colon(),
            Primitive::Semicolon => self.semicolon(),
            Primitive::HexLiteral => self.hex_literal(),
            Primitive::Decimal => {
                self.base = 10;
                Ok(())
            },
            Primitive::Hex => {
                self.base = 16;
                Ok(())
            },
            Primitive::DotQuote => Ok(()),
            Primitive::If => Ok(()),
            Primitive::Then => Ok(()),
            Primitive::Else => Ok(()),
            Primitive::StrEqual => self.string_equal(),
            Primitive::StrFind => self.string_find(),
            Primitive::CallMethod => self.call_method(),
            Primitive::PathComponent => self.parse_path_component(),
            Primitive::DecodeString => self.decode_string(),
            Primitive::DecodeInt => self.decode_int(),
            Primitive::EncodeInt => self.encode_int(),
            Primitive::EncodePlus => self.encode_plus(),
            Primitive::EncodeString => self.encode_string(),
            Primitive::Bounds => self.bounds(),
            Primitive::BracketChar => Ok(()),
            Primitive::Between => self.between(),
            Primitive::Move => self.move_memory(),
            Primitive::Fill => self.fill_memory(),
            Primitive::FindPackage => self.find_package(),
            Primitive::Abort => self.abort(),
            Primitive::Catch => Ok(()),
            Primitive::QuestionDup => self.question_dup(),
            Primitive::Value => self.value_word(),
            Primitive::To => self.to_word(),
            Primitive::BracketTick => self.bracket_tick(),
            Primitive::Execute => Ok(()),
            Primitive::ThreeDrop => self.three_drop(),
            Primitive::Adler32 => self.adler32(),
            Primitive::InitProgram => self.init_program(),
            Primitive::Go => self.go(),
            Primitive::DotRegisters => Ok(()),
        }
    }

    /// Execute a word, with `fuel` levels of compiled words to go.
    fn execute_word(&mut self, name: &str, fuel: u32) -> (r: Result<(), Error>)
        requires
            old(self).wf(),
        ensures
            final(self).wf(),
            final(self)@ == exec_word(old(self)@, name@, fuel as nat).0,
            result_is(r, exec_word(old(self)@, name@, fuel as nat).1),
        decreases fuel, 0nat,
    {
        match self.lookup(name) {
            None => {
                let mut m = String::from_str("Undefined word: ");
                m.append(name);
                Err(Error::Other(m))
            },
            Some(ForthWord::Primitive(p)) => {
                if p == Primitive::Catch || p == Primitive::Execute {
                    if fuel == 0 {
                        return Err(fault("Word nesting too deep"));
                    }
                    self.execute_xt(p, fuel - 1)
                } else {
                    self.run_primitive(p)
                }
            },
            Some(ForthWord::Constant(v)) => {
                self.data_stack.push(v);
                Ok(())
            },
            Some(ForthWord::Variable(a)) => {
                self.data_stack.push(#[verifier::truncate] (a as i32));
                Ok(())
            },
            Some(ForthWord::Compiled(body)) => {
                if fuel == 0 {
                    return Err(fault("Word nesting too deep"));
                }
                self.execute_body(&body, fuel - 1)
            },
        }
    }

    /// The name the execution token at `xt` holds, if it lies in data space.
    fn token_name(&self, xt: i32) -> (r: Option<String>)
        requires
            self.wf(),
        ensures
            match xt_name(self@, xt) {
                Some(n) => r matches Some(x) && x@ == n,
                None => r is None,
            },
    {
        if xt < 0 || xt as usize > DATA_SPACE_SIZE - 4 {
            return None;
        }
        let len = read_be32(self.data_space.as_slice(), xt as usize) as i32;
        if len < 0 || len as usize > DATA_SPACE_SIZE - 4 - xt as usize {
            return None;
        }
        let raw = copy_range(self.data_space.as_slice(), xt as usize + 4, xt as usize + 4 + len as usize);
        Some(string_from_utf8_lossy(raw.as_slice()))
    }

    /// `execute` and `catch`: run the word an execution token names.
    fn execute_xt(&mut self, p: Primitive, fuel: u32) -> (r: Result<(), Error>)
        requires
            old(self).wf(),
        ensures
            final(self).wf(),
            final(self)@ == exec_xt(old(self)@, p, fuel as nat).0,
            result_is(r, exec_xt(old(self)@, p, fuel as nat).1),
        decreases fuel, 2nat,
    {
        if self.data_stack.len() == 0 {
            return Err(fault("Stack underflow"));
        }
        let xt = self.take_top();
        if p == Primitive::Execute {
            match self.token_name(xt) {
                None => Err(fault("Invalid execution token")),
                Some(name) => self.execute_word(name.as_str(), fuel),
            }
        } else if xt < 0 || xt as usize > DATA_SPACE_SIZE - 4 {
            self.data_stack.push(-1);
            Ok(())
        } else {
            match self.token_name(xt) {
                None => {
                    self.data_stack.push(-2);
                    Ok(())
                },
                Some(name) => {
                    let r = self.execute_word(name.as_str(), fuel);
                    self.data_stack.push(if r.is_ok() { 0 } else { -3 });
                    Ok(())
                },
            }
        }
    }

    /// Execute the tokens of a compiled word's body.
    fn execute_body(&mut self, body: &Vec<String>, fuel: u32) -> (r: Result<(), Error>)
        requires
            old(self).wf(),
        ensures
            final(self).wf(),
            final(self)@ == exec_body(old(self)@, strings_view(body@), 0, fuel as nat).0,
            result_is(r, exec_body(old(self)@, strings_view(body@), 0, fuel as nat).1),
        decreases fuel, 2nat,
    {
        let ghost b = strings_view(body@);
        let ghost s0 = self@;
        let mut i: usize = 0;
        while i < body.len()
            invariant
                i <= body@.len(),
                b == strings_view(body@),
                self.wf(),
                exec_body(self@, b, i as int, fuel as nat) == exec_body(s0, b, 0, fuel as nat),
                s0 == old(self)@,
            decreases body@.len() - i,
        {
            let ghost before = self@;
            proof {
                assert(b[i as int] == body@[i as int]@);
            }
            let r = self.execute_token(body[i].as_str(), fuel);
            proof {
                assert(exec_body(before, b, i as int, fuel as nat) == (if exec_token(before, b[i as int], fuel as nat).1 is Some {
                    exec_token(before, b[i as int], fuel as nat)
                } else {
                    exec_body(exec_token(before, b[i as int], fuel as nat).0, b, i + 1, fuel as nat)
                }));
            }
            match r {
                Ok(()) => {},
                Err(e) => return Err(e),
            }
            i = i + 1;
        }
        Ok(())
    }

    /// Execute one token: push it if it is a number, else run it as a word.
    fn execute_token(&mut self, t: &str, fuel: u32) -> (r: Result<(), Error>)
        requires
            old(self).wf(),
        ensures
            final(self).wf(),
            final(self)@ == exec_token(old(self)@, t@, fuel as nat).0,
            result_is(r, exec_token(old(self)@, t@, fuel as nat).1),
        decreases fuel, 1nat,
    {
        match parse_number_str(t, self.base) {
            Some(v) => {
                self.data_stack.push(v);
                Ok(())
            },
            None => self.execute_word(t, fuel),
        }
    }

    /// Evaluate a line of Forth code
    pub fn eval(&mut self, input: &str) -> (r: Result<(), Error>)
        requires
            old(self).wf(),
        ensures
            final(self).wf(),
            final(self)@ == eval_rest(ForthState { input: input@, pos: 0, ..old(self)@ }).0,
            result_is(r, eval_rest(ForthState { input: input@, pos: 0, ..old(self)@ }).1),
    {
        let ghost s0 = ForthState { input: input@, pos: 0, ..self@ };
        self.input_buffer = input.to_owned();
        self.input_pos = 0;
        loop
            invariant
                self.wf(),
                eval_rest(self@) == eval_rest(s0),
                s0 == (ForthState { input: input@, pos: 0, ..old(self)@ }),
            decreases self.input_buffer@.len() - self.input_pos,
        {
            let ghost before = self@;
            proof {
                lemma_next_token(before);
            }
            match self.read_token() {
                None => return Ok(()),
                Some(tok) => {
                    let ghost s1 = self@;
                    let ghost t = tok@;
                    let r = if self.compiling {
                        if str_eq(tok.as_str(), ";") {
                            self.semicolon()
                        } else {
                            self.compile_buffer.push(tok);
                            proof {
                                assert(strings_view(self.compile_buffer@) =~= s1.buffer.push(t));
                            }
                            Ok(())
                        }
                    } else {
                        self.execute_token(tok.as_str(), MAX_NESTING)
                    };
                    proof {
                        assert(self@ == eval_token(s1, t).0);
                        assert(result_is(r, eval_token(s1, t).1));
                        lemma_eval_token_progress(s1, t);
                    }
                    match r {
                        Ok(()) => {},
                        Err(e) => return Err(e),
                    }
                },
            }
        }
    }

    /// Create a constant
    pub fn create_constant(&mut self, name: &str, value: ForthValue)
        requires
            old(self).wf(),
        ensures
            final(self).wf(),
            final(self)@ == (ForthState { dict: old(self)@.dict.insert(name@, WordSpec::Constant(value)), ..old(self)@ }),
    {
        self.define(name.to_owned(), ForthWord::Constant(value));
    }

    /// Create a variable: four bytes reserved at here; its address is
    /// returned.
    pub fn create_variable(&mut self, name: &str) -> (r: usize)
        requires
            old(self).wf(),
            old(self)@.here + 4 <= usize::MAX,
        ensures
            final(self).wf(),
            r == old(self)@.here,
            final(self)@ == (ForthState {
                dict: old(self)@.dict.insert(name@, WordSpec::Variable(r)),
                here: old(self)@.here + 4,
                ..old(self)@
            }),
    {
        let addr = self.here;
        self.here = self.here + 4;
        self.define(name.to_owned(), ForthWord::Variable(addr));
        addr
    }

    fn dup(&mut self) -> (r: Result<(), Error>)
        requires
            old(self).wf(),
        ensures
            final(self).wf(),
            final(self)@ == prim_step(old(self)@, Primitive::Dup).0,
            result_is(r, prim_step(old(self)@, Primitive::Dup).1),
    {
        let n = self.data_stack.len();
        if n == 0 {
            proof {
                assert(self@.data =~= prim_step(old(self)@, Primitive::Dup).0.data);
            }
            return Err(fault("Stack empty"));
        }
        let v = self.data_stack[n - 1];
        self.data_stack.push(v);
        proof {
            assert(self@.data =~= prim_step(old(self)@, Primitive::Dup).0.data);
        }
        Ok(())
    }

    fn drop_word(&mut self) -> (r: Result<(), Error>)
        requires
            old(self).wf(),
        ensures
            final(self).wf(),
            final(self)@ == prim_step(old(self)@, Primitive::Drop).0,
            result_is(r, prim_step(old(self)@, Primitive::Drop).1),
    {
        if self.data_stack.len() < 1 {
            self.data_stack.clear();
            proof {
                assert(self@.data =~= prim_step(old(self)@, Primitive::Drop).0.data);
            }
            return Err(fault("Stack underflow"));
        }
        self.take_top();
        proof {
            assert(self@.data =~= prim_step(old(self)@, Primitive::Drop).0.data);
        }
        Ok(())
    }

    fn swap(&mut self) -> (r: Result<(), Error>)
        requires
            old(self).wf(),
        ensures
            final(self).wf(),
            final(self)@ == prim_step(old(self)@, Primitive::Swap).0,
            result_is(r, prim_step(old(self)@, Primitive::Swap).1),
    {
        if self.data_stack.len() < 2 {
            self.data_stack.clear();
            proof {
                assert(self@.data =~= prim_step(old(self)@, Primitive::Swap).0.data);
            }
            return Err(fault("Stack underflow"));
        }
        let b = self.take_top();
        let a = self.take_top();
        self.data_stack.push(b);
        self.data_stack.push(a);
        proof {
            assert(self@.data =~= prim_step(old(self)@, Primitive::Swap).0.data);
        }
        Ok(())
    }

    fn over(&mut self) -> (r: Result<(), Error>)
        requires
            old(self).wf(),
        ensures
            final(self).wf(),
            final(self)@ == prim_step(old(self)@, Primitive::Over).0,
            result_is(r, prim_step(old(self)@, Primitive::Over).1),
    {
        let n = self.data_stack.len();
        if n < 2 {
            proof {
                assert(self@.data =~= prim_step(old(self)@, Primitive::Over).0.data);
            }
            return Err(fault("Stack underflow"));
        }
        let v = self.data_stack[n - 2];
        self.data_stack.push(v);
        proof {
            assert(self@.data =~= prim_step(old(self)@, Primitive::Over).0.data);
        }
        Ok(())
    }

    fn rot(&mut self) -> (r: Result<(), Error>)
        requires
            old(self).wf(),
        ensures
            final(self).wf(),
            final(self)@ == prim_step(old(self)@, Primitive::Rot).0,
            result_is(r, prim_step(old(self)@, Primitive::Rot).1),
    {
        if self.data_stack.len() < 3 {
            self.data_stack.clear();
            proof {
                assert(self@.data =~= prim_step(old(self)@, Primitive::Rot).0.data);
            }
            return Err(fault("Stack underflow"));
        }
        let c = self.take_top();
        let b = self.take_top();
        let a = self.take_top();
        self.data_stack.push(b);
        self.data_stack.push(c);
        self.data_stack.push(a);
        proof {
            assert(self@.data =~= prim_step(old(self)@, Primitive::Rot).0.data);
        }
        Ok(())
    }

    fn pick(&mut self) -> (r: Result<(), Error>)
        requires
            old(self).wf(),
        ensures
            final(self).wf(),
            final(self)@ == prim_step(old(self)@, Primitive::Pick).0,
            result_is(r, prim_step(old(self)@, Primitive::Pick).1),
    {
        if self.data_stack.len() == 0 {
            proof {
                assert(self@.data =~= prim_step(old(self)@, Primitive::Pick).0.data);
            }
            return Err(fault("Stack underflow"));
        }
        let k = self.take_top();
        let len = self.data_stack.len();
        if k < 0 || k as usize >= len {
            proof {
                assert(self@.data =~= prim_step(old(self)@, Primitive::Pick).0.data);
            }
            return Err(fault("Stack underflow"));
        }
        let v = self.data_stack[len - 1 - k as usize];
        self.data_stack.push(v);
        proof {
            assert(self@.data =~= prim_step(old(self)@, Primitive::Pick).0.data);
        }
        Ok(())
    }

    fn roll(&mut self) -> (r: Result<(), Error>)
        requires
            old(self).wf(),
        ensures
            final(self).wf(),
            final(self)@ == prim_step(old(self)@, Primitive::Roll).0,
            result_is(r, prim_step(old(self)@, Primitive::Roll).1),
    {
        if self.data_stack.len() == 0 {
            proof {
                assert(self@.data =~= prim_step(old(self)@, Primitive::Roll).0.data);
            }
            return Err(fault("Stack underflow"));
        }
        let k = self.take_top();
        let len = self.data_stack.len();
        if k < 0 || k as usize >= len {
            proof {
                assert(self@.data =~= prim_step(old(self)@, Primitive::Roll).0.data);
            }
            return Err(fault("Stack underflow"));
        }
        let v = self.data_stack.remove(len - 1 - k as usize);
        self.data_stack.push(v);
        proof {
            assert(self@.data =~= prim_step(old(self)@, Primitive::Roll).0.data);
        }
        Ok(())
    }

    fn two_dup(&mut self) -> (r: Result<(), Error>)
        requires
            old(self).wf(),
        ensures
            final(self).wf(),
            final(self)@ == prim_step(old(self)@, Primitive::TwoDup).0,
            result_is(r, prim_step(old(self)@, Primitive::TwoDup).1),
    {
        let n = self.data_stack.len();
        if n < 2 {
            proof {
                assert(self@.data =~= prim_step(old(self)@, Primitive::TwoDup).0.data);
            }
            return Err(fault("Stack underflow"));
        }
        let a = self.data_stack[n - 2];
        let b = self.data_stack[n - 1];
        self.data_stack.push(a);
        self.data_stack.push(b);
        proof {
            assert(self@.data =~= prim_step(old(self)@, Primitive::TwoDup).0.data);
        }
        Ok(())
    }

    fn two_drop(&mut self) -> (r: Result<(), Error>)
        requires
            old(self).wf(),
        ensures
            final(self).wf(),
            final(self)@ == prim_step(old(self)@, Primitive::TwoDrop).0,
            result_is(r, prim_step(old(self)@, Primitive::TwoDrop).1),
    {
        if self.data_stack.len() < 2 {
            self.data_stack.clear();
            proof {
                assert(self@.data =~= prim_step(old(self)@, Primitive::TwoDrop).0.data);
            }
            return Err(fault("Stack underflow"));
        }
        self.take_top();
        self.take_top();
        proof {
            assert(self@.data =~= prim_step(old(self)@, Primitive::TwoDrop).0.data);
        }
        Ok(())
    }

    fn two_swap(&mut self) -> (r: Result<(), Error>)
        requires
            old(self).wf(),
        ensures
            final(self).wf(),
            final(self)@ == prim_step(old(self)@, Primitive::TwoSwap).0,
            result_is(r, prim_step(old(self)@, Primitive::TwoSwap).1),
    {
        if self.data_stack.len() < 4 {
            self.data_stack.clear();
            proof {
                assert(self@.data =~= prim_step(old(self)@, Primitive::TwoSwap).0.data);
            }
            return Err(fault("Stack underflow"));
        }
        let d = self.take_top();
        let c = self.take_top();
        let b = self.take_top();
        let a = self.take_top();
        self.data_stack.push(c);
        self.data_stack.push(d);
        self.data_stack.push(a);
        self.data_stack.push(b);
        proof {
            assert(self@.data =~= prim_step(old(self)@, Primitive::TwoSwap).0.data);
        }
        Ok(())
    }

    fn nip(&mut self) -> (r: Result<(), Error>)
        requires
            old(self).wf(),
        ensures
            final(self).wf(),
            final(self)@ == prim_step(old(self)@, Primitive::Nip).0,
            result_is(r, prim_step(old(self)@, Primitive::Nip).1),
    {
        if self.data_stack.len() < 2 {
            self.data_stack.clear();
            proof {
                assert(self@.data =~= prim_step(old(self)@, Primitive::Nip).0.data);
            }
            return Err(fault("Stack underflow"));
        }
        let a = self.take_top();
        self.take_top();
        self.data_stack.push(a);
        proof {
            assert(self@.data =~= prim_step(old(self)@, Primitive::Nip).0.data);
        }
        Ok(())
    }

    fn tuck(&mut self) -> (r: Result<(), Error>)
        requires
            old(self).wf(),
        ensures
            final(self).wf(),
            final(self)@ == prim_step(old(self)@, Primitive::Tuck).0,
            result_is(r, prim_step(old(self)@, Primitive::Tuck).1),
    {
        if self.data_stack.len() < 2 {
            self.data_stack.clear();
            proof {
                assert(self@.data =~= prim_step(old(self)@, Primitive::Tuck).0.data);
            }
            return Err(fault("Stack underflow"));
        }
        let a = self.take_top();
        let b = self.take_top();
        self.data_stack.push(a);
        self.data_stack.push(b);
        self.data_stack.push(a);
        proof {
            assert(self@.data =~= prim_step(old(self)@, Primitive::Tuck).0.data);
        }
        Ok(())
    }

    fn to_r(&mut self) -> (r: Result<(), Error>)
        requires
            old(self).wf(),
        ensures
            final(self).wf(),
            final(self)@ == prim_step(old(self)@, Primitive::ToR).0,
            result_is(r, prim_step(old(self)@, Primitive::ToR).1),
    {
        if self.data_stack.len() == 0 {
            proof {
                assert(self@.data =~= prim_step(old(self)@, Primitive::ToR).0.data);
            }
            return Err(fault("Stack underflow"));
        }
        let v = self.take_top();
        self.return_stack.push(v);
        proof {
            assert(self@.data =~= prim_step(old(self)@, Primitive::ToR).0.data);
        }
        Ok(())
    }

    fn r_from(&mut self) -> (r: Result<(), Error>)
        requires
            old(self).wf(),
        ensures
            final(self).wf(),
            final(self)@ == prim_step(old(self)@, Primitive::RFrom).0,
            result_is(r, prim_step(old(self)@, Primitive::RFrom).1),
    {
        let n = self.return_stack.len();
        if n == 0 {
            proof {
                assert(self@.data =~= prim_step(old(self)@, Primitive::RFrom).0.data);
            }
            return Err(fault("Return stack underflow"));
        }
        let v = self.return_stack[n - 1];
        self.return_stack.truncate(n - 1);
        self.data_stack.push(v);
        proof {
            assert(self@.data =~= prim_step(old(self)@, Primitive::RFrom).0.data);
        }
        Ok(())
    }

    fn r_fetch(&mut self) -> (r: Result<(), Error>)
        requires
            old(self).wf(),
        ensures
            final(self).wf(),
            final(self)@ == prim_step(old(self)@, Primitive::RFetch).0,
            result_is(r, prim_step(old(self)@, Primitive::RFetch).1),
    {
        let n = self.return_stack.len();
        if n == 0 {
            proof {
                assert(self@.data =~= prim_step(old(self)@, Primitive::RFetch).0.data);
            }
            return Err(fault("Return stack empty"));
        }
        let v = self.return_stack[n - 1];
        self.data_stack.push(v);
        proof {
            assert(self@.data =~= prim_step(old(self)@, Primitive::RFetch).0.data);
        }
        Ok(())
    }

    fn add(&mut self) -> (r: Result<(), Error>)
        requires
            old(self).wf(),
        ensures
            final(self).wf(),
            final(self)@ == prim_step(old(self)@, Primitive::Add).0,
            result_is(r, prim_step(old(self)@, Primitive::Add).1),
    {
        if self.data_stack.len() < 2 {
            self.data_stack.clear();
            proof {
                assert(self@.data =~= prim_step(old(self)@, Primitive::Add).0.data);
            }
            return Err(fault("Stack underflow"));
        }
        let b = self.take_top();
        let a = self.take_top();
        self.data_stack.push(a.wrapping_add(b));
        proof {
            assert(self@.data =~= prim_step(old(self)@, Primitive::Add).0.data);
        }
        Ok(())
    }

    fn sub(&mut self) -> (r: Result<(), Error>)
        requires
            old(self).wf(),
        ensures
            final(self).wf(),
            final(self)@ == prim_step(old(self)@, Primitive::Sub).0,
            result_is(r, prim_step(old(self)@, Primitive::Sub).1),
    {
        if self.data_stack.len() < 2 {
            self.data_stack.clear();
            proof {
                assert(self@.data =~= prim_step(old(self)@, Primitive::Sub).0.data);
            }
            return Err(fault("Stack underflow"));
        }
        let b = self.take_top();
        let a = self.take_top();
        self.data_stack.push(a.wrapping_sub(b));
        proof {
            assert(self@.data =~= prim_step(old(self)@, Primitive::Sub).0.data);
        }
        Ok(())
    }

    fn mul(&mut self) -> (r: Result<(), Error>)
        requires
            old(self).wf(),
        ensures
            final(self).wf(),
            final(self)@ == prim_step(old(self)@, Primitive::Mul).0,
            result_is(r, prim_step(old(self)@, Primitive::Mul).1),
    {
        if self.data_stack.len() < 2 {
            self.data_stack.clear();
            proof {
                assert(self@.data =~= prim_step(old(self)@, Primitive::Mul).0.data);
            }
            return Err(fault("Stack underflow"));
        }
        let b = self.take_top();
        let a = self.take_top();
        self.data_stack.push(a.wrapping_mul(b));
        proof {
            assert(self@.data =~= prim_step(old(self)@, Primitive::Mul).0.data);
        }
        Ok(())
    }

    fn div(&mut self) -> (r: Result<(), Error>)
        requires
            old(self).wf(),
        ensures
            final(self).wf(),
            final(self)@ == prim_step(old(self)@, Primitive::Div).0,
            result_is(r, prim_step(old(self)@, Primitive::Div).1),
    {
        if self.data_stack.len() < 2 {
            self.data_stack.clear();
            proof {
                assert(self@.data =~= prim_step(old(self)@, Primitive::Div).0.data);
            }
            return Err(fault("Stack underflow"));
        }
        let b = self.take_top();
        let a = self.take_top();
        if b == 0 {
            proof {
                assert(self@.data =~= prim_step(old(self)@, Primitive::Div).0.data);
            }
            return Err(fault("Division by zero"));
        }
        let q = match a.checked_div(b) {
            Some(q) => q,
            None => i32::MIN,
        };
        self.data_stack.push(q);
        proof {
            assert(self@.data =~= prim_step(old(self)@, Primitive::Div).0.data);
        }
        Ok(())
    }

    fn modulo(&mut self) -> (r: Result<(), Error>)
        requires
            old(self).wf(),
        ensures
            final(self).wf(),
            final(self)@ == prim_step(old(self)@, Primitive::Mod).0,
            result_is(r, prim_step(old(self)@, Primitive::Mod).1),
    {
        if self.data_stack.len() < 2 {
            self.data_stack.clear();
            proof {
                assert(self@.data =~= prim_step(old(self)@, Primitive::Mod).0.data);
            }
            return Err(fault("Stack underflow"));
        }
        let b = self.take_top();
        let a = self.take_top();
        if b == 0 {
            proof {
                assert(self@.data =~= prim_step(old(self)@, Primitive::Mod).0.data);
            }
            return Err(fault("Division by zero"));
        }
        let m = match a.checked_rem(b) {
            Some(m) => m,
            None => 0,
        };
        self.data_stack.push(m);
        proof {
            assert(self@.data =~= prim_step(old(self)@, Primitive::Mod).0.data);
        }
        Ok(())
    }

    fn negate(&mut self) -> (r: Result<(), Error>)
        requires
            old(self).wf(),
        ensures
            final(self).wf(),
            final(self)@ == prim_step(old(self)@, Primitive::Negate).0,
            result_is(r, prim_step(old(self)@, Primitive::Negate).1),
    {
        if self.data_stack.len() < 1 {
            self.data_stack.clear();
            proof {
                assert(self@.data =~= prim_step(old(self)@, Primitive::Negate).0.data);
            }
            return Err(fault("Stack underflow"));
        }
        let a = self.take_top();
        self.data_stack.push(0i32.wrapping_sub(a));
        proof {
            assert(self@.data =~= prim_step(old(self)@, Primitive::Negate).0.data);
        }
        Ok(())
    }

    fn abs(&mut self) -> (r: Result<(), Error>)
        requires
            old(self).wf(),
        ensures
            final(self).wf(),
            final(self)@ == prim_step(old(self)@, Primitive::Abs).0,
            result_is(r, prim_step(old(self)@, Primitive::Abs).1),
    {
        if self.data_stack.len() < 1 {
            self.data_stack.clear();
            proof {
                assert(self@.data =~= prim_step(old(self)@, Primitive::Abs).0.data);
            }
            return Err(fault("Stack underflow"));
        }
        let a = self.take_top();
        self.data_stack.push(if a < 0 { 0i32.wrapping_sub(a) } else { a });
        proof {
            assert(self@.data =~= prim_step(old(self)@, Primitive::Abs).0.data);
        }
        Ok(())
    }

    fn one_plus(&mut self) -> (r: Result<(), Error>)
        requires
            old(self).wf(),
        ensures
            final(self).wf(),
            final(self)@ == prim_step(old(self)@, Primitive::OnePlus).0,
            result_is(r, prim_step(old(self)@, Primitive::OnePlus).1),
    {
        if self.data_stack.len() < 1 {
            self.data_stack.clear();
            proof {
                assert(self@.data =~= prim_step(old(self)@, Primitive::OnePlus).0.data);
            }
            return Err(fault("Stack underflow"));
        }
        let a = self.take_top();
        self.data_stack.push(a.wrapping_add(1));
        proof {
            assert(self@.data =~= prim_step(old(self)@, Primitive::OnePlus).0.data);
        }
        Ok(())
    }

    fn one_minus(&mut self) -> (r: Result<(), Error>)
        requires
            old(self).wf(),
        ensures
            final(self).wf(),
            final(self)@ == prim_step(old(self)@, Primitive::OneMinus).0,
            result_is(r, prim_step(old(self)@, Primitive::OneMinus).1),
    {
        if self.data_stack.len() < 1 {
            self.data_stack.clear();
            proof {
                assert(self@.data =~= prim_step(old(self)@, Primitive::OneMinus).0.data);
            }
            return Err(fault("Stack underflow"));
        }
        let a = self.take_top();
        self.data_stack.push(a.wrapping_sub(1));
        proof {
            assert(self@.data =~= prim_step(old(self)@, Primitive::OneMinus).0.data);
        }
        Ok(())
    }

    fn and(&mut self) -> (r: Result<(), Error>)
        requires
            old(self).wf(),
        ensures
            final(self).wf(),
            final(self)@ == prim_step(old(self)@, Primitive::And).0,
            result_is(r, prim_step(old(self)@, Primitive::And).1),
    {
        if self.data_stack.len() < 2 {
            self.data_stack.clear();
            proof {
                assert(self@.data =~= prim_step(old(self)@, Primitive::And).0.data);
            }
            return Err(fault("Stack underflow"));
        }
        let b = self.take_top();
        let a = self.take_top();
        self.data_stack.push(a & b);
        proof {
            assert(self@.data =~= prim_step(old(self)@, Primitive::And).0.data);
        }
        Ok(())
    }

    fn or(&mut self) -> (r: Result<(), Error>)
        requires
            old(self).wf(),
        ensures
            final(self).wf(),
            final(self)@ == prim_step(old(self)@, Primitive::Or).0,
            result_is(r, prim_step(old(self)@, Primitive::Or).1),
    {
        if self.data_stack.len() < 2 {
            self.data_stack.clear();
            proof {
                assert(self@.data =~= prim_step(old(self)@, Primitive::Or).0.data);
            }
            return Err(fault("Stack underflow"));
        }
        let b = self.take_top();
        let a = self.take_top();
        self.data_stack.push(a | b);
        proof {
            assert(self@.data =~= prim_step(old(self)@, Primitive::Or).0.data);
        }
        Ok(())
    }

    fn xor(&mut self) -> (r: Result<(), Error>)
        requires
            old(self).wf(),
        ensures
            final(self).wf(),
            final(self)@ == prim_step(old(self)@, Primitive::Xor).0,
            result_is(r, prim_step(old(self)@, Primitive::Xor).1),
    {
        if self.data_stack.len() < 2 {
            self.data_stack.clear();
            proof {
                assert(self@.data =~= prim_step(old(self)@, Primitive::Xor).0.data);
            }
            return Err(fault("Stack underflow"));
        }
        let b = self.take_top();
        let a = self.take_top();
        self.data_stack.push(a ^ b);
        proof {
            assert(self@.data =~= prim_step(old(self)@, Primitive::Xor).0.data);
        }
        Ok(())
    }

    fn invert(&mut self) -> (r: Result<(), Error>)
        requires
            old(self).wf(),
        ensures
            final(self).wf(),
            final(self)@ == prim_step(old(self)@, Primitive::Invert).0,
            result_is(r, prim_step(old(self)@, Primitive::Invert).1),
    {
        if self.data_stack.len() < 1 {
            self.data_stack.clear();
            proof {
                assert(self@.data =~= prim_step(old(self)@, Primitive::Invert).0.data);
            }
            return Err(fault("Stack underflow"));
        }
        let a = self.take_top();
        let r = !a;
        proof {
            assert(a == top_b(old(self)@));
            assert(r == invert_bits(top_b(old(self)@)));
            assert(prim_step(old(self)@, Primitive::Invert).0.data == old(self)@.data.drop_last().push(r));
        }
        self.data_stack.push(r);
        proof {
            assert(self@.data =~= prim_step(old(self)@, Primitive::Invert).0.data);
        }
        Ok(())
    }

    fn equal(&mut self) -> (r: Result<(), Error>)
        requires
            old(self).wf(),
        ensures
            final(self).wf(),
            final(self)@ == prim_step(old(self)@, Primitive::Equal).0,
            result_is(r, prim_step(old(self)@, Primitive::Equal).1),
    {
        if self.data_stack.len() < 2 {
            self.data_stack.clear();
            proof {
                assert(self@.data =~= prim_step(old(self)@, Primitive::Equal).0.data);
            }
            return Err(fault("Stack underflow"));
        }
        let b = self.take_top();
        let a = self.take_top();
        self.data_stack.push(if a == b { -1 } else { 0 });
        proof {
            assert(self@.data =~= prim_step(old(self)@, Primitive::Equal).0.data);
        }
        Ok(())
    }

    fn not_equal(&mut self) -> (r: Result<(), Error>)
        requires
            old(self).wf(),
        ensures
            final(self).wf(),
            final(self)@ == prim_step(old(self)@, Primitive::NotEqual).0,
            result_is(r, prim_step(old(self)@, Primitive::NotEqual).1),
    {
        if self.data_stack.len() < 2 {
            self.data_stack.clear();
            proof {
                assert(self@.data =~= prim_step(old(self)@, Primitive::NotEqual).0.data);
            }
            return Err(fault("Stack underflow"));
        }
        let b = self.take_top();
        let a = self.take_top();
        self.data_stack.push(if a != b { -1 } else { 0 });
        proof {
            assert(self@.data =~= prim_step(old(self)@, Primitive::NotEqual).0.data);
        }
        Ok(())
    }

    fn less_than(&mut self) -> (r: Result<(), Error>)
        requires
            old(self).wf(),
        ensures
            final(self).wf(),
            final(self)@ == prim_step(old(self)@, Primitive::Less).0,
            result_is(r, prim_step(old(self)@, Primitive::Less).1),
    {
        if self.data_stack.len() < 2 {
            self.data_stack.clear();
            proof {
                assert(self@.data =~= prim_step(old(self)@, Primitive::Less).0.data);
            }
            return Err(fault("Stack underflow"));
        }
        let b = self.take_top();
        let a = self.take_top();
        self.data_stack.push(if a < b { -1 } else { 0 });
        proof {
            assert(self@.data =~= prim_step(old(self)@, Primitive::Less).0.data);
        }
        Ok(())
    }

    fn greater_than(&mut self) -> (r: Result<(), Error>)
        requires
            old(self).wf(),
        ensures
            final(self).wf(),
            final(self)@ == prim_step(old(self)@, Primitive::Greater).0,
            result_is(r, prim_step(old(self)@, Primitive::Greater).1),
    {
        if self.data_stack.len() < 2 {
            self.data_stack.clear();
            proof {
                assert(self@.data =~= prim_step(old(self)@, Primitive::Greater).0.data);
            }
            return Err(fault("Stack underflow"));
        }
        let b = self.take_top();
        let a = self.take_top();
        self.data_stack.push(if a > b { -1 } else { 0 });
        proof {
            assert(self@.data =~= prim_step(old(self)@, Primitive::Greater).0.data);
        }
        Ok(())
    }

    fn zero_equal(&mut self) -> (r: Result<(), Error>)
        requires
            old(self).wf(),
        ensures
            final(self).wf(),
            final(self)@ == prim_step(old(self)@, Primitive::ZeroEqual).0,
            result_is(r, prim_step(old(self)@, Primitive::ZeroEqual).1),
    {
        if self.data_stack.len() < 1 {
            self.data_stack.clear();
            proof {
                assert(self@.data =~= prim_step(old(self)@, Primitive::ZeroEqual).0.data);
            }
            return Err(fault("Stack underflow"));
        }
        let a = self.take_top();
        self.data_stack.push(if a == 0 { -1 } else { 0 });
        proof {
            assert(self@.data =~= prim_step(old(self)@, Primitive::ZeroEqual).0.data);
        }
        Ok(())
    }

    fn zero_less(&mut self) -> (r: Result<(), Error>)
        requires
            old(self).wf(),
        ensures
            final(self).wf(),
            final(self)@ == prim_step(old(self)@, Primitive::ZeroLess).0,
            result_is(r, prim_step(old(self)@, Primitive::ZeroLess).1),
    {
        if self.data_stack.len() < 1 {
            self.data_stack.clear();
            proof {
                assert(self@.data =~= prim_step(old(self)@, Primitive::ZeroLess).0.data);
            }
            return Err(fault("Stack underflow"));
        }
        let a = self.take_top();
        self.data_stack.push(if a < 0 { -1 } else { 0 });
        proof {
            assert(self@.data =~= prim_step(old(self)@, Primitive::ZeroLess).0.data);
        }
        Ok(())
    }

    fn fetch(&mut self) -> (r: Result<(), Error>)
        requires
            old(self).wf(),
        ensures
            final(self).wf(),
            final(self)@ == prim_step(old(self)@, Primitive::Fetch).0,
            result_is(r, prim_step(old(self)@, Primitive::Fetch).1),
    {
        if self.data_stack.len() == 0 {
            proof {
                assert(self@.data =~= prim_step(old(self)@, Primitive::Fetch).0.data);
            }
            return Err(fault("Stack underflow"));
        }
        let addr = self.take_top();
        if addr < 0 || addr as usize > DATA_SPACE_SIZE - 4 {
            proof {
                assert(self@.data =~= prim_step(old(self)@, Primitive::Fetch).0.data);
            }
            return Err(fault("Memory access out of bounds"));
        }
        let v = read_be32(self.data_space.as_slice(), addr as usize);
        self.data_stack.push(v as i32);
        proof {
            assert(self@.data =~= prim_step(old(self)@, Primitive::Fetch).0.data);
        }
        Ok(())
    }

    fn store(&mut self) -> (r: Result<(), Error>)
        requires
            old(self).wf(),
        ensures
            final(self).wf(),
            final(self)@ == prim_step(old(self)@, Primitive::Store).0,
            result_is(r, prim_step(old(self)@, Primitive::Store).1),
    {
        if self.data_stack.len() < 2 {
            self.data_stack.clear();
            proof {
                assert(self@.data =~= prim_step(old(self)@, Primitive::Store).0.data);
            }
            return Err(fault("Stack underflow"));
        }
        let addr = self.take_top();
        let val = self.take_top();
        if addr < 0 || addr as usize > DATA_SPACE_SIZE - 4 {
            proof {
                assert(self@.data =~= prim_step(old(self)@, Primitive::Store).0.data);
            }
            return Err(fault("Memory access out of bounds"));
        }
        write_be32(self.data_space.as_mut_slice(), addr as usize, val as u32);
        proof {
            assert(self@.data =~= prim_step(old(self)@, Primitive::Store).0.data);
        }
        Ok(())
    }

    fn c_fetch(&mut self) -> (r: Result<(), Error>)
        requires
            old(self).wf(),
        ensures
            final(self).wf(),
            final(self)@ == prim_step(old(self)@, Primitive::CFetch).0,
            result_is(r, prim_step(old(self)@, Primitive::CFetch).1),
    {
        if self.data_stack.len() == 0 {
            proof {
                assert(self@.data =~= prim_step(old(self)@, Primitive::CFetch).0.data);
            }
            return Err(fault("Stack underflow"));
        }
        let addr = self.take_top();
        if addr < 0 || addr as usize >= DATA_SPACE_SIZE {
            proof {
                assert(self@.data =~= prim_step(old(self)@, Primitive::CFetch).0.data);
            }
            return Err(fault("Memory access out of bounds"));
        }
        let v = self.data_space[addr as usize];
        self.data_stack.push(v as i32);
        proof {
            assert(self@.data =~= prim_step(old(self)@, Primitive::CFetch).0.data);
        }
        Ok(())
    }

    fn c_store(&mut self) -> (r: Result<(), Error>)
        requires
            old(self).wf(),
        ensures
            final(self).wf(),
            final(self)@ == prim_step(old(self)@, Primitive::CStore).0,
            result_is(r, prim_step(old(self)@, Primitive::CStore).1),
    {
        if self.data_stack.len() < 2 {
            self.data_stack.clear();
            proof {
                assert(self@.data =~= prim_step(old(self)@, Primitive::CStore).0.data);
            }
            return Err(fault("Stack underflow"));
        }
        let addr = self.take_top();
        let val = self.take_top();
        if addr < 0 || addr as usize >= DATA_SPACE_SIZE {
            proof {
                assert(self@.data =~= prim_step(old(self)@, Primitive::CStore).0.data);
            }
            return Err(fault("Memory access out of bounds"));
        }
        self.data_space.set(addr as usize, #[verifier::truncate] (val as u8));
        proof {
            assert(self@.data =~= prim_step(old(self)@, Primitive::CStore).0.data);
        }
        Ok(())
    }

    fn here_word(&mut self) -> (r: Result<(), Error>)
        requires
            old(self).wf(),
        ensures
            final(self).wf(),
            final(self)@ == prim_step(old(self)@, Primitive::Here).0,
            result_is(r, prim_step(old(self)@, Primitive::Here).1),
    {
        let h = #[verifier::truncate] (self.here as i32);
        self.data_stack.push(h);
        proof {
            assert(self@.data =~= prim_step(old(self)@, Primitive::Here).0.data);
        }
        Ok(())
    }

    fn allot(&mut self) -> (r: Result<(), Error>)
        requires
            old(self).wf(),
        ensures
            final(self).wf(),
            final(self)@ == prim_step(old(self)@, Primitive::Allot).0,
            result_is(r, prim_step(old(self)@, Primitive::Allot).1),
    {
        if self.data_stack.len() == 0 {
            proof {
                assert(self@.data =~= prim_step(old(self)@, Primitive::Allot).0.data);
            }
            return Err(fault("Stack underflow"));
        }
        let n = self.take_top();
        if n < 0 {
            proof {
                assert(self@.data =~= prim_step(old(self)@, Primitive::Allot).0.data);
            }
            return Err(fault("Data space exhausted"));
        }
        match self.here.checked_add(n as usize) {
            Some(h) => {
                self.here = h;
                if h > DATA_SPACE_SIZE {
                    proof {
                        assert(self@.data =~= prim_step(old(self)@, Primitive::Allot).0.data);
                    }
                    return Err(fault("Data space exhausted"));
                }
                proof {
                    assert(self@.data =~= prim_step(old(self)@, Primitive::Allot).0.data);
                }
                Ok(())
            },
            None => Err(fault("Data space exhausted")),
        }
    }

    fn c_comma(&mut self) -> (r: Result<(), Error>)
        requires
            old(self).wf(),
        ensures
            final(self).wf(),
            final(self)@ == prim_step(old(self)@, Primitive::CComma).0,
            result_is(r, prim_step(old(self)@, Primitive::CComma).1),
    {
        if self.data_stack.len() == 0 {
            proof {
                assert(self@.data =~= prim_step(old(self)@, Primitive::CComma).0.data);
            }
            return Err(fault("Stack underflow"));
        }
        let v = self.take_top();
        if self.here >= DATA_SPACE_SIZE {
            proof {
                assert(self@.data =~= prim_step(old(self)@, Primitive::CComma).0.data);
            }
            return Err(fault("Data space exhausted"));
        }
        self.data_space.set(self.here, #[verifier::truncate] (v as u8));
        self.here = self.here + 1;
        proof {
            assert(self@.data =~= prim_step(old(self)@, Primitive::CComma).0.data);
        }
        Ok(())
    }

    fn dot(&mut self) -> (r: Result<(), Error>)
        requires
            old(self).wf(),
        ensures
            final(self).wf(),
            final(self)@ == prim_step(old(self)@, Primitive::Dot).0,
            result_is(r, prim_step(old(self)@, Primitive::Dot).1),
    {
        if self.data_stack.len() == 0 {
            proof {
                assert(self@.data =~= prim_step(old(self)@, Primitive::Dot).0.data);
            }
            return Err(fault("Stack underflow"));
        }
        let v = self.take_top();
        append_decimal(&mut self.output, v as i64);
        self.output.push(32u8);
        proof {
            assert(self@.data =~= prim_step(old(self)@, Primitive::Dot).0.data);
            assert(self@.out =~= prim_step(old(self)@, Primitive::Dot).0.out);
        }
        Ok(())
    }

    fn u_dot(&mut self) -> (r: Result<(), Error>)
        requires
            old(self).wf(),
        ensures
            final(self).wf(),
            final(self)@ == prim_step(old(self)@, Primitive::UDot).0,
            result_is(r, prim_step(old(self)@, Primitive::UDot).1),
    {
        if self.data_stack.len() == 0 {
            proof {
                assert(self@.data =~= prim_step(old(self)@, Primitive::UDot).0.data);
            }
            return Err(fault("Stack underflow"));
        }
        let v = self.take_top();
        append_decimal(&mut self.output, (v as u32) as i64);
        self.output.push(32u8);
        proof {
            assert(self@.data =~= prim_step(old(self)@, Primitive::UDot).0.data);
            assert(self@.out =~= prim_step(old(self)@, Primitive::UDot).0.out);
        }
        Ok(())
    }

    fn cr(&mut self) -> (r: Result<(), Error>)
        requires
            old(self).wf(),
        ensures
            final(self).wf(),
            final(self)@ == prim_step(old(self)@, Primitive::Cr).0,
            result_is(r, prim_step(old(self)@, Primitive::Cr).1),
    {
        self.output.push(10u8);
        proof {
            assert(self@.data =~= prim_step(old(self)@, Primitive::Cr).0.data);
        }
        Ok(())
    }

    fn colon(&mut self) -> (r: Result<(), Error>)
        requires
            old(self).wf(),
        ensures
            final(self).wf(),
            final(self)@ == prim_step(old(self)@, Primitive::Colon).0,
            result_is(r, prim_step(old(self)@, Primitive::Colon).1),
    {
        self.compiling = true;
        self.compile_buffer.clear();
        proof {
            assert(strings_view(self.compile_buffer@) =~= Seq::<Seq<char>>::empty());
        }
        proof {
            assert(self@.data =~= prim_step(old(self)@, Primitive::Colon).0.data);
        }
        Ok(())
    }

    fn semicolon(&mut self) -> (r: Result<(), Error>)
        requires
            old(self).wf(),
        ensures
            final(self).wf(),
            final(self)@ == prim_step(old(self)@, Primitive::Semicolon).0,
            result_is(r, prim_step(old(self)@, Primitive::Semicolon).1),
    {
        if !self.compiling {
            proof {
                assert(self@.data =~= prim_step(old(self)@, Primitive::Semicolon).0.data);
            }
            return Err(fault("Not compiling"));
        }
        self.compiling = false;
        if self.compile_buffer.len() == 0 {
            proof {
                assert(self@.data =~= prim_step(old(self)@, Primitive::Semicolon).0.data);
            }
            return Err(fault("Empty definition"));
        }
        let name = self.compile_buffer[0].clone();
        let mut body: Vec<String> = Vec::new();
        let mut i: usize = 1;
        while i < self.compile_buffer.len()
            invariant
                1 <= i <= self.compile_buffer@.len(),
                body@.len() == i - 1,
                forall|k: int| 0 <= k < i - 1 ==> #[trigger] body@[k]@ == self.compile_buffer@[k + 1]@,
            decreases self.compile_buffer@.len() - i,
        {
            body.push(self.compile_buffer[i].clone());
            i = i + 1;
        }
        assert(strings_view(body@) =~= strings_view(self.compile_buffer@).subrange(1, self.compile_buffer@.len() as int));
        self.define(name, ForthWord::Compiled(body));
        self.compile_buffer.clear();
        proof {
            assert(strings_view(self.compile_buffer@) =~= Seq::<Seq<char>>::empty());
        }
        proof {
            assert(self@.data =~= prim_step(old(self)@, Primitive::Semicolon).0.data);
        }
        Ok(())
    }

    fn hex_literal(&mut self) -> (r: Result<(), Error>)
        requires
            old(self).wf(),
        ensures
            final(self).wf(),
            final(self)@ == prim_step(old(self)@, Primitive::HexLiteral).0,
            result_is(r, prim_step(old(self)@, Primitive::HexLiteral).1),
    {
        let tok = self.read_token();
        match tok {
            None => Err(fault("Expected a hexadecimal number after h#")),
            Some(t) => match parse_radix_str(t.as_str(), 16) {
                None => Err(fault("Expected a hexadecimal number after h#")),
                Some(v) => {
                    self.data_stack.push(v);
                    proof {
                        assert(self@.data =~= prim_step(old(self)@, Primitive::HexLiteral).0.data);
                    }
                    Ok(())
                },
            },
        }
    }

    fn string_equal(&mut self) -> (r: Result<(), Error>)
        requires
            old(self).wf(),
        ensures
            final(self).wf(),
            final(self)@ == of_step(old(self)@, Primitive::StrEqual).0,
            result_is(r, of_step(old(self)@, Primitive::StrEqual).1),
    {
        if self.data_stack.len() < 4 {
            self.data_stack.clear();
            proof {
                assert(self@.data =~= of_step(old(self)@, Primitive::StrEqual).0.data);
                assert(self@.space =~= of_step(old(self)@, Primitive::StrEqual).0.space);
            }
            return Err(fault("Stack underflow"));
        }
        let len2 = self.take_top();
        let addr2 = self.take_top();
        let len1 = self.take_top();
        let addr1 = self.take_top();
        if len1 != len2 {
            self.data_stack.push(0);
            proof {
                assert(self@.data =~= of_step(old(self)@, Primitive::StrEqual).0.data);
                assert(self@.space =~= of_step(old(self)@, Primitive::StrEqual).0.space);
            }
            return Ok(());
        }
        if !span_ok(addr1, len1) || !span_ok(addr2, len2) {
            proof {
                assert(self@.data =~= of_step(old(self)@, Primitive::StrEqual).0.data);
                assert(self@.space =~= of_step(old(self)@, Primitive::StrEqual).0.space);
            }
            return Err(fault("Memory access out of bounds"));
        }
        let b2 = copy_range(self.data_space.as_slice(), addr2 as usize, addr2 as usize + len2 as usize);
        let equal = bytes_equal_at(self.data_space.as_slice(), b2.as_slice(), addr1 as usize);
        self.data_stack.push(if equal { -1 } else { 0 });
        proof {
            assert(self@.data =~= of_step(old(self)@, Primitive::StrEqual).0.data);
            assert(self@.space =~= of_step(old(self)@, Primitive::StrEqual).0.space);
        }
        Ok(())
    }

    fn string_find(&mut self) -> (r: Result<(), Error>)
        requires
            old(self).wf(),
        ensures
            final(self).wf(),
            final(self)@ == of_step(old(self)@, Primitive::StrFind).0,
            result_is(r, of_step(old(self)@, Primitive::StrFind).1),
    {
        self.data_stack.push(0);
        self.data_stack.push(0);
        proof {
            assert(self@.data =~= of_step(old(self)@, Primitive::StrFind).0.data);
            assert(self@.space =~= of_step(old(self)@, Primitive::StrFind).0.space);
        }
        Ok(())
    }

    fn call_method(&mut self) -> (r: Result<(), Error>)
        requires
            old(self).wf(),
        ensures
            final(self).wf(),
            final(self)@ == of_step(old(self)@, Primitive::CallMethod).0,
            result_is(r, of_step(old(self)@, Primitive::CallMethod).1),
    {
        if self.data_stack.len() < 3 {
            self.data_stack.clear();
            proof {
                assert(self@.data =~= of_step(old(self)@, Primitive::CallMethod).0.data);
                assert(self@.space =~= of_step(old(self)@, Primitive::CallMethod).0.space);
            }
            return Err(fault("Stack underflow"));
        }
        self.take_top();
        self.take_top();
        self.take_top();
        self.data_stack.push(0);
        proof {
            assert(self@.data =~= of_step(old(self)@, Primitive::CallMethod).0.data);
            assert(self@.space =~= of_step(old(self)@, Primitive::CallMethod).0.space);
        }
        Ok(())
    }

    fn parse_path_component(&mut self) -> (r: Result<(), Error>)
        requires
            old(self).wf(),
        ensures
            final(self).wf(),
            final(self)@ == of_step(old(self)@, Primitive::PathComponent).0,
            result_is(r, of_step(old(self)@, Primitive::PathComponent).1),
    {
        if self.data_stack.len() < 2 {
            self.data_stack.clear();
            proof {
                assert(self@.data =~= of_step(old(self)@, Primitive::PathComponent).0.data);
                assert(self@.space =~= of_step(old(self)@, Primitive::PathComponent).0.space);
            }
            return Err(fault("Stack underflow"));
        }
        let len1 = self.take_top();
        let addr1 = self.take_top();
        if len1 == 0 {
            self.data_stack.push(addr1);
            self.data_stack.push(0);
            self.data_stack.push(addr1);
            self.data_stack.push(0);
            proof {
                assert(self@.data =~= of_step(old(self)@, Primitive::PathComponent).0.data);
                assert(self@.space =~= of_step(old(self)@, Primitive::PathComponent).0.space);
            }
            return Ok(());
        }
        if !span_ok(addr1, len1) {
            proof {
                assert(self@.data =~= of_step(old(self)@, Primitive::PathComponent).0.data);
                assert(self@.space =~= of_step(old(self)@, Primitive::PathComponent).0.space);
            }
            return Err(fault("Memory access out of bounds"));
        }
        let ghost b = self.data_space@.subrange(addr1 as int, addr1 + len1);
        let mut c: usize = 0;
        while c < len1 as usize && self.data_space[addr1 as usize + c] != 0x2F
            invariant
                0 < len1,
                0 <= addr1,
                addr1 + len1 <= self.data_space@.len(),
                c <= len1,
                b == self.data_space@.subrange(addr1 as int, addr1 + len1),
                first_slash(b, c as int) == first_slash(b, 0),
            decreases len1 - c,
        {
            proof {
                assert(b[c as int] == self.data_space@[addr1 + c]);
            }
            c = c + 1;
        }
        proof {
            if c < len1 {
                assert(b[c as int] == self.data_space@[addr1 + c]);
            }
        }
        let skip: i32 = if (c as i32) < len1 {
            1
        } else {
            0
        };
        let ci = c as i32;
        self.data_stack.push(addr1 + ci + skip);
        self.data_stack.push(len1 - ci - skip);
        self.data_stack.push(addr1);
        self.data_stack.push(ci);
        proof {
            assert(self@.data =~= of_step(old(self)@, Primitive::PathComponent).0.data);
            assert(self@.space =~= of_step(old(self)@, Primitive::PathComponent).0.space);
        }
        Ok(())
    }

    fn decode_string(&mut self) -> (r: Result<(), Error>)
        requires
            old(self).wf(),
        ensures
            final(self).wf(),
            final(self)@ == of_step(old(self)@, Primitive::DecodeString).0,
            result_is(r, of_step(old(self)@, Primitive::DecodeString).1),
    {
        if self.data_stack.len() < 2 {
            self.data_stack.clear();
            proof {
                assert(self@.data =~= of_step(old(self)@, Primitive::DecodeString).0.data);
                assert(self@.space =~= of_step(old(self)@, Primitive::DecodeString).0.space);
            }
            return Err(fault("Stack underflow"));
        }
        let len1 = self.take_top();
        let addr1 = self.take_top();
        if len1 < 0 || addr1 < 0 {
            proof {
                assert(self@.data =~= of_step(old(self)@, Primitive::DecodeString).0.data);
                assert(self@.space =~= of_step(old(self)@, Primitive::DecodeString).0.space);
            }
            return Err(fault("Memory access out of bounds"));
        }
        if len1 < 4 {
            proof {
                assert(self@.data =~= of_step(old(self)@, Primitive::DecodeString).0.data);
                assert(self@.space =~= of_step(old(self)@, Primitive::DecodeString).0.space);
            }
            return Err(fault("Buffer too small for decode-string"));
        }
        if addr1 as usize > DATA_SPACE_SIZE - 4 {
            proof {
                assert(self@.data =~= of_step(old(self)@, Primitive::DecodeString).0.data);
                assert(self@.space =~= of_step(old(self)@, Primitive::DecodeString).0.space);
            }
            return Err(fault("Memory access out of bounds"));
        }
        let str_len = read_be32(self.data_space.as_slice(), addr1 as usize) as i32;
        if str_len < 0 {
            proof {
                assert(self@.data =~= of_step(old(self)@, Primitive::DecodeString).0.data);
                assert(self@.space =~= of_step(old(self)@, Primitive::DecodeString).0.space);
            }
            return Err(fault("Buffer too small for string"));
        }
        let total: i64 = 4 + ((str_len as i64 + 3) / 4) * 4;
        if total > len1 as i64 {
            proof {
                assert(self@.data =~= of_step(old(self)@, Primitive::DecodeString).0.data);
                assert(self@.space =~= of_step(old(self)@, Primitive::DecodeString).0.space);
            }
            return Err(fault("Buffer too small for string"));
        }
        self.data_stack.push(#[verifier::truncate] ((addr1 as i64 + total) as i32));
        self.data_stack.push((len1 as i64 - total) as i32);
        self.data_stack.push(addr1 + 4);
        self.data_stack.push(str_len);
        proof {
            assert(self@.data =~= of_step(old(self)@, Primitive::DecodeString).0.data);
            assert(self@.space =~= of_step(old(self)@, Primitive::DecodeString).0.space);
        }
        Ok(())
    }

    fn decode_int(&mut self) -> (r: Result<(), Error>)
        requires
            old(self).wf(),
        ensures
            final(self).wf(),
            final(self)@ == of_step(old(self)@, Primitive::DecodeInt).0,
            result_is(r, of_step(old(self)@, Primitive::DecodeInt).1),
    {
        if self.data_stack.len() < 2 {
            self.data_stack.clear();
            proof {
                assert(self@.data =~= of_step(old(self)@, Primitive::DecodeInt).0.data);
                assert(self@.space =~= of_step(old(self)@, Primitive::DecodeInt).0.space);
            }
            return Err(fault("Stack underflow"));
        }
        let len1 = self.take_top();
        let addr1 = self.take_top();
        if len1 < 0 || addr1 < 0 {
            proof {
                assert(self@.data =~= of_step(old(self)@, Primitive::DecodeInt).0.data);
                assert(self@.space =~= of_step(old(self)@, Primitive::DecodeInt).0.space);
            }
            return Err(fault("Memory access out of bounds"));
        }
        if len1 < 4 {
            proof {
                assert(self@.data =~= of_step(old(self)@, Primitive::DecodeInt).0.data);
                assert(self@.space =~= of_step(old(self)@, Primitive::DecodeInt).0.space);
            }
            return Err(fault("Buffer too small for decode-int"));
        }
        if addr1 as usize > DATA_SPACE_SIZE - 4 {
            proof {
                assert(self@.data =~= of_step(old(self)@, Primitive::DecodeInt).0.data);
                assert(self@.space =~= of_step(old(self)@, Primitive::DecodeInt).0.space);
            }
            return Err(fault("Memory access out of bounds"));
        }
        let v = read_be32(self.data_space.as_slice(), addr1 as usize);
        self.data_stack.push(addr1 + 4);
        self.data_stack.push(len1 - 4);
        self.data_stack.push(v as i32);
        proof {
            assert(self@.data =~= of_step(old(self)@, Primitive::DecodeInt).0.data);
            assert(self@.space =~= of_step(old(self)@, Primitive::DecodeInt).0.space);
        }
        Ok(())
    }

    fn encode_int(&mut self) -> (r: Result<(), Error>)
        requires
            old(self).wf(),
        ensures
            final(self).wf(),
            final(self)@ == of_step(old(self)@, Primitive::EncodeInt).0,
            result_is(r, of_step(old(self)@, Primitive::EncodeInt).1),
    {
        if self.data_stack.len() == 0 {
            proof {
                assert(self@.data =~= of_step(old(self)@, Primitive::EncodeInt).0.data);
                assert(self@.space =~= of_step(old(self)@, Primitive::EncodeInt).0.space);
            }
            return Err(fault("Stack underflow"));
        }
        let v = self.take_top();
        if self.here > DATA_SPACE_SIZE - 4 {
            proof {
                assert(self@.data =~= of_step(old(self)@, Primitive::EncodeInt).0.data);
                assert(self@.space =~= of_step(old(self)@, Primitive::EncodeInt).0.space);
            }
            return Err(fault("Data space exhausted"));
        }
        let addr = self.here;
        write_be32(self.data_space.as_mut_slice(), addr, v as u32);
        self.here = addr + 4;
        self.data_stack.push(addr as i32);
        self.data_stack.push(4);
        proof {
            assert(self@.data =~= of_step(old(self)@, Primitive::EncodeInt).0.data);
            assert(self@.space =~= of_step(old(self)@, Primitive::EncodeInt).0.space);
        }
        Ok(())
    }

    fn encode_plus(&mut self) -> (r: Result<(), Error>)
        requires
            old(self).wf(),
        ensures
            final(self).wf(),
            final(self)@ == of_step(old(self)@, Primitive::EncodePlus).0,
            result_is(r, of_step(old(self)@, Primitive::EncodePlus).1),
    {
        if self.data_stack.len() < 4 {
            self.data_stack.clear();
            proof {
                assert(self@.data =~= of_step(old(self)@, Primitive::EncodePlus).0.data);
                assert(self@.space =~= of_step(old(self)@, Primitive::EncodePlus).0.space);
            }
            return Err(fault("Stack underflow"));
        }
        let len2 = self.take_top();
        let addr2 = self.take_top();
        let len1 = self.take_top();
        let addr1 = self.take_top();
        if len1 < 0 || len2 < 0 || addr1 < 0 || addr2 < 0 {
            proof {
                assert(self@.data =~= of_step(old(self)@, Primitive::EncodePlus).0.data);
                assert(self@.space =~= of_step(old(self)@, Primitive::EncodePlus).0.space);
            }
            return Err(fault("Memory access out of bounds"));
        }
        if self.here > DATA_SPACE_SIZE || (len1 as usize + len2 as usize) > DATA_SPACE_SIZE - self.here {
            proof {
                assert(self@.data =~= of_step(old(self)@, Primitive::EncodePlus).0.data);
                assert(self@.space =~= of_step(old(self)@, Primitive::EncodePlus).0.space);
            }
            return Err(fault("Data space exhausted"));
        }
        if !span_ok(addr1, len1) || !span_ok(addr2, len2) {
            proof {
                assert(self@.data =~= of_step(old(self)@, Primitive::EncodePlus).0.data);
                assert(self@.space =~= of_step(old(self)@, Primitive::EncodePlus).0.space);
            }
            return Err(fault("Memory access out of bounds"));
        }
        let b1 = copy_range(self.data_space.as_slice(), addr1 as usize, addr1 as usize + len1 as usize);
        let b2 = copy_range(self.data_space.as_slice(), addr2 as usize, addr2 as usize + len2 as usize);
        let dest = self.here;
        put_bytes(&mut self.data_space, dest, &b1);
        put_bytes(&mut self.data_space, dest + len1 as usize, &b2);
        self.here = dest + len1 as usize + len2 as usize;
        self.data_stack.push(dest as i32);
        self.data_stack.push(len1 + len2);
        proof {
            assert(self@.data =~= of_step(old(self)@, Primitive::EncodePlus).0.data);
            assert(self@.space =~= of_step(old(self)@, Primitive::EncodePlus).0.space);
        }
        Ok(())
    }

    fn encode_string(&mut self) -> (r: Result<(), Error>)
        requires
            old(self).wf(),
        ensures
            final(self).wf(),
            final(self)@ == of_step(old(self)@, Primitive::EncodeString).0,
            result_is(r, of_step(old(self)@, Primitive::EncodeString).1),
    {
        if self.data_stack.len() < 2 {
            self.data_stack.clear();
            proof {
                assert(self@.data =~= of_step(old(self)@, Primitive::EncodeString).0.data);
                assert(self@.space =~= of_step(old(self)@, Primitive::EncodeString).0.space);
            }
            return Err(fault("Stack underflow"));
        }
        let len = self.take_top();
        let addr = self.take_top();
        if len < 0 || addr < 0 {
            proof {
                assert(self@.data =~= of_step(old(self)@, Primitive::EncodeString).0.data);
                assert(self@.space =~= of_step(old(self)@, Primitive::EncodeString).0.space);
            }
            return Err(fault("Memory access out of bounds"));
        }
        let aligned: usize = ((len as usize + 3) / 4) * 4;
        if self.here > DATA_SPACE_SIZE || 4 + aligned > DATA_SPACE_SIZE - self.here {
            proof {
                assert(self@.data =~= of_step(old(self)@, Primitive::EncodeString).0.data);
                assert(self@.space =~= of_step(old(self)@, Primitive::EncodeString).0.space);
            }
            return Err(fault("Data space exhausted"));
        }
        let dest = self.here;
        write_be32(self.data_space.as_mut_slice(), dest, len as u32);
        self.here = dest + 4;
        if !span_ok(addr, len) {
            proof {
                assert(self@.data =~= of_step(old(self)@, Primitive::EncodeString).0.data);
                assert(self@.space =~= of_step(old(self)@, Primitive::EncodeString).0.space);
            }
            return Err(fault("Memory access out of bounds"));
        }
        let b = copy_range(self.data_space.as_slice(), addr as usize, addr as usize + len as usize);
        put_bytes(&mut self.data_space, dest + 4, &b);
        self.here = dest + 4 + aligned;
        self.data_stack.push(dest as i32);
        self.data_stack.push((4 + aligned) as i32);
        proof {
            assert(self@.data =~= of_step(old(self)@, Primitive::EncodeString).0.data);
            assert(self@.space =~= of_step(old(self)@, Primitive::EncodeString).0.space);
        }
        Ok(())
    }

    fn bounds(&mut self) -> (r: Result<(), Error>)
        requires
            old(self).wf(),
        ensures
            final(self).wf(),
            final(self)@ == of_step(old(self)@, Primitive::Bounds).0,
            result_is(r, of_step(old(self)@, Primitive::Bounds).1),
    {
        if self.data_stack.len() < 2 {
            self.data_stack.clear();
            proof {
                assert(self@.data =~= of_step(old(self)@, Primitive::Bounds).0.data);
                assert(self@.space =~= of_step(old(self)@, Primitive::Bounds).0.space);
            }
            return Err(fault("Stack underflow"));
        }
        let len = self.take_top();
        let addr = self.take_top();
        self.data_stack.push(addr.wrapping_add(len));
        self.data_stack.push(addr);
        proof {
            assert(self@.data =~= of_step(old(self)@, Primitive::Bounds).0.data);
            assert(self@.space =~= of_step(old(self)@, Primitive::Bounds).0.space);
        }
        Ok(())
    }

    fn between(&mut self) -> (r: Result<(), Error>)
        requires
            old(self).wf(),
        ensures
            final(self).wf(),
            final(self)@ == of_step(old(self)@, Primitive::Between).0,
            result_is(r, of_step(old(self)@, Primitive::Between).1),
    {
        if self.data_stack.len() < 3 {
            self.data_stack.clear();
            proof {
                assert(self@.data =~= of_step(old(self)@, Primitive::Between).0.data);
                assert(self@.space =~= of_step(old(self)@, Primitive::Between).0.space);
            }
            return Err(fault("Stack underflow"));
        }
        let high = self.take_top();
        let low = self.take_top();
        let n = self.take_top();
        self.data_stack.push(if n >= low && n <= high { -1 } else { 0 });
        proof {
            assert(self@.data =~= of_step(old(self)@, Primitive::Between).0.data);
            assert(self@.space =~= of_step(old(self)@, Primitive::Between).0.space);
        }
        Ok(())
    }

    fn move_memory(&mut self) -> (r: Result<(), Error>)
        requires
            old(self).wf(),
        ensures
            final(self).wf(),
            final(self)@ == of_step(old(self)@, Primitive::Move).0,
            result_is(r, of_step(old(self)@, Primitive::Move).1),
    {
        if self.data_stack.len() < 3 {
            self.data_stack.clear();
            proof {
                assert(self@.data =~= of_step(old(self)@, Primitive::Move).0.data);
                assert(self@.space =~= of_step(old(self)@, Primitive::Move).0.space);
            }
            return Err(fault("Stack underflow"));
        }
        let len = self.take_top();
        let dest = self.take_top();
        let src = self.take_top();
        if !span_ok(src, len) || !span_ok(dest, len) {
            proof {
                assert(self@.data =~= of_step(old(self)@, Primitive::Move).0.data);
                assert(self@.space =~= of_step(old(self)@, Primitive::Move).0.space);
            }
            return Err(fault("Memory access out of bounds"));
        }
        let b = copy_range(self.data_space.as_slice(), src as usize, src as usize + len as usize);
        put_bytes(&mut self.data_space, dest as usize, &b);
        proof {
            assert(self@.data =~= of_step(old(self)@, Primitive::Move).0.data);
            assert(self@.space =~= of_step(old(self)@, Primitive::Move).0.space);
        }
        Ok(())
    }

    fn fill_memory(&mut self) -> (r: Result<(), Error>)
        requires
            old(self).wf(),
        ensures
            final(self).wf(),
            final(self)@ == of_step(old(self)@, Primitive::Fill).0,
            result_is(r, of_step(old(self)@, Primitive::Fill).1),
    {
        if self.data_stack.len() < 3 {
            self.data_stack.clear();
            proof {
                assert(self@.data =~= of_step(old(self)@, Primitive::Fill).0.data);
                assert(self@.space =~= of_step(old(self)@, Primitive::Fill).0.space);
            }
            return Err(fault("Stack underflow"));
        }
        let v = self.take_top();
        let len = self.take_top();
        let addr = self.take_top();
        if !span_ok(addr, len) {
            proof {
                assert(self@.data =~= of_step(old(self)@, Primitive::Fill).0.data);
                assert(self@.space =~= of_step(old(self)@, Primitive::Fill).0.space);
            }
            return Err(fault("Memory access out of bounds"));
        }
        let byte: u8 = #[verifier::truncate] (v as u8);
        let mut b: Vec<u8> = Vec::new();
        let mut i: i32 = 0;
        while i < len
            invariant
                0 <= i <= len,
                b@ == Seq::new(i as nat, |k: int| byte),
            decreases len - i,
        {
            b.push(byte);
            assert(b@ =~= Seq::new((i + 1) as nat, |k: int| byte));
            i = i + 1;
        }
        put_bytes(&mut self.data_space, addr as usize, &b);
        proof {
            assert(self@.data =~= of_step(old(self)@, Primitive::Fill).0.data);
            assert(self@.space =~= of_step(old(self)@, Primitive::Fill).0.space);
        }
        Ok(())
    }

    fn find_package(&mut self) -> (r: Result<(), Error>)
        requires
            old(self).wf(),
        ensures
            final(self).wf(),
            final(self)@ == of_step(old(self)@, Primitive::FindPackage).0,
            result_is(r, of_step(old(self)@, Primitive::FindPackage).1),
    {
        if self.data_stack.len() < 2 {
            self.data_stack.clear();
            proof {
                assert(self@.data =~= of_step(old(self)@, Primitive::FindPackage).0.data);
                assert(self@.space =~= of_step(old(self)@, Primitive::FindPackage).0.space);
            }
            return Err(fault("Stack underflow"));
        }
        let len = self.take_top();
        let addr = self.take_top();
        if !span_ok(addr, len) {
            proof {
                assert(self@.data =~= of_step(old(self)@, Primitive::FindPackage).0.data);
                assert(self@.space =~= of_step(old(self)@, Primitive::FindPackage).0.space);
            }
            return Err(fault("Memory access out of bounds"));
        }
        let raw = copy_range(self.data_space.as_slice(), addr as usize, addr as usize + len as usize);
        let path = string_from_utf8_lossy(raw.as_slice());
        let ps = path.as_str();
        proof {
            reveal_strlit("/");
            assert("/"@ =~= seq!['/']);
        }
        let h: i32 = if str_eq(ps, "/") {
            1
        } else if ps.unicode_len() > 0 && ps.get_char(0) == '/' {
            hash_path(ps.as_bytes())
        } else {
            0
        };
        self.data_stack.push(h);
        proof {
            assert(self@.data =~= of_step(old(self)@, Primitive::FindPackage).0.data);
            assert(self@.space =~= of_step(old(self)@, Primitive::FindPackage).0.space);
        }
        Ok(())
    }

    fn abort(&mut self) -> (r: Result<(), Error>)
        requires
            old(self).wf(),
        ensures
            final(self).wf(),
            final(self)@ == of_step(old(self)@, Primitive::Abort).0,
            result_is(r, of_step(old(self)@, Primitive::Abort).1),
    {
        Err(fault("ABORT"))
    }

    fn question_dup(&mut self) -> (r: Result<(), Error>)
        requires
            old(self).wf(),
        ensures
            final(self).wf(),
            final(self)@ == of_step(old(self)@, Primitive::QuestionDup).0,
            result_is(r, of_step(old(self)@, Primitive::QuestionDup).1),
    {
        let n = self.data_stack.len();
        if n == 0 {
            proof {
                assert(self@.data =~= of_step(old(self)@, Primitive::QuestionDup).0.data);
                assert(self@.space =~= of_step(old(self)@, Primitive::QuestionDup).0.space);
            }
            return Err(fault("Stack empty"));
        }
        let v = self.data_stack[n - 1];
        if v != 0 {
            self.data_stack.push(v);
        }
        proof {
            assert(self@.data =~= of_step(old(self)@, Primitive::QuestionDup).0.data);
            assert(self@.space =~= of_step(old(self)@, Primitive::QuestionDup).0.space);
        }
        Ok(())
    }

    fn value_word(&mut self) -> (r: Result<(), Error>)
        requires
            old(self).wf(),
        ensures
            final(self).wf(),
            final(self)@ == of_step(old(self)@, Primitive::Value).0,
            result_is(r, of_step(old(self)@, Primitive::Value).1),
    {
        let tok = self.read_token();
        let name = match tok {
            Some(t) => t,
            None => return Err(fault("Expected value name")),
        };
        if self.data_stack.len() == 0 {
            proof {
                assert(self@.data =~= of_step(old(self)@, Primitive::Value).0.data);
                assert(self@.space =~= of_step(old(self)@, Primitive::Value).0.space);
            }
            return Err(fault("Stack underflow"));
        }
        let v = self.take_top();
        if self.here > DATA_SPACE_SIZE - 4 {
            proof {
                assert(self@.data =~= of_step(old(self)@, Primitive::Value).0.data);
                assert(self@.space =~= of_step(old(self)@, Primitive::Value).0.space);
            }
            return Err(fault("Data space exhausted"));
        }
        let addr = self.here;
        write_be32(self.data_space.as_mut_slice(), addr, v as u32);
        self.here = addr + 4;
        self.create_variable(name.as_str());
        proof {
            assert(self@.data =~= of_step(old(self)@, Primitive::Value).0.data);
            assert(self@.space =~= of_step(old(self)@, Primitive::Value).0.space);
        }
        Ok(())
    }

    fn to_word(&mut self) -> (r: Result<(), Error>)
        requires
            old(self).wf(),
        ensures
            final(self).wf(),
            final(self)@ == of_step(old(self)@, Primitive::To).0,
            result_is(r, of_step(old(self)@, Primitive::To).1),
    {
        let tok = self.read_token();
        let name = match tok {
            Some(t) => t,
            None => return Err(fault("Expected value name")),
        };
        if self.data_stack.len() == 0 {
            proof {
                assert(self@.data =~= of_step(old(self)@, Primitive::To).0.data);
                assert(self@.space =~= of_step(old(self)@, Primitive::To).0.space);
            }
            return Err(fault("Stack underflow"));
        }
        let v = self.take_top();
        match self.lookup(name.as_str()) {
            Some(ForthWord::Variable(addr)) => {
                if addr > DATA_SPACE_SIZE - 4 {
                    proof {
                        assert(self@.data =~= of_step(old(self)@, Primitive::To).0.data);
                        assert(self@.space =~= of_step(old(self)@, Primitive::To).0.space);
                    }
                    return Err(fault("Memory access out of bounds"));
                }
                write_be32(self.data_space.as_mut_slice(), addr, v as u32);
                proof {
                    assert(self@.data =~= of_step(old(self)@, Primitive::To).0.data);
                    assert(self@.space =~= of_step(old(self)@, Primitive::To).0.space);
                }
                Ok(())
            },
            _ => {
                let mut m = String::from_str("Value not found: ");
                m.append(name.as_str());
                Err(Error::Other(m))
            },
        }
    }

    fn bracket_tick(&mut self) -> (r: Result<(), Error>)
        requires
            old(self).wf(),
        ensures
            final(self).wf(),
            final(self)@ == of_step(old(self)@, Primitive::BracketTick).0,
            result_is(r, of_step(old(self)@, Primitive::BracketTick).1),
    {
        let tok = self.read_token();
        let name = match tok {
            Some(t) => t,
            None => return Err(fault("Expected word name after [']")),
        };
        match self.lookup(name.as_str()) {
            None => {
                let mut m = String::from_str("Word not found: ");
                m.append(name.as_str());
                proof {
                    assert(self@.data =~= of_step(old(self)@, Primitive::BracketTick).0.data);
                    assert(self@.space =~= of_step(old(self)@, Primitive::BracketTick).0.space);
                }
                return Err(Error::Other(m));
            },
            Some(_) => {},
        }
        let bytes = name.as_str().as_bytes();
        let len = bytes.len();
        if self.here > DATA_SPACE_SIZE || len > DATA_SPACE_SIZE || len + 4 > DATA_SPACE_SIZE - self.here {
            proof {
                assert(self@.data =~= of_step(old(self)@, Primitive::BracketTick).0.data);
                assert(self@.space =~= of_step(old(self)@, Primitive::BracketTick).0.space);
            }
            return Err(fault("Data space exhausted"));
        }
        let addr = self.here;
        let mut rec = be32_vec(len as u32);
        let mut i: usize = 0;
        while i < len
            invariant
                i <= len,
                len == bytes@.len(),
                rec@ == be32_bytes(len as u32) + bytes@.subrange(0, i as int),
            decreases len - i,
        {
            rec.push(bytes[i]);
            assert(rec@ =~= be32_bytes(len as u32) + bytes@.subrange(0, i + 1));
            i = i + 1;
        }
        assert(bytes@.subrange(0, len as int) =~= bytes@);
        put_bytes(&mut self.data_space, addr, &rec);
        self.here = addr + 4 + len;
        self.data_stack.push(addr as i32);
        proof {
            assert(self@.data =~= of_step(old(self)@, Primitive::BracketTick).0.data);
            assert(self@.space =~= of_step(old(self)@, Primitive::BracketTick).0.space);
        }
        Ok(())
    }

    fn three_drop(&mut self) -> (r: Result<(), Error>)
        requires
            old(self).wf(),
        ensures
            final(self).wf(),
            final(self)@ == of_step(old(self)@, Primitive::ThreeDrop).0,
            result_is(r, of_step(old(self)@, Primitive::ThreeDrop).1),
    {
        if self.data_stack.len() < 3 {
            self.data_stack.clear();
            proof {
                assert(self@.data =~= of_step(old(self)@, Primitive::ThreeDrop).0.data);
                assert(self@.space =~= of_step(old(self)@, Primitive::ThreeDrop).0.space);
            }
            return Err(fault("Stack underflow"));
        }
        self.take_top();
        self.take_top();
        self.take_top();
        proof {
            assert(self@.data =~= of_step(old(self)@, Primitive::ThreeDrop).0.data);
            assert(self@.space =~= of_step(old(self)@, Primitive::ThreeDrop).0.space);
        }
        Ok(())
    }

    fn adler32(&mut self) -> (r: Result<(), Error>)
        requires
            old(self).wf(),
        ensures
            final(self).wf(),
            final(self)@ == of_step(old(self)@, Primitive::Adler32).0,
            result_is(r, of_step(old(self)@, Primitive::Adler32).1),
    {
        if self.data_stack.len() < 3 {
            self.data_stack.clear();
            proof {
                assert(self@.data =~= of_step(old(self)@, Primitive::Adler32).0.data);
                assert(self@.space =~= of_step(old(self)@, Primitive::Adler32).0.space);
            }
            return Err(fault("Stack underflow"));
        }
        let init = self.take_top() as u32;
        let len = self.take_top();
        let addr = self.take_top();
        if !span_ok(addr, len) {
            proof {
                assert(self@.data =~= of_step(old(self)@, Primitive::Adler32).0.data);
                assert(self@.space =~= of_step(old(self)@, Primitive::Adler32).0.space);
            }
            return Err(fault("Memory access out of bounds"));
        }
        let ghost bs = self.data_space@.subrange(addr as int, addr + len);
        let a0 = init % 0x10000;
        let c0 = (init / 0x10000) % 0x10000;
        let mut a: u32 = a0;
        let mut c: u32 = c0;
        let mut i: i32 = 0;
        while i < len
            invariant
                0 <= i <= len,
                0 <= addr,
                addr + len <= self.data_space@.len(),
                bs == self.data_space@.subrange(addr as int, addr + len),
                self.data_space@.len() == DATA_SPACE_SIZE,
                (a, c) == adler_sums(bs.subrange(0, i as int), a0, c0),
                a < 65521 || (i == 0 && a < 0x10000),
                c < 65521 || (i == 0 && c < 0x10000),
            decreases len - i,
        {
            let byte = self.data_space[(addr + i) as usize];
            proof {
                assert(bs.subrange(0, i + 1).drop_last() =~= bs.subrange(0, i as int));
                assert(bs.subrange(0, i + 1).last() == byte);
            }
            a = (a + byte as u32) % 65521;
            c = (c + a) % 65521;
            i = i + 1;
        }
        proof {
            assert(bs.subrange(0, len as int) =~= bs);
        }
        let sum: u32 = c * 0x10000 + a;
        self.data_stack.push(sum as i32);
        proof {
            assert(self@.data =~= of_step(old(self)@, Primitive::Adler32).0.data);
            assert(self@.space =~= of_step(old(self)@, Primitive::Adler32).0.space);
        }
        Ok(())
    }

    fn init_program(&mut self) -> (r: Result<(), Error>)
        requires
            old(self).wf(),
        ensures
            final(self).wf(),
            final(self)@ == of_step(old(self)@, Primitive::InitProgram).0,
            result_is(r, of_step(old(self)@, Primitive::InitProgram).1),
    {
        proof {
            reveal_strlit("load-base");
        }
        match self.lookup("load-base") {
            Some(ForthWord::Constant(v)) => {
                self.load_base = Some(v as u32);
            },
            _ => {},
        }
        proof {
            assert(self@.data =~= of_step(old(self)@, Primitive::InitProgram).0.data);
            assert(self@.space =~= of_step(old(self)@, Primitive::InitProgram).0.space);
        }
        Ok(())
    }

    fn go(&mut self) -> (r: Result<(), Error>)
        requires
            old(self).wf(),
        ensures
            final(self).wf(),
            final(self)@ == of_step(old(self)@, Primitive::Go).0,
            result_is(r, of_step(old(self)@, Primitive::Go).1),
    {
        match self.load_base {
            Some(l) => {
                self.program_entry = Some(l);
            },
            None => {},
        }
        proof {
            assert(self@.data =~= of_step(old(self)@, Primitive::Go).0.data);
            assert(self@.space =~= of_step(old(self)@, Primitive::Go).0.space);
        }
        Ok(())
    }
}

impl Default for ForthInterpreter {
    fn default() -> (r: Self)
        ensures
            r.wf(),
            r@ == initial_state(),
    {
        Self::new()
    }
}

} // verus!
