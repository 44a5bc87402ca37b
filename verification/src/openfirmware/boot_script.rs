//! CHRP boot script parser
//!
//! CHRP (Common Hardware Reference Platform) boot scripts are Forth-based
//! scripts embedded in NewWorld Mac ROMs. They configure the boot
//! environment and load the operating system. The parser picks out the
//! boot device, boot file, load base and boot script fields, one per line.
use vstd::prelude::*;
use vstd::string::StringExecFns;
use vstd::string::StrSliceExecFns;
use crate::error::Error;
use crate::text::str_eq;
use crate::openfirmware::forth::{is_ws_char, strings_view};
use crate::openfirmware::forth_model::{is_ws, skip_space, token_end, lemma_skip_space, lemma_token_end};

verus! {

/// What a boot script says, as plain values.
pub struct BootInfoView {
    pub boot_device: Option<Seq<char>>,
    pub boot_file: Option<Seq<char>>,
    pub load_base: Option<u32>,
    pub boot_script: Option<Seq<char>>,
}

/// The end of the line starting at `p`: the next newline, or the end.
pub open spec fn char_line_end(s: Seq<char>, p: int) -> int
    decreases s.len() - p,
{
    if p < 0 || p >= s.len() || s[p] == '\n' {
        p
    } else {
        char_line_end(s, p + 1)
    }
}

/// A line ends at or after its start, within the text.
pub proof fn lemma_char_line_end(s: Seq<char>, p: int)
    ensures
        0 <= p <= s.len() ==> p <= char_line_end(s, p) <= s.len(),
        0 <= p ==> forall|k: int| p <= k < char_line_end(s, p) ==> s[k] != '\n',
        0 <= p && char_line_end(s, p) < s.len() ==> s[char_line_end(s, p)] == '\n',
    decreases s.len() - p,
{
    if 0 <= p < s.len() && s[p] != '\n' {
        lemma_char_line_end(s, p + 1);
    }
}

/// The end of the text of the line starting at `p`, without its "\r\n" or
/// "\n" terminator.
pub open spec fn char_line_content_end(s: Seq<char>, p: int) -> int {
    let e = char_line_end(s, p);
    if e < s.len() && e > p && s[e - 1] == '\r' {
        e - 1
    } else {
        e
    }
}

/// The end of `t[lo..hi)` with trailing white space removed.
pub open spec fn trim_back(t: Seq<char>, lo: int, hi: int) -> int
    decreases hi - lo,
{
    if hi > lo && hi <= t.len() && is_ws(t[hi - 1]) {
        trim_back(t, lo, hi - 1)
    } else {
        hi
    }
}

/// `t` without leading and trailing white space, as `str::trim` gives it.
pub open spec fn trim_chars(t: Seq<char>) -> Seq<char> {
    let a = skip_space(t, 0);
    t.subrange(a, trim_back(t, a, t.len() as int))
}

/// Whether `t` starts with `p`.
pub open spec fn has_prefix(t: Seq<char>, p: Seq<char>) -> bool {
    t.len() >= p.len() && t.subrange(0, p.len() as int) == p
}

/// The first white-space position at or after `i`, if any.
pub open spec fn first_ws(t: Seq<char>, i: int) -> Option<int>
    decreases t.len() - i,
{
    if i < 0 || i >= t.len() {
        None
    } else if is_ws(t[i]) {
        Some(i)
    } else {
        first_ws(t, i + 1)
    }
}

/// The white-space separated words of `t` from `p` on, as
/// `str::split_whitespace` gives them.
pub open spec fn words_from(t: Seq<char>, p: int) -> Seq<Seq<char>>
    decreases t.len() - p,
{
    let st = skip_space(t, p);
    if p < 0 || st >= t.len() {
        Seq::empty()
    } else {
        let e = token_end(t, st);
        proof {
            lemma_skip_space(t, p);
            lemma_token_end(t, st);
        }
        if e > p {
            seq![t.subrange(st, e)] + words_from(t, e)
        } else {
            Seq::empty()
        }
    }
}

/// Words joined with single spaces.
pub open spec fn join_words(w: Seq<Seq<char>>) -> Seq<char>
    decreases w.len(),
{
    if w.len() == 0 {
        Seq::empty()
    } else if w.len() == 1 {
        w[0]
    } else {
        join_words(w.drop_last()) + seq![' '] + w.last()
    }
}

/// The value of a field line "name  value...": its words after the first,
/// joined with single spaces; none when it has a single word.
pub open spec fn field_value(line: Seq<char>) -> Option<Seq<char>> {
    let w = words_from(line, 0);
    if w.len() >= 2 {
        Some(join_words(w.subrange(1, w.len() as int)))
    } else {
        None
    }
}

/// The value of a hexadecimal digit character.
pub open spec fn hex_char_value(c: char) -> int {
    if '0' <= c <= '9' {
        c as int - 48
    } else if 'a' <= c <= 'f' {
        c as int - 87
    } else if 'A' <= c <= 'F' {
        c as int - 55
    } else {
        16
    }
}

/// The value of the hexadecimal digits `t[0..n)`.
pub open spec fn hex_chars_value(t: Seq<char>, n: int) -> int
    decreases n,
{
    if n <= 0 {
        0
    } else {
        hex_chars_value(t, n - 1) * 16 + hex_char_value(t[n - 1])
    }
}

/// The digits of a numeral: without its leading '+', if any.
pub open spec fn unsigned_chars(t: Seq<char>) -> Seq<char> {
    if t.len() > 0 && t[0] == '+' {
        t.subrange(1, t.len() as int)
    } else {
        t
    }
}

/// Whether every character is a hexadecimal digit.
pub open spec fn all_hex_chars(d: Seq<char>) -> bool {
    forall|i: int| 0 <= i < d.len() ==> #[trigger] hex_char_value(d[i]) < 16
}

/// `u32::from_str_radix(t, 16)`: an optional '+', then hexadecimal digits
/// of a value that fits in 32 bits.
pub open spec fn parse_hex_u32_chars(t: Seq<char>) -> Option<u32> {
    let d = unsigned_chars(t);
    if d.len() == 0 || !all_hex_chars(d) {
        None
    } else if hex_chars_value(d, d.len() as int) > u32::MAX {
        None
    } else {
        Some(hex_chars_value(d, d.len() as int) as u32)
    }
}

/// What one line of a boot script sets: the field it names, when its value
/// can be read; later lines override earlier ones.
pub open spec fn apply_line(info: BootInfoView, line: Seq<char>) -> BootInfoView {
    let l = trim_chars(line);
    if has_prefix(l, "boot-script"@) {
        match first_ws(l, 0) {
            Some(i) => BootInfoView { boot_script: Some(trim_chars(l.subrange(i, l.len() as int))), ..info },
            None => info,
        }
    } else if has_prefix(l, "boot-device"@) {
        match field_value(l) {
            Some(v) => BootInfoView { boot_device: Some(v), ..info },
            None => info,
        }
    } else if has_prefix(l, "boot-file"@) {
        match field_value(l) {
            Some(v) => BootInfoView { boot_file: Some(v), ..info },
            None => info,
        }
    } else if has_prefix(l, "load-base"@) {
        match field_value(l) {
            Some(v) => if has_prefix(v, "0x"@) {
                match parse_hex_u32_chars(v.subrange(2, v.len() as int)) {
                    Some(a) => BootInfoView { load_base: Some(a), ..info },
                    None => info,
                }
            } else {
                info
            },
            None => info,
        }
    } else {
        info
    }
}

/// The fields of the lines of `s` from position `p` on, applied to `info`.
pub open spec fn parse_lines(s: Seq<char>, p: int, info: BootInfoView) -> BootInfoView
    decreases s.len() + 1 - p,
{
    if p < 0 || p >= s.len() {
        info
    } else {
        proof {
            lemma_char_line_end(s, p);
        }
        parse_lines(s, char_line_end(s, p) + 1, apply_line(info, s.subrange(p, char_line_content_end(s, p))))
    }
}

/// No field set.
pub open spec fn empty_info() -> BootInfoView {
    BootInfoView { boot_device: None, boot_file: None, load_base: None, boot_script: None }
}

/// A string option as characters.
pub open spec fn opt_view(o: Option<String>) -> Option<Seq<char>> {
    match o {
        Some(s) => Some(s@),
        None => None,
    }
}

/// Parsed boot script information
#[derive(Debug)]
pub struct BootInfo {
    /// Boot device path
    pub boot_device: Option<String>,
    /// Boot file path
    pub boot_file: Option<String>,
    /// Load base address
    pub load_base: Option<u32>,
    /// Forth boot script code
    pub boot_script: Option<String>,
}

impl BootInfo {
    /// The fields as plain values.
    pub open spec fn info(&self) -> BootInfoView {
        BootInfoView {
            boot_device: opt_view(self.boot_device),
            boot_file: opt_view(self.boot_file),
            load_base: self.load_base,
            boot_script: opt_view(self.boot_script),
        }
    }

    /// Check if we have enough information to attempt a boot
    pub fn is_bootable(&self) -> (r: bool)
        ensures
            r == (self.boot_device is Some || self.boot_file is Some),
    {
        self.boot_device.is_some() || self.boot_file.is_some()
    }
}

impl Default for BootInfo {
    fn default() -> (r: Self)
        ensures
            r.info() == empty_info(),
    {
        BootInfo { boot_device: None, boot_file: None, load_base: None, boot_script: None }
    }
}

/// `t` with white space trimmed from both ends.
fn trim_str(t: &str) -> (r: String)
    ensures
        r@ == trim_chars(t@),
{
    let len = t.unicode_len();
    let mut a: usize = 0;
    while a < len && is_ws_char(t.get_char(a))
        invariant
            a <= len,
            len == t@.len(),
            skip_space(t@, a as int) == skip_space(t@, 0),
        decreases len - a,
    {
        a = a + 1;
    }
    let mut b: usize = len;
    while b > a && is_ws_char(t.get_char(b - 1))
        invariant
            a <= b <= len,
            len == t@.len(),
            trim_back(t@, a as int, b as int) == trim_back(t@, a as int, len as int),
        decreases b - a,
    {
        b = b - 1;
    }
    t.substring_char(a, b).to_owned()
}

/// Whether `t` starts with `p`.
fn has_prefix_str(t: &str, p: &str) -> (r: bool)
    ensures
        r == has_prefix(t@, p@),
{
    let n = p.unicode_len();
    if t.unicode_len() < n {
        return false;
    }
    str_eq(t.substring_char(0, n), p)
}

/// The first white-space position in `t`, if any.
fn first_ws_index(t: &str) -> (r: Option<usize>)
    ensures
        r matches Some(i) ==> first_ws(t@, 0) == Some(i as int),
        r is None ==> first_ws(t@, 0) is None,
{
    let len = t.unicode_len();
    let mut i: usize = 0;
    while i < len
        invariant
            i <= len,
            len == t@.len(),
            first_ws(t@, i as int) == first_ws(t@, 0),
        decreases len - i,
    {
        if is_ws_char(t.get_char(i)) {
            return Some(i);
        }
        i = i + 1;
    }
    None
}

/// The white-space separated words of `t`.
fn words_of(t: &str) -> (r: Vec<String>)
    ensures
        strings_view(r@) == words_from(t@, 0),
{
    let len = t.unicode_len();
    let mut out: Vec<String> = Vec::new();
    let mut p: usize = 0;
    while p < len
        invariant
            p <= len,
            len == t@.len(),
            strings_view(out@) + words_from(t@, p as int) == words_from(t@, 0),
        decreases len - p,
    {
        let mut st = p;
        while st < len && is_ws_char(t.get_char(st))
            invariant
                p <= st <= len,
                len == t@.len(),
                skip_space(t@, st as int) == skip_space(t@, p as int),
            decreases len - st,
        {
            st = st + 1;
        }
        if st >= len {
            proof {
                assert(words_from(t@, p as int) =~= Seq::<Seq<char>>::empty());
                assert(strings_view(out@) + words_from(t@, p as int) =~= strings_view(out@));
            }
            return out;
        }
        let mut e = st;
        while e < len && !is_ws_char(t.get_char(e))
            invariant
                st <= e <= len,
                len == t@.len(),
                token_end(t@, e as int) == token_end(t@, st as int),
            decreases len - e,
        {
            e = e + 1;
        }
        proof {
            lemma_skip_space(t@, p as int);
            lemma_token_end(t@, st as int);
        }
        let w = t.substring_char(st, e).to_owned();
        let ghost before = strings_view(out@);
        out.push(w);
        proof {
            assert(strings_view(out@) =~= before.push(t@.subrange(st as int, e as int)));
            assert(words_from(t@, p as int) == seq![t@.subrange(st as int, e as int)] + words_from(t@, e as int));
            assert(strings_view(out@) + words_from(t@, e as int) =~= before + words_from(t@, p as int));
        }
        p = e;
    }
    proof {
        assert(words_from(t@, p as int) =~= Seq::<Seq<char>>::empty());
        assert(strings_view(out@) + words_from(t@, p as int) =~= strings_view(out@));
    }
    out
}

/// The value of a field line: its words after the first, joined with
/// single spaces.
fn extract_field_value(line: &str) -> (r: Option<String>)
    ensures
        opt_view(r) == field_value(line@),
{
    let parts = words_of(line);
    if parts.len() < 2 {
        return None;
    }
    let ghost w = strings_view(parts@);
    let mut out = parts[1].clone();
    let mut i: usize = 2;
    proof {
        assert(w.subrange(1, 2) =~= seq![w[1]]);
    }
    while i < parts.len()
        invariant
            2 <= i <= parts@.len(),
            w == strings_view(parts@),
            out@ == join_words(w.subrange(1, i as int)),
        decreases parts@.len() - i,
    {
        out.append(" ");
        out.append(parts[i].as_str());
        proof {
            reveal_strlit(" ");
            let ws = w.subrange(1, i + 1);
            assert(ws.drop_last() =~= w.subrange(1, i as int));
            assert(ws.last() == parts@[i as int]@);
            assert(" "@ =~= seq![' ']);
        }
        i = i + 1;
    }
    Some(out)
}

/// `u32::from_str_radix(t, 16)`.
pub(crate) fn parse_hex_u32_str(t: &str) -> (r: Option<u32>)
    ensures
        r == parse_hex_u32_chars(t@),
{
    let len = t.unicode_len();
    let start: usize = if len > 0 && t.get_char(0) == '+' {
        1
    } else {
        0
    };
    let ghost d = unsigned_chars(t@);
    assert(d =~= t@.subrange(start as int, t@.len() as int));
    if start == len {
        return None;
    }
    let mut v: u64 = 0;
    let mut i: usize = start;
    while i < len
        invariant
            start <= i <= len,
            start < len,
            len == t@.len(),
            start == (if t@.len() > 0 && t@[0] == '+' { 1int } else { 0int }),
            d == unsigned_chars(t@),
            d == t@.subrange(start as int, t@.len() as int),
            forall|k: int| 0 <= k < i - start ==> #[trigger] hex_char_value(d[k]) < 16,
            v == hex_chars_value(d, i - start),
            v <= u32::MAX,
        decreases len - i,
    {
        let c = t.get_char(i);
        proof {
            assert(d[i - start] == c);
        }
        let digit: u64 = if '0' <= c && c <= '9' {
            (c as u64) - 48
        } else if 'a' <= c && c <= 'f' {
            (c as u64) - 87
        } else if 'A' <= c && c <= 'F' {
            (c as u64) - 55
        } else {
            proof {
                assert(hex_char_value(d[i - start]) >= 16);
                assert(!all_hex_chars(d));
            }
            return None;
        };
        let nv = v * 16 + digit;
        if nv > 0xFFFF_FFFF {
            proof {
                if all_hex_chars(d) {
                    lemma_hex_chars_mono(d, i + 1 - start, d.len() as int);
                }
            }
            return None;
        }
        v = nv;
        i = i + 1;
    }
    Some(v as u32)
}

/// A longer run of hexadecimal digits has at least the value of a shorter.
proof fn lemma_hex_chars_mono(t: Seq<char>, m: int, n: int)
    requires
        0 <= m <= n <= t.len(),
        forall|k: int| 0 <= k < n ==> #[trigger] hex_char_value(t[k]) < 16,
    ensures
        0 <= hex_chars_value(t, m) <= hex_chars_value(t, n),
    decreases n,
{
    if n > m {
        lemma_hex_chars_mono(t, m, n - 1);
        assert(hex_char_value(t[n - 1]) >= 0);
    } else if m > 0 {
        lemma_hex_chars_mono(t, m - 1, m - 1);
        assert(hex_char_value(t[m - 1]) >= 0);
    }
}

/// CHRP boot script parser
pub struct BootScriptParser {
    script: String,
}

impl BootScriptParser {
    /// The script being parsed.
    pub closed spec fn text(&self) -> Seq<char> {
        self.script@
    }

    /// Create a new boot script parser
    pub fn new(script: String) -> (r: Self)
        ensures
            r.text() == script@,
    {
        Self { script }
    }

    /// Parse the boot script and extract key information: the boot-device,
    /// boot-file, load-base and boot-script fields, one per line.
    pub fn parse(&self) -> (r: Result<BootInfo, Error>)
        ensures
            r matches Ok(info) && info.info() == parse_lines(self.text(), 0, empty_info()),
    {
        let mut info = BootInfo::default();
        let s = self.script.as_str();
        let len = s.unicode_len();
        let mut p: usize = 0;
        while p < len
            invariant
                p <= len,
                len == s@.len(),
                s@ == self.script@,
                parse_lines(s@, p as int, info.info()) == parse_lines(s@, 0, empty_info()),
            decreases len - p,
        {
            let mut e: usize = p;
            while e < len && s.get_char(e) != '\n'
                invariant
                    p <= e <= len,
                    len == s@.len(),
                    char_line_end(s@, e as int) == char_line_end(s@, p as int),
                decreases len - e,
            {
                e = e + 1;
            }
            let content_end: usize = if e < len && e > p && s.get_char(e - 1) == '\r' {
                e - 1
            } else {
                e
            };
            proof {
                assert(char_line_end(s@, e as int) == e);
                assert(content_end == char_line_content_end(s@, p as int));
            }
            let ghost before = info.info();
            apply_line_exec(&mut info, s.substring_char(p, content_end));
            if e == len {
                proof {
                    assert(parse_lines(s@, e + 1, info.info()) == info.info());
                }
                return Ok(info);
            }
            p = e + 1;
        }
        Ok(info)
    }
}

/// A white-space position found from the start lies within the text.
proof fn lemma_first_ws(t: Seq<char>, i: int)
    ensures
        first_ws(t, i) matches Some(k) ==> 0 <= k < t.len(),
    decreases t.len() - i,
{
    if 0 <= i < t.len() && !is_ws(t[i]) {
        lemma_first_ws(t, i + 1);
    }
}

/// Apply one line of a boot script to the fields read so far.
fn apply_line_exec(info: &mut BootInfo, raw: &str)
    ensures
        final(info).info() == apply_line(old(info).info(), raw@),
{
    let l = trim_str(raw);
    let ls = l.as_str();
    if has_prefix_str(ls, "boot-script") {
        match first_ws_index(ls) {
            Some(i) => {
                proof {
                    lemma_first_ws(ls@, 0);
                }
                let n = ls.unicode_len();
                info.boot_script = Some(trim_str(ls.substring_char(i, n)));
            },
            None => {},
        }
    } else if has_prefix_str(ls, "boot-device") {
        match extract_field_value(ls) {
            Some(v) => {
                info.boot_device = Some(v);
            },
            None => {},
        }
    } else if has_prefix_str(ls, "boot-file") {
        match extract_field_value(ls) {
            Some(v) => {
                info.boot_file = Some(v);
            },
            None => {},
        }
    } else if has_prefix_str(ls, "load-base") {
        match extract_field_value(ls) {
            Some(v) => {
                let vs = v.as_str();
                proof {
                    reveal_strlit("0x");
                }
                if has_prefix_str(vs, "0x") {
                    let n = vs.unicode_len();
                    match parse_hex_u32_str(vs.substring_char(2, n)) {
                        Some(a) => {
                            info.load_base = Some(a);
                        },
                        None => {},
                    }
                }
            },
            None => {},
        }
    }
}

} // verus!
