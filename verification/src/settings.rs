//! The persisted configuration record: two durations in seconds, stored as
//! a small structured text document, with a parser and serializer and a
//! loader that falls back to defaults on any failure.

use vstd::prelude::*;
use vstd::string::StrSliceExecFns;
use vstd::string::StringExecFns;

use crate::utils::push_decimal;
use crate::utils::spec_decimal;
use crate::utils::spec_digit_char;

verus! {

/// Default focus duration (seconds) used when no stored record can be read.
pub const DEFAULT_FOCUS_TIME: u64 = 5;

/// Default break duration (seconds) used when no stored record can be read.
pub const DEFAULT_BREAK_TIME: u64 = 5;

/// The two persisted durations, in seconds.
#[derive(PartialEq, Eq, Structural, Clone, Copy, Debug)]
pub struct Settings {
    pub focus_time: u64,
    pub break_time: u64,
}

impl Settings {
    /// Pack two durations into a record.
    pub fn new(focus_time: u64, break_time: u64) -> (s: Settings)
        ensures
            s == (Settings { focus_time, break_time }),
    {
        Settings { focus_time, break_time }
    }
}

/// Whitespace accepted between the tokens of a stored record.
pub open spec fn spec_is_ws(c: char) -> bool {
    c == ' ' || c == '\t' || c == '\n' || c == '\r'
}

/// The value of a decimal digit, or 10 for any other character.
pub open spec fn spec_digit_val(c: char) -> nat {
    if c == '0' {
        0
    } else if c == '1' {
        1
    } else if c == '2' {
        2
    } else if c == '3' {
        3
    } else if c == '4' {
        4
    } else if c == '5' {
        5
    } else if c == '6' {
        6
    } else if c == '7' {
        7
    } else if c == '8' {
        8
    } else if c == '9' {
        9
    } else {
        10
    }
}

/// Whether a character is a decimal digit.
pub open spec fn spec_is_digit(c: char) -> bool {
    spec_digit_val(c) < 10
}

/// The first position at or after `i` holding no whitespace.
pub open spec fn spec_skip_ws(s: Seq<char>, i: int) -> int
    decreases s.len() - i when 0 <= i <= s.len()
{
    if i < s.len() && spec_is_ws(s[i]) {
        spec_skip_ws(s, i + 1)
    } else {
        i
    }
}

/// The first position at or after `i` holding no digit.
pub open spec fn spec_digits_end(s: Seq<char>, i: int) -> int
    decreases s.len() - i when 0 <= i <= s.len()
{
    if i < s.len() && spec_is_digit(s[i]) {
        spec_digits_end(s, i + 1)
    } else {
        i
    }
}

/// The value of the digits `s[i .. j)`, read left to right.
pub open spec fn spec_num_val(s: Seq<char>, i: int, j: int) -> nat
    decreases j - i when i <= j
{
    if j <= i {
        0
    } else {
        spec_num_val(s, i, j - 1) * 10 + spec_digit_val(s[j - 1])
    }
}

/// Powers of ten.
pub open spec fn spec_pow10(n: nat) -> nat
    decreases n,
{
    if n == 0 {
        1
    } else {
        10 * spec_pow10((n - 1) as nat)
    }
}

/// The key token of the focus field, quotes included.
pub open spec fn spec_key_focus() -> Seq<char> {
    "\"focus_time\""@
}

/// The key token of the break field, quotes included.
pub open spec fn spec_key_break() -> Seq<char> {
    "\"break_time\""@
}

/// Whether the characters of `k` stand at position `i` of `s`.
pub open spec fn spec_match_at(s: Seq<char>, i: int, k: Seq<char>) -> bool {
    0 <= i && i + k.len() <= s.len() && s.subrange(i, i + k.len()) == k
}

/// A number token at position `i`: one or more digits, no leading zero,
/// with a value that fits a 64-bit integer. Yields the value and the
/// position after the digits.
pub open spec fn spec_parse_number(s: Seq<char>, i: int) -> Option<(nat, int)> {
    let e = spec_digits_end(s, i);
    if e == i {
        Option::None
    } else if s[i] == '0' && e > i + 1 {
        Option::None
    } else if spec_num_val(s, i, e) > u64::MAX {
        Option::None
    } else {
        Option::Some((spec_num_val(s, i, e), e))
    }
}

/// After a key at position `i`: optional whitespace, a colon, optional
/// whitespace, a number token. Yields the value and the position after
/// the whitespace that follows the number.
pub open spec fn spec_parse_field(s: Seq<char>, i: int) -> Option<(nat, int)> {
    let j = spec_skip_ws(s, i);
    if j < s.len() && s[j] == ':' {
        let k = spec_skip_ws(s, j + 1);
        match spec_parse_number(s, k) {
            Option::Some(ve) => Option::Some((ve.0, spec_skip_ws(s, ve.1))),
            Option::None => Option::None,
        }
    } else {
        Option::None
    }
}

/// After the first field and its trailing whitespace: a comma, the other
/// key, its field, the closing brace, and nothing but whitespace to the
/// end.
pub open spec fn spec_parse_rest(
    s: Seq<char>,
    i: int,
    first_val: nat,
    first_is_focus: bool,
) -> Option<Settings> {
    if i < s.len() && s[i] == ',' {
        let j = spec_skip_ws(s, i + 1);
        let other = if first_is_focus {
            spec_key_break()
        } else {
            spec_key_focus()
        };
        if spec_match_at(s, j, other) {
            match spec_parse_field(s, j + other.len()) {
                Option::Some(ve) => if ve.1 < s.len() && s[ve.1] == '}' && spec_skip_ws(
                    s,
                    ve.1 + 1,
                ) == s.len() {
                    Option::Some(
                        Settings {
                            focus_time: (if first_is_focus {
                                first_val
                            } else {
                                ve.0
                            }) as u64,
                            break_time: (if first_is_focus {
                                ve.0
                            } else {
                                first_val
                            }) as u64,
                        },
                    )
                } else {
                    Option::None
                },
                Option::None => Option::None,
            }
        } else {
            Option::None
        }
    } else {
        Option::None
    }
}

/// The grammar of a stored record: a brace-enclosed object holding the
/// `focus_time` and `break_time` fields, each exactly once, in either
/// order, with non-negative decimal values, and nothing else.
pub open spec fn spec_parse(s: Seq<char>) -> Option<Settings> {
    let i0 = spec_skip_ws(s, 0);
    if i0 < s.len() && s[i0] == '{' {
        let i1 = spec_skip_ws(s, i0 + 1);
        if spec_match_at(s, i1, spec_key_focus()) {
            match spec_parse_field(s, i1 + spec_key_focus().len()) {
                Option::Some(ve) => spec_parse_rest(s, ve.1, ve.0, true),
                Option::None => Option::None,
            }
        } else if spec_match_at(s, i1, spec_key_break()) {
            match spec_parse_field(s, i1 + spec_key_break().len()) {
                Option::Some(ve) => spec_parse_rest(s, ve.1, ve.0, false),
                Option::None => Option::None,
            }
        } else {
            Option::None
        }
    } else {
        Option::None
    }
}

/// Powers of ten grow with the exponent.
proof fn lemma_pow10_mono(m: nat, n: nat)
    requires
        m <= n,
    ensures
        spec_pow10(m) <= spec_pow10(n),
    decreases n,
{
    if m < n {
        lemma_pow10_mono(m, (n - 1) as nat);
    }
}

/// The concrete powers of ten around the 64-bit range.
proof fn lemma_pow10_vals()
    ensures
        spec_pow10(19) == 0x8ac7_2304_89e8_0000,
        spec_pow10(20) == 100000000000000000000,
{
    reveal_with_fuel(spec_pow10, 21);
}

/// A digit run with a non-zero first digit is worth at least the power of
/// ten of its length.
proof fn lemma_num_val_lower(s: Seq<char>, i: int, j: int)
    requires
        i < j <= s.len(),
        forall|t: int| i <= t < j ==> spec_is_digit(s[t]),
        spec_digit_val(s[i]) >= 1,
    ensures
        spec_num_val(s, i, j) >= spec_pow10((j - i - 1) as nat),
    decreases j - i,
{
    if j == i + 1 {
    } else {
        lemma_num_val_lower(s, i, j - 1);
    }
}

/// The value of one decimal digit character.
fn digit_val(c: char) -> (v: u64)
    ensures
        v == spec_digit_val(c),
{
    match c {
        '0' => 0,
        '1' => 1,
        '2' => 2,
        '3' => 3,
        '4' => 4,
        '5' => 5,
        '6' => 6,
        '7' => 7,
        '8' => 8,
        '9' => 9,
        _ => 10,
    }
}

/// Whether a character counts as whitespace between tokens.
fn is_ws_char(c: char) -> (b: bool)
    ensures
        b == spec_is_ws(c),
{
    c == ' ' || c == '\t' || c == '\n' || c == '\r'
}

/// Advance past whitespace, mirroring [`spec_skip_ws`].
fn skip_ws(s: &str, len: usize, start: usize) -> (j: usize)
    requires
        s@.len() == len,
        start <= len,
    ensures
        j == spec_skip_ws(s@, start as int),
        start <= j <= len,
{
    let mut i = start;
    while i < len && is_ws_char(s.get_char(i))
        invariant
            s@.len() == len,
            start <= i <= len,
            spec_skip_ws(s@, start as int) == spec_skip_ws(s@, i as int),
        decreases len - i,
    {
        i = i + 1;
    }
    i
}

/// Whether the characters of `key` stand at position `i`, mirroring
/// [`spec_match_at`].
fn match_at(s: &str, len: usize, i: usize, key: &str, keylen: usize) -> (b: bool)
    requires
        s@.len() == len,
        key@.len() == keylen,
        i <= len,
    ensures
        b == spec_match_at(s@, i as int, key@),
{
    if keylen > len - i {
        return false;
    }
    let mut j: usize = 0;
    while j < keylen
        invariant
            s@.len() == len,
            key@.len() == keylen,
            i <= len,
            keylen <= len - i,
            0 <= j <= keylen,
            forall|t: int| 0 <= t < j ==> s@[i + t] == key@[t],
        decreases keylen - j,
    {
        if s.get_char(i + j) != key.get_char(j) {
            proof {
                assert(s@.subrange(i as int, i + keylen as int)[j as int] != key@[j as int]);
            }
            return false;
        }
        j = j + 1;
    }
    proof {
        assert(s@.subrange(i as int, i + keylen as int) =~= key@);
    }
    true
}

/// Read a number token, mirroring [`spec_parse_number`].
fn parse_number(s: &str, len: usize, i: usize) -> (r: Option<(u64, usize)>)
    requires
        s@.len() == len,
        i <= len,
    ensures
        r is Some <==> spec_parse_number(s@, i as int) is Some,
        r is Some ==> {
            &&& (r->0).0 as nat == (spec_parse_number(s@, i as int)->0).0
            &&& (r->0).1 as int == (spec_parse_number(s@, i as int)->0).1
            &&& i < (r->0).1 <= len
        },
{
    let mut e = i;
    while e < len && digit_val(s.get_char(e)) < 10
        invariant
            s@.len() == len,
            i <= e <= len,
            spec_digits_end(s@, i as int) == spec_digits_end(s@, e as int),
            forall|t: int| i <= t < e ==> spec_is_digit(s@[t]),
        decreases len - e,
    {
        e = e + 1;
    }
    assert(spec_digits_end(s@, i as int) == e);
    if e == i {
        return Option::None;
    }
    if s.get_char(i) == '0' && e > i + 1 {
        return Option::None;
    }
    if e - i > 20 {
        proof {
            lemma_num_val_lower(s@, i as int, e as int);
            lemma_pow10_mono(20, (e - i - 1) as nat);
            lemma_pow10_vals();
        }
        return Option::None;
    }
    let mut acc: u128 = 0;
    let mut k = i;
    while k < e
        invariant
            s@.len() == len,
            i <= k <= e <= len,
            e - i <= 20,
            forall|t: int| i <= t < e ==> spec_is_digit(s@[t]),
            acc as nat == spec_num_val(s@, i as int, k as int),
            (acc as nat) < spec_pow10((k - i) as nat),
        decreases e - k,
    {
        let d = digit_val(s.get_char(k));
        proof {
            lemma_pow10_mono((k - i) as nat, 19);
            lemma_pow10_vals();
        }
        acc = acc * 10 + (d as u128);
        k = k + 1;
    }
    if acc > u64::MAX as u128 {
        return Option::None;
    }
    Option::Some((acc as u64, e))
}

/// Read a colon and a number with surrounding whitespace, mirroring
/// [`spec_parse_field`].
fn parse_field(s: &str, len: usize, i: usize) -> (r: Option<(u64, usize)>)
    requires
        s@.len() == len,
        i <= len,
    ensures
        r is Some <==> spec_parse_field(s@, i as int) is Some,
        r is Some ==> {
            &&& (r->0).0 as nat == (spec_parse_field(s@, i as int)->0).0
            &&& (r->0).1 as int == (spec_parse_field(s@, i as int)->0).1
            &&& i <= (r->0).1 <= len
        },
{
    let j = skip_ws(s, len, i);
    if j < len && s.get_char(j) == ':' {
        match parse_number(s, len, skip_ws(s, len, j + 1)) {
            Option::Some((v, e)) => {
                let n = skip_ws(s, len, e);
                Option::Some((v, n))
            },
            Option::None => Option::None,
        }
    } else {
        Option::None
    }
}

/// Read everything after the first field, mirroring [`spec_parse_rest`].
fn parse_rest(s: &str, len: usize, i: usize, first_val: u64, first_is_focus: bool) -> (r:
    Option<Settings>)
    requires
        s@.len() == len,
        i <= len,
    ensures
        r == spec_parse_rest(s@, i as int, first_val as nat, first_is_focus),
{
    if i < len && s.get_char(i) == ',' {
        let j = skip_ws(s, len, i + 1);
        let other: &str = if first_is_focus {
            "\"break_time\""
        } else {
            "\"focus_time\""
        };
        let otherlen = other.unicode_len();
        if match_at(s, len, j, other, otherlen) {
            match parse_field(s, len, j + otherlen) {
                Option::Some((v, n)) => {
                    if n < len && s.get_char(n) == '}' {
                        let fin = skip_ws(s, len, n + 1);
                        if fin == len {
                            Option::Some(
                                Settings {
                                    focus_time: if first_is_focus {
                                        first_val
                                    } else {
                                        v
                                    },
                                    break_time: if first_is_focus {
                                        v
                                    } else {
                                        first_val
                                    },
                                },
                            )
                        } else {
                            Option::None
                        }
                    } else {
                        Option::None
                    }
                },
                Option::None => Option::None,
            }
        } else {
            Option::None
        }
    } else {
        Option::None
    }
}

/// Parse a stored record, accepting exactly the grammar of
/// [`spec_parse`]: anything else yields `None` and the caller falls back
/// to defaults.
pub fn parse_settings(s: &str) -> (r: Option<Settings>)
    ensures
        r == spec_parse(s@),
{
    let len = s.unicode_len();
    let i0 = skip_ws(s, len, 0);
    if i0 < len && s.get_char(i0) == '{' {
        let i1 = skip_ws(s, len, i0 + 1);
        let fkey: &str = "\"focus_time\"";
        let bkey: &str = "\"break_time\"";
        if match_at(s, len, i1, fkey, fkey.unicode_len()) {
            match parse_field(s, len, i1 + fkey.unicode_len()) {
                Option::Some((v, n)) => parse_rest(s, len, n, v, true),
                Option::None => Option::None,
            }
        } else if match_at(s, len, i1, bkey, bkey.unicode_len()) {
            match parse_field(s, len, i1 + bkey.unicode_len()) {
                Option::Some((v, n)) => parse_rest(s, len, n, v, false),
                Option::None => Option::None,
            }
        } else {
            Option::None
        }
    } else {
        Option::None
    }
}

/// The decimal rendering of a number consists of digits, is never empty,
/// and starts with `0` only for the number zero itself.
proof fn lemma_decimal_digits(n: nat)
    ensures
        spec_decimal(n).len() >= 1,
        forall|t: int| 0 <= t < spec_decimal(n).len() ==> spec_is_digit(#[trigger] spec_decimal(n)[t]),
        n >= 1 ==> spec_digit_val(spec_decimal(n)[0]) >= 1,
        n < 10 ==> spec_decimal(n).len() == 1,
    decreases n,
{
    if n >= 10 {
        lemma_decimal_digits(n / 10);
    }
}

/// Reading the decimal rendering of `n` back as a digit run yields `n`.
proof fn lemma_num_val_of_decimal(s: Seq<char>, i: int, n: nat)
    requires
        0 <= i,
        i + spec_decimal(n).len() <= s.len(),
        s.subrange(i, i + spec_decimal(n).len()) == spec_decimal(n),
    ensures
        spec_num_val(s, i, i + spec_decimal(n).len()) == n,
    decreases n,
{
    let d = spec_decimal(n);
    if n < 10 {
        assert(s[i] == s.subrange(i, i + 1)[0]);
        assert(spec_digit_val(spec_digit_char(n)) == n);
        assert(spec_num_val(s, i, i + 1) == spec_num_val(s, i, i) * 10 + spec_digit_val(s[i]));
    } else {
        let dq = spec_decimal(n / 10);
        let l = d.len();
        assert forall|t: int| 0 <= t < dq.len() implies s[i + t] == dq[t] by {
            assert(s.subrange(i, i + l)[t] == s[i + t]);
            assert(dq[t] == d[t]);
        }
        assert(s.subrange(i, i + dq.len()) =~= dq);
        lemma_num_val_of_decimal(s, i, n / 10);
        assert(s[i + l - 1] == s.subrange(i, i + l)[l - 1]);
        assert(s[i + l - 1] == spec_digit_char(n % 10));
        assert(spec_digit_val(spec_digit_char(n % 10)) == n % 10);
        assert(spec_num_val(s, i, i + l) == spec_num_val(s, i, i + l - 1) * 10 + spec_digit_val(
            s[i + l - 1],
        ));
    }
}

/// A digit run ends exactly where the digits stop.
proof fn lemma_digits_end_of(s: Seq<char>, i: int, j: int)
    requires
        0 <= i <= j <= s.len(),
        forall|t: int| i <= t < j ==> spec_is_digit(s[t]),
        j == s.len() || !spec_is_digit(s[j]),
    ensures
        spec_digits_end(s, i) == j,
    decreases j - i,
{
    if i < j {
        lemma_digits_end_of(s, i + 1, j);
    }
}

/// The serialized form of a record: a one-line structured text document
/// with the two fields in a fixed order and decimal values.
pub open spec fn spec_serialize(s: Settings) -> Seq<char> {
    "{\"focus_time\":"@ + spec_decimal(s.focus_time as nat) + ",\"break_time\":"@
        + spec_decimal(s.break_time as nat) + "}"@
}

impl Settings {
    /// Build settings from the stored text, falling back to defaults.
    ///
    /// The caller hands in the document's text, or `None` where the file
    /// could not be read at all. A record in the stored grammar yields its
    /// two durations and an empty diagnostic; anything else yields the
    /// default durations and a non-empty, human-readable diagnostic — the
    /// timer starts either way.
    pub fn load(content: Option<&str>) -> (r: (Settings, String))
        ensures
            content is None ==> r.0 == (Settings {
                focus_time: DEFAULT_FOCUS_TIME,
                break_time: DEFAULT_BREAK_TIME,
            }) && r.1@.len() > 0,
            content matches Some(text) ==> match spec_parse(text@) {
                Option::Some(parsed) => r.0 == parsed && r.1@.len() == 0,
                Option::None => r.0 == (Settings {
                    focus_time: DEFAULT_FOCUS_TIME,
                    break_time: DEFAULT_BREAK_TIME,
                }) && r.1@.len() > 0,
            },
    {
        let defaults = Settings {
            focus_time: DEFAULT_FOCUS_TIME,
            break_time: DEFAULT_BREAK_TIME,
        };
        match content {
            Option::None => {
                let diag = String::from_str(
                    "could not read the settings file; using default settings",
                );
                proof {
                    reveal_strlit("could not read the settings file; using default settings");
                }
                (defaults, diag)
            },
            Option::Some(text) => {
                match parse_settings(text) {
                    Option::Some(parsed) => (parsed, String::new()),
                    Option::None => {
                        let diag = String::from_str(
                            "could not parse the settings file; using default settings",
                        );
                        proof {
                            reveal_strlit(
                                "could not parse the settings file; using default settings",
                            );
                        }
                        (defaults, diag)
                    },
                }
            },
        }
    }

    /// Render a record as the text document that [`Settings::load`] reads
    /// back; the caller persists it.
    pub fn save_settings(new_settings: Settings) -> (out: String)
        ensures
            out@ == spec_serialize(new_settings),
    {
        let mut out = String::from_str("{\"focus_time\":");
        push_decimal(&mut out, new_settings.focus_time);
        out.append(",\"break_time\":");
        push_decimal(&mut out, new_settings.break_time);
        out.append("}");
        proof {
            assert(out@ =~= spec_serialize(new_settings));
        }
        out
    }
}

/// Law: persisting and re-reading a record loses nothing — the text that
/// [`Settings::save_settings`] renders is in the stored-record grammar
/// and parses back to the very same two durations.
pub proof fn lemma_save_load_round_trip(s: Settings)
    ensures
        spec_parse(spec_serialize(s)) == Option::<Settings>::Some(s),
{
    reveal_strlit("{\"focus_time\":");
    reveal_strlit(",\"break_time\":");
    reveal_strlit("}");
    reveal_strlit("\"focus_time\"");
    reveal_strlit("\"break_time\"");
    let a = "{\"focus_time\":"@;
    let b = ",\"break_time\":"@;
    let c = "}"@;
    let f = s.focus_time as nat;
    let bk = s.break_time as nat;
    let df = spec_decimal(f);
    let db = spec_decimal(bk);
    let t = spec_serialize(s);
    lemma_decimal_digits(f);
    lemma_decimal_digits(bk);
    let lf = df.len() as int;
    let lb = db.len() as int;
    assert(t.len() == 29 + lf + lb);
    assert(forall|u: int| 0 <= u < 14 ==> t[u] == a[u]);
    assert(forall|u: int| 0 <= u < lf ==> t[14 + u] == df[u]);
    assert(forall|u: int| 0 <= u < 14 ==> t[14 + lf + u] == b[u]);
    assert(forall|u: int| 0 <= u < lb ==> t[28 + lf + u] == db[u]);
    assert(t[28 + lf + lb] == c[0]);

    // The opening brace and the focus key.
    assert(spec_skip_ws(t, 0) == 0);
    assert(t[0] == '{');
    assert(spec_skip_ws(t, 1) == 1);
    assert forall|u: int| 0 <= u < 12 implies t.subrange(1, 13)[u] == spec_key_focus()[u] by {
        assert(t[1 + u] == a[1 + u]);
    }
    assert(t.subrange(1, 13) =~= spec_key_focus());
    assert(spec_match_at(t, 1, spec_key_focus()));

    // The colon and the focus value.
    assert(spec_skip_ws(t, 13) == 13);
    assert(t[13] == ':');
    assert(spec_skip_ws(t, 14) == 14);
    lemma_digits_end_of(t, 14, 14 + lf);
    assert forall|u: int| 0 <= u < lf implies t.subrange(14, 14 + lf)[u] == df[u] by {
        assert(t[14 + u] == df[u]);
    }
    assert(t.subrange(14, 14 + lf) =~= df);
    lemma_num_val_of_decimal(t, 14, f);
    if f >= 1 {
        assert(spec_digit_val(df[0]) >= 1);
        assert(t[14] != '0');
    } else {
        assert(lf == 1);
    }
    assert(spec_parse_number(t, 14) == Option::<(nat, int)>::Some((f, 14 + lf)));
    let p = 14 + lf;
    assert(spec_skip_ws(t, p) == p);
    assert(spec_parse_field(t, 13) == Option::<(nat, int)>::Some((f, p)));

    // The comma and the break key.
    assert(t[p] == ',');
    assert(spec_skip_ws(t, p + 1) == p + 1);
    assert forall|u: int| 0 <= u < 12 implies t.subrange(p + 1, p + 13)[u] == spec_key_break()[u]
        by {
        assert(t[p + 1 + u] == b[1 + u]);
    }
    assert(t.subrange(p + 1, p + 13) =~= spec_key_break());
    assert(spec_match_at(t, p + 1, spec_key_break()));

    // The colon and the break value.
    assert(spec_skip_ws(t, p + 13) == p + 13);
    assert(t[p + 13] == ':');
    assert(spec_skip_ws(t, p + 14) == p + 14);
    lemma_digits_end_of(t, p + 14, p + 14 + lb);
    assert forall|u: int| 0 <= u < lb implies t.subrange(p + 14, p + 14 + lb)[u] == db[u] by {
        assert(t[p + 14 + u] == db[u]);
    }
    assert(t.subrange(p + 14, p + 14 + lb) =~= db);
    lemma_num_val_of_decimal(t, p + 14, bk);
    if bk >= 1 {
        assert(spec_digit_val(db[0]) >= 1);
        assert(t[p + 14] != '0');
    } else {
        assert(lb == 1);
    }
    assert(spec_parse_number(t, p + 14) == Option::<(nat, int)>::Some((bk, p + 14 + lb)));
    let q = p + 14 + lb;
    assert(spec_skip_ws(t, q) == q);
    assert(spec_parse_field(t, p + 13) == Option::<(nat, int)>::Some((bk, q)));

    // The closing brace ends the document.
    assert(t[q] == '}');
    assert(spec_skip_ws(t, q + 1) == t.len());
    assert(spec_parse_rest(t, p, f, true) == Option::<Settings>::Some(s));
}

impl Default for Settings {
    /// The built-in fallback record.
    fn default() -> (s: Settings)
        ensures
            s == (Settings {
                focus_time: DEFAULT_FOCUS_TIME,
                break_time: DEFAULT_BREAK_TIME,
            }),
    {
        Settings { focus_time: DEFAULT_FOCUS_TIME, break_time: DEFAULT_BREAK_TIME }
    }
}

} // verus!
