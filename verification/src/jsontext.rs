//! The JSON-lines wire grammar: writing a value as compact JSON text, and
//! reading a line of text back into a value.
//!
//! The writer's output is pinned down exactly by [`jv_text`]; the reader's
//! outcome, success and failure alike, is pinned down exactly by the spec
//! grammar [`spec_json`] and the functions it is built from.

use vstd::prelude::*;

use crate::error::Error;
use crate::json::{Json, JsonNum, JsonNumV, JsonV};
use crate::text::{chars_to_string, digit_char, int_text, push_i64_text, str_to_chars};

verus! {

broadcast use {
    vstd::seq::axiom_seq_index_decreases,
    vstd::std_specs::vec::axiom_vec_index_decreases,
    vstd::std_specs::vec::axiom_vec_decreases_to_view,
    vstd::utf8::char_is_scalar,
};

/// The lowercase hexadecimal digit for `d`.
pub open spec fn hex_char(d: int) -> char {
    if d < 10 {
        digit_char(d)
    } else if d == 10 {
        'a'
    } else if d == 11 {
        'b'
    } else if d == 12 {
        'c'
    } else if d == 13 {
        'd'
    } else if d == 14 {
        'e'
    } else {
        'f'
    }
}

/// How one character appears inside a JSON string literal: quote and
/// backslash escaped, control characters as named escapes or `\u00XX`.
pub open spec fn esc_char(c: char) -> Seq<char> {
    if c == '"' {
        seq!['\\', '"']
    } else if c == '\\' {
        seq!['\\', '\\']
    } else if c == '\n' {
        seq!['\\', 'n']
    } else if c == '\r' {
        seq!['\\', 'r']
    } else if c == '\t' {
        seq!['\\', 't']
    } else if c == '\u{8}' {
        seq!['\\', 'b']
    } else if c == '\u{c}' {
        seq!['\\', 'f']
    } else if (c as int) < 0x20 {
        seq!['\\', 'u', '0', '0', hex_char(c as int / 16), hex_char(c as int % 16)]
    } else {
        seq![c]
    }
}

/// A whole string escaped, character by character.
pub open spec fn esc_text(s: Seq<char>) -> Seq<char>
    decreases s.len(),
{
    if s.len() == 0 {
        Seq::empty()
    } else {
        esc_char(s[0]) + esc_text(s.drop_first())
    }
}

/// The compact JSON text of a number.
pub open spec fn num_text(n: JsonNumV) -> Seq<char> {
    match n {
        JsonNumV::Int(i) => int_text(i),
        JsonNumV::Dec(raw) => raw,
    }
}

/// The compact JSON text of a value: no spaces, fields in order.
pub open spec fn jv_text(v: JsonV) -> Seq<char>
    decreases v,
{
    match v {
        JsonV::Null => "null"@,
        JsonV::Bool(b) => if b {
            "true"@
        } else {
            "false"@
        },
        JsonV::Num(n) => num_text(n),
        JsonV::Str(s) => seq!['"'] + esc_text(s) + seq!['"'],
        JsonV::Arr(items) => seq!['['] + jv_text_items(items) + seq![']'],
        JsonV::Obj(fields) => seq!['{'] + jv_text_fields(fields) + seq!['}'],
    }
}

/// Array elements, comma separated.
pub open spec fn jv_text_items(items: Seq<JsonV>) -> Seq<char>
    decreases items, 1int,
{
    if items.len() == 0 {
        Seq::empty()
    } else if items.len() == 1 {
        jv_text(items[0])
    } else {
        jv_text(items[0]) + seq![','] + jv_text_items(items.drop_first())
    }
}

/// Object fields, `"key":value`, comma separated.
pub open spec fn jv_text_fields(fields: Seq<(Seq<char>, JsonV)>) -> Seq<char>
    decreases fields, 1int,
{
    if fields.len() == 0 {
        Seq::empty()
    } else {
        let head = seq!['"'] + esc_text(fields[0].0) + seq!['"'] + seq![':'] + jv_text(
            fields[0].1,
        );
        if fields.len() == 1 {
            head
        } else {
            head + seq![','] + jv_text_fields(fields.drop_first())
        }
    }
}

fn hex_digit(d: u32) -> (c: char)
    requires
        d < 16,
    ensures
        c == hex_char(d as int),
{
    match d {
        0 => '0',
        1 => '1',
        2 => '2',
        3 => '3',
        4 => '4',
        5 => '5',
        6 => '6',
        7 => '7',
        8 => '8',
        9 => '9',
        10 => 'a',
        11 => 'b',
        12 => 'c',
        13 => 'd',
        14 => 'e',
        _ => 'f',
    }
}

/// Append one character of a string literal, escaped as JSON asks.
fn push_escaped(c: char, out: &mut Vec<char>)
    ensures
        final(out)@ == old(out)@ + esc_char(c),
{
    if c == '"' {
        out.push('\\');
        out.push('"');
    } else if c == '\\' {
        out.push('\\');
        out.push('\\');
    } else if c == '\n' {
        out.push('\\');
        out.push('n');
    } else if c == '\r' {
        out.push('\\');
        out.push('r');
    } else if c == '\t' {
        out.push('\\');
        out.push('t');
    } else if c == '\u{8}' {
        out.push('\\');
        out.push('b');
    } else if c == '\u{c}' {
        out.push('\\');
        out.push('f');
    } else if (c as u32) < 0x20 {
        let n = c as u32;
        out.push('\\');
        out.push('u');
        out.push('0');
        out.push('0');
        out.push(hex_digit(n / 16));
        out.push(hex_digit(n % 16));
    } else {
        out.push(c);
    }
    proof {
        assert(final(out)@ =~= old(out)@ + esc_char(c));
    }
}

/// Append a whole escaped string literal body.
fn push_escaped_str(s: &str, out: &mut Vec<char>)
    ensures
        final(out)@ == old(out)@ + esc_text(s@),
{
    let chars = str_to_chars(s);
    let n = chars.len();
    let mut i: usize = 0;
    #[verifier::loop_isolation(false)]
    while i < n
        invariant
            i <= n,
            out@ == old(out)@ + esc_text(s@.take(i as int)),
        decreases n - i,
    {
        push_escaped(chars[i], out);
        proof {
            lemma_esc_text_step(s@, i as int);
            assert(old(out)@ + esc_text(s@.take(i as int)) + esc_char(s@[i as int]) =~= old(out)@
                + esc_text(s@.take(i + 1)));
        }
        i += 1;
    }
    proof {
        assert(s@.take(n as int) =~= s@);
    }
}

/// Escaping one more character extends the escaped prefix.
proof fn lemma_esc_text_step(s: Seq<char>, i: int)
    requires
        0 <= i < s.len(),
    ensures
        esc_text(s.take(i + 1)) == esc_text(s.take(i)) + esc_char(s[i]),
    decreases i,
{
    if i == 0 {
        assert(s.take(1) =~= seq![s[0]]);
        assert(s.take(0) =~= Seq::<char>::empty());
        assert(seq![s[0]].drop_first() =~= Seq::<char>::empty());
        assert(esc_text(Seq::<char>::empty()) == Seq::<char>::empty());
        assert(esc_text(seq![s[0]]) == esc_char(s[0]) + esc_text(seq![s[0]].drop_first()));
        assert(esc_text(s.take(1)) =~= esc_char(s[0]));
        assert(esc_text(s.take(0)) + esc_char(s[0]) =~= esc_char(s[0]));
    } else {
        lemma_esc_text_step(s.drop_first(), i - 1);
        assert(s.take(i + 1).drop_first() =~= s.drop_first().take(i));
        assert(s.take(i).drop_first() =~= s.drop_first().take(i - 1));
        assert(s.take(i + 1)[0] == s[0]);
        assert(s.take(i)[0] == s[0]);
        assert(s.drop_first()[i - 1] == s[i]);
        assert(esc_text(s.take(i + 1)) == esc_char(s[0]) + esc_text(s.drop_first().take(i)));
        assert(esc_text(s.take(i)) == esc_char(s[0]) + esc_text(s.drop_first().take(i - 1)));
        assert(esc_char(s[0]) + (esc_text(s.drop_first().take(i - 1)) + esc_char(s[i])) =~= (
        esc_char(s[0]) + esc_text(s.drop_first().take(i - 1))) + esc_char(s[i]));
    }
}

/// Append the compact JSON text of `v`.
#[verifier::rlimit(50)]
pub fn push_json_text(v: &Json, out: &mut Vec<char>)
    ensures
        final(out)@ == old(out)@ + jv_text(v.jv()),
    decreases *v,
{
    match v {
        Json::Null => {
            out.push('n');
            out.push('u');
            out.push('l');
            out.push('l');
            proof {
                reveal_strlit("null");
                assert(final(out)@ =~= old(out)@ + jv_text(v.jv()));
            }
        },
        Json::Bool(b) => {
            if *b {
                out.push('t');
                out.push('r');
                out.push('u');
                out.push('e');
                proof {
                    reveal_strlit("true");
                    assert(final(out)@ =~= old(out)@ + jv_text(v.jv()));
                }
            } else {
                out.push('f');
                out.push('a');
                out.push('l');
                out.push('s');
                out.push('e');
                proof {
                    reveal_strlit("false");
                    assert(final(out)@ =~= old(out)@ + jv_text(v.jv()));
                }
            }
        },
        Json::Num(JsonNum::Int(i)) => {
            push_i64_text(*i, out);
        },
        Json::Num(JsonNum::Dec(raw)) => {
            let mut raw_chars = str_to_chars(raw.as_str());
            out.append(&mut raw_chars);
        },
        Json::Str(s) => {
            out.push('"');
            push_escaped_str(s.as_str(), out);
            out.push('"');
            proof {
                assert(final(out)@ =~= old(out)@ + (seq!['"'] + esc_text(s@) + seq!['"']));
            }
        },
        Json::Arr(items) => {
            let ghost iv = Json::Arr(*items).jv()->Arr_0;
            out.push('[');
            let n = items.len();
            let mut i: usize = 0;
            #[verifier::loop_isolation(false)]
            while i < n
                invariant
                    i <= n,
                    out@ == old(out)@ + seq!['['] + jv_text_items(iv.take(i as int)),
                decreases n - i,
            {
                if i > 0 {
                    out.push(',');
                }
                proof {
                    assert(decreases_to!(*v => *items));
                    assert(decreases_to!(*items => items@[i as int]));
                }
                push_json_text(&items[i], out);
                proof {
                    lemma_items_text_step(iv, i as int);
                    assert(out@ =~= old(out)@ + seq!['['] + jv_text_items(iv.take(i + 1)));
                }
                i += 1;
            }
            out.push(']');
            proof {
                assert(iv.take(n as int) =~= iv);
                assert(final(out)@ =~= old(out)@ + (seq!['['] + jv_text_items(iv) + seq![']']));
            }
        },
        Json::Obj(fields) => {
            let ghost fv = Json::Obj(*fields).jv()->Obj_0;
            out.push('{');
            let n = fields.len();
            let mut i: usize = 0;
            #[verifier::loop_isolation(false)]
            while i < n
                invariant
                    i <= n,
                    out@ == old(out)@ + seq!['{'] + jv_text_fields(fv.take(i as int)),
                decreases n - i,
            {
                if i > 0 {
                    out.push(',');
                }
                out.push('"');
                push_escaped_str(fields[i].0.as_str(), out);
                out.push('"');
                out.push(':');
                proof {
                    assert(decreases_to!(*v => *fields));
                    assert(decreases_to!(*fields => fields@[i as int]));
                    assert(decreases_to!(fields@[i as int] => fields@[i as int].1));
                }
                push_json_text(&fields[i].1, out);
                proof {
                    lemma_fields_text_step(fv, i as int);
                    assert(out@ =~= old(out)@ + seq!['{'] + jv_text_fields(fv.take(i + 1)));
                }
                i += 1;
            }
            out.push('}');
            proof {
                assert(fv.take(n as int) =~= fv);
                assert(final(out)@ =~= old(out)@ + (seq!['{'] + jv_text_fields(fv) + seq!['}']));
            }
        },
    }
}

/// One more element extends the array text by a comma (past the first) and
/// the element's text.
proof fn lemma_items_text_step(items: Seq<JsonV>, i: int)
    requires
        0 <= i < items.len(),
    ensures
        i == 0 ==> jv_text_items(items.take(1)) == jv_text(items[0]),
        i > 0 ==> jv_text_items(items.take(i + 1)) == jv_text_items(items.take(i)) + seq![',']
            + jv_text(items[i]),
    decreases i,
{
    if i == 0 {
        assert(items.take(1)[0] == items[0]);
    } else {
        lemma_items_text_step(items.drop_first(), i - 1);
        assert(items.take(i + 1).drop_first() =~= items.drop_first().take(i));
        assert(items.take(i).drop_first() =~= items.drop_first().take(i - 1));
        assert(items.take(i + 1)[0] == items[0]);
        assert(items.take(i)[0] == items[0]);
        assert(items.drop_first()[i - 1] == items[i]);
        if i == 1 {
            assert(jv_text_items(items.take(2)) == jv_text(items[0]) + seq![','] + jv_text_items(
                items.drop_first().take(1),
            ));
            assert(jv_text_items(items.drop_first().take(1)) == jv_text(items[1]));
            assert(jv_text_items(items.take(2)) =~= jv_text_items(items.take(1)) + seq![',']
                + jv_text(items[1]));
        } else {
            assert(jv_text_items(items.take(i + 1)) =~= jv_text_items(items.take(i)) + seq![',']
                + jv_text(items[i]));
        }
    }
}

/// One more field extends the object text by a comma (past the first) and
/// the field's text.
proof fn lemma_fields_text_step(fields: Seq<(Seq<char>, JsonV)>, i: int)
    requires
        0 <= i < fields.len(),
    ensures
        i == 0 ==> jv_text_fields(fields.take(1)) == seq!['"'] + esc_text(fields[0].0) + seq!['"']
            + seq![':'] + jv_text(fields[0].1),
        i > 0 ==> jv_text_fields(fields.take(i + 1)) == jv_text_fields(fields.take(i)) + seq![',']
            + (seq!['"'] + esc_text(fields[i].0) + seq!['"'] + seq![':'] + jv_text(fields[i].1)),
    decreases i,
{
    if i == 0 {
        assert(fields.take(1)[0] == fields[0]);
    } else {
        lemma_fields_text_step(fields.drop_first(), i - 1);
        assert(fields.take(i + 1).drop_first() =~= fields.drop_first().take(i));
        assert(fields.take(i).drop_first() =~= fields.drop_first().take(i - 1));
        assert(fields.take(i + 1)[0] == fields[0]);
        assert(fields.take(i)[0] == fields[0]);
        assert(fields.drop_first()[i - 1] == fields[i]);
        if i == 1 {
            assert(jv_text_fields(fields.take(2)) =~= jv_text_fields(fields.take(1)) + seq![',']
                + (seq!['"'] + esc_text(fields[1].0) + seq!['"'] + seq![':'] + jv_text(
                fields[1].1,
            )));
        } else {
            assert(jv_text_fields(fields.take(i + 1)) =~= jv_text_fields(fields.take(i))
                + seq![','] + (seq!['"'] + esc_text(fields[i].0) + seq!['"'] + seq![':'] + jv_text(
                fields[i].1,
            )));
        }
    }
}

/// Relies on `char::from_u32`: `Some` exactly for Unicode scalar values, and
/// the returned character has the given value.
#[verifier::external_body]
fn char_from_u32(x: u32) -> (r: Option<char>)
    ensures
        r matches Some(c) ==> c as u32 == x,
        (x < 0xD800 || (0xE000 <= x && x <= 0x10FFFF)) ==> r is Some,
{
    char::from_u32(x)
}

fn decode_err<T>(text: &str) -> (r: Result<T, Error>)
    ensures
        r matches Err(Error::JsonDecode(s)) && s@ == text@,
{
    Err(Error::JsonDecode(String::from_str(text)))
}

/// The character with the given scalar value.
pub open spec fn char_of_scalar(n: int) -> char {
    choose|c: char| (#[trigger] (c as u32)) as int == n
}

/// The character a trusted conversion returned is the one its scalar value
/// names.
proof fn lemma_char_of_scalar(c: char, n: int)
    requires
        c as u32 == n,
    ensures
        char_of_scalar(n) == c,
{
    assert(exists|d: char| (#[trigger] (d as u32)) as int == n) by {
        assert((c as u32) as int == n);
    }
}

/// Whether `c` is JSON whitespace.
pub open spec fn is_ws(c: char) -> bool {
    c == ' ' || c == '\t' || c == '\n' || c == '\r'
}

/// Whether `c` is a decimal digit.
pub open spec fn is_digit(c: char) -> bool {
    48 <= c as int <= 57
}

/// The first non-whitespace position at or after `i`.
pub open spec fn spec_ws_end(s: Seq<char>, i: int) -> int
    decreases s.len() - i,
{
    if 0 <= i < s.len() && is_ws(s[i]) {
        spec_ws_end(s, i + 1)
    } else {
        i
    }
}

/// The value of a hexadecimal digit character, upper or lower case.
pub open spec fn spec_hex_val(c: char) -> Option<int> {
    let n = c as int;
    if 48 <= n <= 57 {
        Some(n - 48)
    } else if 97 <= n <= 102 {
        Some(n - 97 + 10)
    } else if 65 <= n <= 70 {
        Some(n - 65 + 10)
    } else {
        None
    }
}

/// The value of the four hexadecimal digits at `i`, if they are there.
pub open spec fn spec_hex4(s: Seq<char>, i: int) -> Option<int> {
    if 0 <= i && i + 4 <= s.len() {
        match (spec_hex_val(s[i]), spec_hex_val(s[i + 1]), spec_hex_val(s[i + 2]), spec_hex_val(
            s[i + 3],
        )) {
            (Some(a), Some(b), Some(c), Some(d)) => Some(((a * 16 + b) * 16 + c) * 16 + d),
            _ => None,
        }
    } else {
        None
    }
}

/// Prepend a decoded character to a string body's outcome.
pub open spec fn str_cons(c: char, rest: Option<(Seq<char>, int)>) -> Option<(Seq<char>, int)> {
    match rest {
        None => None,
        Some((t, e)) => Some((seq![c] + t, e)),
    }
}

/// A string literal's body from position `j` (past the opening quote) to
/// its closing quote: the decoded characters and the position after the
/// quote, or nothing when the literal is unterminated or ill-escaped.
pub open spec fn spec_string_body(s: Seq<char>, j: int) -> Option<(Seq<char>, int)>
    decreases s.len() - j,
{
    if j < 0 || j >= s.len() {
        None
    } else if s[j] == '"' {
        Some((Seq::empty(), j + 1))
    } else if s[j] == '\\' {
        if j + 1 >= s.len() {
            None
        } else {
            let e = s[j + 1];
            if e == '"' {
                str_cons('"', spec_string_body(s, j + 2))
            } else if e == '\\' {
                str_cons('\\', spec_string_body(s, j + 2))
            } else if e == '/' {
                str_cons('/', spec_string_body(s, j + 2))
            } else if e == 'n' {
                str_cons('\n', spec_string_body(s, j + 2))
            } else if e == 't' {
                str_cons('\t', spec_string_body(s, j + 2))
            } else if e == 'r' {
                str_cons('\r', spec_string_body(s, j + 2))
            } else if e == 'b' {
                str_cons('\u{8}', spec_string_body(s, j + 2))
            } else if e == 'f' {
                str_cons('\u{c}', spec_string_body(s, j + 2))
            } else if e == 'u' {
                match spec_hex4(s, j + 2) {
                    None => None,
                    Some(hi) => if 0xD800 <= hi < 0xDC00 {
                        if s.len() - (j + 6) >= 2 && s[j + 6] == '\\' && s[j + 7] == 'u' {
                            match spec_hex4(s, j + 8) {
                                None => None,
                                Some(lo) => if 0xDC00 <= lo < 0xE000 {
                                    str_cons(
                                        char_of_scalar(
                                            0x10000 + (hi - 0xD800) * 0x400 + (lo - 0xDC00),
                                        ),
                                        spec_string_body(s, j + 12),
                                    )
                                } else {
                                    None
                                },
                            }
                        } else {
                            None
                        }
                    } else if 0xDC00 <= hi < 0xE000 {
                        None
                    } else {
                        str_cons(char_of_scalar(hi), spec_string_body(s, j + 6))
                    },
                }
            } else {
                None
            }
        }
    } else {
        str_cons(s[j], spec_string_body(s, j + 1))
    }
}

/// One step of base-10 magnitude accumulation, saturating its fit flag the
/// way a 64-bit accumulator must.
pub open spec fn mag_step(acc: (int, bool), d: int) -> (int, bool) {
    if acc.1 && acc.0 <= (0xFFFF_FFFF_FFFF_FFFF - d) / 10 {
        (acc.0 * 10 + d, true)
    } else {
        (acc.0, false)
    }
}

/// The accumulated magnitude of the digits in `[from, to)`.
pub open spec fn spec_mag(s: Seq<char>, from: int, to: int) -> (int, bool)
    decreases to - from,
{
    if to <= from {
        (0, true)
    } else {
        mag_step(spec_mag(s, from, to - 1), s[to - 1] as int - 48)
    }
}

/// The first non-digit position at or after `j`.
pub open spec fn spec_digits_end(s: Seq<char>, j: int) -> int
    decreases s.len() - j,
{
    if 0 <= j < s.len() && is_digit(s[j]) {
        spec_digits_end(s, j + 1)
    } else {
        j
    }
}

/// A number token from `i`: grammar `-?digits(.digits)?([eE][+-]?digits)?`.
/// An integral token whose magnitude fits 64 bits is the integer it spells;
/// anything else keeps its raw text.
pub open spec fn spec_number(s: Seq<char>, i: int) -> Option<(JsonNumV, int)> {
    let has_neg = 0 <= i < s.len() && s[i] == '-';
    let ds = if has_neg {
        i + 1
    } else {
        i
    };
    let end1 = spec_digits_end(s, ds);
    if end1 == ds {
        None
    } else {
        let frac_present = end1 < s.len() && s[end1] == '.';
        let frac_start = end1 + 1;
        let end2 = if frac_present {
            spec_digits_end(s, frac_start)
        } else {
            end1
        };
        if frac_present && end2 == frac_start {
            None
        } else {
            let after_frac = if frac_present {
                end2
            } else {
                end1
            };
            let exp_present = after_frac < s.len() && (s[after_frac] == 'e' || s[after_frac]
                == 'E');
            let exp_sign = exp_present && after_frac + 1 < s.len() && (s[after_frac + 1] == '+'
                || s[after_frac + 1] == '-');
            let exp_start = if exp_sign {
                after_frac + 2
            } else {
                after_frac + 1
            };
            let end3 = if exp_present {
                spec_digits_end(s, exp_start)
            } else {
                after_frac
            };
            if exp_present && end3 == exp_start {
                None
            } else {
                let j = if exp_present {
                    end3
                } else {
                    after_frac
                };
                let integral = !frac_present && !exp_present;
                let (mag, fits) = spec_mag(s, ds, end1);
                if integral && fits && has_neg && mag <= 0x8000_0000_0000_0000 {
                    Some((JsonNumV::Int(-mag), j))
                } else if integral && fits && !has_neg && mag <= 0x7FFF_FFFF_FFFF_FFFF {
                    Some((JsonNumV::Int(mag), j))
                } else {
                    Some((JsonNumV::Dec(s.subrange(i, j)), j))
                }
            }
        }
    }
}

/// One value from position `i`, leading whitespace allowed: the grammar of
/// the whole reader. `None` stands for a malformed text.
pub open spec fn spec_value(s: Seq<char>, i: int) -> Option<(JsonV, int)>
    decreases s.len() - i, 0int,
{
    if i < 0 || i > s.len() {
        None
    } else {
        let j = spec_ws_end(s, i);
        if j < i || j >= s.len() {
            None
        } else {
            let c = s[j];
            if c == 'n' {
                if j + 4 <= s.len() && s[j + 1] == 'u' && s[j + 2] == 'l' && s[j + 3] == 'l' {
                    Some((JsonV::Null, j + 4))
                } else {
                    None
                }
            } else if c == 't' {
                if j + 4 <= s.len() && s[j + 1] == 'r' && s[j + 2] == 'u' && s[j + 3] == 'e' {
                    Some((JsonV::Bool(true), j + 4))
                } else {
                    None
                }
            } else if c == 'f' {
                if j + 5 <= s.len() && s[j + 1] == 'a' && s[j + 2] == 'l' && s[j + 3] == 's' && s[j
                    + 4] == 'e' {
                    Some((JsonV::Bool(false), j + 5))
                } else {
                    None
                }
            } else if c == '"' {
                match spec_string_body(s, j + 1) {
                    None => None,
                    Some((t, e)) => Some((JsonV::Str(t), e)),
                }
            } else if c == '-' || is_digit(c) {
                match spec_number(s, j) {
                    None => None,
                    Some((nv, e)) => Some((JsonV::Num(nv), e)),
                }
            } else if c == '[' {
                let k = spec_ws_end(s, j + 1);
                if k < j + 1 || k > s.len() {
                    None
                } else if k < s.len() && s[k] == ']' {
                    Some((JsonV::Arr(Seq::empty()), k + 1))
                } else {
                    match spec_elements(s, k) {
                        None => None,
                        Some((items, e)) => Some((JsonV::Arr(items), e)),
                    }
                }
            } else if c == '{' {
                let k = spec_ws_end(s, j + 1);
                if k < j + 1 || k > s.len() {
                    None
                } else if k < s.len() && s[k] == '}' {
                    Some((JsonV::Obj(Seq::empty()), k + 1))
                } else {
                    match spec_members(s, k) {
                        None => None,
                        Some((fields, e)) => Some((JsonV::Obj(fields), e)),
                    }
                }
            } else {
                None
            }
        }
    }
}

/// One or more comma-separated array elements from `k`, up to and past the
/// closing bracket.
pub open spec fn spec_elements(s: Seq<char>, k: int) -> Option<(Seq<JsonV>, int)>
    decreases s.len() - k, 1int,
{
    if k < 0 || k > s.len() {
        None
    } else {
        match spec_value(s, k) {
            None => None,
            Some((v, after)) => if after <= k || after > s.len() {
                None
            } else {
                let aw = spec_ws_end(s, after);
                if aw < after || aw >= s.len() {
                    None
                } else if s[aw] == ']' {
                    Some((seq![v], aw + 1))
                } else if s[aw] == ',' {
                    match spec_elements(s, aw + 1) {
                        None => None,
                        Some((rest, e)) => Some((seq![v] + rest, e)),
                    }
                } else {
                    None
                }
            },
        }
    }
}

/// One or more comma-separated object members from `k`, up to and past the
/// closing brace.
pub open spec fn spec_members(s: Seq<char>, k: int) -> Option<(Seq<(Seq<char>, JsonV)>, int)>
    decreases s.len() - k, 1int,
{
    if k < 0 || k >= s.len() || s[k] != '"' {
        None
    } else {
        match spec_string_body(s, k + 1) {
            None => None,
            Some((key, after_key)) => if after_key <= k || after_key > s.len() {
                None
            } else {
                let colon = spec_ws_end(s, after_key);
                if colon < after_key || colon >= s.len() || s[colon] != ':' {
                    None
                } else {
                    match spec_value(s, colon + 1) {
                        None => None,
                        Some((v, after)) => if after <= colon || after > s.len() {
                            None
                        } else {
                            let aw = spec_ws_end(s, after);
                            if aw < after || aw >= s.len() {
                                None
                            } else if s[aw] == '}' {
                                Some((seq![(key, v)], aw + 1))
                            } else if s[aw] == ',' {
                                let nk = spec_ws_end(s, aw + 1);
                                if nk < aw + 1 || nk > s.len() {
                                    None
                                } else {
                                    match spec_members(s, nk) {
                                        None => None,
                                        Some((rest, e)) => Some((seq![(key, v)] + rest, e)),
                                    }
                                }
                            } else {
                                None
                            }
                        },
                    }
                }
            },
        }
    }
}

/// What a whole line of text reads as: one value, possibly surrounded by
/// whitespace, or nothing when malformed.
pub open spec fn spec_json(s: Seq<char>) -> Option<JsonV> {
    match spec_value(s, 0) {
        None => None,
        Some((v, after)) => if spec_ws_end(s, after) == s.len() {
            Some(v)
        } else {
            None
        },
    }
}

fn skip_ws(chars: &Vec<char>, i: usize) -> (r: usize)
    requires
        i <= chars@.len(),
    ensures
        i <= r <= chars@.len(),
        r as int == spec_ws_end(chars@, i as int),
        r < chars@.len() ==> !is_ws(chars@[r as int]),
{
    let n = chars.len();
    let mut j = i;
    #[verifier::loop_isolation(false)]
    while j < n
        invariant
            i <= j <= n,
            spec_ws_end(chars@, i as int) == spec_ws_end(chars@, j as int),
        decreases n - j,
    {
        let c = chars[j];
        if c == ' ' || c == '\t' || c == '\n' || c == '\r' {
            proof {
                assert(spec_ws_end(chars@, j as int) == spec_ws_end(chars@, j + 1));
            }
            j += 1;
        } else {
            proof {
                assert(spec_ws_end(chars@, j as int) == j as int);
            }
            return j;
        }
    }
    proof {
        assert(spec_ws_end(chars@, j as int) == j as int);
    }
    j
}

fn hex_value(c: char) -> (r: Option<u32>)
    ensures
        match r {
            Some(v) => v < 16 && spec_hex_val(c) == Some(v as int),
            None => spec_hex_val(c) is None,
        },
{
    let n = c as u32;
    if n >= 48 && n <= 57 {
        Some(n - 48)
    } else if n >= 97 && n <= 102 {
        Some(n - 97 + 10)
    } else if n >= 65 && n <= 70 {
        Some(n - 65 + 10)
    } else {
        None
    }
}

/// Four hexadecimal digits, as in a `\uXXXX` escape.
fn parse_hex4(chars: &Vec<char>, i: usize) -> (r: Result<(u32, usize), Error>)
    requires
        i <= chars@.len(),
    ensures
        match r {
            Ok(p) => p.1 == i + 4 && i + 4 <= chars@.len() && p.0 < 0x10000 && spec_hex4(
                chars@,
                i as int,
            ) == Some(p.0 as int),
            Err(e) => spec_hex4(chars@, i as int) is None && e is JsonDecode,
        },
{
    if chars.len() - i < 4 {
        return decode_err("unterminated \\u escape");
    }
    let (Some(a), Some(b), Some(c), Some(d)) = (
        hex_value(chars[i]),
        hex_value(chars[i + 1]),
        hex_value(chars[i + 2]),
        hex_value(chars[i + 3]),
    ) else {
        return decode_err("bad hex digit in \\u escape");
    };
    Ok((((a * 16 + b) * 16 + c) * 16 + d, i + 4))
}
/// Prefix a string body's outcome with already-decoded characters.
spec fn str_app(prefix: Seq<char>, rest: Option<(Seq<char>, int)>) -> Option<
    (Seq<char>, int),
> {
    match rest {
        None => None,
        Some((t, e)) => Some((prefix + t, e)),
    }
}

/// A JSON string literal, starting at its opening quote: exactly the body
/// [`spec_string_body`] reads from past the quote.
#[verifier::rlimit(100)]
fn parse_string(chars: &Vec<char>, i: usize) -> (r: Result<(String, usize), Error>)
    requires
        i < chars@.len(),
    ensures
        match r {
            Ok(p) => i < p.1 <= chars@.len() && spec_string_body(chars@, i + 1) == Some(
                (p.0@, p.1 as int),
            ),
            Err(e) => spec_string_body(chars@, i + 1) is None && e is JsonDecode,
        },
{
    let ghost sv = chars@;
    let n = chars.len();
    let mut out: Vec<char> = Vec::new();
    let mut j = i + 1;
    proof {
        assert(str_app(out@, spec_string_body(sv, j as int)) == spec_string_body(sv, i + 1));
    }
    #[verifier::loop_isolation(false)]
    while j < n
        invariant
            i < j <= n,
            spec_string_body(sv, i + 1) == str_app(out@, spec_string_body(sv, j as int)),
        decreases n - j,
    {
        let ghost j0 = j as int;
        let c = chars[j];
        if c == '"' {
            proof {
                assert(spec_string_body(sv, j0) == Some((Seq::<char>::empty(), j0 + 1)));
                assert(out@ + Seq::<char>::empty() =~= out@);
            }
            return Ok((chars_to_string(&out), j + 1));
        } else if c == '\\' {
            if j + 1 >= n {
                proof {
                    assert(spec_string_body(sv, j0) is None);
                }
                return decode_err("unterminated escape in string");
            }
            let e = chars[j + 1];
            if e == '"' {
                out.push('"');
                j += 2;
            } else if e == '\\' {
                out.push('\\');
                j += 2;
            } else if e == '/' {
                out.push('/');
                j += 2;
            } else if e == 'n' {
                out.push('\n');
                j += 2;
            } else if e == 't' {
                out.push('\t');
                j += 2;
            } else if e == 'r' {
                out.push('\r');
                j += 2;
            } else if e == 'b' {
                out.push('\u{8}');
                j += 2;
            } else if e == 'f' {
                out.push('\u{c}');
                j += 2;
            } else if e == 'u' {
                let (hi, after_hi) = match parse_hex4(chars, j + 2) {
                    Ok(p) => p,
                    Err(err) => {
                        proof {
                            assert(spec_string_body(sv, j0) is None);
                        }
                        return Err(err);
                    },
                };
                if hi >= 0xD800 && hi < 0xDC00 {
                    // A high surrogate must pair with a following low one.
                    if n - after_hi >= 2 && chars[after_hi] == '\\' && chars[after_hi + 1] == 'u' {
                        let (lo, after_lo) = match parse_hex4(chars, after_hi + 2) {
                            Ok(p) => p,
                            Err(err) => {
                                proof {
                                    assert(spec_string_body(sv, j0) is None);
                                }
                                return Err(err);
                            },
                        };
                        if lo >= 0xDC00 && lo < 0xE000 {
                            let combined: u32 = 0x10000 + (hi - 0xD800) * 0x400 + (lo - 0xDC00);
                            match char_from_u32(combined) {
                                Some(c2) => {
                                    proof {
                                        lemma_char_of_scalar(c2, combined as int);
                                    }
                                    out.push(c2);
                                    j = after_lo;
                                },
                                None => {
                                    // Unreachable: the combined value is a
                                    // scalar value, so the conversion is Some.
                                    proof {
                                        assert(false);
                                    }
                                    return decode_err("bad surrogate pair in string");
                                },
                            }
                        } else {
                            proof {
                                assert(spec_string_body(sv, j0) is None);
                            }
                            return decode_err("bad surrogate pair in string");
                        }
                    } else {
                        proof {
                            assert(spec_string_body(sv, j0) is None);
                        }
                        return decode_err("lone surrogate in string");
                    }
                } else if hi >= 0xDC00 && hi < 0xE000 {
                    proof {
                        assert(spec_string_body(sv, j0) is None);
                    }
                    return decode_err("lone surrogate in string");
                } else {
                    match char_from_u32(hi) {
                        Some(c2) => {
                            proof {
                                lemma_char_of_scalar(c2, hi as int);
                            }
                            out.push(c2);
                            j = after_hi;
                        },
                        None => {
                            // Unreachable: below the surrogate range the
                            // value is a scalar value.
                            proof {
                                assert(false);
                            }
                            return decode_err("bad \\u escape in string");
                        },
                    }
                }
            } else {
                proof {
                    assert(spec_string_body(sv, j0) is None);
                }
                return decode_err("unknown escape in string");
            }
        } else {
            out.push(c);
            j += 1;
        }
        proof {
            assert(spec_string_body(sv, j0) == str_cons(out@.last(), spec_string_body(
                sv,
                j as int,
            )));
            assert(str_app(out@.drop_last(), spec_string_body(sv, j0)) == str_app(
                out@,
                spec_string_body(sv, j as int),
            )) by {
                match spec_string_body(sv, j as int) {
                    None => {},
                    Some((t, e)) => {
                        assert(out@.drop_last() + (seq![out@.last()] + t) =~= out@ + t);
                    },
                }
            }
            assert(out@.drop_last().push(out@.last()) =~= out@);
        }
    }
    proof {
        assert(spec_string_body(sv, j as int) is None);
    }
    decode_err("unterminated string")
}

/// A JSON number, starting at its sign or first digit: exactly
/// [`spec_number`].
#[verifier::rlimit(100)]
fn parse_number(chars: &Vec<char>, i: usize) -> (r: Result<(JsonNum, usize), Error>)
    requires
        i < chars@.len(),
    ensures
        match r {
            Ok(p) => i < p.1 <= chars@.len() && spec_number(chars@, i as int) == Some(
                (p.0.jv(), p.1 as int),
            ),
            Err(e) => spec_number(chars@, i as int) is None && e is JsonDecode,
        },
{
    let ghost sv = chars@;
    let n = chars.len();
    let mut j = i;
    let mut neg = false;
    let mut integral = true;
    if chars[j] == '-' {
        neg = true;
        j += 1;
    }
    let digits_start = j;
    let mut mag: u64 = 0;
    let mut fits: bool = true;
    proof {
        assert(spec_mag(sv, digits_start as int, digits_start as int) == (0int, true));
    }
    #[verifier::loop_isolation(false)]
    while j < n
        invariant
            digits_start <= j <= n,
            i <= digits_start <= i + 1,
            spec_digits_end(sv, digits_start as int) == spec_digits_end(sv, j as int),
            forall|t: int| digits_start <= t < j ==> is_digit(sv[t]),
            (mag as int, fits) == spec_mag(sv, digits_start as int, j as int),
        decreases n - j,
    {
        let c = chars[j];
        let cv = c as u32;
        if cv >= 48 && cv <= 57 {
            proof {
                lemma_digit_range(c);
            }
            let d: u64 = (cv - 48) as u64;
            if fits && mag <= (0xFFFF_FFFF_FFFF_FFFFu64 - d) / 10 {
                mag = mag * 10 + d;
            } else {
                fits = false;
            }
            proof {
                assert(spec_digits_end(sv, j as int) == spec_digits_end(sv, j + 1));
                assert(spec_mag(sv, digits_start as int, j + 1) == mag_step(
                    spec_mag(sv, digits_start as int, j as int),
                    sv[j as int] as int - 48,
                ));
            }
            j += 1;
        } else {
            break;
        }
    }
    proof {
        assert(spec_digits_end(sv, j as int) == j as int);
    }
    if j == digits_start {
        return decode_err("bad number");
    }
    let ghost end1 = j as int;
    if j < n && chars[j] == '.' {
        integral = false;
        j += 1;
        let frac_start = j;
        #[verifier::loop_isolation(false)]
        while j < n
            invariant
                frac_start <= j <= n,
                i < j,
                spec_digits_end(sv, frac_start as int) == spec_digits_end(sv, j as int),
            decreases n - j,
        {
            let cj = chars[j];
            let cv = cj as u32;
            if cv >= 48 && cv <= 57 {
                proof {
                    lemma_digit_range(cj);
                    assert(spec_digits_end(sv, j as int) == spec_digits_end(sv, j + 1));
                }
                j += 1;
            } else {
                break;
            }
        }
        proof {
            assert(spec_digits_end(sv, j as int) == j as int);
        }
        if j == frac_start {
            return decode_err("bad number");
        }
    }
    let ghost after_frac = j as int;
    if j < n && (chars[j] == 'e' || chars[j] == 'E') {
        integral = false;
        j += 1;
        if j < n && (chars[j] == '+' || chars[j] == '-') {
            j += 1;
        }
        let exp_start = j;
        #[verifier::loop_isolation(false)]
        while j < n
            invariant
                exp_start <= j <= n,
                i < j,
                spec_digits_end(sv, exp_start as int) == spec_digits_end(sv, j as int),
            decreases n - j,
        {
            let cj = chars[j];
            let cv = cj as u32;
            if cv >= 48 && cv <= 57 {
                proof {
                    lemma_digit_range(cj);
                    assert(spec_digits_end(sv, j as int) == spec_digits_end(sv, j + 1));
                }
                j += 1;
            } else {
                break;
            }
        }
        proof {
            assert(spec_digits_end(sv, j as int) == j as int);
        }
        if j == exp_start {
            return decode_err("bad number");
        }
    }
    if integral && fits {
        if neg {
            if mag <= 0x8000_0000_0000_0000u64 {
                let val: i64 = if mag == 0x8000_0000_0000_0000u64 {
                    i64::MIN
                } else {
                    -(mag as i64)
                };
                return Ok((JsonNum::Int(val), j));
            }
        } else {
            if mag <= 0x7FFF_FFFF_FFFF_FFFFu64 {
                return Ok((JsonNum::Int(mag as i64), j));
            }
        }
    }
    // Not an integer in range: keep the raw token text.
    let mut raw: Vec<char> = Vec::new();
    let mut k = i;
    #[verifier::loop_isolation(false)]
    while k < j
        invariant
            i <= k <= j <= n,
            i < j,
            raw@ == sv.subrange(i as int, k as int),
        decreases j - k,
    {
        raw.push(chars[k]);
        proof {
            assert(raw@ =~= sv.subrange(i as int, k + 1));
        }
        k += 1;
    }
    Ok((JsonNum::Dec(chars_to_string(&raw)), j))
}

/// A digit's spec and machine views agree.
proof fn lemma_digit_range(c: char)
    ensures
        is_digit(c) <==> (48 <= c as u32 <= 57),
{
    assert((c as u32) as int == c as int);
}

/// Prefix an element list's outcome with already-read elements.
spec fn el_app(prefix: Seq<JsonV>, rest: Option<(Seq<JsonV>, int)>) -> Option<
    (Seq<JsonV>, int),
> {
    match rest {
        None => None,
        Some((t, e)) => Some((prefix + t, e)),
    }
}

/// Prefix a member list's outcome with already-read members.
spec fn mem_app(
    prefix: Seq<(Seq<char>, JsonV)>,
    rest: Option<(Seq<(Seq<char>, JsonV)>, int)>,
) -> Option<(Seq<(Seq<char>, JsonV)>, int)> {
    match rest {
        None => None,
        Some((t, e)) => Some((prefix + t, e)),
    }
}

fn expect_word(chars: &Vec<char>, i: usize, a: char, b: char, c: char) -> (r: bool)
    requires
        i < chars@.len(),
    ensures
        r <==> (i + 4 <= chars@.len() && chars@[i + 1] == a && chars@[i + 2] == b && chars@[i + 3]
            == c),
{
    let n = chars.len();
    n - i >= 4 && chars[i + 1] == a && chars[i + 2] == b && chars[i + 3] == c
}

/// One JSON value, starting at `i` (whitespace allowed first): exactly
/// [`spec_value`].
#[verifier::rlimit(100)]
fn parse_value(chars: &Vec<char>, i: usize) -> (r: Result<(Json, usize), Error>)
    requires
        i <= chars@.len(),
    ensures
        match r {
            Ok(p) => i < p.1 <= chars@.len() && spec_value(chars@, i as int) == Some(
                (p.0.jv(), p.1 as int),
            ),
            Err(e) => spec_value(chars@, i as int) is None && e is JsonDecode,
        },
    decreases chars@.len() - i,
{
    let ghost sv = chars@;
    let n = chars.len();
    let j = skip_ws(chars, i);
    if j >= n {
        return decode_err("unexpected end of input");
    }
    let c = chars[j];
    if c == 'n' {
        if expect_word(chars, j, 'u', 'l', 'l') {
            Ok((Json::Null, j + 4))
        } else {
            decode_err("bad literal")
        }
    } else if c == 't' {
        if expect_word(chars, j, 'r', 'u', 'e') {
            Ok((Json::Bool(true), j + 4))
        } else {
            decode_err("bad literal")
        }
    } else if c == 'f' {
        if n - j >= 5 && chars[j + 1] == 'a' && chars[j + 2] == 'l' && chars[j + 3] == 's'
            && chars[j + 4] == 'e' {
            Ok((Json::Bool(false), j + 5))
        } else {
            decode_err("bad literal")
        }
    } else if c == '"' {
        match parse_string(chars, j) {
            Ok((s, k)) => Ok((Json::Str(s), k)),
            Err(e) => Err(e),
        }
    } else if c == '-' || (c as u32) >= 48 && (c as u32) <= 57 {
        proof {
            lemma_digit_range(c);
        }
        match parse_number(chars, j) {
            Ok((num, k)) => Ok((Json::Num(num), k)),
            Err(e) => Err(e),
        }
    } else if c == '[' {
        let mut items: Vec<Json> = Vec::new();
        let mut k = skip_ws(chars, j + 1);
        if k < n && chars[k] == ']' {
            let r = Json::Arr(items);
            proof {
                assert(r.jv()->Arr_0 =~= Seq::<JsonV>::empty());
                assert(r.jv() =~= JsonV::Arr(Seq::empty()));
            }
            return Ok((r, k + 1));
        }
        let ghost k0 = k as int;
        proof {
            assert(items@.map_values(|x: Json| x.jv()) =~= Seq::<JsonV>::empty());
            match spec_elements(sv, k0) {
                Some((t, e)) => {
                    assert(Seq::<JsonV>::empty() + t =~= t);
                },
                None => {},
            }
        }
        #[verifier::loop_isolation(false)]
        while k <= n
            invariant
                i <= j < k <= n,
                spec_elements(sv, k0) == el_app(
                    items@.map_values(|x: Json| x.jv()),
                    spec_elements(sv, k as int),
                ),
            decreases n - k,
        {
            let ghost k_at = k as int;
            let (item, after) = match parse_value(chars, k) {
                Ok(p) => p,
                Err(e) => {
                    proof {
                        assert(spec_elements(sv, k_at) is None);
                    }
                    return Err(e);
                },
            };
            let ghost old_items = items@;
            items.push(item);
            proof {
                assert(items@.map_values(|x: Json| x.jv()) =~= old_items.map_values(
                    |x: Json| x.jv(),
                ).push(item.jv()));
            }
            let after_ws = skip_ws(chars, after);
            if after_ws >= n {
                proof {
                    assert(spec_elements(sv, k_at) is None);
                }
                return decode_err("unterminated array");
            }
            if chars[after_ws] == ']' {
                let r = Json::Arr(items);
                proof {
                    assert(spec_elements(sv, k_at) == Some(
                        (seq![item.jv()], after_ws + 1int),
                    ));
                    crate::json::lemma_arr_view(items);
                    assert(old_items.map_values(|x: Json| x.jv()) + seq![item.jv()] =~= items@
                        .map_values(|x: Json| x.jv()));
                }
                return Ok((r, after_ws + 1));
            }
            if chars[after_ws] != ',' {
                proof {
                    assert(spec_elements(sv, k_at) is None);
                }
                return decode_err("expected ',' or ']' in array");
            }
            proof {
                assert(spec_elements(sv, k_at) == el_app(
                    seq![item.jv()],
                    spec_elements(sv, after_ws + 1),
                ));
                match spec_elements(sv, after_ws + 1) {
                    Some((t, e)) => {
                        assert(old_items.map_values(|x: Json| x.jv()) + (seq![item.jv()] + t)
                            =~= (old_items.map_values(|x: Json| x.jv()) + seq![item.jv()]) + t);
                    },
                    None => {},
                }
            }
            k = after_ws + 1;
        }
        decode_err("unterminated array")
    } else if c == '{' {
        let mut fields: Vec<(String, Json)> = Vec::new();
        let mut k = skip_ws(chars, j + 1);
        if k < n && chars[k] == '}' {
            let r = Json::Obj(fields);
            proof {
                assert(r.jv()->Obj_0 =~= Seq::<(Seq<char>, JsonV)>::empty());
                assert(r.jv() =~= JsonV::Obj(Seq::empty()));
            }
            return Ok((r, k + 1));
        }
        let ghost k0 = k as int;
        proof {
            assert(crate::json::obj_fields_v(fields@) =~= Seq::<(Seq<char>, JsonV)>::empty());
            match spec_members(sv, k0) {
                Some((t, e)) => {
                    assert(Seq::<(Seq<char>, JsonV)>::empty() + t =~= t);
                },
                None => {},
            }
        }
        #[verifier::loop_isolation(false)]
        while k <= n
            invariant
                i <= j < k <= n,
                spec_members(sv, k0) == mem_app(
                    crate::json::obj_fields_v(fields@),
                    spec_members(sv, k as int),
                ),
            decreases n - k,
        {
            let ghost k_at = k as int;
            if k >= n || chars[k] != '"' {
                proof {
                    assert(spec_members(sv, k_at) is None);
                }
                return decode_err("expected '\"' to open an object key");
            }
            let (key, after_key) = match parse_string(chars, k) {
                Ok(p) => p,
                Err(e) => {
                    proof {
                        assert(spec_members(sv, k_at) is None);
                    }
                    return Err(e);
                },
            };
            let colon_at = skip_ws(chars, after_key);
            if colon_at >= n || chars[colon_at] != ':' {
                proof {
                    assert(spec_members(sv, k_at) is None);
                }
                return decode_err("expected ':' after object key");
            }
            let (value, after) = match parse_value(chars, colon_at + 1) {
                Ok(p) => p,
                Err(e) => {
                    proof {
                        assert(spec_members(sv, k_at) is None);
                    }
                    return Err(e);
                },
            };
            let ghost old_fields = fields@;
            let ghost kv = (key@, value.jv());
            fields.push((key, value));
            proof {
                assert(crate::json::obj_fields_v(fields@) =~= crate::json::obj_fields_v(
                    old_fields,
                ).push(kv));
            }
            let after_ws = skip_ws(chars, after);
            if after_ws >= n {
                proof {
                    assert(spec_members(sv, k_at) is None);
                }
                return decode_err("unterminated object");
            }
            if chars[after_ws] == '}' {
                let r = Json::Obj(fields);
                proof {
                    assert(spec_members(sv, k_at) == Some((seq![kv], after_ws + 1int)));
                    crate::json::lemma_obj_fields(fields);
                    assert(crate::json::obj_fields_v(old_fields) + seq![kv]
                        =~= crate::json::obj_fields_v(fields@));
                }
                return Ok((r, after_ws + 1));
            }
            if chars[after_ws] != ',' {
                proof {
                    assert(spec_members(sv, k_at) is None);
                }
                return decode_err("expected ',' or '}' in object");
            }
            let next_key = skip_ws(chars, after_ws + 1);
            proof {
                assert(spec_members(sv, k_at) == mem_app(
                    seq![kv],
                    spec_members(sv, next_key as int),
                ));
                match spec_members(sv, next_key as int) {
                    Some((t, e)) => {
                        assert(crate::json::obj_fields_v(old_fields) + (seq![kv] + t) =~= (
                        crate::json::obj_fields_v(old_fields) + seq![kv]) + t);
                    },
                    None => {},
                }
            }
            k = next_key;
        }
        decode_err("unterminated object")
    } else {
        decode_err("unexpected character")
    }
}

/// Read one line of JSON text into a value: exactly [`spec_json`].
///
/// The whole input must be one JSON value, possibly surrounded by
/// whitespace; anything else is a [`Error::JsonDecode`].
pub fn parse_json(s: &str) -> (r: Result<Json, Error>)
    ensures
        match r {
            Ok(v) => spec_json(s@) == Some(v.jv()),
            Err(e) => spec_json(s@) is None && e is JsonDecode,
        },
{
    let chars = str_to_chars(s);
    let (v, after) = match parse_value(&chars, 0) {
        Ok(p) => p,
        Err(e) => {
            return Err(e);
        },
    };
    let end = skip_ws(&chars, after);
    if end < chars.len() {
        return decode_err("trailing characters after JSON value");
    }
    Ok(v)
}

/// The compact JSON text of `v`: no spaces, object fields in order, strings
/// escaped as [`esc_char`] says.
pub fn json_to_string(v: &Json) -> (r: String)
    ensures
        r@ == jv_text(v.jv()),
{
    let mut out: Vec<char> = Vec::new();
    push_json_text(v, &mut out);
    proof {
        assert(out@ =~= jv_text(v.jv()));
    }
    chars_to_string(&out)
}

} // verus!
