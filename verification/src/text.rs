//! Characters, decimal digits, and joining: the small string algebra that
//! the command builders and the JSON writer share.

use vstd::prelude::*;

verus! {

/// The decimal digit character for `d`.
pub open spec fn digit_char(d: int) -> char {
    if d == 0 {
        '0'
    } else if d == 1 {
        '1'
    } else if d == 2 {
        '2'
    } else if d == 3 {
        '3'
    } else if d == 4 {
        '4'
    } else if d == 5 {
        '5'
    } else if d == 6 {
        '6'
    } else if d == 7 {
        '7'
    } else if d == 8 {
        '8'
    } else {
        '9'
    }
}

/// Decimal text of a non-negative integer, most significant digit first.
pub open spec fn dec_digits(n: int) -> Seq<char>
    decreases n,
{
    if n < 10 {
        seq![digit_char(n)]
    } else {
        dec_digits(n / 10).push(digit_char(n % 10))
    }
}

/// Decimal text of an integer, with a leading minus sign when negative.
pub open spec fn int_text(i: int) -> Seq<char> {
    if i < 0 {
        seq!['-'] + dec_digits(-i)
    } else {
        dec_digits(i)
    }
}

fn digit(d: u64) -> (c: char)
    requires
        d < 10,
    ensures
        c == digit_char(d as int),
{
    if d == 0 {
        '0'
    } else if d == 1 {
        '1'
    } else if d == 2 {
        '2'
    } else if d == 3 {
        '3'
    } else if d == 4 {
        '4'
    } else if d == 5 {
        '5'
    } else if d == 6 {
        '6'
    } else if d == 7 {
        '7'
    } else if d == 8 {
        '8'
    } else {
        '9'
    }
}

/// Append the decimal text of `n` to `out`.
pub fn push_u64_text(n: u64, out: &mut Vec<char>)
    ensures
        final(out)@ == old(out)@ + dec_digits(n as int),
    decreases n,
{
    if n < 10 {
        out.push(digit(n));
    } else {
        push_u64_text(n / 10, out);
        out.push(digit(n % 10));
    }
}

/// Append the decimal text of `i`, sign included, to `out`.
pub fn push_i64_text(i: i64, out: &mut Vec<char>)
    ensures
        final(out)@ == old(out)@ + int_text(i as int),
{
    if i >= 0 {
        push_u64_text(i as u64, out);
    } else {
        out.push('-');
        let mag: u64 = if i == i64::MIN {
            9223372036854775808u64
        } else {
            (-i) as u64
        };
        push_u64_text(mag, out);
        proof {
            assert(old(out)@.push('-') + dec_digits(mag as int) =~= old(out)@ + int_text(
                i as int,
            ));
        }
    }
}

/// Decimal string of a `u64`.
pub fn u64_string(n: u64) -> (r: String)
    ensures
        r@ == dec_digits(n as int),
{
    let mut out: Vec<char> = Vec::new();
    push_u64_text(n, &mut out);
    proof {
        assert(out@ =~= dec_digits(n as int));
    }
    chars_to_string(&out)
}

/// Decimal string of an `i64`, sign included.
pub fn i64_string(i: i64) -> (r: String)
    ensures
        r@ == int_text(i as int),
{
    let mut out: Vec<char> = Vec::new();
    push_i64_text(i, &mut out);
    proof {
        assert(out@ =~= int_text(i as int));
    }
    chars_to_string(&out)
}

/// Relies on `String::from_iter` over `std::slice::Iter`: the string collects
/// exactly the characters of `v`, in order.
#[verifier::external_body]
pub fn chars_to_string(v: &Vec<char>) -> (r: String)
    ensures
        r@ == v@,
{
    v.iter().collect()
}

/// The characters of `s`, as a vector.
pub fn str_to_chars(s: &str) -> (r: Vec<char>)
    ensures
        r@ == s@,
{
    let mut out: Vec<char> = Vec::new();
    let n = s.unicode_len();
    let mut i: usize = 0;
    #[verifier::loop_isolation(false)]
    while i < n
        invariant
            i <= n,
            out@ =~= s@.take(i as int),
        decreases n - i,
    {
        out.push(s.get_char(i));
        i += 1;
    }
    proof {
        assert(out@ =~= s@);
    }
    out
}

/// The concatenation of `a` and `b`.
pub fn concat_str(a: &str, b: &str) -> (r: String)
    ensures
        r@ == a@ + b@,
{
    let mut s = String::from_str(a);
    s.append(b);
    s
}

/// `parts` interleaved with `sep`: empty for no parts, and no trailing
/// separator.
pub open spec fn join_text(parts: Seq<Seq<char>>, sep: Seq<char>) -> Seq<char>
    decreases parts.len(),
{
    if parts.len() == 0 {
        Seq::empty()
    } else if parts.len() == 1 {
        parts[0]
    } else {
        parts[0] + sep + join_text(parts.drop_first(), sep)
    }
}

/// Join the strings of `parts` with separator `sep`.
pub fn join_strings(parts: &Vec<String>, sep: &str) -> (r: String)
    ensures
        r@ == join_text(parts@.map_values(|p: String| p@), sep@),
{
    let ghost pv = parts@.map_values(|p: String| p@);
    let mut out: Vec<char> = Vec::new();
    let n = parts.len();
    let mut i: usize = 0;
    #[verifier::loop_isolation(false)]
    while i < n
        invariant
            i <= n,
            i == 0 ==> out@ == Seq::<char>::empty(),
            0 < i ==> out@ == join_text(pv.take(i as int), sep@),
        decreases n - i,
    {
        if i > 0 {
            let mut sep_chars = str_to_chars(sep);
            out.append(&mut sep_chars);
        }
        let mut part_chars = str_to_chars(parts[i].as_str());
        out.append(&mut part_chars);
        proof {
            lemma_join_take_step(pv, sep@, i as int);
        }
        i += 1;
    }
    proof {
        assert(pv.take(n as int) =~= pv);
    }
    chars_to_string(&out)
}

/// Joining one more part appends a separator (past the first part) and the
/// part itself.
proof fn lemma_join_take_step(parts: Seq<Seq<char>>, sep: Seq<char>, i: int)
    requires
        0 <= i < parts.len(),
    ensures
        i == 0 ==> join_text(parts.take(1), sep) == parts[0],
        i > 0 ==> join_text(parts.take(i + 1), sep) == join_text(parts.take(i), sep) + sep
            + parts[i],
    decreases i,
{
    if i == 0 {
        assert(join_text(parts.take(1), sep) =~= parts[0]);
    } else {
        lemma_join_take_step(parts.drop_first(), sep, i - 1);
        assert(parts.take(i + 1).drop_first() =~= parts.drop_first().take(i));
        assert(parts.take(i).drop_first() =~= parts.drop_first().take(i - 1));
        if i == 1 {
            assert(join_text(parts.take(2), sep) == parts[0] + sep + join_text(
                parts.take(2).drop_first(),
                sep,
            ));
            assert(parts.drop_first().take(1)[0] == parts[1]);
            assert(join_text(parts.drop_first().take(1), sep) == parts[1]);
            assert(join_text(parts.take(1), sep) == parts[0]);
            assert(join_text(parts.take(2), sep) =~= join_text(parts.take(1), sep) + sep
                + parts[1]);
        } else {
            assert(join_text(parts.take(i + 1), sep) == parts[0] + sep + join_text(
                parts.drop_first().take(i),
                sep,
            ));
            assert(join_text(parts.take(i), sep) == parts[0] + sep + join_text(
                parts.drop_first().take(i - 1),
                sep,
            ));
            assert(join_text(parts.take(i + 1), sep) =~= join_text(parts.take(i), sep) + sep
                + parts[i]);
        }
    }
}

} // verus!
