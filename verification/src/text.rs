//! Numbers and fields in the text of extended attributes and paths.

use vstd::prelude::*;

verus! {

/// The value of a digit character, letters counting from ten; 36 for anything else.
pub open spec fn digit_value(b: u8) -> int {
    if 48 <= b <= 57 {
        b - 48
    } else if 97 <= b <= 122 {
        b - 87
    } else if 65 <= b <= 90 {
        b - 55
    } else {
        36
    }
}

/// Whether every character of `s` is a digit in `radix`.
pub open spec fn all_digits(s: Seq<u8>, radix: int) -> bool {
    forall|i: int| 0 <= i < s.len() ==> digit_value(#[trigger] s[i]) < radix
}

/// The number that the digits of `s` spell in `radix`, most significant digit first.
pub open spec fn number(s: Seq<u8>, radix: int) -> int
    decreases s.len(),
{
    if s.len() == 0 {
        0
    } else {
        number(s.drop_last(), radix) * radix + digit_value(s.last())
    }
}

/// `s` without one leading plus sign.
pub open spec fn unsigned(s: Seq<u8>) -> Seq<u8> {
    if s.len() > 0 && s[0] == 43 {
        s.skip(1)
    } else {
        s
    }
}

/// The `u32` that `s` spells in `radix`: at least one digit, after an optional plus sign, nothing
/// but digits, and a value that fits.
pub open spec fn parsed(s: Seq<u8>, radix: int) -> Option<u32> {
    let body = unsigned(s);
    if body.len() > 0 && all_digits(body, radix) && number(body, radix) <= u32::MAX {
        Some(number(body, radix) as u32)
    } else {
        None
    }
}

/// The digits of `n` in `radix`, without leading zeros.
pub open spec fn digits(n: nat, radix: nat) -> Seq<u8>
    decreases n,
{
    if n < radix || radix < 2 {
        seq![(48 + n) as u8]
    } else {
        proof {
            assert(n / radix < n) by (nonlinear_arith)
                requires
                    n >= radix,
                    radix >= 2,
            ;
        }
        digits(n / radix, radix).push((48 + n % radix) as u8)
    }
}

/// The position of the first `sep` in `s`, or the length of `s`.
pub open spec fn field_end(s: Seq<u8>, sep: u8) -> int
    decreases s.len(),
{
    if s.len() == 0 || s[0] == sep {
        0
    } else {
        1 + field_end(s.skip(1), sep)
    }
}

/// The fields of `s` between its separators, at least one.
pub open spec fn fields(s: Seq<u8>, sep: u8) -> Seq<Seq<u8>>
    decreases s.len(),
{
    let end = field_end(s, sep);
    if 0 <= end < s.len() {
        seq![s.take(end)] + fields(s.skip(end + 1), sep)
    } else {
        seq![s]
    }
}

pub proof fn lemma_field_end(s: Seq<u8>, sep: u8)
    ensures
        0 <= field_end(s, sep) <= s.len(),
        field_end(s, sep) < s.len() ==> s[field_end(s, sep)] == sep,
        forall|i: int| 0 <= i < field_end(s, sep) ==> s[i] != sep,
    decreases s.len(),
{
    if s.len() > 0 && s[0] != sep {
        lemma_field_end(s.skip(1), sep);
        assert forall|i: int| 0 <= i < field_end(s, sep) implies s[i] != sep by {
            if i > 0 {
                assert(s[i] == s.skip(1)[i - 1]);
            }
        }
    }
}

/// `end` is where the first field of `s` ends when no separator stands before it and one stands
/// there, or `s` ends there.
pub proof fn lemma_field_end_is(s: Seq<u8>, sep: u8, end: int)
    requires
        0 <= end <= s.len(),
        end < s.len() ==> s[end] == sep,
        forall|i: int| 0 <= i < end ==> s[i] != sep,
    ensures
        field_end(s, sep) == end,
{
    lemma_field_end(s, sep);
    let found = field_end(s, sep);
    if found < end {
        assert(s[found] == sep);
    }
}

/// A field, its separator and the rest are split into that field and the fields of the rest.
pub proof fn lemma_fields_cons(first: Seq<u8>, sep: u8, rest: Seq<u8>)
    requires
        forall|i: int| 0 <= i < first.len() ==> first[i] != sep,
    ensures
        fields(first.push(sep) + rest, sep) == seq![first] + fields(rest, sep),
{
    let s = first.push(sep) + rest;
    lemma_field_end_is(s, sep, first.len() as int);
    assert(s.take(first.len() as int) =~= first);
    assert(s.skip(first.len() as int + 1) =~= rest);
}

/// Text without a separator is one field.
pub proof fn lemma_fields_single(s: Seq<u8>, sep: u8)
    requires
        forall|i: int| 0 <= i < s.len() ==> s[i] != sep,
    ensures
        fields(s, sep) == seq![s],
{
    lemma_field_end_is(s, sep, s.len() as int);
}

proof fn lemma_number_grows(s: Seq<u8>, n: int, radix: int)
    requires
        0 <= n <= s.len(),
        1 <= radix,
    ensures
        0 <= number(s.take(n), radix) <= number(s, radix),
    decreases s.len() - n, s.len(),
{
    if n < s.len() {
        lemma_number_grows(s.drop_last(), n, radix);
        assert(s.drop_last().take(n) =~= s.take(n));
        let rest = number(s.drop_last(), radix);
        assert(rest * radix >= rest) by (nonlinear_arith)
            requires
                rest >= 0,
                radix >= 1,
        ;
    } else {
        assert(s.take(n) =~= s);
        if s.len() > 0 {
            lemma_number_grows(s.drop_last(), s.len() - 1, radix);
            let rest = number(s.drop_last(), radix);
            assert(s.drop_last().take(s.len() - 1) =~= s.drop_last());
            assert(rest * radix >= 0) by (nonlinear_arith)
                requires
                    rest >= 0,
                    radix >= 1,
            ;
        }
    }
}

/// The digits of a number spell that number, with nothing else among them.
pub proof fn lemma_digits_spell_number(n: nat, radix: nat)
    requires
        2 <= radix <= 10,
    ensures
        digits(n, radix).len() > 0,
        forall|i: int| 0 <= i < digits(n, radix).len() ==> 48 <= #[trigger] digits(n, radix)[i] <= 57,
        all_digits(digits(n, radix), radix as int),
        number(digits(n, radix), radix as int) == n,
    decreases n,
{
    let d = digits(n, radix);
    if n < radix {
        assert(d.drop_last() =~= Seq::<u8>::empty());
        assert(number(d.drop_last(), radix as int) == 0);
        assert(number(d, radix as int) == 0 * (radix as int) + digit_value(d.last()));
    } else {
        assert(n / radix < n) by (nonlinear_arith)
            requires
                n >= radix,
                radix >= 2,
        ;
        lemma_digits_spell_number(n / radix, radix);
        assert(d.drop_last() =~= digits(n / radix, radix));
        assert(n % radix < radix) by (nonlinear_arith)
            requires
                radix >= 2,
        ;
        assert((n / radix) * radix + n % radix == n) by (nonlinear_arith)
            requires
                radix >= 2,
        ;
    }
}

/// A zero in front changes no number.
pub proof fn lemma_leading_zero(s: Seq<u8>, radix: int)
    ensures
        number(seq![48u8] + s, radix) == number(s, radix),
    decreases s.len(),
{
    let zeroed = seq![48u8] + s;
    if s.len() == 0 {
        assert(zeroed.drop_last() =~= Seq::<u8>::empty());
        assert(number(zeroed.drop_last(), radix) == 0);
        assert(0 * radix == 0) by (nonlinear_arith);
    } else {
        assert(zeroed.drop_last() =~= seq![48u8] + s.drop_last());
        lemma_leading_zero(s.drop_last(), radix);
    }
}

/// What is written for a number is read back as that number.
pub proof fn law_number_text_round_trip(n: u32, radix: nat)
    requires
        2 <= radix <= 10,
    ensures
        parsed(digits(n as nat, radix), radix as int) == Some(n),
{
    lemma_digits_spell_number(n as nat, radix);
    assert(digits(n as nat, radix)[0] != 43);
}

/// A number below `radix` to the power `width` is written in at most `width` digits.
pub proof fn lemma_digits_width(n: nat, radix: nat, width: nat)
    requires
        2 <= radix,
        1 <= width,
        n < vstd::arithmetic::power::pow(radix as int, width),
    ensures
        digits(n, radix).len() <= width,
    decreases width,
{
    use_pow(radix, width);
    if n >= radix {
        if width == 1 {
            assert(vstd::arithmetic::power::pow(radix as int, 0) == 1);
        } else {
            let smaller = vstd::arithmetic::power::pow(radix as int, (width - 1) as nat);
            assert(n / radix < smaller) by (nonlinear_arith)
                requires
                    n < radix * smaller,
                    radix >= 2,
            ;
            lemma_digits_width(n / radix, radix, (width - 1) as nat);
        }
    }
}

proof fn use_pow(radix: nat, width: nat)
    requires
        1 <= width,
    ensures
        vstd::arithmetic::power::pow(radix as int, width) == radix
            * vstd::arithmetic::power::pow(radix as int, (width - 1) as nat),
        vstd::arithmetic::power::pow(radix as int, 0) == 1,
{
    vstd::arithmetic::power::lemma_pow0(radix as int);
    reveal(vstd::arithmetic::power::pow);
}

fn value_of_digit(b: u8) -> (v: u32)
    ensures
        v == digit_value(b),
{
    if 48 <= b && b <= 57 {
        (b - 48) as u32
    } else if 97 <= b && b <= 122 {
        (b - 87) as u32
    } else if 65 <= b && b <= 90 {
        (b - 55) as u32
    } else {
        36
    }
}

/// Reads one field of an attribute value as a number in `radix`.
pub fn item_to_value(item: &[u8], radix: u32) -> (value: Option<u32>)
    requires
        2 <= radix <= 36,
    ensures
        value == parsed(item@, radix as int),
{
    let start: usize = if item.len() > 0 && item[0] == 43 {
        1
    } else {
        0
    };
    let ghost body = unsigned(item@);
    assert(body =~= item@.skip(start as int));
    if start == item.len() {
        return None;
    }
    let mut value: u64 = 0;
    let mut i: usize = start;
    while i < item.len()
        invariant
            start <= i <= item@.len(),
            start == 0 || start == 1,
            2 <= radix <= 36,
            body == item@.skip(start as int),
            body == unsigned(item@),
            all_digits(body.take(i - start), radix as int),
            value == number(body.take(i - start), radix as int),
            value <= u32::MAX,
        decreases item.len() - i,
    {
        let digit: u32 = value_of_digit(item[i]);
        assert(body[i - start] == item@[i as int]);
        if digit >= radix {
            assert(digit_value(body[i - start]) >= radix);
            return None;
        }
        assert(value * radix <= u32::MAX * 36) by (nonlinear_arith)
            requires
                value <= u32::MAX,
                2 <= radix <= 36,
        ;
        let next: u64 = value * (radix as u64) + digit as u64;
        proof {
            let longer = body.take(i + 1 - start);
            assert(longer.drop_last() =~= body.take(i - start));
            assert(number(longer, radix as int) == next);
            lemma_number_grows(body, i + 1 - start, radix as int);
        }
        if next > u32::MAX as u64 {
            return None;
        }
        value = next;
        i = i + 1;
    }
    assert(body.take(i - start) =~= body);
    Some(value as u32)
}

/// Appends the digits of `n` to `out`.
pub fn push_number(out: &mut Vec<u8>, n: u32, radix: u32)
    requires
        2 <= radix <= 10,
    ensures
        final(out)@ == old(out)@ + digits(n as nat, radix as nat),
    decreases n,
{
    if n >= radix {
        let high: u32 = n / radix;
        assert(high < n) by (nonlinear_arith)
            requires
                high == n / radix,
                n >= radix,
                radix >= 2,
        ;
        push_number(out, high, radix);
        assert(out@ == old(out)@ + digits((n as nat) / (radix as nat), radix as nat));
    }
    let low: u32 = n % radix;
    assert(low < radix) by (nonlinear_arith)
        requires
            low == n % radix,
            radix >= 2,
    ;
    let ghost before = out@;
    out.push(48 + low as u8);
    assert((n as nat) % (radix as nat) == low);
    assert(out@ =~= before.push((48 + (n as nat) % (radix as nat)) as u8));
    assert(n < radix ==> low == n) by (nonlinear_arith)
        requires
            low == n % radix,
            radix >= 2,
    ;
    assert(out@ =~= old(out)@ + digits(n as nat, radix as nat));
}

/// The end of the field of `buf` that starts at `from`.
pub fn find_field_end(buf: &[u8], from: usize, sep: u8) -> (end: usize)
    requires
        from <= buf@.len(),
    ensures
        from <= end <= buf@.len(),
        end == from + field_end(buf@.skip(from as int), sep),
{
    let mut i: usize = from;
    while i < buf.len() && buf[i] != sep
        invariant
            from <= i <= buf@.len(),
            forall|j: int| from <= j < i ==> buf@[j] != sep,
        decreases buf.len() - i,
    {
        i = i + 1;
    }
    proof {
        lemma_field_end_is(buf@.skip(from as int), sep, i - from);
    }
    i
}

/// One more digit after a number that was read makes the number that follows from it, where that still
/// fits, and anything but a digit spoils the whole. So it is fixed digit by digit what a text is read as.
pub proof fn law_numbers_are_read_digit_by_digit(s: Seq<u8>, b: u8, radix: int)
    requires
        2 <= radix <= 36,
        s.len() > 0,
        s != seq![43u8],
    ensures
        parsed(s.push(b), radix) == (match parsed(s, radix) {
            Some(n) => if digit_value(b) < radix && n * radix + digit_value(b) <= u32::MAX {
                Some((n * radix + digit_value(b)) as u32)
            } else {
                None
            },
            None => None,
        }),
        parsed(Seq::empty(), radix) is None,
        parsed(seq![43u8], radix) is None,
        parsed(seq![b], radix) == (if digit_value(b) < radix {
            Some(digit_value(b) as u32)
        } else {
            None
        }),
{
    let longer = s.push(b);
    let body = unsigned(s);
    assert(unsigned(longer) =~= body.push(b));
    assert(body.push(b).drop_last() =~= body);
    assert(s.len() == 1 && s[0] == 43 ==> s =~= seq![43u8]);
    assert forall|i: int| 0 <= i < body.len() implies (#[trigger] body.push(b)[i]) == body[i] by {}
    if all_digits(body.push(b), radix) {
        assert forall|i: int| 0 <= i < body.len() implies digit_value(#[trigger] body[i]) < radix by {
            assert(body.push(b)[i] == body[i]);
        }
        assert(body.push(b)[body.len() as int] == b);
    }
    let n = number(body, radix);
    lemma_number_grows(body, 0, radix);
    assert(number(body.take(0), radix) == 0) by {
        assert(body.take(0).len() == 0);
    }
    assert(n > u32::MAX ==> n * radix + digit_value(b) > u32::MAX) by (nonlinear_arith)
        requires
            radix >= 2,
            digit_value(b) >= 0,
    ;
    assert(unsigned(seq![43u8]) =~= Seq::<u8>::empty());
    let one = seq![b];
    if b != 43 {
        assert(one.drop_last() =~= Seq::<u8>::empty());
        assert(number(one.drop_last(), radix) == 0);
        assert(number(one, radix) == 0 * radix + digit_value(b));
        assert(0 * radix == 0) by (nonlinear_arith);
        assert(one[0] == b);
    } else {
        assert(one =~= seq![43u8]);
    }
}

/// Which digits there are: those of ten, and letters of either case from ten on.
pub proof fn law_digits_have_their_values(n: int)
    requires
        0 <= n < 36,
    ensures
        n < 10 ==> digit_value((48 + n) as u8) == n,
        n >= 10 ==> digit_value((87 + n) as u8) == n && digit_value((55 + n) as u8) == n,
{
}

/// A number is written without zeros in front.
pub proof fn law_digits_start_with_no_zero(n: nat, radix: nat)
    requires
        2 <= radix <= 10,
        n > 0,
    ensures
        digits(n, radix).len() > 0,
        digits(n, radix)[0] != 48,
    decreases n,
{
    if n >= radix {
        assert(0 < n / radix < n) by (nonlinear_arith)
            requires
                n >= radix,
                radix >= 2,
        ;
        law_digits_start_with_no_zero(n / radix, radix);
    }
}

} // verus!
