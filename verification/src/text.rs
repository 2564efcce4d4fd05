//! Text building blocks shared by the glue generators and the runtime.

use vstd::prelude::*;
use vstd::string::*;

verus! {

/// `String::push` appends exactly one character to the end of the string.
pub assume_specification[ String::push ](s: &mut String, c: char)
    ensures
        final(s)@ == old(s)@.push(c),
;

/// The character that writes the decimal digit `d`.
pub open spec fn digit_char(d: int) -> char {
    if d == 0 {
        '0'
    } else if d == 1 {
        '1'
    } else if d == 2 {
        '2'
    } else if d == 3 {
        '3'
    } else if d == 4 {
        '4'
    } else if d == 5 {
        '5'
    } else if d == 6 {
        '6'
    } else if d == 7 {
        '7'
    } else if d == 8 {
        '8'
    } else {
        '9'
    }
}

/// The decimal numeral of `n`, most significant digit first, without
/// leading zeros.
pub open spec fn decimal(n: nat) -> Seq<char>
    decreases n,
{
    if n < 10 {
        seq![digit_char(n as int)]
    } else {
        decimal(n / 10).push(digit_char((n % 10) as int))
    }
}

/// The digits of `n` from the least significant one upwards.
pub open spec fn decimal_reversed(n: nat) -> Seq<char>
    decreases n,
{
    if n < 10 {
        seq![digit_char(n as int)]
    } else {
        seq![digit_char((n % 10) as int)] + decimal_reversed(n / 10)
    }
}

/// Reading the least-significant-first digits backwards gives the numeral.
pub proof fn lemma_decimal_reversed(n: nat)
    ensures
        decimal_reversed(n).reverse() == decimal(n),
    decreases n,
{
    if n < 10 {
        assert(decimal_reversed(n).reverse() =~= decimal(n));
    } else {
        lemma_decimal_reversed(n / 10);
        let head = seq![digit_char((n % 10) as int)];
        let tail = decimal_reversed(n / 10);
        assert((head + tail).reverse() =~= tail.reverse().push(head[0]));
    }
}

/// A numeral is never empty.
pub proof fn lemma_decimal_nonempty(n: nat)
    ensures
        decimal(n).len() >= 1,
    decreases n,
{
    if n >= 10 {
        lemma_decimal_nonempty(n / 10);
    }
}

fn digit_of(d: u64) -> (c: char)
    requires
        d < 10,
    ensures
        c == digit_char(d as int),
{
    if d == 0 {
        '0'
    } else if d == 1 {
        '1'
    } else if d == 2 {
        '2'
    } else if d == 3 {
        '3'
    } else if d == 4 {
        '4'
    } else if d == 5 {
        '5'
    } else if d == 6 {
        '6'
    } else if d == 7 {
        '7'
    } else if d == 8 {
        '8'
    } else {
        '9'
    }
}

/// Writes `n` in decimal.
pub fn decimal_string(n: u64) -> (text: String)
    ensures
        text@ == decimal(n as nat),
{
    let mut digits: Vec<char> = Vec::new();
    let mut rest: u64 = n;
    while rest >= 10
        invariant
            decimal_reversed(n as nat) == digits@ + decimal_reversed(rest as nat),
        decreases rest,
    {
        let d = digit_of(rest % 10);
        proof {
            let tail = decimal_reversed((rest / 10) as nat);
            assert(digits@.push(d) + tail =~= digits@ + (seq![d] + tail));
        }
        digits.push(d);
        rest = rest / 10;
    }
    let last = digit_of(rest);
    digits.push(last);
    assert(digits@ =~= decimal_reversed(n as nat));
    let mut text = String::new();
    let mut i: usize = digits.len();
    while i > 0
        invariant
            i <= digits.len(),
            text@ == digits@.reverse().take(digits.len() - i),
        decreases i,
    {
        i = i - 1;
        text.push(digits[i]);
        assert(digits@.reverse().take(digits.len() - i) =~= digits@.reverse().take(
            digits.len() - i - 1,
        ).push(digits@[i as int]));
    }
    proof {
        assert(digits@.reverse().take(digits.len() as int) =~= digits@.reverse());
        lemma_decimal_reversed(n as nat);
    }
    text
}

/// Whether two texts hold the same characters.
pub fn text_eq(a: &str, b: &str) -> (same: bool)
    ensures
        same == (a@ == b@),
{
    let left = a.to_owned();
    let right = b.to_owned();
    left == right
}

/// Whether `c` occurs in `text`.
pub open spec fn has_char(text: Seq<char>, c: char) -> bool {
    exists|i: int| 0 <= i < text.len() && text[i] == c
}

/// Whether a name needs escaping in the hardware description language: it holds a
/// backslash or a space.
pub open spec fn is_escaped_name(name: Seq<char>) -> bool {
    has_char(name, '\\') || has_char(name, ' ')
}

/// Decides [`is_escaped_name`].
pub fn check_escaped_name(name: &str) -> (escaped: bool)
    ensures
        escaped == is_escaped_name(name@),
{
    let mut found = false;
    for c in iter: name.chars()
        invariant
            iter.seq() == name@,
            found == (exists|i: int|
                0 <= i < iter.index() && (name@[i] == '\\' || name@[i] == ' ')),
    {
        if c == '\\' || c == ' ' {
            found = true;
        }
    }
    found
}

/// The texts of `parts` one after another, with `separator` between
/// neighbours.
pub open spec fn joined(parts: Seq<Seq<char>>, separator: Seq<char>) -> Seq<char>
    decreases parts.len(),
{
    if parts.len() == 0 {
        Seq::empty()
    } else if parts.len() == 1 {
        parts[0]
    } else {
        joined(parts.drop_last(), separator) + separator + parts.last()
    }
}

/// Builds [`joined`].
pub fn join(parts: &Vec<String>, separator: &str) -> (text: String)
    ensures
        text@ == joined(parts.deep_view(), separator@),
{
    let mut text = String::new();
    let mut i: usize = 0;
    while i < parts.len()
        invariant
            i <= parts.len(),
            text@ == joined(parts.deep_view().take(i as int), separator@),
        decreases parts.len() - i,
    {
        let ghost before = parts.deep_view().take(i as int);
        let ghost after = parts.deep_view().take(i + 1);
        proof {
            assert(after.drop_last() =~= before);
            assert(after.last() == parts[i as int]@);
        }
        if i > 0 {
            text.append(separator);
            text.append(parts[i].as_str());
        } else {
            text.append(parts[i].as_str());
            assert(text@ =~= parts[i as int]@);
            assert(after[0] == parts[i as int]@);
        }
        i = i + 1;
    }
    assert(parts.deep_view().take(parts.len() as int) =~= parts.deep_view());
    text
}

/// A numeral has one digit exactly when the number is below ten.
pub proof fn lemma_decimal_length(n: nat)
    ensures
        decimal(n).len() >= 1,
        decimal(n).len() == 1 <==> n < 10,
    decreases n,
{
    if n >= 10 {
        lemma_decimal_length(n / 10);
    }
}

/// No numeral holds anything but digits; in particular none holds a slash
/// or an underscore.
pub proof fn lemma_decimal_digits(n: nat, i: int)
    requires
        0 <= i < decimal(n).len(),
    ensures
        exists|d: int| 0 <= d <= 9 && decimal(n)[i] == digit_char(d),
        decimal(n)[i] != '/',
        decimal(n)[i] != '_',
    decreases n,
{
    if n < 10 {
        assert(decimal(n)[i] == digit_char(n as int));
    } else {
        if i < decimal(n / 10).len() {
            lemma_decimal_digits(n / 10, i);
            assert(decimal(n)[i] == decimal(n / 10)[i]);
        } else {
            assert(decimal(n)[i] == digit_char((n % 10) as int));
        }
    }
}

/// The numeral tells the number: two numbers with one numeral are one
/// number.
pub proof fn lemma_decimal_determined(n: nat, m: nat)
    requires
        decimal(n) == decimal(m),
    ensures
        n == m,
    decreases n,
{
    lemma_decimal_length(n);
    lemma_decimal_length(m);
    if n < 10 {
        assert(decimal(n)[0] == digit_char(n as int));
        assert(decimal(m)[0] == digit_char(m as int));
    } else {
        let high = decimal(n / 10);
        let other = decimal(m / 10);
        assert(decimal(n).last() == digit_char((n % 10) as int));
        assert(decimal(m).last() == digit_char((m % 10) as int));
        assert(decimal(n).drop_last() =~= high);
        assert(decimal(m).drop_last() =~= other);
        lemma_decimal_determined(n / 10, m / 10);
    }
}

/// Appends `text` to `list`.
pub fn push_text(list: &mut Vec<String>, text: String)
    ensures
        final(list).deep_view() == old(list).deep_view().push(text@),
{
    let ghost before = list.deep_view();
    let ghost added = text@;
    list.push(text);
    assert(list.deep_view() =~= before.push(added));
}

} // verus!
