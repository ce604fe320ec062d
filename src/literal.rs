//! Literal tokens: the text of integer, character and string literals.
use vstd::prelude::*;

verus! {

/// The digit character for `d < 10`.
pub open spec fn digit_char(d: nat) -> char {
    seq!['0', '1', '2', '3', '4', '5', '6', '7', '8', '9'][d as int]
}

/// Decimal digits of `n`, most significant first, without leading zeros.
pub open spec fn decimal(n: nat) -> Seq<char>
    decreases n,
{
    if n < 10 {
        seq![digit_char(n)]
    } else {
        decimal(n / 10).push(digit_char(n % 10))
    }
}

/// Decimal text of an integer, with a leading `-` when it is negative.
pub open spec fn int_text(i: int) -> Seq<char> {
    if i < 0 {
        seq!['-'] + decimal((-i) as nat)
    } else {
        decimal(i as nat)
    }
}

/// The value of a digit character; 10 for any other character.
pub open spec fn digit_value(c: char) -> nat {
    if '0' <= c && c <= '9' {
        (c as int - '0' as int) as nat
    } else {
        10
    }
}

/// Reads decimal digits back into a number.
pub open spec fn read_decimal(s: Seq<char>) -> nat
    decreases s.len(),
{
    if s.len() == 0 {
        0
    } else {
        read_decimal(s.drop_last()) * 10 + digit_value(s.last())
    }
}

/// Reads an optionally negative decimal number back.
pub open spec fn read_int(s: Seq<char>) -> int {
    if s.len() > 0 && s[0] == '-' {
        -(read_decimal(s.drop_first()) as int)
    } else {
        read_decimal(s) as int
    }
}

proof fn lemma_digit(d: nat)
    requires
        d < 10,
    ensures
        digit_value(digit_char(d)) == d,
        digit_char(d) != '-',
{
    if d == 0 {
    } else if d == 1 {
    } else if d == 2 {
    } else if d == 3 {
    } else if d == 4 {
    } else if d == 5 {
    } else if d == 6 {
    } else if d == 7 {
    } else if d == 8 {
    } else {
    }
}

proof fn lemma_decimal_first(n: nat)
    ensures
        decimal(n).len() > 0,
        decimal(n)[0] != '-',
    decreases n,
{
    if n < 10 {
        lemma_digit(n);
    } else {
        lemma_decimal_first(n / 10);
    }
}

/// Decimal text reads back as the number it was written from.
pub proof fn lemma_decimal_round_trip(n: nat)
    ensures
        read_decimal(decimal(n)) == n,
    decreases n,
{
    if n < 10 {
        lemma_digit(n);
        assert(decimal(n).drop_last() =~= Seq::<char>::empty());
        assert(read_decimal(Seq::<char>::empty()) == 0);
        assert(decimal(n).last() == digit_char(n));
    } else {
        lemma_decimal_round_trip(n / 10);
        lemma_digit(n % 10);
        assert(decimal(n).drop_last() =~= decimal(n / 10));
        assert(decimal(n).last() == digit_char(n % 10));
        assert((n / 10) * 10 + n % 10 == n) by (nonlinear_arith);
    }
}

/// The text of an integer literal reads back as the integer it was written from.
pub proof fn lemma_int_round_trip(i: int)
    ensures
        read_int(int_text(i)) == i,
{
    if i < 0 {
        let d = decimal((-i) as nat);
        lemma_decimal_round_trip((-i) as nat);
        assert((seq!['-'] + d).drop_first() =~= d);
    } else {
        lemma_decimal_round_trip(i as nat);
        lemma_decimal_first(i as nat);
    }
}

/// What a string literal token reads: the text between its quotes escaped.
pub uninterp spec fn string_literal(s: Seq<char>) -> Seq<char>;

/// What a character literal token reads.
pub uninterp spec fn char_literal(c: char) -> Seq<char>;

/// Relies on proc_macro2::Literal::i128_unsuffixed, whose text is the value's
/// `Display` form: its decimal digits, led by `-` when negative.
#[verifier::external_body]
pub(crate) fn signed_digits(n: i128) -> (r: String)
    ensures
        r@ == int_text(n as int),
{
    proc_macro2::Literal::i128_unsuffixed(n).to_string()
}

/// Relies on proc_macro2::Literal::u128_unsuffixed, whose text is the value's
/// `Display` form: its decimal digits.
#[verifier::external_body]
pub(crate) fn unsigned_digits(n: u128) -> (r: String)
    ensures
        r@ == decimal(n as nat),
{
    proc_macro2::Literal::u128_unsuffixed(n).to_string()
}

/// Relies on proc_macro2::Literal::string: the text is the string escaped, between
/// double quotes, and depends on the string alone.
#[verifier::external_body]
pub(crate) fn quoted_str(s: &str) -> (r: String)
    ensures
        r@ == string_literal(s@),
        r@.len() >= 2,
        r@[0] == '"',
        r@.last() == '"',
{
    proc_macro2::Literal::string(s).to_string()
}

/// Relies on proc_macro2::Literal::character: the text is the character escaped,
/// between single quotes, and depends on the character alone.
#[verifier::external_body]
pub(crate) fn quoted_char(c: char) -> (r: String)
    ensures
        r@ == char_literal(c),
        r@.len() >= 3,
        r@[0] == '\'',
        r@.last() == '\'',
{
    proc_macro2::Literal::character(c).to_string()
}

/// The decimal text of a length, as written in an array type.
pub fn length_text(n: usize) -> (r: String)
    ensures
        r@ == decimal(n as nat),
{
    unsigned_digits(n as u128)
}

} // verus!
