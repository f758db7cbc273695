use vstd::prelude::*;

verus! {

/// Compares two string slices by their characters.
pub fn str_equal(a: &str, b: &str) -> (r: bool)
    ensures
        r == (a@ == b@),
{
    let x = a.to_owned();
    let y = b.to_owned();
    x == y
}

/// Builds an owned string holding the characters of `s`.
pub fn owned(s: &str) -> (r: String)
    ensures
        r@ == s@,
{
    s.to_owned()
}

/// The character of a decimal digit.
pub open spec fn digit_char(d: nat) -> char {
    if d == 0 { '0' }
    else if d == 1 { '1' }
    else if d == 2 { '2' }
    else if d == 3 { '3' }
    else if d == 4 { '4' }
    else if d == 5 { '5' }
    else if d == 6 { '6' }
    else if d == 7 { '7' }
    else if d == 8 { '8' }
    else { '9' }
}

/// The decimal digits of a natural number, most significant first, without
/// leading zeros (zero is the single digit `0`).
pub open spec fn nat_decimal(n: nat) -> Seq<char>
    decreases n,
{
    if n < 10 {
        seq![digit_char(n)]
    } else {
        nat_decimal(n / 10).push(digit_char(n % 10))
    }
}

/// The decimal text of an integer, as `to_string` writes it: a minus sign
/// before the digits of a negative number.
pub open spec fn int_decimal(n: int) -> Seq<char> {
    if n < 0 {
        seq!['-'] + nat_decimal((-n) as nat)
    } else {
        nat_decimal(n as nat)
    }
}

fn digit_text(d: u64) -> (r: &'static str)
    requires
        d < 10,
    ensures
        r@ == seq![digit_char(d as nat)],
{
    if d == 0 { proof { reveal_strlit("0"); } "0" }
    else if d == 1 { proof { reveal_strlit("1"); } "1" }
    else if d == 2 { proof { reveal_strlit("2"); } "2" }
    else if d == 3 { proof { reveal_strlit("3"); } "3" }
    else if d == 4 { proof { reveal_strlit("4"); } "4" }
    else if d == 5 { proof { reveal_strlit("5"); } "5" }
    else if d == 6 { proof { reveal_strlit("6"); } "6" }
    else if d == 7 { proof { reveal_strlit("7"); } "7" }
    else if d == 8 { proof { reveal_strlit("8"); } "8" }
    else { proof { reveal_strlit("9"); } "9" }
}

fn push_decimal(n: u64, out: &mut String)
    ensures
        final(out)@ == old(out)@ + nat_decimal(n as nat),
    decreases n,
{
    if n >= 10 {
        push_decimal(n / 10, out);
    }
    out.append(digit_text(n % 10));
}

/// The decimal text of an unsigned number.
pub fn u64_to_decimal(n: u64) -> (r: String)
    ensures
        r@ == nat_decimal(n as nat),
{
    let mut out = String::new();
    push_decimal(n, &mut out);
    out
}

/// The decimal text of a signed number, as `i64::to_string` writes it.
pub fn i64_to_decimal(n: i64) -> (r: String)
    ensures
        r@ == int_decimal(n as int),
{
    let mut out = String::new();
    if n < 0 {
        proof { reveal_strlit("-"); }
        out.append("-");
        let magnitude: u64 = (-(n as i128)) as u64;
        push_decimal(magnitude, &mut out);
    } else {
        push_decimal(n as u64, &mut out);
    }
    out
}

/// The decimal text of a 32-bit signed number, as `i32::to_string` writes it.
pub fn i32_to_decimal(n: i32) -> (r: String)
    ensures
        r@ == int_decimal(n as int),
{
    i64_to_decimal(n as i64)
}


/// The number a text of decimal digits stands for, most significant first.
pub open spec fn decimal_value(s: Seq<char>) -> int
    decreases s.len(),
{
    if s.len() == 0 {
        0
    } else {
        decimal_value(s.drop_last()) * 10 + (s.last() as int - '0' as int)
    }
}

/// Whether every character of a text is a decimal digit.
pub open spec fn all_digits(s: Seq<char>) -> bool {
    forall|i: int| 0 <= i < s.len() ==> '0' <= #[trigger] s[i] <= '9'
}

proof fn lemma_digit_char_value(d: nat)
    requires
        d < 10,
    ensures
        digit_char(d) as int - '0' as int == d,
        '0' <= digit_char(d) <= '9',
{
}

/// The decimal text of a number is made of digits, has no leading zero and
/// reads back as the number.
pub proof fn lemma_nat_decimal_reads_back(n: nat)
    ensures
        all_digits(nat_decimal(n)),
        nat_decimal(n).len() >= 1,
        n > 0 ==> nat_decimal(n)[0] != '0',
        decimal_value(nat_decimal(n)) == n,
    decreases n,
{
    if n < 10 {
        lemma_digit_char_value(n);
        assert(nat_decimal(n).drop_last() =~= Seq::<char>::empty());
        assert(decimal_value(Seq::<char>::empty()) == 0);
        assert(decimal_value(nat_decimal(n)) == 0 * 10 + (digit_char(n) as int - '0' as int));
    } else {
        lemma_nat_decimal_reads_back(n / 10);
        lemma_digit_char_value(n % 10);
        let s = nat_decimal(n);
        let p = nat_decimal(n / 10);
        assert(s == p.push(digit_char(n % 10)));
        assert(s.drop_last() =~= p);
        vstd::arithmetic::div_mod::lemma_fundamental_div_mod(n as int, 10);
        assert(s.last() == digit_char(n % 10));
        assert(decimal_value(s) == decimal_value(p) * 10 + (digit_char(n % 10) as int - '0' as int));
        assert(decimal_value(s) == (n / 10) * 10 + n % 10);
        assert(n / 10 > 0);
        assert(s[0] == p[0]);
        assert forall|i: int| 0 <= i < s.len() implies '0' <= #[trigger] s[i] <= '9' by {
            if i < p.len() {
                assert(s[i] == p[i]);
            }
        }
    }
}

/// The decimal text of an integer is its digits, after a minus sign exactly
/// when it is negative, and reads back as the integer.
pub proof fn lemma_int_decimal_reads_back(n: int)
    ensures
        (int_decimal(n).len() > 0 && int_decimal(n)[0] == '-') <==> n < 0,
        n < 0 ==> decimal_value(int_decimal(n).drop_first()) == -n,
        n >= 0 ==> decimal_value(int_decimal(n)) == n,
{
    if n < 0 {
        lemma_nat_decimal_reads_back((-n) as nat);
        assert(int_decimal(n).drop_first() =~= nat_decimal((-n) as nat));
    } else {
        lemma_nat_decimal_reads_back(n as nat);
        assert(nat_decimal(n as nat)[0] != '-');
    }
}

} // verus!
