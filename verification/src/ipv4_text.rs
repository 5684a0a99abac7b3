//! Dotted-decimal text of an IPv4 address, as the DHCP report line prints it.
use vstd::prelude::*;

verus! {

/// ASCII code of the digit `0`.
pub open spec fn ascii_zero() -> int {
    48
}

/// ASCII code of the separator `.`.
pub open spec fn ascii_dot() -> u8 {
    46
}

/// Decimal digits of `n`, most significant first, without leading zeros
/// (zero itself is the single digit `0`).
pub open spec fn decimal_digits(n: nat) -> Seq<u8>
    decreases n,
{
    if n < 10 {
        seq![(ascii_zero() + n) as u8]
    } else {
        decimal_digits(n / 10).push((ascii_zero() + n % 10) as u8)
    }
}

/// The number that a sequence of ASCII digits denotes in base ten.
pub open spec fn decimal_value(digits: Seq<u8>) -> int
    decreases digits.len(),
{
    if digits.len() == 0 {
        0
    } else {
        decimal_value(digits.drop_last()) * 10 + (digits.last() - ascii_zero())
    }
}

/// Every byte is an ASCII digit.
pub open spec fn all_digits(s: Seq<u8>) -> bool {
    forall|i: int| 0 <= i < s.len() ==> 48 <= #[trigger] s[i] <= 57
}

/// Dotted-decimal text of a four-octet address: `a.b.c.d`.
pub open spec fn ipv4_text(address: Seq<u8>) -> Seq<u8> {
    decimal_digits(address[0] as nat) + (seq![ascii_dot()] + (decimal_digits(address[1] as nat) + (
    seq![ascii_dot()] + (decimal_digits(address[2] as nat) + (seq![ascii_dot()]
        + decimal_digits(address[3] as nat))))))
}

proof fn lemma_decimal_digits_shape(n: nat)
    ensures
        decimal_digits(n).len() >= 1,
        all_digits(decimal_digits(n)),
        decimal_value(decimal_digits(n)) == n,
    decreases n,
{
    let d = decimal_digits(n);
    if n >= 10 {
        lemma_decimal_digits_shape(n / 10);
        assert(d.drop_last() =~= decimal_digits(n / 10));
        assert(d.last() == (48 + n % 10) as u8);
        assert(decimal_value(d) == decimal_value(d.drop_last()) * 10 + (d.last() - 48));
        assert((n / 10) * 10 + n % 10 == n);
    } else {
        assert(d.drop_last() =~= Seq::<u8>::empty());
        assert(decimal_value(d) == decimal_value(d.drop_last()) * 10 + (d.last() - 48));
    }
}

/// Two digit strings, each followed by a dot, split a text at the same place.
proof fn lemma_split_at_first_dot(d1: Seq<u8>, r1: Seq<u8>, d2: Seq<u8>, r2: Seq<u8>)
    requires
        all_digits(d1),
        all_digits(d2),
        d1 + (seq![ascii_dot()] + r1) == d2 + (seq![ascii_dot()] + r2),
    ensures
        d1 == d2,
        r1 == r2,
{
    let t = d1 + (seq![ascii_dot()] + r1);
    let u = d2 + (seq![ascii_dot()] + r2);
    if d1.len() < d2.len() {
        assert(t[d1.len() as int] == ascii_dot());
        assert(u[d1.len() as int] == d2[d1.len() as int]);
    } else if d2.len() < d1.len() {
        assert(u[d2.len() as int] == ascii_dot());
        assert(t[d2.len() as int] == d1[d2.len() as int]);
    }
    assert(d1.len() == d2.len());
    assert(d1 =~= t.take(d1.len() as int));
    assert(d2 =~= u.take(d2.len() as int));
    assert(r1 =~= t.skip(d1.len() + 1int));
    assert(r2 =~= u.skip(d2.len() + 1int));
}

proof fn lemma_decimal_digits_injective(m: nat, n: nat)
    requires
        decimal_digits(m) == decimal_digits(n),
    ensures
        m == n,
{
    lemma_decimal_digits_shape(m);
    lemma_decimal_digits_shape(n);
}

/// Law: the dotted-decimal text determines the address. Two four-octet
/// addresses whose texts are equal are the same address.
pub proof fn lemma_ipv4_text_injective(a: Seq<u8>, b: Seq<u8>)
    requires
        a.len() == 4,
        b.len() == 4,
        ipv4_text(a) == ipv4_text(b),
    ensures
        a == b,
{
    lemma_decimal_digits_shape(a[0] as nat);
    lemma_decimal_digits_shape(a[1] as nat);
    lemma_decimal_digits_shape(a[2] as nat);
    lemma_decimal_digits_shape(b[0] as nat);
    lemma_decimal_digits_shape(b[1] as nat);
    lemma_decimal_digits_shape(b[2] as nat);
    let ra0 = decimal_digits(a[1] as nat) + (seq![ascii_dot()] + (decimal_digits(a[2] as nat) + (
    seq![ascii_dot()] + decimal_digits(a[3] as nat))));
    let rb0 = decimal_digits(b[1] as nat) + (seq![ascii_dot()] + (decimal_digits(b[2] as nat) + (
    seq![ascii_dot()] + decimal_digits(b[3] as nat))));
    lemma_split_at_first_dot(decimal_digits(a[0] as nat), ra0, decimal_digits(b[0] as nat), rb0);
    let ra1 = decimal_digits(a[2] as nat) + (seq![ascii_dot()] + decimal_digits(a[3] as nat));
    let rb1 = decimal_digits(b[2] as nat) + (seq![ascii_dot()] + decimal_digits(b[3] as nat));
    lemma_split_at_first_dot(decimal_digits(a[1] as nat), ra1, decimal_digits(b[1] as nat), rb1);
    lemma_split_at_first_dot(
        decimal_digits(a[2] as nat),
        decimal_digits(a[3] as nat),
        decimal_digits(b[2] as nat),
        decimal_digits(b[3] as nat),
    );
    lemma_decimal_digits_injective(a[0] as nat, b[0] as nat);
    lemma_decimal_digits_injective(a[1] as nat, b[1] as nat);
    lemma_decimal_digits_injective(a[2] as nat, b[2] as nat);
    lemma_decimal_digits_injective(a[3] as nat, b[3] as nat);
    assert(a =~= b);
}

/// Appends the decimal digits of one octet to `out`.
fn push_decimal(out: &mut Vec<u8>, value: u8)
    ensures
        final(out)@ == old(out)@ + decimal_digits(value as nat),
{
    proof {
        reveal_with_fuel(decimal_digits, 3);
    }
    if value >= 100 {
        out.push(48 + value / 100);
        out.push(48 + (value / 10) % 10);
        out.push(48 + value % 10);
        assert(decimal_digits(value as nat) =~= seq![
            (48 + value / 100) as u8,
            (48 + (value / 10) % 10) as u8,
            (48 + value % 10) as u8,
        ]);
    } else if value >= 10 {
        out.push(48 + value / 10);
        out.push(48 + value % 10);
        assert(decimal_digits(value as nat) =~= seq![(48 + value / 10) as u8, (48 + value % 10) as u8]);
    } else {
        out.push(48 + value);
    }
    assert(final(out)@ =~= old(out)@ + decimal_digits(value as nat));
}

/// Appends the dotted-decimal text of `address` (no leading zeros in any
/// octet) to `out`.
pub fn write_ipv4(out: &mut Vec<u8>, address: [u8; 4])
    ensures
        final(out)@ == old(out)@ + ipv4_text(address@),
{
    let ghost start = out@;
    push_decimal(out, address[0]);
    out.push(46);
    push_decimal(out, address[1]);
    out.push(46);
    push_decimal(out, address[2]);
    out.push(46);
    push_decimal(out, address[3]);
    assert(out@ =~= start + ipv4_text(address@));
}

} // verus!
