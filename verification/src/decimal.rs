//! Decimal rendering of integers as ASCII bytes, used when the relay frames
//! its outbound JSON bodies (chat identifiers, poll cursors, status codes).

use vstd::prelude::*;

verus! {

/// The ASCII decimal digits of a natural number, most significant first.
pub open spec fn dec_nat(n: nat) -> Seq<u8>
    decreases n,
{
    if n < 10 {
        seq![(48 + n) as u8]
    } else {
        dec_nat(n / 10).push((48 + n % 10) as u8)
    }
}

/// The ASCII decimal rendering of an integer, with a leading `-` when negative.
pub open spec fn dec_int(n: int) -> Seq<u8> {
    if n < 0 {
        seq![45u8] + dec_nat((-n) as nat)
    } else {
        dec_nat(n as nat)
    }
}

/// Render an unsigned 64-bit number in decimal.
pub fn format_u64(n: u64) -> (r: Vec<u8>)
    ensures
        r@ == dec_nat(n as nat),
{
    let mut digits: Vec<u8> = Vec::new();
    let mut m: u64 = n;
    while m >= 10
        invariant
            dec_nat(n as nat) == dec_nat(m as nat) + digits@.reverse(),
        decreases m,
    {
        let d: u8 = 48 + (m % 10) as u8;
        proof {
            assert(dec_nat(m as nat) == dec_nat((m as nat) / 10).push(
                (48 + (m as nat) % 10) as u8,
            ));
            assert(digits@.push(d).reverse() =~= seq![d] + digits@.reverse());
            assert(dec_nat((m as nat) / 10) + (seq![d] + digits@.reverse()) =~= (dec_nat(
                (m as nat) / 10,
            ).push(d)) + digits@.reverse());
            assert((m / 10) as nat == (m as nat) / 10);
        }
        digits.push(d);
        m = m / 10;
    }
    let last: u8 = 48 + (m % 10) as u8;
    proof {
        assert(dec_nat(m as nat) =~= seq![last]);
    }
    digits.push(last);
    proof {
        assert(dec_nat(n as nat) =~= digits@.reverse());
    }
    let mut out: Vec<u8> = Vec::new();
    let mut i: usize = digits.len();
    while i > 0
        invariant
            i <= digits.len(),
            out@.len() == digits.len() - i,
            forall|j: int|
                0 <= j < out@.len() ==> #[trigger] out@[j] == digits@[digits@.len() - 1 - j],
        decreases i,
    {
        i = i - 1;
        let d = digits[i];
        out.push(d);
    }
    proof {
        assert(out@ =~= digits@.reverse());
    }
    out
}

/// Render a signed 64-bit number in decimal.
pub fn format_i64(n: i64) -> (r: Vec<u8>)
    ensures
        r@ == dec_int(n as int),
{
    if n >= 0 {
        format_u64(n as u64)
    } else {
        let wide: i128 = n as i128;
        let mag: u64 = (-wide) as u64;
        proof {
            assert(mag as nat == (-(n as int)) as nat);
        }
        let mut out: Vec<u8> = Vec::new();
        out.push(45);
        let mut rest = format_u64(mag);
        out.append(&mut rest);
        proof {
            assert(out@ =~= dec_int(n as int));
        }
        out
    }
}

} // verus!
