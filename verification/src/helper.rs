use vstd::prelude::*;
use rand::RngCore;

verus! {

/// Relies on rand's thread_rng / RngCore::next_u32: a uniformly random 32-bit
/// value, widened to u64. Nothing is promised beyond the range.
#[verifier::external_body]
fn random_u32() -> (r: u64)
    ensures
        r < 0x1_0000_0000u64,
{
    rand::thread_rng().next_u32() as u64
}

/// The decimal digit character for `d`.
pub open spec fn spec_digit_char(d: nat) -> char {
    if d == 0 {
        '0'
    } else if d == 1 {
        '1'
    } else if d == 2 {
        '2'
    } else if d == 3 {
        '3'
    } else if d == 4 {
        '4'
    } else if d == 5 {
        '5'
    } else if d == 6 {
        '6'
    } else if d == 7 {
        '7'
    } else if d == 8 {
        '8'
    } else {
        '9'
    }
}

/// The decimal spelling of `n`, most significant digit first.
pub open spec fn spec_decimal(n: nat) -> Seq<char>
    decreases n,
{
    if n < 10 {
        seq![spec_digit_char(n)]
    } else {
        spec_decimal(n / 10).push(spec_digit_char(n % 10))
    }
}

/// The digit characters of `ds` read back to front.
spec fn digits_reversed(ds: Seq<u64>) -> Seq<char> {
    Seq::new(ds.len(), |i: int| spec_digit_char(ds[ds.len() - 1 - i] as nat))
}

/// Appends one decimal digit character to a string.
fn push_digit(s: &mut String, d: u64)
    requires
        d < 10,
    ensures
        final(s)@ == old(s)@.push(spec_digit_char(d as nat)),
{
    let ghost before = s@;
    match d {
        0 => s.append("0"),
        1 => s.append("1"),
        2 => s.append("2"),
        3 => s.append("3"),
        4 => s.append("4"),
        5 => s.append("5"),
        6 => s.append("6"),
        7 => s.append("7"),
        8 => s.append("8"),
        _ => s.append("9"),
    }
    proof {
        reveal_strlit("0");
        reveal_strlit("1");
        reveal_strlit("2");
        reveal_strlit("3");
        reveal_strlit("4");
        reveal_strlit("5");
        reveal_strlit("6");
        reveal_strlit("7");
        reveal_strlit("8");
        reveal_strlit("9");
        assert(s@ =~= before.push(spec_digit_char(d as nat)));
    }
}

/// Writes `n` in decimal.
pub fn u64_to_string(n: u64) -> (s: String)
    ensures
        s@ == spec_decimal(n as nat),
{
    let mut m = n;
    let mut ds: Vec<u64> = Vec::new();
    while m >= 10
        invariant
            spec_decimal(n as nat) == spec_decimal(m as nat) + digits_reversed(ds@),
            forall|i: int| 0 <= i < ds@.len() ==> ds@[i] < 10,
        decreases m,
    {
        let ghost before = ds@;
        let d = m % 10;
        ds.push(d);
        m = m / 10;
        proof {
            assert(digits_reversed(ds@) =~= seq![spec_digit_char(d as nat)] + digits_reversed(
                before,
            ));
            assert(spec_decimal((m * 10 + d) as nat) == spec_decimal(m as nat).push(
                spec_digit_char(d as nat),
            ));
            assert(spec_decimal(m as nat).push(spec_digit_char(d as nat)) + digits_reversed(before)
                =~= spec_decimal(m as nat) + digits_reversed(ds@));
        }
    }
    let ghost before = ds@;
    ds.push(m);
    proof {
        assert(digits_reversed(ds@) =~= seq![spec_digit_char(m as nat)] + digits_reversed(before));
        assert(spec_decimal(n as nat) =~= digits_reversed(ds@));
    }
    let mut s = String::new();
    let mut i: usize = ds.len();
    while i > 0
        invariant
            0 <= i <= ds@.len(),
            forall|j: int| 0 <= j < ds@.len() ==> ds@[j] < 10,
            s@ == digits_reversed(ds@).take(ds@.len() - i),
        decreases i,
    {
        i = i - 1;
        push_digit(&mut s, ds[i]);
        proof {
            assert(s@ =~= digits_reversed(ds@).take(ds@.len() - i));
        }
    }
    proof {
        assert(digits_reversed(ds@).take(ds@.len() as int) =~= digits_reversed(ds@));
    }
    s
}

/// A random non-zero identifier. Kept within 32 bits so the value survives a
/// round trip through a JavaScript number. A zero draw (probability 2^-32 per
/// attempt) falls back to 1 so the reserved "unset" value is never handed out.
pub fn rand_id() -> (r: u64)
    ensures
        r != 0,
        r < 0x1_0000_0000u64,
{
    let mut attempts: u8 = 0;
    while attempts < 8
        invariant
            attempts <= 8,
        decreases 8 - attempts,
    {
        let n = random_u32();
        if n != 0 {
            return n;
        }
        attempts = attempts + 1;
    }
    1
}

} // verus!
