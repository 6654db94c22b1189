//! Decimal and hexadecimal renderings of numbers, as `Display` and
//! `LowerHex` write them.
use vstd::prelude::*;
use vstd::string::*;

verus! {

/// The character of hexadecimal digit `d` (lower case); its first ten
/// entries are the decimal digits.
pub open spec fn digit_char(d: int) -> char {
    seq!['0', '1', '2', '3', '4', '5', '6', '7', '8', '9', 'a', 'b', 'c', 'd', 'e', 'f'][d]
}

/// The decimal digits of `n`, most significant first, without leading zeros.
pub open spec fn decimal_nat(n: nat) -> Seq<char>
    decreases n,
{
    if n < 10 {
        seq![digit_char(n as int)]
    } else {
        decimal_nat(n / 10).push(digit_char((n % 10) as int))
    }
}

/// The decimal text of an integer: a minus sign before the digits of its
/// magnitude when it is negative.
pub open spec fn decimal_int(n: int) -> Seq<char> {
    if n < 0 {
        seq!['-'] + decimal_nat((-n) as nat)
    } else {
        decimal_nat(n as nat)
    }
}

/// Two lower-case hexadecimal digits per byte, in order.
pub open spec fn hex_lower(bytes: Seq<u8>) -> Seq<char>
    decreases bytes.len(),
{
    if bytes.len() == 0 {
        Seq::empty()
    } else {
        hex_lower(bytes.drop_last()) + seq![
            digit_char((bytes.last() / 16) as int),
            digit_char((bytes.last() % 16) as int),
        ]
    }
}

/// Every character of the hexadecimal rendering is a lower-case hex digit,
/// and the rendering is twice as long as the bytes.
pub proof fn lemma_hex_lower_shape(bytes: Seq<u8>)
    ensures
        hex_lower(bytes).len() == 2 * bytes.len(),
        forall|i: int| 0 <= i < hex_lower(bytes).len() ==>
            exists|d: int| 0 <= d < 16 && #[trigger] hex_lower(bytes)[i] == digit_char(d),
    decreases bytes.len(),
{
    if bytes.len() > 0 {
        lemma_hex_lower_shape(bytes.drop_last());
        let h = hex_lower(bytes);
        let p = hex_lower(bytes.drop_last());
        assert forall|i: int| 0 <= i < h.len() implies
            exists|d: int| 0 <= d < 16 && #[trigger] h[i] == digit_char(d) by {
            if i < p.len() {
                assert(h[i] == p[i]);
            } else if i == p.len() {
                assert(h[i] == digit_char((bytes.last() / 16) as int));
            } else {
                assert(h[i] == digit_char((bytes.last() % 16) as int));
            }
        }
    }
}

/// The hexadecimal digits are sixteen distinct characters, none of them a
/// minus sign.
pub proof fn lemma_digit_char(d: int)
    requires
        0 <= d < 16,
    ensures
        digit_char(d) != '-',
        digit_char(d) == '1' <==> d == 1,
{
    if d < 0 {
    } else if d == 0 {
        assert(digit_char(0) == '0');
    } else if d == 1 {
        assert(digit_char(1) == '1');
    } else if d == 2 {
        assert(digit_char(2) == '2');
    } else if d == 3 {
        assert(digit_char(3) == '3');
    } else if d == 4 {
        assert(digit_char(4) == '4');
    } else if d == 5 {
        assert(digit_char(5) == '5');
    } else if d == 6 {
        assert(digit_char(6) == '6');
    } else if d == 7 {
        assert(digit_char(7) == '7');
    } else if d == 8 {
        assert(digit_char(8) == '8');
    } else if d == 9 {
        assert(digit_char(9) == '9');
    } else if d == 10 {
        assert(digit_char(10) == 'a');
    } else if d == 11 {
        assert(digit_char(11) == 'b');
    } else if d == 12 {
        assert(digit_char(12) == 'c');
    } else if d == 13 {
        assert(digit_char(13) == 'd');
    } else if d == 14 {
        assert(digit_char(14) == 'e');
    } else if d == 15 {
        assert(digit_char(15) == 'f');
    }
}

/// The decimal text of a natural number is at least one digit long, starts
/// with a digit, and is a single digit exactly for numbers below ten.
pub proof fn lemma_decimal_nat_shape(n: nat)
    ensures
        decimal_nat(n).len() >= 1,
        decimal_nat(n).len() == 1 <==> n < 10,
        exists|d: int| 0 <= d < 10 && decimal_nat(n)[0] == digit_char(d),
    decreases n,
{
    if n < 10 {
        assert(decimal_nat(n)[0] == digit_char(n as int));
    } else {
        lemma_decimal_nat_shape(n / 10);
        let d = choose|d: int| 0 <= d < 10 && decimal_nat(n / 10)[0] == digit_char(d);
        assert(decimal_nat(n)[0] == decimal_nat(n / 10)[0]);
    }
}

/// The decimal text of an integer reads `-1` exactly for -1.
pub proof fn lemma_decimal_is_minus_one(n: int)
    ensures
        decimal_int(n) == seq!['-', '1'] <==> n == -1,
{
    if n < 0 {
        let m = (-n) as nat;
        lemma_decimal_nat_shape(m);
        if decimal_int(n) == seq!['-', '1'] {
            assert(decimal_int(n).len() == 2);
            assert(decimal_int(n) == seq!['-'] + decimal_nat(m));
            assert(decimal_nat(m).len() == 1);
            assert(decimal_int(n)[1] == decimal_nat(m)[0]);
            assert(decimal_nat(m)[0] == digit_char(m as int));
            lemma_digit_char(m as int);
        }
        if n == -1 {
            assert(decimal_nat(1) == seq![digit_char(1)]);
            lemma_digit_char(1);
            assert(decimal_int(n) =~= seq!['-', '1']);
        }
    } else {
        lemma_decimal_nat_shape(n as nat);
        let d = choose|d: int| 0 <= d < 10 && decimal_nat(n as nat)[0] == digit_char(d);
        lemma_digit_char(d);
        assert(decimal_int(n)[0] != '-');
    }
}

fn digit_str(d: u8) -> (s: &'static str)
    requires
        d < 16,
    ensures
        s@ == seq![digit_char(d as int)],
{
    match d {
        0 => {
            proof { reveal_strlit("0"); }
            "0"
        }
        1 => {
            proof { reveal_strlit("1"); }
            "1"
        }
        2 => {
            proof { reveal_strlit("2"); }
            "2"
        }
        3 => {
            proof { reveal_strlit("3"); }
            "3"
        }
        4 => {
            proof { reveal_strlit("4"); }
            "4"
        }
        5 => {
            proof { reveal_strlit("5"); }
            "5"
        }
        6 => {
            proof { reveal_strlit("6"); }
            "6"
        }
        7 => {
            proof { reveal_strlit("7"); }
            "7"
        }
        8 => {
            proof { reveal_strlit("8"); }
            "8"
        }
        9 => {
            proof { reveal_strlit("9"); }
            "9"
        }
        10 => {
            proof { reveal_strlit("a"); }
            "a"
        }
        11 => {
            proof { reveal_strlit("b"); }
            "b"
        }
        12 => {
            proof { reveal_strlit("c"); }
            "c"
        }
        13 => {
            proof { reveal_strlit("d"); }
            "d"
        }
        14 => {
            proof { reveal_strlit("e"); }
            "e"
        }
        15 => {
            proof { reveal_strlit("f"); }
            "f"
        }
        _ => {
            proof { reveal_strlit("f"); }
            "f"
        }
    }
}

/// Appends the decimal digits of `n` to `out`.
fn append_decimal(out: &mut String, n: u64)
    ensures
        final(out)@ == old(out)@ + decimal_nat(n as nat),
    decreases n,
{
    if n >= 10 {
        append_decimal(out, n / 10);
    }
    let d = (n % 10) as u8;
    out.append(digit_str(d));
    assert(decimal_nat(n as nat) == if n < 10 { seq![digit_char(n as int)] } else {
        decimal_nat((n / 10) as nat).push(digit_char((n % 10) as int)) });
}

/// The decimal text of `n`, as `n.to_string()` writes it.
pub fn decimal(n: i64) -> (r: String)
    ensures
        r@ == decimal_int(n as int),
{
    let mut out = String::new();
    if n < 0 {
        proof { reveal_strlit("-"); }
        out.append("-");
        let magnitude: u64 = (0i128 - (n as i128)) as u64;
        append_decimal(&mut out, magnitude);
    } else {
        append_decimal(&mut out, n as u64);
    }
    out
}

/// The lower-case hexadecimal text of `bytes`, as `format!("{:x}", ..)`
/// writes a digest.
pub fn hex_string(bytes: &[u8]) -> (r: String)
    ensures
        r@ == hex_lower(bytes@),
{
    let mut out = String::new();
    let mut i: usize = 0;
    while i < bytes.len()
        invariant
            i <= bytes@.len(),
            out@ == hex_lower(bytes@.take(i as int)),
        decreases bytes@.len() - i,
    {
        let b = bytes[i];
        out.append(digit_str(b / 16));
        out.append(digit_str(b % 16));
        assert(bytes@.take(i as int + 1).drop_last() =~= bytes@.take(i as int));
        i = i + 1;
    }
    assert(bytes@.take(i as int) =~= bytes@);
    out
}

} // verus!
