//! Rendering of integers and byte strings as text.

use vstd::prelude::*;

verus! {

/// The ten decimal digits, in order.
pub open spec fn decimal_digits() -> Seq<char> {
    seq!['0', '1', '2', '3', '4', '5', '6', '7', '8', '9']
}

/// The sixteen lower-case hexadecimal digits, in order.
pub open spec fn hex_digits() -> Seq<char> {
    seq!['0', '1', '2', '3', '4', '5', '6', '7', '8', '9', 'a', 'b', 'c', 'd', 'e', 'f']
}

/// The shortest decimal text of `n` (no sign, no leading zero).
pub open spec fn decimal_text(n: nat) -> Seq<char>
    decreases n,
{
    if n < 10 {
        seq![decimal_digits()[n as int]]
    } else {
        decimal_text(n / 10).push(decimal_digits()[(n % 10) as int])
    }
}

/// Two lower-case hexadecimal digits per byte, most significant nibble first.
pub open spec fn hex_text(bytes: Seq<u8>) -> Seq<char> {
    Seq::new(
        2 * bytes.len(),
        |i: int|
            if i % 2 == 0 {
                hex_digits()[(bytes[i / 2] / 16) as int]
            } else {
                hex_digits()[(bytes[i / 2] % 16) as int]
            },
    )
}

fn decimal_digit(d: u32) -> (s: &'static str)
    requires
        d < 10,
    ensures
        s@ == seq![decimal_digits()[d as int]],
{
    proof {
        reveal_strlit("0");
        reveal_strlit("1");
        reveal_strlit("2");
        reveal_strlit("3");
        reveal_strlit("4");
        reveal_strlit("5");
        reveal_strlit("6");
        reveal_strlit("7");
        reveal_strlit("8");
        reveal_strlit("9");
    }
    match d {
        0 => "0",
        1 => "1",
        2 => "2",
        3 => "3",
        4 => "4",
        5 => "5",
        6 => "6",
        7 => "7",
        8 => "8",
        _ => "9",
    }
}

fn push_decimal(out: &mut String, n: u32)
    ensures
        final(out)@ == old(out)@ + decimal_text(n as nat),
    decreases n,
{
    if n >= 10 {
        push_decimal(out, n / 10);
    }
    out.append(decimal_digit(n % 10));
    assert(final(out)@ =~= old(out)@ + decimal_text(n as nat));
}

/// Renders `n` in decimal, as `u32::to_string` does.
pub fn u32_to_decimal(n: u32) -> (s: String)
    ensures
        s@ == decimal_text(n as nat),
{
    let mut out = String::new();
    push_decimal(&mut out, n);
    assert(out@ =~= decimal_text(n as nat));
    out
}


fn hex_digit(n: u8) -> (s: &'static str)
    requires
        n < 16,
    ensures
        s@ == seq![hex_digits()[n as int]],
{
    proof {
        reveal_strlit("0");
        reveal_strlit("1");
        reveal_strlit("2");
        reveal_strlit("3");
        reveal_strlit("4");
        reveal_strlit("5");
        reveal_strlit("6");
        reveal_strlit("7");
        reveal_strlit("8");
        reveal_strlit("9");
        reveal_strlit("a");
        reveal_strlit("b");
        reveal_strlit("c");
        reveal_strlit("d");
        reveal_strlit("e");
        reveal_strlit("f");
    }
    match n {
        0 => "0",
        1 => "1",
        2 => "2",
        3 => "3",
        4 => "4",
        5 => "5",
        6 => "6",
        7 => "7",
        8 => "8",
        9 => "9",
        10 => "a",
        11 => "b",
        12 => "c",
        13 => "d",
        14 => "e",
        _ => "f",
    }
}

/// Renders bytes as lower-case hexadecimal, two digits per byte, as the
/// `Display` of an XDR `Hash` does.
pub fn bytes_to_hex(bytes: &[u8]) -> (s: String)
    ensures
        s@ == hex_text(bytes@),
{
    let mut out = String::new();
    let mut i: usize = 0;
    while i < bytes.len()
        invariant
            i <= bytes@.len(),
            out@ == hex_text(bytes@.take(i as int)),
        decreases bytes@.len() - i,
    {
        let b = bytes[i];
        out.append(hex_digit(b / 16));
        out.append(hex_digit(b % 16));
        assert(hex_text(bytes@.take(i + 1)) =~= hex_text(bytes@.take(i as int)) + seq![
            hex_digits()[(b / 16) as int],
            hex_digits()[(b % 16) as int],
        ]);
        i = i + 1;
    }
    assert(bytes@.take(i as int) =~= bytes@);
    out
}

/// Decimal texts are distinct for distinct numbers.
pub proof fn lemma_decimal_text_injective(m: nat, n: nat)
    requires
        decimal_text(m) == decimal_text(n),
    ensures
        m == n,
    decreases m + n,
{
    lemma_decimal_text_nonempty(m);
    lemma_decimal_text_nonempty(n);
    if m < 10 && n < 10 {
        assert(decimal_text(m)[0] == decimal_digits()[m as int]);
        lemma_decimal_digits_distinct(m as int, n as int);
    } else if m < 10 {
        lemma_decimal_text_nonempty(n / 10);
        assert(decimal_text(n).len() >= 2);
    } else if n < 10 {
        lemma_decimal_text_nonempty(m / 10);
        assert(decimal_text(m).len() >= 2);
    } else {
        let tm = decimal_text(m);
        let tn = decimal_text(n);
        assert(tm.last() == decimal_digits()[(m % 10) as int]);
        assert(tn.last() == decimal_digits()[(n % 10) as int]);
        lemma_decimal_digits_distinct((m % 10) as int, (n % 10) as int);
        assert(tm.drop_last() =~= decimal_text(m / 10));
        assert(tn.drop_last() =~= decimal_text(n / 10));
        lemma_decimal_text_injective(m / 10, n / 10);
    }
}

proof fn lemma_decimal_text_nonempty(n: nat)
    ensures
        decimal_text(n).len() >= 1,
    decreases n,
{
    if n >= 10 {
        lemma_decimal_text_nonempty(n / 10);
    }
}

/// Hexadecimal texts are distinct for distinct byte strings.
pub proof fn lemma_hex_text_injective(a: Seq<u8>, b: Seq<u8>)
    requires
        hex_text(a) == hex_text(b),
    ensures
        a == b,
{
    assert(hex_text(a).len() == 2 * a.len());
    assert(a.len() == b.len());
    assert forall|i: int| 0 <= i < a.len() implies a[i] == b[i] by {
        assert(hex_text(a)[2 * i] == hex_text(b)[2 * i]);
        assert(hex_text(a)[2 * i + 1] == hex_text(b)[2 * i + 1]);
        assert((2 * i) / 2 == i);
        assert((2 * i + 1) / 2 == i);
        assert((2 * i) % 2 == 0);
        assert((2 * i + 1) % 2 == 1);
        let x = a[i];
        let y = b[i];
        assert(hex_text(a)[2 * i] == hex_digits()[(x / 16) as int]);
        assert(hex_text(b)[2 * i] == hex_digits()[(y / 16) as int]);
        assert(hex_text(a)[2 * i + 1] == hex_digits()[(x % 16) as int]);
        assert(hex_text(b)[2 * i + 1] == hex_digits()[(y % 16) as int]);
        lemma_hex_digits_distinct((x / 16) as int, (y / 16) as int);
        lemma_hex_digits_distinct((x % 16) as int, (y % 16) as int);
        assert(x == 16 * (x / 16) + x % 16);
        assert(y == 16 * (y / 16) + y % 16);
    }
    assert(a =~= b);
}


proof fn lemma_decimal_digits_distinct(p: int, q: int)
    requires
        0 <= p < 10,
        0 <= q < 10,
        decimal_digits()[p] == decimal_digits()[q],
    ensures
        p == q,
{
    let d = decimal_digits();
    assert(d[0] == '0' && d[1] == '1' && d[2] == '2' && d[3] == '3' && d[4] == '4');
    assert(d[5] == '5' && d[6] == '6' && d[7] == '7' && d[8] == '8' && d[9] == '9');
}

proof fn lemma_hex_digits_distinct(p: int, q: int)
    requires
        0 <= p < 16,
        0 <= q < 16,
        hex_digits()[p] == hex_digits()[q],
    ensures
        p == q,
{
    let d = hex_digits();
    assert(d[0] == '0' && d[1] == '1' && d[2] == '2' && d[3] == '3' && d[4] == '4');
    assert(d[5] == '5' && d[6] == '6' && d[7] == '7' && d[8] == '8' && d[9] == '9');
    assert(d[10] == 'a' && d[11] == 'b' && d[12] == 'c' && d[13] == 'd' && d[14] == 'e');
    assert(d[15] == 'f');
}

} // verus!
