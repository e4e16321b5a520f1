//! Fixed-width hexadecimal rendering of 64-bit values.
//!
//! Token expiry and signature are carried inside the token text as exactly
//! sixteen lowercase hex digits each. The fixed width makes the token
//! grammar unambiguous without separators: rendering is injective and
//! parsing is its exact inverse, which the lemmas below establish.

use vstd::prelude::*;

verus! {

/// The hex digit character for a value in `0 .. 16`.
pub open spec fn hex_char_of(d: int) -> char {
    if d == 0 {
        '0'
    } else if d == 1 {
        '1'
    } else if d == 2 {
        '2'
    } else if d == 3 {
        '3'
    } else if d == 4 {
        '4'
    } else if d == 5 {
        '5'
    } else if d == 6 {
        '6'
    } else if d == 7 {
        '7'
    } else if d == 8 {
        '8'
    } else if d == 9 {
        '9'
    } else if d == 10 {
        'a'
    } else if d == 11 {
        'b'
    } else if d == 12 {
        'c'
    } else if d == 13 {
        'd'
    } else if d == 14 {
        'e'
    } else {
        'f'
    }
}

pub open spec fn is_hex_char(c: char) -> bool {
    exists|d: int| 0 <= d < 16 && c == hex_char_of(d)
}

/// The last `k` hex digits of `v`, most significant first.
pub open spec fn hex_digits(v: int, k: nat) -> Seq<char>
    decreases k,
{
    if k == 0 {
        Seq::empty()
    } else {
        hex_digits(v / 16, (k - 1) as nat) + seq![hex_char_of(v % 16)]
    }
}

/// The sixteen-digit hex rendering of a 64-bit value.
pub open spec fn hex16(v: u64) -> Seq<char> {
    hex_digits(v as int, 16)
}

pub open spec fn pow16(k: nat) -> int
    decreases k,
{
    if k == 0 {
        1
    } else {
        16 * pow16((k - 1) as nat)
    }
}

pub proof fn lemma_pow16_pos(k: nat)
    ensures
        pow16(k) >= 1,
    decreases k,
{
    if k > 0 {
        lemma_pow16_pos((k - 1) as nat);
    }
}

pub proof fn lemma_pow16_16()
    ensures
        pow16(16) == 0x10000000000000000,
        pow16(15) == 0x1000000000000000,
{
    assert(pow16(0) == 1);
    assert(pow16(1) == 16);
    assert(pow16(2) == 0x100);
    assert(pow16(3) == 0x1000);
    assert(pow16(4) == 0x10000);
    assert(pow16(5) == 0x100000);
    assert(pow16(6) == 0x1000000);
    assert(pow16(7) == 0x10000000);
    assert(pow16(8) == 0x100000000);
    assert(pow16(9) == 0x1000000000);
    assert(pow16(10) == 0x10000000000);
    assert(pow16(11) == 0x100000000000);
    assert(pow16(12) == 0x1000000000000);
    assert(pow16(13) == 0x10000000000000);
    assert(pow16(14) == 0x100000000000000);
    assert(pow16(15) == 0x1000000000000000);
    assert(pow16(16) == 0x10000000000000000);
}

pub proof fn lemma_pow16_mono(j: nat, k: nat)
    requires
        j <= k,
    ensures
        pow16(j) <= pow16(k),
    decreases k,
{
    if j < k {
        lemma_pow16_mono(j, (k - 1) as nat);
        lemma_pow16_pos((k - 1) as nat);
    }
}

pub proof fn lemma_hex_digits_len(v: int, k: nat)
    ensures
        hex_digits(v, k).len() == k,
        forall|i: int| 0 <= i < k ==> is_hex_char(#[trigger] hex_digits(v, k)[i]),
    decreases k,
{
    if k > 0 {
        lemma_hex_digits_len(v / 16, (k - 1) as nat);
        let d = v % 16;
        assert(0 <= d < 16);
        assert(hex_digits(v, k).last() == hex_char_of(d));
        assert(is_hex_char(hex_char_of(d)));
    }
}

/// Rendering is injective on values that fit in `k` digits.
pub proof fn lemma_hex_digits_injective(a: int, b: int, k: nat)
    requires
        0 <= a < pow16(k),
        0 <= b < pow16(k),
        hex_digits(a, k) == hex_digits(b, k),
    ensures
        a == b,
    decreases k,
{
    if k == 0 {
        assert(a == 0 && b == 0);
    } else {
        lemma_hex_digits_len(a / 16, (k - 1) as nat);
        lemma_hex_digits_len(b / 16, (k - 1) as nat);
        assert(hex_digits(a, k)[k - 1] == hex_char_of(a % 16));
        assert(hex_digits(b, k)[k - 1] == hex_char_of(b % 16));
        assert(hex_char_of(a % 16) == hex_char_of(b % 16));
        assert(a % 16 == b % 16);
        assert(hex_digits(a, k).take(k - 1) =~= hex_digits(a / 16, (k - 1) as nat));
        assert(hex_digits(b, k).take(k - 1) =~= hex_digits(b / 16, (k - 1) as nat));
        assert(a / 16 < pow16((k - 1) as nat));
        assert(b / 16 < pow16((k - 1) as nat));
        lemma_hex_digits_injective(a / 16, b / 16, (k - 1) as nat);
        assert(a == 16 * (a / 16) + a % 16);
        assert(b == 16 * (b / 16) + b % 16);
    }
}

/// The hex digit string for a single digit value.
fn hex_digit_str(d: u64) -> (r: &'static str)
    requires
        d < 16,
    ensures
        r@ =~= seq![hex_char_of(d as int)],
{
    proof {
        reveal_strlit("0");
        reveal_strlit("1");
        reveal_strlit("2");
        reveal_strlit("3");
        reveal_strlit("4");
        reveal_strlit("5");
        reveal_strlit("6");
        reveal_strlit("7");
        reveal_strlit("8");
        reveal_strlit("9");
        reveal_strlit("a");
        reveal_strlit("b");
        reveal_strlit("c");
        reveal_strlit("d");
        reveal_strlit("e");
        reveal_strlit("f");
    }
    match d {
        0 => "0",
        1 => "1",
        2 => "2",
        3 => "3",
        4 => "4",
        5 => "5",
        6 => "6",
        7 => "7",
        8 => "8",
        9 => "9",
        10 => "a",
        11 => "b",
        12 => "c",
        13 => "d",
        14 => "e",
        _ => "f",
    }
}

fn to_hex_rec(v: u64, k: usize) -> (r: String)
    requires
        k <= 16,
    ensures
        r@ == hex_digits(v as int, k as nat),
    decreases k,
{
    if k == 0 {
        String::new()
    } else {
        let prefix = to_hex_rec(v / 16, k - 1);
        let digit = hex_digit_str(v % 16);
        let r = prefix.concat(digit);
        proof {
            assert(r@ =~= hex_digits(v as int, k as nat));
        }
        r
    }
}

/// Render a 64-bit value as exactly sixteen hex digits.
pub fn u64_to_hex16(v: u64) -> (r: String)
    ensures
        r@ == hex16(v),
{
    to_hex_rec(v, 16)
}

/// The numeric value of a hex digit character, if it is one.
fn hex_val(c: char) -> (r: Option<u64>)
    ensures
        r is Some <==> is_hex_char(c),
        r is Some ==> r->0 < 16 && c == hex_char_of(r->0 as int),
{
    let r: Option<u64> = match c {
        '0' => Some(0),
        '1' => Some(1),
        '2' => Some(2),
        '3' => Some(3),
        '4' => Some(4),
        '5' => Some(5),
        '6' => Some(6),
        '7' => Some(7),
        '8' => Some(8),
        '9' => Some(9),
        'a' => Some(10),
        'b' => Some(11),
        'c' => Some(12),
        'd' => Some(13),
        'e' => Some(14),
        'f' => Some(15),
        _ => None,
    };
    proof {
        if r is Some {
            assert(c == hex_char_of(r->0 as int));
            assert(is_hex_char(c));
        } else {
            if is_hex_char(c) {
                let d = choose|d: int| 0 <= d < 16 && c == hex_char_of(d);
                assert(false);
            }
        }
    }
    r
}

/// Parse exactly sixteen hex digits of `s` starting at character `from`.
///
/// Succeeds exactly on renderings of `u64_to_hex16`, and then returns the
/// rendered value.
pub fn hex16_parse(s: &str, from: usize) -> (r: Option<u64>)
    requires
        from + 16 <= s@.len(),
        from + 16 <= usize::MAX,
    ensures
        r is Some ==> s@.subrange(from as int, from + 16) == hex16(r->0),
        forall|v: u64| s@.subrange(from as int, from + 16) == hex16(v) ==> r == Some::<u64>(v),
{
    let ghost part = s@.subrange(from as int, from + 16);
    let mut acc: u64 = 0;
    let mut i: usize = 0;
    proof {
        lemma_pow16_16();
    }
    while i < 16
        invariant
            i <= 16,
            from + 16 <= s@.len(),
            from + 16 <= usize::MAX,
            part == s@.subrange(from as int, from + 16),
            acc < pow16(i as nat),
            hex_digits(acc as int, i as nat) =~= part.take(i as int),
        decreases 16 - i,
    {
        let c = s.get_char(from + i);
        assert(c == part[i as int]);
        match hex_val(c) {
            Some(d) => {
                proof {
                    lemma_pow16_mono(i as nat, 15);
                    lemma_pow16_16();
                }
                let acc2: u64 = acc * 16 + d;
                proof {
                    assert(acc2 as int == 16 * (acc as int) + (d as int));
                    assert(acc2 as int / 16 == acc as int) by (nonlinear_arith)
                        requires
                            acc2 as int == 16 * (acc as int) + (d as int),
                            0 <= d < 16,
                    ;
                    assert(acc2 as int % 16 == d as int) by (nonlinear_arith)
                        requires
                            acc2 as int == 16 * (acc as int) + (d as int),
                            0 <= d < 16,
                    ;
                    assert(hex_digits(acc2 as int, (i + 1) as nat) =~= hex_digits(
                        acc as int,
                        i as nat,
                    ) + seq![hex_char_of(d as int)]);
                    assert(part.take(i + 1) =~= part.take(i as int) + seq![part[i as int]]);
                    assert(c == hex_char_of(d as int));
                    assert(acc2 < pow16((i + 1) as nat)) by {
                        assert(pow16((i + 1) as nat) == 16 * pow16(i as nat));
                        assert(acc2 as int <= 16 * (acc as int) + 15);
                        assert(16 * (acc as int) <= 16 * (pow16(i as nat) - 1)) by (nonlinear_arith)
                            requires
                                acc as int <= pow16(i as nat) - 1,
                        ;
                    }
                }
                acc = acc2;
            },
            None => {
                proof {
                    if exists|v: u64| part == hex16(v) {
                        let v = choose|v: u64| part == hex16(v);
                        lemma_hex_digits_len(v as int, 16);
                        assert(is_hex_char(hex_digits(v as int, 16)[i as int]));
                        assert(part[i as int] == hex_digits(v as int, 16)[i as int]);
                        assert(false);
                    }
                }
                return None;
            },
        }
        i += 1;
    }
    proof {
        assert(part.take(16) =~= part);
        assert(part == hex16(acc));
        lemma_pow16_16();
        assert forall|v: u64| part == hex16(v) implies acc == v by {
            lemma_hex_digits_injective(acc as int, v as int, 16);
        }
    }
    Some(acc)
}

} // verus!
