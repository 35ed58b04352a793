//! Rendering integers as decimal and upper-case hexadecimal text, for
//! human-readable error descriptions.
use vstd::prelude::*;
use vstd::string::StringExecFns;

verus! {

/// The digit character for `d` (upper-case for 10..15).
pub open spec fn digit_char(d: int) -> char {
    if d == 0 {
        '0'
    } else if d == 1 {
        '1'
    } else if d == 2 {
        '2'
    } else if d == 3 {
        '3'
    } else if d == 4 {
        '4'
    } else if d == 5 {
        '5'
    } else if d == 6 {
        '6'
    } else if d == 7 {
        '7'
    } else if d == 8 {
        '8'
    } else if d == 9 {
        '9'
    } else if d == 10 {
        'A'
    } else if d == 11 {
        'B'
    } else if d == 12 {
        'C'
    } else if d == 13 {
        'D'
    } else if d == 14 {
        'E'
    } else {
        'F'
    }
}

/// The digits of `n` in base 16 (upper-case), without leading zeros.
pub open spec fn hex_digits(n: nat) -> Seq<char>
    decreases n,
{
    if n < 16 {
        seq![digit_char(n as int)]
    } else {
        hex_digits(n / 16) + seq![digit_char((n % 16) as int)]
    }
}

/// The digits of `n` in base 10, without leading zeros.
pub open spec fn dec_digits(n: nat) -> Seq<char>
    decreases n,
{
    if n < 10 {
        seq![digit_char(n as int)]
    } else {
        dec_digits(n / 10) + seq![digit_char((n % 10) as int)]
    }
}

/// `k` zero characters.
pub open spec fn zeros(k: nat) -> Seq<char> {
    Seq::new(k, |i: int| '0')
}

/// The hex digits of `n`, left-padded with zeros to at least `width`
/// characters (as `{:0width$X}` renders them).
pub open spec fn hex_padded(n: nat, width: nat) -> Seq<char> {
    let d = hex_digits(n);
    if d.len() < width {
        zeros((width - d.len()) as nat) + d
    } else {
        d
    }
}

fn digit_str(d: u64) -> (r: &'static str)
    requires
        d < 16,
    ensures
        r@ == seq![digit_char(d as int)],
{
    if d == 0 {
        proof {
            reveal_strlit("0");
        }
        assert("0"@ =~= seq!['0']);
        "0"
    } else if d == 1 {
        proof {
            reveal_strlit("1");
        }
        assert("1"@ =~= seq!['1']);
        "1"
    } else if d == 2 {
        proof {
            reveal_strlit("2");
        }
        assert("2"@ =~= seq!['2']);
        "2"
    } else if d == 3 {
        proof {
            reveal_strlit("3");
        }
        assert("3"@ =~= seq!['3']);
        "3"
    } else if d == 4 {
        proof {
            reveal_strlit("4");
        }
        assert("4"@ =~= seq!['4']);
        "4"
    } else if d == 5 {
        proof {
            reveal_strlit("5");
        }
        assert("5"@ =~= seq!['5']);
        "5"
    } else if d == 6 {
        proof {
            reveal_strlit("6");
        }
        assert("6"@ =~= seq!['6']);
        "6"
    } else if d == 7 {
        proof {
            reveal_strlit("7");
        }
        assert("7"@ =~= seq!['7']);
        "7"
    } else if d == 8 {
        proof {
            reveal_strlit("8");
        }
        assert("8"@ =~= seq!['8']);
        "8"
    } else if d == 9 {
        proof {
            reveal_strlit("9");
        }
        assert("9"@ =~= seq!['9']);
        "9"
    } else if d == 10 {
        proof {
            reveal_strlit("A");
        }
        assert("A"@ =~= seq!['A']);
        "A"
    } else if d == 11 {
        proof {
            reveal_strlit("B");
        }
        assert("B"@ =~= seq!['B']);
        "B"
    } else if d == 12 {
        proof {
            reveal_strlit("C");
        }
        assert("C"@ =~= seq!['C']);
        "C"
    } else if d == 13 {
        proof {
            reveal_strlit("D");
        }
        assert("D"@ =~= seq!['D']);
        "D"
    } else if d == 14 {
        proof {
            reveal_strlit("E");
        }
        assert("E"@ =~= seq!['E']);
        "E"
    } else {
        proof {
            reveal_strlit("F");
        }
        assert("F"@ =~= seq!['F']);
        "F"
    }
}

/// Append the upper-case hex digits of `n` to `s`.
pub fn push_hex(s: &mut String, n: u64)
    ensures
        final(s)@ == old(s)@ + hex_digits(n as nat),
    decreases n,
{
    if n >= 16 {
        push_hex(s, n / 16);
    }
    s.append(digit_str(n % 16));
    assert(final(s)@ =~= old(s)@ + hex_digits(n as nat)) by {
        if n >= 16 {
            assert(hex_digits(n as nat) == hex_digits((n / 16) as nat) + seq![
                digit_char((n % 16) as int),
            ]);
        }
    }
}

/// Append the decimal digits of `n` to `s`.
pub fn push_decimal(s: &mut String, n: u64)
    ensures
        final(s)@ == old(s)@ + dec_digits(n as nat),
    decreases n,
{
    if n >= 10 {
        push_decimal(s, n / 10);
    }
    s.append(digit_str(n % 10));
    assert(final(s)@ =~= old(s)@ + dec_digits(n as nat)) by {
        if n >= 10 {
            assert(dec_digits(n as nat) == dec_digits((n / 10) as nat) + seq![
                digit_char((n % 10) as int),
            ]);
        }
    }
}

fn hex_len(n: u64) -> (r: u64)
    ensures
        r == hex_digits(n as nat).len(),
        r <= 16,
    decreases n,
{
    if n < 16 {
        1
    } else {
        let k = hex_len(n / 16);
        proof {
            lemma_hex_len_bound(n as nat);
        }
        k + 1
    }
}

proof fn lemma_hex_len_bound(n: nat)
    requires
        n <= u64::MAX,
    ensures
        hex_digits(n).len() <= 16,
        n < 0x1000_0000_0000_0000 ==> hex_digits(n).len() <= 15,
        n < 0x100_0000_0000_0000 ==> hex_digits(n).len() <= 14,
        n < 0x10_0000_0000_0000 ==> hex_digits(n).len() <= 13,
        n < 0x1_0000_0000_0000 ==> hex_digits(n).len() <= 12,
        n < 0x1000_0000_0000 ==> hex_digits(n).len() <= 11,
        n < 0x100_0000_0000 ==> hex_digits(n).len() <= 10,
        n < 0x10_0000_0000 ==> hex_digits(n).len() <= 9,
        n < 0x1_0000_0000 ==> hex_digits(n).len() <= 8,
        n < 0x1000_0000 ==> hex_digits(n).len() <= 7,
        n < 0x100_0000 ==> hex_digits(n).len() <= 6,
        n < 0x10_0000 ==> hex_digits(n).len() <= 5,
        n < 0x1_0000 ==> hex_digits(n).len() <= 4,
        n < 0x1000 ==> hex_digits(n).len() <= 3,
        n < 0x100 ==> hex_digits(n).len() <= 2,
        n < 0x10 ==> hex_digits(n).len() <= 1,
    decreases n,
{
    if n >= 16 {
        lemma_hex_len_bound(n / 16);
    }
}

/// Append the hex digits of `n` to `s`, left-padded with zeros to at least
/// `width` characters.
pub fn push_hex_padded(s: &mut String, n: u64, width: u64)
    ensures
        final(s)@ == old(s)@ + hex_padded(n as nat, width as nat),
{
    let len = hex_len(n);
    let mut k: u64 = len;
    while k < width
        invariant
            len <= k,
            k <= width || k == len,
            len == hex_digits(n as nat).len(),
            s@ == old(s)@ + zeros((k - len) as nat),
        decreases width - k,
    {
        proof {
            reveal_strlit("0");
        }
        s.append("0");
        assert(s@ =~= old(s)@ + zeros((k + 1 - len) as nat));
        k = k + 1;
    }
    push_hex(s, n);
    assert(s@ =~= old(s)@ + hex_padded(n as nat, width as nat));
}

} // verus!
