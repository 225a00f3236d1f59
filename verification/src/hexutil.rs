use vstd::prelude::*;
use vstd::string::StringExecFns;
use vstd::string::StringSliceAdditionalSpecFns;

verus! {

/// True for the ASCII bytes `0`-`9`, `A`-`F` and `a`-`f`.
pub open spec fn is_hex_digit(b: u8) -> bool {
    (0x30 <= b <= 0x39) || (0x41 <= b <= 0x46) || (0x61 <= b <= 0x66)
}

/// The numeric value of an ASCII hex digit.
pub open spec fn hex_digit_value(b: u8) -> int {
    if 0x30 <= b <= 0x39 {
        b - 0x30
    } else if 0x41 <= b <= 0x46 {
        b - 0x41 + 10
    } else {
        b - 0x61 + 10
    }
}

/// True when `s` is a whole number of hex digits, two per byte.
pub open spec fn hex_pairs_valid(s: Seq<u8>) -> bool {
    s.len() % 2 == 0 && (forall|i: int| 0 <= i < s.len() ==> is_hex_digit(#[trigger] s[i]))
}

/// The bytes an even-length string of hex digits denotes.
pub open spec fn hex_decoded(s: Seq<u8>) -> Seq<u8>
    decreases s.len(),
{
    if s.len() < 2 {
        Seq::empty()
    } else {
        hex_decoded(s.drop_last().drop_last()).push(
            (hex_digit_value(s[s.len() - 2]) * 16 + hex_digit_value(s[s.len() - 1])) as u8,
        )
    }
}

/// The numeric value of one ASCII hex digit, or `None` for any other
/// byte.
pub fn hex_digit(b: u8) -> (r: Option<u8>)
    ensures
        match r {
            Some(v) => is_hex_digit(b) && v == hex_digit_value(b),
            None => !is_hex_digit(b),
        },
{
    if 0x30 <= b && b <= 0x39 {
        Some(b - 0x30)
    } else if 0x41 <= b && b <= 0x46 {
        Some(b - 0x41 + 10)
    } else if 0x61 <= b && b <= 0x66 {
        Some(b - 0x61 + 10)
    } else {
        None
    }
}

/// Parses a string of hex digits, two per byte, into the bytes it
/// denotes. Rejects a string of odd length or with any non-hex
/// character.
pub fn parse_hex_string(in_str: &str) -> (r: Option<Vec<u8>>)
    ensures
        match r {
            Some(v) => hex_pairs_valid(in_str.spec_bytes()) && v@ == hex_decoded(
                in_str.spec_bytes(),
            ),
            None => !hex_pairs_valid(in_str.spec_bytes()),
        },
{
    let bytes: &[u8] = in_str.as_bytes();
    let n = bytes.len();
    if n % 2 != 0 {
        return None;
    }
    let mut out: Vec<u8> = Vec::new();
    let mut i: usize = 0;
    while i < n
        invariant
            n == bytes@.len(),
            bytes@ == in_str.spec_bytes(),
            n % 2 == 0,
            i % 2 == 0,
            i <= n,
            forall|j: int| 0 <= j < i ==> is_hex_digit(#[trigger] bytes@[j]),
            out@ == hex_decoded(bytes@.subrange(0, i as int)),
        decreases n - i,
    {
        let hi = match hex_digit(bytes[i]) {
            Some(v) => v,
            None => {
                return None;
            },
        };
        let lo = match hex_digit(bytes[i + 1]) {
            Some(v) => v,
            None => {
                return None;
            },
        };
        out.push(hi * 16 + lo);
        proof {
            let s2 = bytes@.subrange(0, i as int + 2);
            assert(s2.drop_last().drop_last() =~= bytes@.subrange(0, i as int));
            assert(out@ =~= hex_decoded(s2));
        }
        i = i + 2;
    }
    proof {
        assert(bytes@.subrange(0, n as int) =~= bytes@);
    }
    Some(out)
}

/// The lowercase hex digit character of a nibble value.
pub open spec fn hex_char(n: int) -> char {
    if n == 0 {
        '0'
    } else if n == 1 {
        '1'
    } else if n == 2 {
        '2'
    } else if n == 3 {
        '3'
    } else if n == 4 {
        '4'
    } else if n == 5 {
        '5'
    } else if n == 6 {
        '6'
    } else if n == 7 {
        '7'
    } else if n == 8 {
        '8'
    } else if n == 9 {
        '9'
    } else if n == 10 {
        'a'
    } else if n == 11 {
        'b'
    } else if n == 12 {
        'c'
    } else if n == 13 {
        'd'
    } else if n == 14 {
        'e'
    } else {
        'f'
    }
}

/// The hex spelling of a byte sequence, two lowercase digits per byte.
pub open spec fn hex_string_of(s: Seq<u8>) -> Seq<char>
    decreases s.len(),
{
    if s.len() == 0 {
        Seq::empty()
    } else {
        hex_string_of(s.drop_last()) + seq![
            hex_char(s.last() as int / 16),
            hex_char(s.last() as int % 16),
        ]
    }
}

/// Appends the hex digit character of one nibble.
fn push_hex_char(out: &mut String, nibble: u8)
    requires
        nibble < 16,
    ensures
        final(out)@ == old(out)@.push(hex_char(nibble as int)),
{
    if nibble == 0 {
        proof {
            reveal_strlit("0");
        }
        out.append("0");
    } else if nibble == 1 {
        proof {
            reveal_strlit("1");
        }
        out.append("1");
    } else if nibble == 2 {
        proof {
            reveal_strlit("2");
        }
        out.append("2");
    } else if nibble == 3 {
        proof {
            reveal_strlit("3");
        }
        out.append("3");
    } else if nibble == 4 {
        proof {
            reveal_strlit("4");
        }
        out.append("4");
    } else if nibble == 5 {
        proof {
            reveal_strlit("5");
        }
        out.append("5");
    } else if nibble == 6 {
        proof {
            reveal_strlit("6");
        }
        out.append("6");
    } else if nibble == 7 {
        proof {
            reveal_strlit("7");
        }
        out.append("7");
    } else if nibble == 8 {
        proof {
            reveal_strlit("8");
        }
        out.append("8");
    } else if nibble == 9 {
        proof {
            reveal_strlit("9");
        }
        out.append("9");
    } else if nibble == 10 {
        proof {
            reveal_strlit("a");
        }
        out.append("a");
    } else if nibble == 11 {
        proof {
            reveal_strlit("b");
        }
        out.append("b");
    } else if nibble == 12 {
        proof {
            reveal_strlit("c");
        }
        out.append("c");
    } else if nibble == 13 {
        proof {
            reveal_strlit("d");
        }
        out.append("d");
    } else if nibble == 14 {
        proof {
            reveal_strlit("e");
        }
        out.append("e");
    } else {
        proof {
            reveal_strlit("f");
        }
        out.append("f");
    }
    proof {
        assert(out@ =~= old(out)@.push(hex_char(nibble as int)));
    }
}

/// Formats a byte vector as one lowercase hex string, two digits per
/// byte.
pub fn vec_u8_to_hex_string(bytes: &Vec<u8>) -> (r: String)
    ensures
        r@ == hex_string_of(bytes@),
{
    let mut out = String::new();
    let mut i: usize = 0;
    while i < bytes.len()
        invariant
            i <= bytes@.len(),
            out@ == hex_string_of(bytes@.subrange(0, i as int)),
        decreases bytes@.len() - i,
    {
        let b = bytes[i];
        push_hex_char(&mut out, b / 16);
        push_hex_char(&mut out, b % 16);
        proof {
            assert(bytes@.subrange(0, i as int + 1).drop_last() =~= bytes@.subrange(0, i as int));
            assert(out@ =~= hex_string_of(bytes@.subrange(0, i as int + 1)));
        }
        i = i + 1;
    }
    proof {
        assert(bytes@.subrange(0, bytes@.len() as int) =~= bytes@);
    }
    out
}

} // verus!
