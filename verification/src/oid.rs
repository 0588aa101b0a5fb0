use vstd::prelude::*;
use vstd::string::*;

verus! {

/// Whether `c` is a hexadecimal digit, in either case.
pub open spec fn is_hex_char(c: char) -> bool {
    ('0' <= c && c <= '9') || ('a' <= c && c <= 'f') || ('A' <= c && c <= 'F')
}

/// A well-formed object identifier: exactly 24 hexadecimal digits.
pub open spec fn valid_object_id(s: Seq<char>) -> bool {
    s.len() == 24 && (forall|i: int| 0 <= i < s.len() ==> is_hex_char(#[trigger] s[i]))
}

/// The lower-case hexadecimal digit for a value below sixteen.
pub open spec fn hex_char(d: u64) -> char {
    if d == 0 {
        '0'
    } else if d == 1 {
        '1'
    } else if d == 2 {
        '2'
    } else if d == 3 {
        '3'
    } else if d == 4 {
        '4'
    } else if d == 5 {
        '5'
    } else if d == 6 {
        '6'
    } else if d == 7 {
        '7'
    } else if d == 8 {
        '8'
    } else if d == 9 {
        '9'
    } else if d == 10 {
        'a'
    } else if d == 11 {
        'b'
    } else if d == 12 {
        'c'
    } else if d == 13 {
        'd'
    } else if d == 14 {
        'e'
    } else {
        'f'
    }
}

/// The nibble of `n` rendered at digit position `i` of its identifier:
/// eight leading zero digits, then the sixteen nibbles of `n`, high first.
pub open spec fn oid_nibble(n: u64, i: int) -> u64 {
    if i < 8 {
        0
    } else {
        (n >> ((23 - i) as u64 * 4)) & 0xf
    }
}

/// The identifier assigned for counter value `n`: 24 lower-case hex digits.
pub open spec fn oid_seq(n: u64) -> Seq<char> {
    Seq::new(24, |i: int| hex_char(oid_nibble(n, i)))
}

/// Every rendered nibble is below sixteen.
pub proof fn lemma_oid_nibble_range(n: u64, i: int)
    requires
        0 <= i < 24,
    ensures
        oid_nibble(n, i) < 16,
{
    if i >= 8 {
        let sh: u64 = ((23 - i) as u64 * 4) as u64;
        assert((n >> sh) & 0xf < 16) by (bit_vector);
    }
}

/// Two values below sixteen with the same hex digit are equal.
pub proof fn lemma_hex_char_injective(a: u64, b: u64)
    requires
        a < 16,
        b < 16,
        hex_char(a) == hex_char(b),
    ensures
        a == b,
{
}

/// Distinct counter values render to distinct identifiers.
pub proof fn lemma_oid_seq_injective(a: u64, b: u64)
    requires
        oid_seq(a) == oid_seq(b),
    ensures
        a == b,
{
    assert forall|i: int| 8 <= i < 24 implies oid_nibble(a, i) == oid_nibble(b, i) by {
        assert(oid_seq(a)[i] == oid_seq(b)[i]);
        assert(oid_seq(a)[i] == hex_char(oid_nibble(a, i)));
        assert(oid_seq(b)[i] == hex_char(oid_nibble(b, i)));
        lemma_oid_nibble_range(a, i);
        lemma_oid_nibble_range(b, i);
        lemma_hex_char_injective(oid_nibble(a, i), oid_nibble(b, i));
    }
    assert(oid_nibble(a, 8) == oid_nibble(b, 8));
    assert(oid_nibble(a, 9) == oid_nibble(b, 9));
    assert(oid_nibble(a, 10) == oid_nibble(b, 10));
    assert(oid_nibble(a, 11) == oid_nibble(b, 11));
    assert(oid_nibble(a, 12) == oid_nibble(b, 12));
    assert(oid_nibble(a, 13) == oid_nibble(b, 13));
    assert(oid_nibble(a, 14) == oid_nibble(b, 14));
    assert(oid_nibble(a, 15) == oid_nibble(b, 15));
    assert(oid_nibble(a, 16) == oid_nibble(b, 16));
    assert(oid_nibble(a, 17) == oid_nibble(b, 17));
    assert(oid_nibble(a, 18) == oid_nibble(b, 18));
    assert(oid_nibble(a, 19) == oid_nibble(b, 19));
    assert(oid_nibble(a, 20) == oid_nibble(b, 20));
    assert(oid_nibble(a, 21) == oid_nibble(b, 21));
    assert(oid_nibble(a, 22) == oid_nibble(b, 22));
    assert(oid_nibble(a, 23) == oid_nibble(b, 23));
    assert(((a >> 60) & 0xf == (b >> 60) & 0xf && (a >> 56) & 0xf == (b >> 56) & 0xf
        && (a >> 52) & 0xf == (b >> 52) & 0xf && (a >> 48) & 0xf == (b >> 48) & 0xf
        && (a >> 44) & 0xf == (b >> 44) & 0xf && (a >> 40) & 0xf == (b >> 40) & 0xf
        && (a >> 36) & 0xf == (b >> 36) & 0xf && (a >> 32) & 0xf == (b >> 32) & 0xf
        && (a >> 28) & 0xf == (b >> 28) & 0xf && (a >> 24) & 0xf == (b >> 24) & 0xf
        && (a >> 20) & 0xf == (b >> 20) & 0xf && (a >> 16) & 0xf == (b >> 16) & 0xf
        && (a >> 12) & 0xf == (b >> 12) & 0xf && (a >> 8) & 0xf == (b >> 8) & 0xf
        && (a >> 4) & 0xf == (b >> 4) & 0xf && (a >> 0) & 0xf == (b >> 0) & 0xf) ==> a == b)
        by (bit_vector);
}

/// Every identifier the renderer produces is a well-formed object id.
pub proof fn lemma_oid_seq_valid(n: u64)
    ensures
        valid_object_id(oid_seq(n)),
{
    assert forall|i: int| 0 <= i < oid_seq(n).len() implies is_hex_char(#[trigger] oid_seq(n)[i]) by {
        lemma_oid_nibble_range(n, i);
    }
}

/// One lower-case hex digit as a string slice.
fn hex_char_str(d: u64) -> (r: &'static str)
    requires
        d < 16,
    ensures
        r@.len() == 1,
        r@[0] == hex_char(d),
{
    if d == 0 {
        proof {
            reveal_strlit("0");
        }
        "0"
    } else if d == 1 {
        proof {
            reveal_strlit("1");
        }
        "1"
    } else if d == 2 {
        proof {
            reveal_strlit("2");
        }
        "2"
    } else if d == 3 {
        proof {
            reveal_strlit("3");
        }
        "3"
    } else if d == 4 {
        proof {
            reveal_strlit("4");
        }
        "4"
    } else if d == 5 {
        proof {
            reveal_strlit("5");
        }
        "5"
    } else if d == 6 {
        proof {
            reveal_strlit("6");
        }
        "6"
    } else if d == 7 {
        proof {
            reveal_strlit("7");
        }
        "7"
    } else if d == 8 {
        proof {
            reveal_strlit("8");
        }
        "8"
    } else if d == 9 {
        proof {
            reveal_strlit("9");
        }
        "9"
    } else if d == 10 {
        proof {
            reveal_strlit("a");
        }
        "a"
    } else if d == 11 {
        proof {
            reveal_strlit("b");
        }
        "b"
    } else if d == 12 {
        proof {
            reveal_strlit("c");
        }
        "c"
    } else if d == 13 {
        proof {
            reveal_strlit("d");
        }
        "d"
    } else if d == 14 {
        proof {
            reveal_strlit("e");
        }
        "e"
    } else {
        proof {
            reveal_strlit("f");
        }
        "f"
    }
}

/// Renders counter value `n` as its 24-digit identifier.
pub fn object_id_for(n: u64) -> (s: String)
    ensures
        s@ == oid_seq(n),
        valid_object_id(s@),
{
    let mut s = String::new();
    let mut i: usize = 0;
    while i < 24
        invariant
            i <= 24,
            s@.len() == i,
            forall|j: int| 0 <= j < i ==> s@[j] == oid_seq(n)[j],
        decreases 24 - i,
    {
        let d: u64 = if i < 8 {
            0
        } else {
            let sh: u64 = (23 - i as u64) * 4;
            proof {
                assert((n >> sh) & 0xf < 16) by (bit_vector);
            }
            (n >> sh) & 0xf
        };
        proof {
            assert(d == oid_nibble(n, i as int));
            lemma_oid_nibble_range(n, i as int);
        }
        s.append(hex_char_str(d));
        i += 1;
    }
    proof {
        assert(s@ =~= oid_seq(n));
        lemma_oid_seq_valid(n);
    }
    s
}

/// Whether `c` is a hexadecimal digit, decided executably.
fn is_hex_char_exec(c: char) -> (b: bool)
    ensures
        b == is_hex_char(c),
{
    ('0' <= c && c <= '9') || ('a' <= c && c <= 'f') || ('A' <= c && c <= 'F')
}

/// Decides whether `s` is a well-formed object identifier.
pub fn check_object_id(s: &str) -> (b: bool)
    ensures
        b == valid_object_id(s@),
{
    let n = s.unicode_len();
    if n != 24 {
        return false;
    }
    let mut i: usize = 0;
    while i < 24
        invariant
            s@.len() == 24,
            i <= 24,
            forall|j: int| 0 <= j < i ==> is_hex_char(#[trigger] s@[j]),
        decreases 24 - i,
    {
        let c = s.get_char(i);
        if !is_hex_char_exec(c) {
            return false;
        }
        i += 1;
    }
    true
}

} // verus!
