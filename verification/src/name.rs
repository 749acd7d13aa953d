use vstd::prelude::*;
use vstd::string::StringExecFns;

verus! {

/// How many candidate host-side veth names one setup run may try
/// before it gives up on finding a free one.
pub const VETH_NAME_ATTEMPTS: usize = 16;

/// The lowercase hexadecimal digit for a value below sixteen.
pub open spec fn hex_char(d: int) -> char {
    if d == 0 {
        '0'
    } else if d == 1 {
        '1'
    } else if d == 2 {
        '2'
    } else if d == 3 {
        '3'
    } else if d == 4 {
        '4'
    } else if d == 5 {
        '5'
    } else if d == 6 {
        '6'
    } else if d == 7 {
        '7'
    } else if d == 8 {
        '8'
    } else if d == 9 {
        '9'
    } else if d == 10 {
        'a'
    } else if d == 11 {
        'b'
    } else if d == 12 {
        'c'
    } else if d == 13 {
        'd'
    } else if d == 14 {
        'e'
    } else {
        'f'
    }
}

/// The i-th hexadecimal digit of a 32-bit value, most significant first.
pub open spec fn nibble(bits: u32, i: int) -> u32 {
    (bits >> (((7 - i) * 4) as u32)) & 0xf
}

/// The eight lowercase hexadecimal digits of a 32-bit value,
/// most significant first.
pub open spec fn veth_chars(bits: u32) -> Seq<char> {
    Seq::new(8, |i: int| hex_char(nibble(bits, i) as int))
}

/// The host-side veth name synthesized from 32 bits of randomness.
pub open spec fn veth_name_view(bits: u32) -> Seq<char> {
    "veth"@ + veth_chars(bits)
}

/// A name some 32-bit value could have produced.
pub open spec fn is_veth_candidate(s: Seq<char>) -> bool {
    exists|b: u32| s == #[trigger] veth_name_view(b)
}

/// The one-character string for a hexadecimal digit.
fn hex_str(d: u32) -> (r: &'static str)
    requires
        d < 16,
    ensures
        r@ == seq![hex_char(d as int)],
{
    match d {
        0 => {
            proof {
                reveal_strlit("0");
                assert("0"@ =~= seq![hex_char(0)]);
            }
            "0"
        },
        1 => {
            proof {
                reveal_strlit("1");
                assert("1"@ =~= seq![hex_char(1)]);
            }
            "1"
        },
        2 => {
            proof {
                reveal_strlit("2");
                assert("2"@ =~= seq![hex_char(2)]);
            }
            "2"
        },
        3 => {
            proof {
                reveal_strlit("3");
                assert("3"@ =~= seq![hex_char(3)]);
            }
            "3"
        },
        4 => {
            proof {
                reveal_strlit("4");
                assert("4"@ =~= seq![hex_char(4)]);
            }
            "4"
        },
        5 => {
            proof {
                reveal_strlit("5");
                assert("5"@ =~= seq![hex_char(5)]);
            }
            "5"
        },
        6 => {
            proof {
                reveal_strlit("6");
                assert("6"@ =~= seq![hex_char(6)]);
            }
            "6"
        },
        7 => {
            proof {
                reveal_strlit("7");
                assert("7"@ =~= seq![hex_char(7)]);
            }
            "7"
        },
        8 => {
            proof {
                reveal_strlit("8");
                assert("8"@ =~= seq![hex_char(8)]);
            }
            "8"
        },
        9 => {
            proof {
                reveal_strlit("9");
                assert("9"@ =~= seq![hex_char(9)]);
            }
            "9"
        },
        10 => {
            proof {
                reveal_strlit("a");
                assert("a"@ =~= seq![hex_char(10)]);
            }
            "a"
        },
        11 => {
            proof {
                reveal_strlit("b");
                assert("b"@ =~= seq![hex_char(11)]);
            }
            "b"
        },
        12 => {
            proof {
                reveal_strlit("c");
                assert("c"@ =~= seq![hex_char(12)]);
            }
            "c"
        },
        13 => {
            proof {
                reveal_strlit("d");
                assert("d"@ =~= seq![hex_char(13)]);
            }
            "d"
        },
        14 => {
            proof {
                reveal_strlit("e");
                assert("e"@ =~= seq![hex_char(14)]);
            }
            "e"
        },
        _ => {
            proof {
                reveal_strlit("f");
                assert("f"@ =~= seq![hex_char(15)]);
            }
            "f"
        },
    }
}

/// Renders `veth` followed by the eight lowercase hexadecimal digits
/// of the given 32 bits, most significant first.
pub fn veth_name(bits: u32) -> (s: String)
    ensures
        s@ == veth_name_view(bits),
{
    let mut s = String::from_str("veth");
    let d0: u32 = (bits >> 28) & 0xf;
    let d1: u32 = (bits >> 24) & 0xf;
    let d2: u32 = (bits >> 20) & 0xf;
    let d3: u32 = (bits >> 16) & 0xf;
    let d4: u32 = (bits >> 12) & 0xf;
    let d5: u32 = (bits >> 8) & 0xf;
    let d6: u32 = (bits >> 4) & 0xf;
    let d7: u32 = bits & 0xf;
    proof {
        assert((bits >> 28) & 0xf < 16 && (bits >> 24) & 0xf < 16 && (bits >> 20) & 0xf < 16
            && (bits >> 16) & 0xf < 16 && (bits >> 12) & 0xf < 16 && (bits >> 8) & 0xf < 16
            && (bits >> 4) & 0xf < 16 && bits & 0xf < 16) by (bit_vector);
        assert(bits & 0xf == (bits >> 0) & 0xf) by (bit_vector);
    }
    s.append(hex_str(d0));
    s.append(hex_str(d1));
    s.append(hex_str(d2));
    s.append(hex_str(d3));
    s.append(hex_str(d4));
    s.append(hex_str(d5));
    s.append(hex_str(d6));
    s.append(hex_str(d7));
    proof {
        assert(s@ =~= veth_name_view(bits));
    }
    s
}

/// Relies on rand::random: draws 32 bits from the thread-local
/// generator. Nothing is promised of the value.
#[verifier::external_body]
fn draw_veth_bits() -> u32 {
    rand::random::<u32>()
}

/// Draws the full list of candidate host-side veth names for one
/// setup run.
pub fn draw_name_pool() -> (pool: Vec<String>)
    ensures
        pool@.len() == VETH_NAME_ATTEMPTS,
        forall|i: int| 0 <= i < pool@.len() ==> is_veth_candidate(#[trigger] pool@[i]@),
{
    let mut pool: Vec<String> = Vec::new();
    while pool.len() < VETH_NAME_ATTEMPTS
        invariant
            pool@.len() <= VETH_NAME_ATTEMPTS,
            forall|i: int| 0 <= i < pool@.len() ==> is_veth_candidate(#[trigger] pool@[i]@),
        decreases VETH_NAME_ATTEMPTS - pool@.len(),
    {
        let bits = draw_veth_bits();
        let n = veth_name(bits);
        proof {
            assert(n@ == veth_name_view(bits));
        }
        pool.push(n);
    }
    pool
}

} // verus!
