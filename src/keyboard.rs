//! The sixteen logical keys and the physical keys they sit on.
//!
//! The keypad is laid on the left of a keyboard:
//!
//! ```text
//! 1 2 3 4        1 2 3 C
//! Q W E R   ->   4 5 6 D
//! A S D F        7 8 9 E
//! Z X C V        A 0 B F
//! ```
use vstd::prelude::*;

verus! {

/// The physical key that the logical key `k` sits on, if `k` is one of the
/// sixteen.
pub open spec fn key_char(k: u8) -> Option<char> {
    if k == 0x0 {
        Some('X')
    } else if k == 0x1 {
        Some('1')
    } else if k == 0x2 {
        Some('2')
    } else if k == 0x3 {
        Some('3')
    } else if k == 0x4 {
        Some('Q')
    } else if k == 0x5 {
        Some('W')
    } else if k == 0x6 {
        Some('E')
    } else if k == 0x7 {
        Some('A')
    } else if k == 0x8 {
        Some('S')
    } else if k == 0x9 {
        Some('D')
    } else if k == 0xA {
        Some('Z')
    } else if k == 0xB {
        Some('C')
    } else if k == 0xC {
        Some('4')
    } else if k == 0xD {
        Some('R')
    } else if k == 0xE {
        Some('F')
    } else if k == 0xF {
        Some('V')
    } else {
        None
    }
}

/// The physical key that the logical key `k` sits on, as a one-letter string.
fn key_name(k: u8) -> (r: Option<String>)
    ensures
        r matches Some(name) <==> key_char(k) is Some,
        r matches Some(name) ==> name@ == seq![key_char(k).unwrap()],
{
    match k {
        0x00 => {
            proof {
                reveal_strlit("X");
            }
            Some(String::from_str("X"))
        },
        0x01 => {
            proof {
                reveal_strlit("1");
            }
            Some(String::from_str("1"))
        },
        0x02 => {
            proof {
                reveal_strlit("2");
            }
            Some(String::from_str("2"))
        },
        0x03 => {
            proof {
                reveal_strlit("3");
            }
            Some(String::from_str("3"))
        },
        0x04 => {
            proof {
                reveal_strlit("Q");
            }
            Some(String::from_str("Q"))
        },
        0x05 => {
            proof {
                reveal_strlit("W");
            }
            Some(String::from_str("W"))
        },
        0x06 => {
            proof {
                reveal_strlit("E");
            }
            Some(String::from_str("E"))
        },
        0x07 => {
            proof {
                reveal_strlit("A");
            }
            Some(String::from_str("A"))
        },
        0x08 => {
            proof {
                reveal_strlit("S");
            }
            Some(String::from_str("S"))
        },
        0x09 => {
            proof {
                reveal_strlit("D");
            }
            Some(String::from_str("D"))
        },
        0x0a => {
            proof {
                reveal_strlit("Z");
            }
            Some(String::from_str("Z"))
        },
        0x0b => {
            proof {
                reveal_strlit("C");
            }
            Some(String::from_str("C"))
        },
        0x0c => {
            proof {
                reveal_strlit("4");
            }
            Some(String::from_str("4"))
        },
        0x0d => {
            proof {
                reveal_strlit("R");
            }
            Some(String::from_str("R"))
        },
        0x0e => {
            proof {
                reveal_strlit("F");
            }
            Some(String::from_str("F"))
        },
        0x0f => {
            proof {
                reveal_strlit("V");
            }
            Some(String::from_str("V"))
        },
        _ => None,
    }
}

/// The name of the physical key that the logical key `key` sits on; `None`
/// when no key is given or `key` is not one of the sixteen.
pub fn get_unmapped_key(key: Option<u8>) -> (r: Option<String>)
    ensures
        r matches Some(name) <==> (key matches Some(k) && key_char(k) is Some),
        r matches Some(name) ==> name@ == seq![key_char(key.unwrap()).unwrap()],
{
    match key {
        None => None,
        Some(k) => key_name(k),
    }
}

/// The logical key on the physical key `c` (an upper-case letter or a digit),
/// if it carries one.
pub fn map_key(c: char) -> (r: Option<u8>)
    ensures
        r matches Some(k) ==> key_char(k) == Some(c),
        r is None ==> forall|k: u8| key_char(k) != Some(c),
{
    match c {
        'X' => Some(0x00),
        '1' => Some(0x01),
        '2' => Some(0x02),
        '3' => Some(0x03),
        'Q' => Some(0x04),
        'W' => Some(0x05),
        'E' => Some(0x06),
        'A' => Some(0x07),
        'S' => Some(0x08),
        'D' => Some(0x09),
        'Z' => Some(0x0a),
        'C' => Some(0x0b),
        '4' => Some(0x0c),
        'R' => Some(0x0d),
        'F' => Some(0x0e),
        'V' => Some(0x0f),
        _ => None,
    }
}

/// The logical key typed as its hexadecimal digit, in either case.
pub open spec fn hex_key(c: char) -> Option<u8> {
    if '0' <= c && c <= '9' {
        Some((c as u32 - '0' as u32) as u8)
    } else if 'A' <= c && c <= 'F' {
        Some((c as u32 - 'A' as u32 + 10) as u8)
    } else if 'a' <= c && c <= 'f' {
        Some((c as u32 - 'a' as u32 + 10) as u8)
    } else {
        None
    }
}

/// Reads a logical key typed as a hexadecimal digit, `0`-`9`, `A`-`F` or
/// `a`-`f`; any other character is `None`.
pub fn parse_key(c: char) -> (r: Option<u8>)
    ensures
        r == hex_key(c),
{
    if '0' <= c && c <= '9' {
        Some((c as u32 - '0' as u32) as u8)
    } else if 'A' <= c && c <= 'F' {
        Some((c as u32 - 'A' as u32 + 10) as u8)
    } else if 'a' <= c && c <= 'f' {
        Some((c as u32 - 'a' as u32 + 10) as u8)
    } else {
        None
    }
}

} // verus!
