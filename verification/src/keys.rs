use vstd::prelude::*;
use vstd::string::StringExecFns;

use crate::event::KeyCode;

verus! {

/// Virtual-key code of the Caps Lock key, the default trigger.
pub const VK_CAPITAL: KeyCode = 0x14;

/// Virtual-key code of the IME language-toggle hotkey the fallback injects.
pub const VK_HANGUL: KeyCode = 0x15;

/// Virtual-key code of the F13 key.
pub const VK_F13: KeyCode = 0x7C;

/// Virtual-key code of the left Alt key.
pub const VK_LMENU: KeyCode = 0xA4;

/// Virtual-key code of the right Alt key.
pub const VK_RMENU: KeyCode = 0xA5;

/// The display name of a key that has one.
pub open spec fn spec_trigger_key_name(vk: KeyCode) -> Option<Seq<char>> {
    if vk == VK_CAPITAL {
        Some("Caps Lock"@)
    } else if vk == VK_F13 {
        Some("F13"@)
    } else if vk == VK_RMENU {
        Some("Right Alt"@)
    } else if vk == VK_LMENU {
        Some("Left Alt"@)
    } else {
        None
    }
}

/// Static display name for the keys offered as presets, none for the rest.
pub fn trigger_key_name(vk: KeyCode) -> (r: Option<&'static str>)
    ensures
        match r {
            Some(s) => spec_trigger_key_name(vk) == Some(s@),
            None => spec_trigger_key_name(vk) is None,
        },
{
    if vk == VK_CAPITAL {
        Some("Caps Lock")
    } else if vk == VK_F13 {
        Some("F13")
    } else if vk == VK_RMENU {
        Some("Right Alt")
    } else if vk == VK_LMENU {
        Some("Left Alt")
    } else {
        None
    }
}

/// The upper-case hexadecimal digit characters.
pub open spec fn hex_digit(d: nat) -> char {
    if d == 0 {
        '0'
    } else if d == 1 {
        '1'
    } else if d == 2 {
        '2'
    } else if d == 3 {
        '3'
    } else if d == 4 {
        '4'
    } else if d == 5 {
        '5'
    } else if d == 6 {
        '6'
    } else if d == 7 {
        '7'
    } else if d == 8 {
        '8'
    } else if d == 9 {
        '9'
    } else if d == 10 {
        'A'
    } else if d == 11 {
        'B'
    } else if d == 12 {
        'C'
    } else if d == 13 {
        'D'
    } else if d == 14 {
        'E'
    } else {
        'F'
    }
}

/// The upper-case hexadecimal spelling of a number, without leading zeros.
pub open spec fn spec_hex(n: nat) -> Seq<char>
    decreases n,
{
    if n < 16 {
        seq![hex_digit(n)]
    } else {
        spec_hex(n / 16) + seq![hex_digit(n % 16)]
    }
}

/// The same spelling padded to at least two digits, as key codes are shown.
pub open spec fn spec_hex2(n: nat) -> Seq<char> {
    if n < 16 {
        seq!['0'] + spec_hex(n)
    } else {
        spec_hex(n)
    }
}

/// How the configured trigger key is shown: its preset name where it has
/// one, else its key code in hexadecimal.
pub open spec fn spec_trigger_key_display(vk: KeyCode) -> Seq<char> {
    match spec_trigger_key_name(vk) {
        Some(name) => name,
        None => "0x"@ + spec_hex2(vk as nat),
    }
}

/// One hexadecimal digit as a one-character string.
fn hex_digit_str(d: u32) -> (r: &'static str)
    requires
        d < 16,
    ensures
        r@ == seq![hex_digit(d as nat)],
{
    proof {
        reveal_strlit("0");
        reveal_strlit("1");
        reveal_strlit("2");
        reveal_strlit("3");
        reveal_strlit("4");
        reveal_strlit("5");
        reveal_strlit("6");
        reveal_strlit("7");
        reveal_strlit("8");
        reveal_strlit("9");
        reveal_strlit("A");
        reveal_strlit("B");
        reveal_strlit("C");
        reveal_strlit("D");
        reveal_strlit("E");
        reveal_strlit("F");
    }
    let r: &'static str = if d == 0 {
        "0"
    } else if d == 1 {
        "1"
    } else if d == 2 {
        "2"
    } else if d == 3 {
        "3"
    } else if d == 4 {
        "4"
    } else if d == 5 {
        "5"
    } else if d == 6 {
        "6"
    } else if d == 7 {
        "7"
    } else if d == 8 {
        "8"
    } else if d == 9 {
        "9"
    } else if d == 10 {
        "A"
    } else if d == 11 {
        "B"
    } else if d == 12 {
        "C"
    } else if d == 13 {
        "D"
    } else if d == 14 {
        "E"
    } else {
        "F"
    };
    proof {
        assert(r@ =~= seq![hex_digit(d as nat)]);
    }
    r
}

/// The upper-case hexadecimal spelling of `n`, without leading zeros.
pub fn hex_str(n: u32) -> (r: String)
    ensures
        r@ == spec_hex(n as nat),
    decreases n,
{
    if n < 16 {
        String::from_str(hex_digit_str(n))
    } else {
        assert(n / 16 < n);
        let prefix = hex_str(n / 16);
        prefix.concat(hex_digit_str(n % 16))
    }
}

/// The upper-case hexadecimal spelling of `n`, padded to at least two
/// digits.
pub fn hex2_str(n: u32) -> (r: String)
    ensures
        r@ == spec_hex2(n as nat),
{
    if n < 16 {
        let mut s = String::from_str("0");
        proof {
            reveal_strlit("0");
        }
        let h = hex_str(n);
        s.append(h.as_str());
        proof {
            assert(s@ =~= spec_hex2(n as nat));
        }
        s
    } else {
        hex_str(n)
    }
}

/// The display string of a key: its preset name where it has one, else its
/// key code in hexadecimal, at least two digits wide.
pub fn trigger_key_display(vk: KeyCode) -> (r: String)
    ensures
        r@ == spec_trigger_key_display(vk),
{
    match trigger_key_name(vk) {
        Some(name) => String::from_str(name),
        None => {
            let mut s = String::from_str("0x");
            if vk < 16 {
                s.append("0");
                proof {
                    reveal_strlit("0");
                }
            }
            let h = hex_str(vk);
            s.append(h.as_str());
            proof {
                assert(s@ =~= "0x"@ + spec_hex2(vk as nat));
            }
            s
        },
    }
}

} // verus!
