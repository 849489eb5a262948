//! Hotkey configuration and its human-readable name ("Ctrl+Alt+F10").

use vstd::prelude::*;

verus! {

/// `MOD_ALT` modifier flag of `RegisterHotKey`.
pub const MOD_ALT: u32 = 0x0001;
/// `MOD_CONTROL` modifier flag.
pub const MOD_CONTROL: u32 = 0x0002;
/// `MOD_SHIFT` modifier flag.
pub const MOD_SHIFT: u32 = 0x0004;
/// `MOD_WIN` modifier flag.
pub const MOD_WIN: u32 = 0x0008;

/// A global hotkey: modifier flags and a virtual key code.
#[derive(Debug, Clone, Copy, PartialEq, Eq, Structural)]
pub struct HotkeyConfig {
    /// Modifier keys (`MOD_CONTROL`, `MOD_ALT`, ...).
    pub modifiers: u32,
    /// Virtual key code (e.g. `VK_F10`).
    pub vk: u32,
}

/// Names of the modifiers set in `m`, in the order Win, Ctrl, Shift, Alt.
pub open spec fn modifier_names(m: u32) -> Seq<Seq<char>> {
    (if m & MOD_WIN != 0 { seq!["Win"@] } else { Seq::empty() }) + (if m & MOD_CONTROL != 0 {
        seq!["Ctrl"@]
    } else {
        Seq::empty()
    }) + (if m & MOD_SHIFT != 0 { seq!["Shift"@] } else { Seq::empty() }) + (if m & MOD_ALT != 0 {
        seq!["Alt"@]
    } else {
        Seq::empty()
    })
}

/// Upper-case hexadecimal digit of `d < 16`.
pub open spec fn hex_digit(d: nat) -> char {
    if d < 10 {
        (d + 48) as char
    } else {
        (d + 55) as char
    }
}

/// Upper-case hexadecimal spelling of `n`, without leading zeros.
pub open spec fn hex_upper(n: nat) -> Seq<char>
    decreases n,
{
    if n < 16 {
        seq![hex_digit(n)]
    } else {
        hex_upper(n / 16).push(hex_digit(n % 16))
    }
}

/// The name shown for a virtual key: F1-F12, the digit or letter itself,
/// the arrow and a few editing keys by name, anything else as `0x` and its
/// hexadecimal code.
pub open spec fn key_name(vk: u32) -> Seq<char> {
    if vk == 0x70 {
        "F1"@
    } else if vk == 0x71 {
        "F2"@
    } else if vk == 0x72 {
        "F3"@
    } else if vk == 0x73 {
        "F4"@
    } else if vk == 0x74 {
        "F5"@
    } else if vk == 0x75 {
        "F6"@
    } else if vk == 0x76 {
        "F7"@
    } else if vk == 0x77 {
        "F8"@
    } else if vk == 0x78 {
        "F9"@
    } else if vk == 0x79 {
        "F10"@
    } else if vk == 0x7A {
        "F11"@
    } else if vk == 0x7B {
        "F12"@
    } else if (0x30 <= vk <= 0x39) || (0x41 <= vk <= 0x5A) {
        seq![(vk as u8) as char]
    } else if vk == 0x25 {
        "Left"@
    } else if vk == 0x26 {
        "Up"@
    } else if vk == 0x27 {
        "Right"@
    } else if vk == 0x28 {
        "Down"@
    } else if vk == 0x08 {
        "Backspace"@
    } else if vk == 0x09 {
        "Tab"@
    } else if vk == 0x0D {
        "Enter"@
    } else if vk == 0x1B {
        "Escape"@
    } else if vk == 0x20 {
        "Space"@
    } else if vk == 0x2E {
        "Delete"@
    } else {
        "0x"@ + hex_upper(vk as nat)
    }
}

/// Decimal spelling of `n`, without leading zeros.
pub open spec fn decimal(n: nat) -> Seq<char>
    decreases n,
{
    if n < 10 {
        seq![(n + 48) as char]
    } else {
        decimal(n / 10).push((n % 10 + 48) as char)
    }
}

/// The function keys F1 (0x70) to F12 (0x7B) are named `F` followed by
/// their number in decimal, so no two of them share a name.
pub proof fn lemma_function_keys_are_numbered(vk: u32)
    requires
        0x70 <= vk <= 0x7B,
    ensures
        key_name(vk) == "F"@ + decimal((vk - 0x6F) as nat),
{
    reveal_strlit("F");
    let n = (vk - 0x6F) as nat;
    if n < 10 {
        assert(decimal(n) == seq![(n + 48) as char]);
    } else {
        assert(decimal(n) == decimal(n / 10).push((n % 10 + 48) as char));
        assert(decimal(n / 10) == seq!['1']);
    }
    if vk == 0x70 {
        reveal_strlit("F1");
    } else if vk == 0x71 {
        reveal_strlit("F2");
    } else if vk == 0x72 {
        reveal_strlit("F3");
    } else if vk == 0x73 {
        reveal_strlit("F4");
    } else if vk == 0x74 {
        reveal_strlit("F5");
    } else if vk == 0x75 {
        reveal_strlit("F6");
    } else if vk == 0x76 {
        reveal_strlit("F7");
    } else if vk == 0x77 {
        reveal_strlit("F8");
    } else if vk == 0x78 {
        reveal_strlit("F9");
    } else if vk == 0x79 {
        reveal_strlit("F10");
    } else if vk == 0x7A {
        reveal_strlit("F11");
    } else {
        reveal_strlit("F12");
    }
    assert(key_name(vk) =~= "F"@ + decimal(n));
}

/// The characters of a hexadecimal spelling are digits and the letters
/// `A`-`F`; one of at least 16 has two or more of them.
pub proof fn lemma_hex_upper_shape(n: nat)
    ensures
        hex_upper(n).len() >= 1,
        n >= 16 ==> hex_upper(n).len() >= 2,
        forall|i: int|
            0 <= i < hex_upper(n).len() ==> ('0' <= #[trigger] hex_upper(n)[i] <= '9' || 'A'
                <= hex_upper(n)[i] <= 'F'),
    decreases n,
{
    if n >= 16 {
        lemma_hex_upper_shape(n / 16);
    }
}

/// Different numbers have different hexadecimal spellings.
pub proof fn lemma_hex_upper_injective(n: nat, m: nat)
    requires
        hex_upper(n) == hex_upper(m),
    ensures
        n == m,
    decreases n,
{
    lemma_hex_upper_shape(n);
    lemma_hex_upper_shape(m);
    if n >= 16 && m >= 16 {
        let a = hex_upper(n);
        assert(a.drop_last() == hex_upper(n / 16));
        assert(a.drop_last() == hex_upper(m / 16));
        lemma_hex_upper_injective(n / 16, m / 16);
        assert(hex_upper(n) == hex_upper(n / 16).push(hex_digit(n % 16)));
        assert(hex_upper(m) == hex_upper(m / 16).push(hex_digit(m % 16)));
        assert(a.last() == hex_digit(n % 16));
        assert(a.last() == hex_digit(m % 16));
        lemma_hex_digit_injective(n % 16, m % 16);
    } else if n < 16 && m < 16 {
        assert(hex_upper(n)[0] == hex_digit(n));
        assert(hex_upper(m)[0] == hex_digit(m));
        lemma_hex_digit_injective(n, m);
    }
}

/// Different digits below 16 have different characters.
proof fn lemma_hex_digit_injective(d: nat, e: nat)
    requires
        d < 16,
        e < 16,
        hex_digit(d) == hex_digit(e),
    ensures
        d == e,
{
    assert(hex_digit(d) as u32 == if d < 10 { d + 48 } else { d + 55 });
    assert(hex_digit(e) as u32 == if e < 10 { e + 48 } else { e + 55 });
}

/// Keys named by a word: the arrows, Backspace, Tab, Enter, Escape, Space
/// and Delete.
pub open spec fn is_named_key(vk: u32) -> bool {
    vk == 0x25 || vk == 0x26 || vk == 0x27 || vk == 0x28 || vk == 0x08 || vk == 0x09 || vk
        == 0x0D || vk == 0x1B || vk == 0x20 || vk == 0x2E
}

/// What tells key names apart: a function key's name is `F` and one or two
/// digits, a digit or letter key's is that one character, a named key's
/// starts with a letter other than `F`, and any other key's is `0x` and
/// its hexadecimal code.
proof fn lemma_key_name_shape(vk: u32)
    ensures
        ({
            let s = key_name(vk);
            &&& 0x70 <= vk <= 0x78 ==> s.len() == 2 && s[0] == 'F' && s[1] as u32 == vk - 0x6F
                + 48
            &&& 0x79 <= vk <= 0x7B ==> s.len() == 3 && s[0] == 'F' && s[1] == '1' && s[2] as u32
                == vk - 0x79 + 48
            &&& (0x30 <= vk <= 0x39 || 0x41 <= vk <= 0x5A) ==> s.len() == 1 && s[0] as u32 == vk
            &&& is_named_key(vk) ==> s.len() >= 2 && s[0] != 'F' && s[0] != '0'
            &&& !(0x70 <= vk <= 0x7B || 0x30 <= vk <= 0x39 || 0x41 <= vk <= 0x5A || is_named_key(
                vk,
            )) ==> {
                &&& s.len() >= 3
                &&& s[0] == '0'
                &&& s.subrange(2, s.len() as int) == hex_upper(vk as nat)
            }
        }),
{
    let s = key_name(vk);
    if 0x70 <= vk <= 0x7B {
        lemma_function_keys_are_numbered(vk);
        reveal_strlit("F");
        let n = (vk - 0x6F) as nat;
        if n < 10 {
            assert(decimal(n) == seq![(n + 48) as char]);
        } else {
            assert(decimal(n) == decimal(n / 10).push((n % 10 + 48) as char));
            assert(decimal(n / 10) == seq!['1']);
        }
    } else if 0x30 <= vk <= 0x39 || 0x41 <= vk <= 0x5A {
    } else if is_named_key(vk) {
        reveal_strlit("Left");
        reveal_strlit("Up");
        reveal_strlit("Right");
        reveal_strlit("Down");
        reveal_strlit("Backspace");
        reveal_strlit("Tab");
        reveal_strlit("Enter");
        reveal_strlit("Escape");
        reveal_strlit("Space");
        reveal_strlit("Delete");
    } else {
        reveal_strlit("0x");
        lemma_hex_upper_shape(vk as nat);
        assert(s.subrange(2, s.len() as int) =~= hex_upper(vk as nat));
    }
}

/// Different virtual keys have different display names, so a hotkey's text
/// names its key unambiguously.
pub proof fn lemma_key_names_differ(a: u32, b: u32)
    requires
        a != b,
    ensures
        key_name(a) != key_name(b),
{
    lemma_key_name_shape(a);
    lemma_key_name_shape(b);
    if key_name(a) == key_name(b) {
        let s = key_name(a);
        if is_named_key(a) && is_named_key(b) {
            reveal_strlit("Left");
            reveal_strlit("Up");
            reveal_strlit("Right");
            reveal_strlit("Down");
            reveal_strlit("Backspace");
            reveal_strlit("Tab");
            reveal_strlit("Enter");
            reveal_strlit("Escape");
            reveal_strlit("Space");
            reveal_strlit("Delete");
            assert(false);
        } else if s.len() >= 3 && s[0] == '0' {
            assert(s.subrange(2, s.len() as int) == hex_upper(a as nat));
            assert(s.subrange(2, s.len() as int) == hex_upper(b as nat));
            lemma_hex_upper_injective(a as nat, b as nat);
        }
    }
}

/// The parts joined with `+` between consecutive ones.
pub open spec fn join_with_plus(parts: Seq<Seq<char>>) -> Seq<char>
    decreases parts.len(),
{
    if parts.len() == 0 {
        Seq::empty()
    } else if parts.len() == 1 {
        parts[0]
    } else {
        join_with_plus(parts.drop_last()) + "+"@ + parts.last()
    }
}

/// The text of a hotkey: its modifier names and its key name, joined by `+`.
pub open spec fn hotkey_text(modifiers: u32, vk: u32) -> Seq<char> {
    join_with_plus(modifier_names(modifiers).push(key_name(vk)))
}

/// Calls `String::push`, which appends one character.
#[verifier::external_body]
fn push_char(s: &mut String, c: char)
    ensures
        final(s)@ == old(s)@.push(c),
{
    s.push(c);
}

/// The character of hexadecimal digit `d`.
fn hex_digit_char(d: u32) -> (c: char)
    requires
        d < 16,
    ensures
        c == hex_digit(d as nat),
{
    if d < 10 {
        ((d + 48) as u8) as char
    } else {
        ((d + 55) as u8) as char
    }
}

/// Appends the hexadecimal spelling of `n` to `s`.
fn push_hex(s: &mut String, n: u32)
    ensures
        final(s)@ == old(s)@ + hex_upper(n as nat),
    decreases n,
{
    if n >= 16 {
        push_hex(s, n / 16);
    }
    push_char(s, hex_digit_char(n % 16));
    proof {
        assert(hex_upper(n as nat) == if n < 16 {
            seq![hex_digit(n as nat)]
        } else {
            hex_upper((n / 16) as nat).push(hex_digit((n % 16) as nat))
        });
    }
}

/// The display name of virtual key `vk` (see `key_name`).
pub fn key_display_name(vk: u32) -> (s: String)
    ensures
        s@ == key_name(vk),
        0x70 <= vk <= 0x7B ==> s@ == "F"@ + decimal((vk - 0x6F) as nat),
{
    proof {
        if 0x70 <= vk <= 0x7B {
            lemma_function_keys_are_numbered(vk);
        }
    }
    if vk == 0x70 {
        String::from_str("F1")
    } else if vk == 0x71 {
        String::from_str("F2")
    } else if vk == 0x72 {
        String::from_str("F3")
    } else if vk == 0x73 {
        String::from_str("F4")
    } else if vk == 0x74 {
        String::from_str("F5")
    } else if vk == 0x75 {
        String::from_str("F6")
    } else if vk == 0x76 {
        String::from_str("F7")
    } else if vk == 0x77 {
        String::from_str("F8")
    } else if vk == 0x78 {
        String::from_str("F9")
    } else if vk == 0x79 {
        String::from_str("F10")
    } else if vk == 0x7A {
        String::from_str("F11")
    } else if vk == 0x7B {
        String::from_str("F12")
    } else if (0x30 <= vk && vk <= 0x39) || (0x41 <= vk && vk <= 0x5A) {
        let mut s = String::new();
        push_char(&mut s, (vk as u8) as char);
        s
    } else if vk == 0x25 {
        String::from_str("Left")
    } else if vk == 0x26 {
        String::from_str("Up")
    } else if vk == 0x27 {
        String::from_str("Right")
    } else if vk == 0x28 {
        String::from_str("Down")
    } else if vk == 0x08 {
        String::from_str("Backspace")
    } else if vk == 0x09 {
        String::from_str("Tab")
    } else if vk == 0x0D {
        String::from_str("Enter")
    } else if vk == 0x1B {
        String::from_str("Escape")
    } else if vk == 0x20 {
        String::from_str("Space")
    } else if vk == 0x2E {
        String::from_str("Delete")
    } else {
        let mut s = String::from_str("0x");
        push_hex(&mut s, vk);
        s
    }
}

impl HotkeyConfig {
    /// The hotkey as text, e.g. `Ctrl+Alt+F10`: the modifiers in the order
    /// Win, Ctrl, Shift, Alt, then the key name, joined by `+`.
    pub fn to_string(&self) -> (s: String)
        ensures
            s@ == hotkey_text(self.modifiers, self.vk),
    {
        let key = key_display_name(self.vk);
        let mut parts: Vec<&str> = Vec::new();
        if self.modifiers & MOD_WIN != 0 {
            parts.push("Win");
        }
        if self.modifiers & MOD_CONTROL != 0 {
            parts.push("Ctrl");
        }
        if self.modifiers & MOD_SHIFT != 0 {
            parts.push("Shift");
        }
        if self.modifiers & MOD_ALT != 0 {
            parts.push("Alt");
        }
        parts.push(key.as_str());

        let ghost names = parts@.map_values(|p: &str| p@);
        assert(names =~= modifier_names(self.modifiers).push(key_name(self.vk)));

        let mut res = String::new();
        let n = parts.len();
        for i in 0..n
            invariant
                n == parts.len(),
                names.len() == n,
                forall|j: int| 0 <= j < n ==> #[trigger] names[j] == parts@[j]@,
                res@ == join_with_plus(names.take(i as int)),
        {
            if i != 0 {
                res.append("+");
            }
            res.append(parts[i]);
            assert(names.take((i + 1) as int).drop_last() =~= names.take(i as int));
        }
        assert(names.take(n as int) =~= names);
        res
    }
}

} // verus!
