//! Keys of the keyboard and buttons of the mouse, from the virtual-key codes of the window
//! messages, or from the UTF-16 text that the keyboard layout gives for a key.

use vstd::prelude::*;

verus! {

/// A key or a mouse button; a key that writes text gives its characters (up to seven).
#[derive(Debug, Clone, Copy, PartialEq, Eq)]
pub enum KeyCode {
    Unknown,
    LeftMouse,
    RightMouse,
    MiddleMouse,
    X1Mouse,
    X2Mouse,
    Backspace,
    Tab,
    Enter,
    Escape,
    Space,
    LeftArrow,
    UpArrow,
    RightArrow,
    DownArrow,
    Char(char),
    Chars(([char; 7], usize)),
}

/// The key that a virtual-key code (its low sixteen bits) names, for the codes that are
/// named: the mouse buttons (1, 2, 4, 5, 6), backspace (8), tab (9), enter (13), escape
/// (27), space (32) and the arrows (37 to 40).
pub open spec fn named_key(virtual_key_code: u16) -> Option<KeyCode> {
    if virtual_key_code == 1 {
        Some(KeyCode::LeftMouse)
    } else if virtual_key_code == 2 {
        Some(KeyCode::RightMouse)
    } else if virtual_key_code == 4 {
        Some(KeyCode::MiddleMouse)
    } else if virtual_key_code == 5 {
        Some(KeyCode::X1Mouse)
    } else if virtual_key_code == 6 {
        Some(KeyCode::X2Mouse)
    } else if virtual_key_code == 8 {
        Some(KeyCode::Backspace)
    } else if virtual_key_code == 9 {
        Some(KeyCode::Tab)
    } else if virtual_key_code == 13 {
        Some(KeyCode::Enter)
    } else if virtual_key_code == 27 {
        Some(KeyCode::Escape)
    } else if virtual_key_code == 32 {
        Some(KeyCode::Space)
    } else if virtual_key_code == 37 {
        Some(KeyCode::LeftArrow)
    } else if virtual_key_code == 38 {
        Some(KeyCode::UpArrow)
    } else if virtual_key_code == 39 {
        Some(KeyCode::RightArrow)
    } else if virtual_key_code == 40 {
        Some(KeyCode::DownArrow)
    } else {
        None
    }
}

/// The code points of UTF-16 text, up to its first zero: a unit outside the surrogates is
/// its own code point, a high surrogate followed by a low one gives the pair's code point,
/// and any other surrogate gives the replacement character U+FFFD.
pub open spec fn utf16_code_points(u: Seq<u16>) -> Seq<u32>
    decreases u.len(),
{
    if u.len() == 0 || u[0] == 0 {
        seq![]
    } else if u[0] < 0xD800 || u[0] > 0xDFFF {
        seq![u[0] as u32] + utf16_code_points(u.skip(1))
    } else if u[0] <= 0xDBFF && u.len() >= 2 && 0xDC00 <= u[1] <= 0xDFFF {
        seq![(0x10000 + (u[0] - 0xD800) * 0x400 + (u[1] - 0xDC00)) as u32] + utf16_code_points(
            u.skip(2),
        )
    } else {
        seq![0xFFFDu32] + utf16_code_points(u.skip(1))
    }
}

/// The code point is a character: not a surrogate and at most U+10FFFF.
pub open spec fn is_char_value(v: u32) -> bool {
    v < 0xD800 || (0xE000 <= v <= 0x10FFFF)
}

/// `char::from_u32`: the character of a value, `None` for a surrogate or a value past
/// U+10FFFF.
#[verifier::external_body]
pub(crate) fn char_from_u32(v: u32) -> (r: Option<char>)
    ensures
        r is Some <==> is_char_value(v),
        r matches Some(c) ==> c as u32 == v,
{
    char::from_u32(v)
}

/// The character of a code point that is one.
fn char_of(v: u32) -> (c: char)
    requires
        is_char_value(v),
    ensures
        c as u32 == v,
{
    match char_from_u32(v) {
        Some(c) => c,
        None => '\0',
    }
}

/// `k` is the key of the text `units` of which the layout gave `code_units` units.
pub open spec fn is_text_key(k: KeyCode, code_units: i32, units: Seq<u16>) -> bool {
    let cps = utf16_code_points(units.push(0));
    if code_units <= 0 || cps.len() == 0 {
        k == KeyCode::Unknown
    } else if cps.len() == 1 {
        k matches KeyCode::Char(c) && c as u32 == cps[0]
    } else {
        k matches KeyCode::Chars(p) && p.1 == cps.len() && forall|i: int|
            0 <= i < 7 ==> (if i < cps.len() {
                #[trigger] p.0@[i] as u32 == cps[i]
            } else {
                p.0@[i] == '\0'
            })
    }
}

/// The text of one character is that character: a unit outside the surrogates, or a high
/// surrogate and a low one, followed by zeros, is one code point.
pub proof fn law_text_of_one_character(u0: u16, u1: u16)
    requires
        u0 != 0,
    ensures
        (u0 < 0xD800 || u0 > 0xDFFF) ==> utf16_code_points(seq![u0, 0, 0, 0, 0, 0, 0, 0])
            == seq![u0 as u32],
        (0xD800 <= u0 <= 0xDBFF && 0xDC00 <= u1 <= 0xDFFF) ==> utf16_code_points(
            seq![u0, u1, 0, 0, 0, 0, 0, 0],
        ) == seq![(0x10000 + (u0 - 0xD800) * 0x400 + (u1 - 0xDC00)) as u32],
{
    let a = seq![u0, 0u16, 0, 0, 0, 0, 0, 0];
    assert(a.skip(1)[0] == 0);
    assert(utf16_code_points(a.skip(1)) =~= Seq::<u32>::empty());
    let b = seq![u0, u1, 0u16, 0, 0, 0, 0, 0];
    assert(b.skip(2)[0] == 0);
    assert(utf16_code_points(b.skip(2)) =~= Seq::<u32>::empty());
    assert(b[1] == u1);
}

/// The Windows virtual-key codes of the named keys give those keys: VK_LBUTTON 0x01,
/// VK_RBUTTON 0x02, VK_MBUTTON 0x04, VK_XBUTTON1 0x05, VK_XBUTTON2 0x06, VK_BACK 0x08,
/// VK_TAB 0x09, VK_RETURN 0x0D, VK_ESCAPE 0x1B, VK_SPACE 0x20, and the arrows VK_LEFT 0x25,
/// VK_UP 0x26, VK_RIGHT 0x27, VK_DOWN 0x28, each the arrow of its own direction; only the
/// low sixteen bits of a code count, and no other code names a key.
pub proof fn law_virtual_key_codes(code: u32)
    ensures
        code % 0x10000 == 0x01 ==> named_key(code as u16) == Some(KeyCode::LeftMouse),
        code % 0x10000 == 0x02 ==> named_key(code as u16) == Some(KeyCode::RightMouse),
        code % 0x10000 == 0x04 ==> named_key(code as u16) == Some(KeyCode::MiddleMouse),
        code % 0x10000 == 0x05 ==> named_key(code as u16) == Some(KeyCode::X1Mouse),
        code % 0x10000 == 0x06 ==> named_key(code as u16) == Some(KeyCode::X2Mouse),
        code % 0x10000 == 0x08 ==> named_key(code as u16) == Some(KeyCode::Backspace),
        code % 0x10000 == 0x09 ==> named_key(code as u16) == Some(KeyCode::Tab),
        code % 0x10000 == 0x0D ==> named_key(code as u16) == Some(KeyCode::Enter),
        code % 0x10000 == 0x1B ==> named_key(code as u16) == Some(KeyCode::Escape),
        code % 0x10000 == 0x20 ==> named_key(code as u16) == Some(KeyCode::Space),
        code % 0x10000 == 0x25 ==> named_key(code as u16) == Some(KeyCode::LeftArrow),
        code % 0x10000 == 0x26 ==> named_key(code as u16) == Some(KeyCode::UpArrow),
        code % 0x10000 == 0x27 ==> named_key(code as u16) == Some(KeyCode::RightArrow),
        code % 0x10000 == 0x28 ==> named_key(code as u16) == Some(KeyCode::DownArrow),
        named_key(code as u16) is Some ==> (code % 0x10000 <= 0x06 && code % 0x10000 != 0
            && code % 0x10000 != 0x03) || code % 0x10000 == 0x08 || code % 0x10000 == 0x09
            || code % 0x10000 == 0x0D || code % 0x10000 == 0x1B || code % 0x10000 == 0x20 || (
        0x25 <= code % 0x10000 <= 0x28),
{
    assert(code as u16 == code % 0x10000) by (bit_vector);
}

/// Text that ends in a zero unit has fewer code points than units.
proof fn lemma_code_points_bound(u: Seq<u16>)
    requires
        u.len() >= 1,
        u[u.len() - 1] == 0,
    ensures
        utf16_code_points(u).len() < u.len(),
    decreases u.len(),
{
    if u[0] != 0 {
        if u[0] <= 0xDBFF && u[0] >= 0xD800 && u.len() >= 2 && 0xDC00 <= u[1] <= 0xDFFF {
            assert(u.skip(2)[u.skip(2).len() - 1] == 0);
            lemma_code_points_bound(u.skip(2));
        } else {
            assert(u.skip(1)[u.skip(1).len() - 1] == 0);
            lemma_code_points_bound(u.skip(1));
        }
    }
}

proof fn lemma_code_point_step(total: Seq<u32>, rest: Seq<u32>, next: Seq<u32>, x: u32, len: int)
    requires
        rest == seq![x] + next,
        total.len() == len + rest.len(),
        forall|j: int| 0 <= j < rest.len() ==> #[trigger] rest[j] == total[len + j],
    ensures
        total.len() == len + 1 + next.len(),
        total[len] == x,
        forall|j: int| 0 <= j < next.len() ==> #[trigger] next[j] == total[len + 1 + j],
{
    assert(rest[0] == total[len + 0]);
    assert forall|j: int| 0 <= j < next.len() implies #[trigger] next[j] == total[len + 1 + j] by {
        assert(rest[j + 1] == total[len + (j + 1)]);
    }
}

impl KeyCode {
    /// The key of a virtual-key code, where the code names one.
    pub fn get_from_virtual_code(virtual_key_code: u32) -> (r: Option<KeyCode>)
        ensures
            r == named_key(virtual_key_code as u16),
    {
        let code: u16 = virtual_key_code as u16;
        if code == 1 {
            Some(KeyCode::LeftMouse)
        } else if code == 2 {
            Some(KeyCode::RightMouse)
        } else if code == 4 {
            Some(KeyCode::MiddleMouse)
        } else if code == 5 {
            Some(KeyCode::X1Mouse)
        } else if code == 6 {
            Some(KeyCode::X2Mouse)
        } else if code == 8 {
            Some(KeyCode::Backspace)
        } else if code == 9 {
            Some(KeyCode::Tab)
        } else if code == 13 {
            Some(KeyCode::Enter)
        } else if code == 27 {
            Some(KeyCode::Escape)
        } else if code == 32 {
            Some(KeyCode::Space)
        } else if code == 37 {
            Some(KeyCode::LeftArrow)
        } else if code == 38 {
            Some(KeyCode::UpArrow)
        } else if code == 39 {
            Some(KeyCode::RightArrow)
        } else if code == 40 {
            Some(KeyCode::DownArrow)
        } else {
            None
        }
    }

    /// The key of the text that the keyboard layout gave for a key: `code_units` is what
    /// the layout returned, `units` the seven units of its buffer.
    pub fn get_from_text(code_units: i32, units: &[u16; 7]) -> (r: KeyCode)
        ensures
            is_text_key(r, code_units, units@),
    {
        if code_units <= 0 {
            return KeyCode::Unknown;
        }
        let ghost full = units@.push(0);
        let mut buffer: [u16; 8] = [0u16; 8];
        let mut k: usize = 0;
        while k < 7
            invariant
                k <= 7,
                buffer@.len() == 8,
                forall|j: int| 0 <= j < k ==> buffer@[j] == units@[j],
                buffer@[7] == 0,
            decreases 7 - k,
        {
            buffer[k] = units[k];
            k += 1;
        }
        assert(buffer@ =~= full);
        let mut chars: [char; 7] = ['\0'; 7];
        let mut len: usize = 0;
        let mut i: usize = 0;
        proof {
            lemma_code_points_bound(full);
            assert(full.skip(0) =~= full);
        }
        while i < 8
            invariant
                i <= 8,
                buffer@ == full,
                full.len() == 8,
                full[7] == 0,
                len <= i,
                len <= 7,
                chars@.len() == 7,
                utf16_code_points(full).len() <= 7,
                forall|j: int| 0 <= j < len ==> #[trigger] chars@[j] as u32 == utf16_code_points(
                    full,
                )[j],
                forall|j: int| len <= j < 7 ==> #[trigger] chars@[j] == '\0',
                utf16_code_points(full).len() == len + utf16_code_points(full.skip(i as int)).len(),
                forall|j: int|
                    0 <= j < utf16_code_points(full.skip(i as int)).len() ==> #[trigger] utf16_code_points(
                        full.skip(i as int),
                    )[j] == utf16_code_points(full)[len + j],
            ensures
                utf16_code_points(full).len() == len,
                len <= 7,
                forall|j: int| 0 <= j < len ==> #[trigger] chars@[j] as u32 == utf16_code_points(
                    full,
                )[j],
                forall|j: int| len <= j < 7 ==> #[trigger] chars@[j] == '\0',
            decreases 8 - i,
        {
            let ghost rest = full.skip(i as int);
            let u: u16 = buffer[i];
            if u == 0 {
                break;
            }
            if u < 0xD800 || u > 0xDFFF {
                proof {
                    assert(rest[0] == u);
                    assert(utf16_code_points(rest) == seq![u as u32] + utf16_code_points(
                        rest.skip(1),
                    ));
                    assert(rest.skip(1) =~= full.skip(i + 1));
                    lemma_code_point_step(
                        utf16_code_points(full),
                        utf16_code_points(rest),
                        utf16_code_points(full.skip(i + 1)),
                        u as u32,
                        len as int,
                    );
                }
                let c: char = char_of(u as u32);
                chars[len] = c;
                len += 1;
                i += 1;
            } else if u <= 0xDBFF && i + 1 < 8 && 0xDC00 <= buffer[i + 1] && buffer[i + 1]
                <= 0xDFFF {
                let low: u16 = buffer[i + 1];
                let v: u32 = 0x10000 + ((u - 0xD800) as u32) * 0x400 + ((low - 0xDC00) as u32);
                proof {
                    assert(rest[0] == u);
                    assert(rest[1] == low);
                    assert(utf16_code_points(rest) == seq![v] + utf16_code_points(rest.skip(2)));
                    assert(rest.skip(2) =~= full.skip(i + 2));
                    lemma_code_point_step(
                        utf16_code_points(full),
                        utf16_code_points(rest),
                        utf16_code_points(full.skip(i + 2)),
                        v,
                        len as int,
                    );
                }
                let c: char = char_of(v);
                chars[len] = c;
                len += 1;
                i += 2;
            } else {
                proof {
                    assert(rest[0] == u);
                    if i + 1 < 8 {
                        assert(rest[1] == buffer@[i + 1]);
                    }
                    assert(utf16_code_points(rest) == seq![0xFFFDu32] + utf16_code_points(
                        rest.skip(1),
                    ));
                    assert(rest.skip(1) =~= full.skip(i + 1));
                    lemma_code_point_step(
                        utf16_code_points(full),
                        utf16_code_points(rest),
                        utf16_code_points(full.skip(i + 1)),
                        0xFFFD,
                        len as int,
                    );
                }
                let c: char = char_of(0xFFFD);
                chars[len] = c;
                len += 1;
                i += 1;
            }
        }
        if len == 1 {
            KeyCode::Char(chars[0])
        } else if len > 1 {
            KeyCode::Chars((chars, len))
        } else {
            KeyCode::Unknown
        }
    }
}

} // verus!
