//! Which native notifications a window may act on. The payload is read by the
//! caller during its synchronous callback; what it holds is judged here.
use crate::window_lifetime::WindowHandle;
use vstd::prelude::*;

verus! {

/// The fields of an owner-draw request that identify its control.
#[derive(Clone, Copy, Debug, PartialEq, Eq, Structural)]
pub struct StaticDraw {
    pub is_static_control: bool,
    pub control_id: u32,
    /// Parent of the control, where it has one.
    pub parent: Option<WindowHandle>,
}

/// Whether an owner-draw request is for the static control `id` of `parent`.
pub fn accepts_static_draw(draw: StaticDraw, parent: WindowHandle, id: usize) -> (r: bool)
    ensures
        r == (draw.is_static_control && draw.control_id == id && draw.parent == Some(parent)),
{
    let sender_matches = match draw.parent {
        Some(found) => found == parent,
        None => false,
    };
    draw.is_static_control && draw.control_id as usize == id && sender_matches
}

/// A code unit with an upper-case ASCII letter replaced by the lower-case one.
pub open spec fn ascii_lower(unit: u16) -> int {
    if 65 <= unit <= 90 {
        unit + 32
    } else {
        unit as int
    }
}

/// Whether a UTF-16 class name reads "button", whatever the case of its letters.
pub open spec fn names_button_class(class_name: Seq<u16>) -> bool {
    &&& class_name.len() == 6
    &&& ascii_lower(class_name[0]) == 98
    &&& ascii_lower(class_name[1]) == 117
    &&& ascii_lower(class_name[2]) == 116
    &&& ascii_lower(class_name[3]) == 116
    &&& ascii_lower(class_name[4]) == 111
    &&& ascii_lower(class_name[5]) == 110
}

fn reads(unit: u16, lower: u16) -> (r: bool)
    requires
        97 <= lower <= 122,
    ensures
        r == (ascii_lower(unit) == lower),
{
    unit == lower || unit == lower - 32
}

fn is_button_class(class_name: &[u16]) -> (r: bool)
    ensures
        r == names_button_class(class_name@),
{
    class_name.len() == 6 && reads(class_name[0], 98) && reads(class_name[1], 117) && reads(
        class_name[2],
        116,
    ) && reads(class_name[3], 116) && reads(class_name[4], 111) && reads(class_name[5], 110)
}

/// Whether the low four style bits make a plain or a default push button.
pub open spec fn push_button_style(style: u32) -> bool {
    style % 16 == 0 || style % 16 == 1
}

/// Whether a notification is custom drawing by a push button of `parent`. Only
/// then does its payload have the longer custom-draw layout.
pub fn accepts_button_custom_draw(
    is_custom_draw: bool,
    sender_parent: Option<WindowHandle>,
    parent: WindowHandle,
    class_name: &[u16],
    style: u32,
) -> (r: bool)
    ensures
        r == (is_custom_draw && sender_parent == Some(parent) && names_button_class(class_name@)
            && push_button_style(style)),
{
    let sender_matches = match sender_parent {
        Some(found) => found == parent,
        None => false,
    };
    assert(style & 0xf == style % 16) by (bit_vector);
    let kind: u32 = style & 0xf;
    is_custom_draw && sender_matches && is_button_class(class_name) && (kind == 0 || kind == 1)
}

/// A class name is that of a button exactly where each of its six units is the letter
/// of `button` in one case or the other.
pub proof fn button_classes_are_read_in_any_case(class_name: Seq<u16>)
    ensures
        names_button_class(class_name) <==> class_name.len() == 6 && forall|i: int|
            0 <= i < 6 ==> (#[trigger] class_name[i]) as int == "button"@[i] as int
                || class_name[i] as int == "BUTTON"@[i] as int,
{
    reveal_strlit("button");
    reveal_strlit("BUTTON");
    let same = forall|i: int|
        0 <= i < 6 ==> (#[trigger] class_name[i]) as int == "button"@[i] as int || class_name[i]
            as int == "BUTTON"@[i] as int;
    if class_name.len() == 6 && same {
        assert(class_name[0] as int == 98 || class_name[0] as int == 66);
        assert(class_name[1] as int == 117 || class_name[1] as int == 85);
        assert(class_name[2] as int == 116 || class_name[2] as int == 84);
        assert(class_name[3] as int == 116 || class_name[3] as int == 84);
        assert(class_name[4] as int == 111 || class_name[4] as int == 79);
        assert(class_name[5] as int == 110 || class_name[5] as int == 78);
    }
}

/// Only the capital letters of ASCII change, each to its own small letter.
pub proof fn only_capitals_are_lowered(unit: u16)
    ensures
        'A' as int <= unit <= 'Z' as int ==> ascii_lower(unit) - 'a' as int == unit - 'A' as int,
        !('A' as int <= unit <= 'Z' as int) ==> ascii_lower(unit) == unit,
{
}

/// Of the sixteen kinds of buttons the first two are push buttons, whatever the other
/// style bits are.
pub proof fn push_buttons_are_the_first_two_kinds(style: u32, kind: u32, more: u32)
    ensures
        kind < 16 && style == kind + 16 * more ==> (push_button_style(style) <==> kind <= 1),
{
}

} // verus!
