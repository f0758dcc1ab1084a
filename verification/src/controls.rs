//! The native controls of the result and settings windows.
use vstd::prelude::*;

verus! {

/// What a control is.
#[derive(Debug, Clone, Copy, PartialEq, Eq, Structural)]
pub enum ControlKind {
    /// Text that is shown as it is.
    Label,
    /// A field that the window draws.
    OwnerDrawn,
    /// A field that the window draws, below its siblings.
    OwnerDrawnBelow,
    /// A choice of on or off.
    Check,
    /// A list to choose from.
    Choice,
    PushButton,
    /// The push button that Enter presses.
    DefaultButton,
    Slider,
    /// One line of text that can be selected.
    Value,
    /// Several lines of text that can be selected and scroll.
    Details,
}

/// A control to create.
#[derive(Debug, Clone, Copy, PartialEq, Eq, Structural)]
pub struct ControlSpec {
    pub id: usize,
    pub kind: ControlKind,
    /// Whether it scrolls with the content.
    pub in_content: bool,
    /// Whether it is brought into view when it gets the focus.
    pub reveals: bool,
}

/// A control outside the scrolling content.
pub open spec fn fixed(id: usize, kind: ControlKind) -> ControlSpec {
    ControlSpec { id, kind, in_content: false, reveals: false }
}

/// A control in the scrolling content.
pub open spec fn scrolling(id: usize, kind: ControlKind, reveals: bool) -> ControlSpec {
    ControlSpec { id, kind, in_content: true, reveals }
}

pub(crate) fn fixed_control(id: usize, kind: ControlKind) -> (r: ControlSpec)
    ensures
        r == fixed(id, kind),
{
    ControlSpec { id, kind, in_content: false, reveals: false }
}

pub(crate) fn scrolling_control(id: usize, kind: ControlKind, reveals: bool) -> (r: ControlSpec)
    ensures
        r == scrolling(id, kind, reveals),
{
    ControlSpec { id, kind, in_content: true, reveals }
}

/// A push button, and whether it is the one that Enter presses.
#[derive(Debug, Clone, Copy, PartialEq, Eq, Structural)]
pub struct ButtonStyle {
    pub id: usize,
    pub default: bool,
}

/// The styles of some buttons.
pub open spec fn styles(ids: Seq<usize>, default_id: usize) -> Seq<ButtonStyle> {
    ids.map_values(|id: usize| ButtonStyle { id, default: id == default_id })
}

pub(crate) fn button_styles(ids: &[usize], default_id: usize) -> (r: Vec<ButtonStyle>)
    ensures
        r@ == styles(ids@, default_id),
{
    let mut r: Vec<ButtonStyle> = Vec::new();
    let mut i: usize = 0;
    while i < ids.len()
        invariant
            i <= ids.len(),
            r@.len() == i,
            forall|k: int|
                0 <= k < i ==> #[trigger] r@[k] == (ButtonStyle {
                    id: ids@[k],
                    default: ids@[k] == default_id,
                }),
        decreases ids.len() - i,
    {
        r.push(ButtonStyle { id: ids[i], default: ids[i] == default_id });
        i = i + 1;
    }
    assert(r@ =~= styles(ids@, default_id));
    r
}

/// At most one of some different buttons is the default one, and it is the one
/// asked for.
pub proof fn one_button_is_default(ids: Seq<usize>, default_id: usize, i: int, j: int)
    requires
        0 <= i < ids.len(),
        0 <= j < ids.len(),
        ids.no_duplicates(),
        styles(ids, default_id)[i].default,
        styles(ids, default_id)[j].default,
    ensures
        i == j,
        ids[i] == default_id,
{
}

/// Styles are those of the buttons asked for, in their order; exactly the button that
/// Enter is to press is the default one.
pub proof fn styles_follow_the_buttons(ids: Seq<usize>, default_id: usize, i: int)
    requires
        0 <= i < ids.len(),
    ensures
        styles(ids, default_id).len() == ids.len(),
        styles(ids, default_id)[i].id == ids[i],
        styles(ids, default_id)[i].default <==> ids[i] == default_id,
{
}

} // verus!
