//! The controls of the result window: what is created, in which order, with which
//! texts and fonts.
use crate::controls::{
    button_styles, fixed, fixed_control, scrolling, scrolling_control, styles, ButtonStyle,
    ControlKind, ControlSpec,
};
use crate::drawing::{dip, FontRequest};
use crate::format::{color_text, format_color, ColorFormat};
use crate::i18n::{tr, translation, Language};
use crate::result::{
    row_format, Intention, ResultAction, ResultWindow, CAPTION_CLOSE, CAPTION_MINIMIZE, CLOSE,
    COPY_DEFAULT, COPY_ROW, PICK_AGAIN, ROW_LABEL, ROW_VALUE, SOURCE, STATUS, SWATCH,
};
use crate::result_layout::lemma_dip;
use crate::result_work::{copy_label, copy_name};
use crate::sample::{PickedColor, SampleKind};
use crate::text::{decimal_text, decimal_texts_read_back, push_decimal, writes_signed};
use crate::theme::{control_face, control_font};
use crate::window_lifetime::WindowHandle;
use vstd::prelude::*;
use vstd::string::*;

verus! {

/// The controls of a notation: its name, its value and its copy button. Only the
/// latter two take the focus.
pub open spec fn row_controls(row: int) -> Seq<ControlSpec> {
    seq![
        scrolling((ROW_LABEL + row) as usize, ControlKind::Label, false),
        scrolling((ROW_VALUE + row) as usize, ControlKind::Value, true),
        scrolling((COPY_ROW + row) as usize, ControlKind::PushButton, true),
    ]
}

/// The controls of a result window in the order of their creation, which is that
/// of the Tab key.
pub open spec fn created_controls() -> Seq<ControlSpec> {
    seq![
        fixed(SWATCH, ControlKind::OwnerDrawnBelow),
        scrolling(SOURCE, ControlKind::Label, false),
    ] + row_controls(0) + row_controls(1) + row_controls(2) + row_controls(3) + seq![
        fixed(COPY_DEFAULT, ControlKind::DefaultButton),
        fixed(PICK_AGAIN, ControlKind::PushButton),
        fixed(CLOSE, ControlKind::PushButton),
        fixed(STATUS, ControlKind::Details),
        fixed(CAPTION_MINIMIZE, ControlKind::PushButton),
        fixed(CAPTION_CLOSE, ControlKind::PushButton),
    ]
}

/// Appends the controls of a notation.
fn push_row(controls: &mut Vec<ControlSpec>, row: usize)
    requires
        row < 4,
    ensures
        final(controls)@ == old(controls)@ + row_controls(row as int),
{
    controls.push(scrolling_control(ROW_LABEL + row, ControlKind::Label, false));
    controls.push(scrolling_control(ROW_VALUE + row, ControlKind::Value, true));
    controls.push(scrolling_control(COPY_ROW + row, ControlKind::PushButton, true));
    assert(controls@ =~= old(controls)@ + row_controls(row as int));
}

/// The controls to create. The status is hidden until there is something to say.
pub fn result_controls() -> (r: Vec<ControlSpec>)
    ensures
        r@ == created_controls(),
{
    let mut controls: Vec<ControlSpec> = Vec::new();
    controls.push(fixed_control(SWATCH, ControlKind::OwnerDrawnBelow));
    controls.push(scrolling_control(SOURCE, ControlKind::Label, false));
    push_row(&mut controls, 0);
    push_row(&mut controls, 1);
    push_row(&mut controls, 2);
    push_row(&mut controls, 3);
    controls.push(fixed_control(COPY_DEFAULT, ControlKind::DefaultButton));
    controls.push(fixed_control(PICK_AGAIN, ControlKind::PushButton));
    controls.push(fixed_control(CLOSE, ControlKind::PushButton));
    controls.push(fixed_control(STATUS, ControlKind::Details));
    controls.push(fixed_control(CAPTION_MINIMIZE, ControlKind::PushButton));
    controls.push(fixed_control(CAPTION_CLOSE, ControlKind::PushButton));
    assert(controls@ =~= created_controls());
    controls
}

/// No two controls of the window share a number.
pub proof fn result_control_numbers_are_unique(i: int, j: int)
    requires
        0 <= i < j < created_controls().len(),
    ensures
        created_controls().len() == 20,
        created_controls()[i].id != created_controls()[j].id,
{
}

/// Where a colour came from.
pub open spec fn source_line(picked: PickedColor, language: Language) -> Seq<char> {
    (match picked.kind {
        SampleKind::Live => translation(language, "实时屏幕", "Live screen")@,
        SampleKind::Frozen => translation(language, "冻结画面", "Frozen screen")@,
    }) + "  ·  X "@ + decimal_text(picked.source.x as int) + "  Y "@ + decimal_text(
        picked.source.y as int,
    )
}

pub fn source_text(picked: &PickedColor, language: Language) -> (r: String)
    ensures
        r@ == source_line(*picked, language),
{
    let mut text = String::from_str(
        match picked.kind {
            SampleKind::Live => tr(language, "实时屏幕", "Live screen"),
            SampleKind::Frozen => tr(language, "冻结画面", "Frozen screen"),
        },
    );
    text.append("  ·  X ");
    push_decimal(&mut text, picked.source.x);
    text.append("  Y ");
    push_decimal(&mut text, picked.source.y);
    text
}

/// The texts of the window that do not depend on the colour.
pub open spec fn fixed_text(id: usize, language: Language) -> Seq<char> {
    if id == SWATCH {
        translation(language, "已选颜色色块", "Selected color swatch")@
    } else if id == PICK_AGAIN {
        translation(language, "重新取色", "Pick again")@
    } else if id == CLOSE {
        translation(language, "关闭", "Close")@
    } else if id == CAPTION_MINIMIZE {
        translation(language, "最小化", "Minimize")@
    } else if id == CAPTION_CLOSE {
        translation(language, "关闭窗口", "Close window")@
    } else {
        ""@
    }
}

/// The text of a control that does not depend on the colour; nothing for others.
pub fn control_text(id: usize, language: Language) -> (r: &'static str)
    ensures
        r@ == fixed_text(id, language),
{
    if id == SWATCH {
        tr(language, "已选颜色色块", "Selected color swatch")
    } else if id == PICK_AGAIN {
        tr(language, "重新取色", "Pick again")
    } else if id == CLOSE {
        tr(language, "关闭", "Close")
    } else if id == CAPTION_MINIMIZE {
        tr(language, "最小化", "Minimize")
    } else if id == CAPTION_CLOSE {
        tr(language, "关闭窗口", "Close window")
    } else {
        ""
    }
}

/// What every control of the window says at first. `hsl` is the colour in the HSL
/// notation. Row by row the name, the value and the copy button belong to one
/// notation.
pub open spec fn caption_text(
    id: usize,
    picked: PickedColor,
    default_format: ColorFormat,
    hsl: Seq<char>,
    language: Language,
) -> Seq<char> {
    if id == SOURCE {
        source_line(picked, language)
    } else if id == COPY_DEFAULT {
        copy_name(default_format, language)
    } else if ROW_LABEL <= id < ROW_LABEL + 4 {
        row_format(id - ROW_LABEL).spec_label()
    } else if ROW_VALUE <= id < ROW_VALUE + 4 {
        color_text(picked.rgb, row_format(id - ROW_VALUE), hsl)
    } else if COPY_ROW <= id < COPY_ROW + 4 {
        copy_name(row_format(id - COPY_ROW), language)
    } else {
        fixed_text(id, language)
    }
}

fn format_of_row(row: usize) -> (r: ColorFormat)
    ensures
        r == row_format(row as int),
{
    match row {
        0 => ColorFormat::Hex,
        1 => ColorFormat::Rgb,
        2 => ColorFormat::CssRgb,
        _ => ColorFormat::Hsl,
    }
}

/// The first text of a control.
pub fn control_caption(
    id: usize,
    picked: &PickedColor,
    default_format: ColorFormat,
    hsl: &str,
    language: Language,
) -> (r: String)
    ensures
        r@ == caption_text(id, *picked, default_format, hsl@, language),
{
    if id == SOURCE {
        source_text(picked, language)
    } else if id == COPY_DEFAULT {
        copy_label(default_format, language)
    } else if id >= ROW_LABEL && id < ROW_LABEL + 4 {
        String::from_str(format_of_row(id - ROW_LABEL).label())
    } else if id >= ROW_VALUE && id < ROW_VALUE + 4 {
        format_color(picked.rgb, format_of_row(id - ROW_VALUE), hsl)
    } else if id >= COPY_ROW && id < COPY_ROW + 4 {
        copy_label(format_of_row(id - COPY_ROW), language)
    } else {
        String::from_str(control_text(id, language))
    }
}

/// Every row copies what it shows: its button asks for the notation whose name
/// stands beside it and whose text is its value.
pub proof fn rows_copy_what_they_show(
    window: ResultWindow,
    row: int,
    hsl: Seq<char>,
    language: Language,
)
    requires
        0 <= row < 4,
    ensures
        window.clicked(COPY_ROW + row) matches Some(Intention::Copy(target)) && {
            &&& target.button_id == COPY_ROW + row
            &&& caption_text(
                (ROW_LABEL + row) as usize,
                window.picked,
                window.default_format,
                hsl,
                language,
            ) == target.format.spec_label()
            &&& caption_text(
                (ROW_VALUE + row) as usize,
                window.picked,
                window.default_format,
                hsl,
                language,
            ) == color_text(window.picked.rgb, target.format, hsl)
            &&& caption_text(
                target.button_id,
                window.picked,
                window.default_format,
                hsl,
                language,
            ) == copy_name(target.format, language)
        },
{
}

/// The title of the window.
pub fn result_title(language: Language) -> (r: &'static str)
    ensures
        r@ == translation(language, "取色结果 — Color Picker", "Picked color — Color Picker")@,
{
    tr(language, "取色结果 — Color Picker", "Picked color — Color Picker")
}

/// Size of a control's font in device-independent pixels. Values are monospaced.
pub open spec fn font_size(id: usize) -> i32 {
    if ROW_VALUE <= id < ROW_VALUE + 4 {
        14
    } else if id == SOURCE || id == STATUS || ROW_LABEL <= id < ROW_LABEL + 4 || COPY_ROW <= id
        < COPY_ROW + 4 {
        11
    } else {
        13
    }
}

/// The font of a control.
pub fn result_font(id: usize, dpi: u32, language: Language) -> (r: FontRequest)
    requires
        dpi <= 9600,
    ensures
        r.height == -dip(font_size(id), dpi),
        r.weight == 400,
        r.face@ == control_face(ROW_VALUE <= id < ROW_VALUE + 4, language),
{
    let value = id >= ROW_VALUE && id < ROW_VALUE + 4;
    let small = id == SOURCE || id == STATUS || (id >= ROW_LABEL && id < ROW_LABEL + 4) || (id
        >= COPY_ROW && id < COPY_ROW + 4);
    let size: i32 = if value {
        14
    } else if small {
        11
    } else {
        13
    };
    proof {
        lemma_dip(size, dpi);
    }
    control_font(size, dpi, 400, value, language)
}

/// The push buttons of the window.
pub open spec fn result_buttons() -> Seq<usize> {
    seq![
        COPY_DEFAULT,
        PICK_AGAIN,
        CLOSE,
        CAPTION_MINIMIZE,
        CAPTION_CLOSE,
        COPY_ROW,
        (COPY_ROW + 1) as usize,
        (COPY_ROW + 2) as usize,
        (COPY_ROW + 3) as usize,
    ]
}

impl ResultWindow {
    /// The styles of the push buttons.
    pub fn default_styles(&self) -> (r: Vec<ButtonStyle>)
        ensures
            r@ == styles(result_buttons(), self.default_id),
    {
        let ids: [usize; 9] = [
            COPY_DEFAULT,
            PICK_AGAIN,
            CLOSE,
            CAPTION_MINIMIZE,
            CAPTION_CLOSE,
            COPY_ROW,
            COPY_ROW + 1,
            COPY_ROW + 2,
            COPY_ROW + 3,
        ];
        assert(ids@ =~= result_buttons());
        button_styles(&ids, self.default_id)
    }

    /// A control of the scrolling part got the focus and is to be brought into
    /// view. Says whether the owner has to be woken.
    pub fn control_focused(&mut self, control: WindowHandle) -> (r: bool)
        ensures
            *final(self) == old(self).queued(Some(Intention::Reveal(control))),
            r == old(self).wakes(Some(Intention::Reveal(control))),
    {
        self.queue(Intention::Reveal(control))
    }
}

/// The main button copies what it says: a click on it asks for a copy in the default
/// notation of the window, and that is the notation which its caption names.
pub proof fn the_main_button_copies_what_it_says(
    window: ResultWindow,
    hsl: Seq<char>,
    language: Language,
)
    ensures
        window.clicked(1) matches Some(Intention::Copy(target)) && {
            &&& target.button_id == 1
            &&& target.format == window.default_format
            &&& caption_text(1, window.picked, window.default_format, hsl, language) == copy_name(
                target.format,
                language,
            )
        },
{
}

/// The rows are the four notations in the order in which they are counted: the row
/// at a position shows, names and copies the notation at that position.
pub proof fn rows_follow_the_notations(window: ResultWindow, row: int)
    requires
        0 <= row < 4,
    ensures
        row_format(row).position() == row,
        window.clicked(COPY_ROW + row) matches Some(Intention::Copy(target))
            && target.format.position() == row,
{
}

/// The other buttons do what they say: closing and minimizing from the caption or
/// below, and picking again. Nothing else that is clicked does anything.
pub proof fn other_buttons_do_what_they_say(window: ResultWindow, id: int)
    ensures
        window.clicked(CLOSE as int) == Some(Intention::Act(ResultAction::Close)),
        window.clicked(CAPTION_CLOSE as int) == Some(Intention::Act(ResultAction::Close)),
        window.clicked(CAPTION_MINIMIZE as int) == Some(Intention::Minimize),
        window.clicked(PICK_AGAIN as int) == Some(Intention::Act(ResultAction::PickAgain)),
        window.clicked(id) is Some ==> exists|i: int|
            0 <= i < created_controls().len() && (#[trigger] created_controls()[i]).id == id && (
            created_controls()[i].kind == ControlKind::PushButton || created_controls()[i].kind
                == ControlKind::DefaultButton),
{
    if window.clicked(id) is Some {
        let controls = created_controls();
        assert(controls[4].id == 100 && controls[7].id == 101 && controls[10].id == 102
            && controls[13].id == 103);
        assert(controls[14].id == 1 && controls[15].id == 200 && controls[16].id == 2);
        assert(controls[18].id == 40 && controls[19].id == 41);
    }
}

/// The source line says how the colour was sampled and names the desktop pixel: the
/// column after `X`, the row after `Y`. The two numbers are handed out.
pub proof fn source_lines_name_the_pixel(picked: PickedColor, language: Language) -> (parts: (
    Seq<char>,
    Seq<char>,
))
    ensures
        source_line(picked, language) == (if picked.kind == SampleKind::Live {
            translation(language, "实时屏幕", "Live screen")@
        } else {
            translation(language, "冻结画面", "Frozen screen")@
        }) + "  ·  X "@ + parts.0 + "  Y "@ + parts.1,
        writes_signed(parts.0, picked.source.x as int),
        writes_signed(parts.1, picked.source.y as int),
{
    decimal_texts_read_back(picked.source.x as int, 0);
    decimal_texts_read_back(picked.source.y as int, 0);
    (decimal_text(picked.source.x as int), decimal_text(picked.source.y as int))
}

/// Every button is named after what a click on it does, in both languages, and only
/// buttons and the colour field have such a name.
pub proof fn buttons_are_named_for_what_they_do(window: ResultWindow, id: usize)
    ensures
        fixed_text(PICK_AGAIN, Language::English) == "Pick again"@,
        fixed_text(PICK_AGAIN, Language::SimplifiedChinese) == "重新取色"@,
        window.clicked(PICK_AGAIN as int) == Some(Intention::Act(ResultAction::PickAgain)),
        fixed_text(CLOSE, Language::English) == "Close"@,
        fixed_text(CLOSE, Language::SimplifiedChinese) == "关闭"@,
        window.clicked(CLOSE as int) == Some(Intention::Act(ResultAction::Close)),
        fixed_text(CAPTION_CLOSE, Language::English) == "Close window"@,
        fixed_text(CAPTION_CLOSE, Language::SimplifiedChinese) == "关闭窗口"@,
        window.clicked(CAPTION_CLOSE as int) == Some(Intention::Act(ResultAction::Close)),
        fixed_text(CAPTION_MINIMIZE, Language::English) == "Minimize"@,
        fixed_text(CAPTION_MINIMIZE, Language::SimplifiedChinese) == "最小化"@,
        window.clicked(CAPTION_MINIMIZE as int) == Some(Intention::Minimize),
        fixed_text(SWATCH, Language::English) == "Selected color swatch"@,
        window.clicked(SWATCH as int) is None,
        id != SWATCH && window.clicked(id as int) is None ==> fixed_text(id, Language::English)
            == ""@,
{
}

/// Values have the largest text; the names of the rows, their buttons, the source and
/// the status the smallest. Everything else lies between.
pub proof fn values_stand_out(id: usize)
    ensures
        ({
            let value = 0 <= id - ROW_VALUE < 4;
            let small = id == SOURCE || id == STATUS || 0 <= id - ROW_LABEL < 4 || 0 <= id - COPY_ROW
                < 4;
            &&& font_size(id) == 14 <==> value
            &&& font_size(id) == 11 <==> small
            &&& !value && !small ==> font_size(id) == 13
        }),
{
}

/// The push buttons that are styled are exactly the push buttons that are created; the
/// one that Enter presses at first is the main copy button.
pub proof fn styled_buttons_are_the_created_ones(index: int)
    requires
        0 <= index < created_controls().len(),
    ensures
        ({
            let control = created_controls()[index];
            &&& control.kind == ControlKind::PushButton || control.kind
                == ControlKind::DefaultButton <==> result_buttons().contains(control.id)
            &&& control.kind == ControlKind::DefaultButton <==> control.id == COPY_DEFAULT
        }),
{
    let buttons = result_buttons();
    let controls = created_controls();
    assert(buttons[0] == 1 && buttons[1] == 200 && buttons[2] == 2 && buttons[3] == 40 && buttons[4]
        == 41 && buttons[5] == 100 && buttons[6] == 101 && buttons[7] == 102 && buttons[8] == 103);
    assert(controls.len() == 20);
}

/// The source and the rows scroll with the content, everything else stays in place;
/// the values and the copy buttons of the rows are brought into view by the keyboard,
/// and nothing else.
pub proof fn only_the_rows_scroll(index: int)
    requires
        0 <= index < created_controls().len(),
    ensures
        ({
            let control = created_controls()[index];
            let id = control.id as int;
            let row = 0 <= id - ROW_VALUE < 4 || 0 <= id - COPY_ROW < 4;
            &&& control.in_content <==> id == SOURCE || 0 <= id - ROW_LABEL < 4 || row
            &&& control.reveals <==> row
        }),
{
}

/// Only controls that are created say anything at first.
pub proof fn only_created_controls_say_anything(
    id: usize,
    picked: PickedColor,
    default_format: ColorFormat,
    hsl: Seq<char>,
    language: Language,
)
    requires
        caption_text(id, picked, default_format, hsl, language) != ""@,
    ensures
        exists|i: int| 0 <= i < created_controls().len() && (#[trigger] created_controls()[i]).id == id,
{
    let controls = created_controls();
    assert(controls[0].id == SWATCH && controls[1].id == SOURCE);
    assert(controls[2].id == ROW_LABEL && controls[3].id == ROW_VALUE && controls[4].id == COPY_ROW);
    assert(controls[5].id == ROW_LABEL + 1 && controls[6].id == ROW_VALUE + 1 && controls[7].id
        == COPY_ROW + 1);
    assert(controls[8].id == ROW_LABEL + 2 && controls[9].id == ROW_VALUE + 2 && controls[10].id
        == COPY_ROW + 2);
    assert(controls[11].id == ROW_LABEL + 3 && controls[12].id == ROW_VALUE + 3 && controls[13].id
        == COPY_ROW + 3);
    assert(controls[14].id == COPY_DEFAULT && controls[15].id == PICK_AGAIN && controls[16].id
        == CLOSE && controls[17].id == STATUS && controls[18].id == CAPTION_MINIMIZE
        && controls[19].id == CAPTION_CLOSE);
}

} // verus!
