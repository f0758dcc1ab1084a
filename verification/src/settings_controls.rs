//! The controls of the settings window: what is created, in which order, with
//! which texts and fonts.
use crate::config::AppearanceConfig;
use crate::controls::{
    button_styles, fixed, fixed_control, scrolling, scrolling_control, styles, ButtonStyle,
    ControlKind, ControlSpec,
};
use crate::drawing::{dip, FontRequest};
use crate::hotkey::{key_name, key_text};
use crate::i18n::{tr, translation, Language};
use crate::result_layout::lemma_dip;
use crate::settings::{CaptureHint, SettingsWindow};
use crate::settings_layout::{
    ALT, APPEARANCE_HEADING, APPEARANCE_PREVIEW, APPLY, AUTO_COPY, BACKGROUND_TRANSPARENCY,
    BORDER_LABEL, BORDER_VALUE, BORDER_WIDTH, CLOSE, COPY_HEADING, CTRL, DETAILS, FORMAT,
    FORMAT_LABEL, HINT, HOTKEY_LABEL, KEY, KEY_LABEL, LANGUAGE, LANGUAGE_LABEL, PREVIEW_HEADING,
    PREVIEW_HINT, QUICK_PICK, SHIFT, STATUS, SUBTITLE, TITLE, TRANSPARENCY_LABEL,
    TRANSPARENCY_VALUE, USAGE_HEADING, USAGE_HINT,
};
use crate::settings_work::DraftError;
use crate::text::{natural_text, natural_texts_read_back, push_natural, writes};
use crate::theme::{control_face, control_font, Tone};
use vstd::prelude::*;
use vstd::string::*;

verus! {

/// The controls of a settings window in the order of their creation, which is that
/// of the Tab key.
pub open spec fn created_settings_controls() -> Seq<ControlSpec> {
    seq![
        scrolling(TITLE, ControlKind::Label, true),
        scrolling(SUBTITLE, ControlKind::Label, true),
        scrolling(LANGUAGE_LABEL, ControlKind::Label, true),
        scrolling(LANGUAGE, ControlKind::Choice, true),
        scrolling(HOTKEY_LABEL, ControlKind::Label, true),
        scrolling(CTRL, ControlKind::Check, true),
        scrolling(ALT, ControlKind::Check, true),
        scrolling(SHIFT, ControlKind::Check, true),
        scrolling(KEY_LABEL, ControlKind::Label, true),
        scrolling(KEY, ControlKind::PushButton, true),
        scrolling(HINT, ControlKind::Label, true),
        scrolling(COPY_HEADING, ControlKind::Label, true),
        scrolling(FORMAT_LABEL, ControlKind::Label, true),
        scrolling(FORMAT, ControlKind::Choice, true),
        scrolling(QUICK_PICK, ControlKind::Check, true),
        scrolling(AUTO_COPY, ControlKind::Check, true),
        scrolling(APPEARANCE_HEADING, ControlKind::Label, true),
        scrolling(BORDER_LABEL, ControlKind::Label, true),
        scrolling(BORDER_WIDTH, ControlKind::Slider, true),
        scrolling(BORDER_VALUE, ControlKind::Label, true),
        scrolling(TRANSPARENCY_LABEL, ControlKind::Label, true),
        scrolling(BACKGROUND_TRANSPARENCY, ControlKind::Slider, true),
        scrolling(TRANSPARENCY_VALUE, ControlKind::Label, true),
        scrolling(PREVIEW_HEADING, ControlKind::Label, true),
        scrolling(APPEARANCE_PREVIEW, ControlKind::OwnerDrawn, true),
        scrolling(PREVIEW_HINT, ControlKind::Label, true),
        scrolling(USAGE_HEADING, ControlKind::Label, true),
        scrolling(USAGE_HINT, ControlKind::Label, true),
        fixed(STATUS, ControlKind::Label),
        fixed(DETAILS, ControlKind::Details),
        fixed(CLOSE, ControlKind::PushButton),
        fixed(APPLY, ControlKind::PushButton),
    ]
}

/// The controls to create. The details are hidden until a message needs them.
pub fn settings_controls() -> (r: Vec<ControlSpec>)
    ensures
        r@ == created_settings_controls(),
{
    let mut r: Vec<ControlSpec> = Vec::new();
    r.push(scrolling_control(TITLE, ControlKind::Label, true));
    r.push(scrolling_control(SUBTITLE, ControlKind::Label, true));
    r.push(scrolling_control(LANGUAGE_LABEL, ControlKind::Label, true));
    r.push(scrolling_control(LANGUAGE, ControlKind::Choice, true));
    r.push(scrolling_control(HOTKEY_LABEL, ControlKind::Label, true));
    r.push(scrolling_control(CTRL, ControlKind::Check, true));
    r.push(scrolling_control(ALT, ControlKind::Check, true));
    r.push(scrolling_control(SHIFT, ControlKind::Check, true));
    r.push(scrolling_control(KEY_LABEL, ControlKind::Label, true));
    r.push(scrolling_control(KEY, ControlKind::PushButton, true));
    r.push(scrolling_control(HINT, ControlKind::Label, true));
    r.push(scrolling_control(COPY_HEADING, ControlKind::Label, true));
    r.push(scrolling_control(FORMAT_LABEL, ControlKind::Label, true));
    r.push(scrolling_control(FORMAT, ControlKind::Choice, true));
    r.push(scrolling_control(QUICK_PICK, ControlKind::Check, true));
    r.push(scrolling_control(AUTO_COPY, ControlKind::Check, true));
    r.push(scrolling_control(APPEARANCE_HEADING, ControlKind::Label, true));
    r.push(scrolling_control(BORDER_LABEL, ControlKind::Label, true));
    r.push(scrolling_control(BORDER_WIDTH, ControlKind::Slider, true));
    r.push(scrolling_control(BORDER_VALUE, ControlKind::Label, true));
    r.push(scrolling_control(TRANSPARENCY_LABEL, ControlKind::Label, true));
    r.push(scrolling_control(BACKGROUND_TRANSPARENCY, ControlKind::Slider, true));
    r.push(scrolling_control(TRANSPARENCY_VALUE, ControlKind::Label, true));
    r.push(scrolling_control(PREVIEW_HEADING, ControlKind::Label, true));
    r.push(scrolling_control(APPEARANCE_PREVIEW, ControlKind::OwnerDrawn, true));
    r.push(scrolling_control(PREVIEW_HINT, ControlKind::Label, true));
    r.push(scrolling_control(USAGE_HEADING, ControlKind::Label, true));
    r.push(scrolling_control(USAGE_HINT, ControlKind::Label, true));
    r.push(fixed_control(STATUS, ControlKind::Label));
    r.push(fixed_control(DETAILS, ControlKind::Details));
    r.push(fixed_control(CLOSE, ControlKind::PushButton));
    r.push(fixed_control(APPLY, ControlKind::PushButton));
    r
}

/// No two controls of the window share a number.
pub proof fn settings_control_numbers_are_unique(i: int, j: int)
    requires
        0 <= i < j < created_settings_controls().len(),
    ensures
        created_settings_controls().len() == 32,
        created_settings_controls()[i].id != created_settings_controls()[j].id,
{
}

/// What carries a text.
#[derive(Debug, Clone, Copy, PartialEq, Eq, Structural)]
pub enum Labelled {
    Window,
    Content,
    Control(usize),
}

/// A text that follows the language.
#[derive(Debug, Clone, Copy)]
pub struct Label {
    pub of: Labelled,
    pub text: &'static str,
}

pub open spec fn label(
    of: Labelled,
    language: Language,
    chinese: &'static str,
    english: &'static str,
) -> Label {
    Label { of, text: translation(language, chinese, english) }
}

fn label_of(
    of: Labelled,
    language: Language,
    chinese: &'static str,
    english: &'static str,
) -> (r: Label)
    ensures
        r == label(of, language, chinese, english),
{
    Label { of, text: tr(language, chinese, english) }
}

/// Headings and names around the shortcut and the copying choices.
pub open spec fn upper_labels(l: Language) -> Seq<Label> {
    seq![
        label(Labelled::Window, l, "设置 — Color Picker", "Settings — Color Picker"),
        label(Labelled::Content, l, "设置内容", "Settings content"),
        label(Labelled::Control(TITLE), l, "偏好设置", "Preferences"),
        label(
            Labelled::Control(SUBTITLE),
            l,
            "自定义快捷键、复制方式和取色外观",
            "Customize the shortcut, copying and appearance",
        ),
        label(Labelled::Control(LANGUAGE_LABEL), l, "语言", "Language"),
        label(Labelled::Control(HOTKEY_LABEL), l, "取色快捷键", "Picking shortcut"),
        label(Labelled::Control(KEY_LABEL), l, "主键", "Key"),
        label(Labelled::Control(COPY_HEADING), l, "复制行为", "Copying"),
        label(Labelled::Control(FORMAT_LABEL), l, "默认格式", "Default format"),
        label(
            Labelled::Control(QUICK_PICK),
            l,
            "快速取色（复制后不打开结果窗口）",
            "Quick pick (copy without opening the result)",
        ),
        label(
            Labelled::Control(AUTO_COPY),
            l,
            "普通取色后自动复制",
            "Automatically copy after a normal pick",
        ),
    ]
}

/// Headings and names around the appearance, the tips and the buttons.
pub open spec fn lower_labels(l: Language) -> Seq<Label> {
    seq![
        label(Labelled::Control(APPEARANCE_HEADING), l, "取色外观", "Picker appearance"),
        label(Labelled::Control(BORDER_LABEL), l, "边框粗细", "Border width"),
        label(Labelled::Control(BORDER_WIDTH), l, "边框粗细", "Border width"),
        label(Labelled::Control(TRANSPARENCY_LABEL), l, "背景透明度", "Transparency"),
        label(
            Labelled::Control(BACKGROUND_TRANSPARENCY),
            l,
            "背景透明度",
            "Background transparency",
        ),
        label(
            Labelled::Control(PREVIEW_HEADING),
            l,
            "实时预览 · 示例颜色",
            "Live preview · Sample colors",
        ),
        label(
            Labelled::Control(PREVIEW_HINT),
            l,
            "拖动滑块预览，点击“应用”后生效。",
            "Drag to preview. Click Apply to save.",
        ),
        label(Labelled::Control(USAGE_HEADING), l, "操作提示", "Tips"),
        label(
            Labelled::Control(USAGE_HINT),
            l,
            "左键确认 · 右键 / Esc 取消 · 窗外左键取消\r\n上滚轮冻结并放大 · 下滚轮缩小",
            "Click to pick · Right-click / Esc / outside to cancel\r\nScroll up to freeze / zoom in · Down to zoom out",
        ),
        label(Labelled::Control(CLOSE), l, "关闭", "Close"),
        label(Labelled::Control(APPLY), l, "应用", "Apply"),
    ]
}

/// Every text that follows the language alone.
pub open spec fn settings_labels(language: Language) -> Seq<Label> {
    upper_labels(language) + lower_labels(language)
}

fn upper(l: Language) -> (r: Vec<Label>)
    ensures
        r@ == upper_labels(l),
{
    let mut r: Vec<Label> = Vec::new();
    r.push(label_of(Labelled::Window, l, "设置 — Color Picker", "Settings — Color Picker"));
    r.push(label_of(Labelled::Content, l, "设置内容", "Settings content"));
    r.push(label_of(Labelled::Control(TITLE), l, "偏好设置", "Preferences"));
    r.push(
        label_of(
            Labelled::Control(SUBTITLE),
            l,
            "自定义快捷键、复制方式和取色外观",
            "Customize the shortcut, copying and appearance",
        ),
    );
    r.push(label_of(Labelled::Control(LANGUAGE_LABEL), l, "语言", "Language"));
    r.push(label_of(Labelled::Control(HOTKEY_LABEL), l, "取色快捷键", "Picking shortcut"));
    r.push(label_of(Labelled::Control(KEY_LABEL), l, "主键", "Key"));
    r.push(label_of(Labelled::Control(COPY_HEADING), l, "复制行为", "Copying"));
    r.push(label_of(Labelled::Control(FORMAT_LABEL), l, "默认格式", "Default format"));
    r.push(
        label_of(
            Labelled::Control(QUICK_PICK),
            l,
            "快速取色（复制后不打开结果窗口）",
            "Quick pick (copy without opening the result)",
        ),
    );
    r.push(
        label_of(
            Labelled::Control(AUTO_COPY),
            l,
            "普通取色后自动复制",
            "Automatically copy after a normal pick",
        ),
    );
    r
}

fn lower(l: Language) -> (r: Vec<Label>)
    ensures
        r@ == lower_labels(l),
{
    let mut r: Vec<Label> = Vec::new();
    r.push(label_of(Labelled::Control(APPEARANCE_HEADING), l, "取色外观", "Picker appearance"));
    r.push(label_of(Labelled::Control(BORDER_LABEL), l, "边框粗细", "Border width"));
    r.push(label_of(Labelled::Control(BORDER_WIDTH), l, "边框粗细", "Border width"));
    r.push(label_of(Labelled::Control(TRANSPARENCY_LABEL), l, "背景透明度", "Transparency"));
    r.push(
        label_of(
            Labelled::Control(BACKGROUND_TRANSPARENCY),
            l,
            "背景透明度",
            "Background transparency",
        ),
    );
    r.push(
        label_of(
            Labelled::Control(PREVIEW_HEADING),
            l,
            "实时预览 · 示例颜色",
            "Live preview · Sample colors",
        ),
    );
    r.push(
        label_of(
            Labelled::Control(PREVIEW_HINT),
            l,
            "拖动滑块预览，点击“应用”后生效。",
            "Drag to preview. Click Apply to save.",
        ),
    );
    r.push(label_of(Labelled::Control(USAGE_HEADING), l, "操作提示", "Tips"));
    r.push(
        label_of(
            Labelled::Control(USAGE_HINT),
            l,
            "左键确认 · 右键 / Esc 取消 · 窗外左键取消\r\n上滚轮冻结并放大 · 下滚轮缩小",
            "Click to pick · Right-click / Esc / outside to cancel\r\nScroll up to freeze / zoom in · Down to zoom out",
        ),
    );
    r.push(label_of(Labelled::Control(CLOSE), l, "关闭", "Close"));
    r.push(label_of(Labelled::Control(APPLY), l, "应用", "Apply"));
    r
}

/// The state of a key recording, as text.
pub open spec fn key_button_text(
    recording: bool,
    key: Seq<char>,
    language: Language,
) -> Seq<char> {
    if recording {
        translation(language, "按下主键…", "Press a key…")@
    } else {
        key + translation(language, " · 点击修改", " · Change")@
    }
}

/// The hint beside the recording button.
pub open spec fn hint_text(hint: CaptureHint, language: Language) -> Seq<char> {
    match hint {
        CaptureHint::Ready => translation(
            language,
            "点击按钮后按下新主键\r\n至少选择 Ctrl 或 Alt",
            "Click, then press a new key\r\nSelect Ctrl or Alt (or both)",
        )@,
        CaptureHint::Listening => translation(
            language,
            "字母、数字或 F1–F11\r\nEsc 取消 · Tab 离开",
            "Letters, digits or F1–F11\r\nEsc to cancel · Tab to leave",
        )@,
        CaptureHint::Invalid => translation(
            language,
            "仅支持字母、数字和 F1–F11\r\n请重试 · Esc 取消",
            "Use letters, digits or F1–F11\r\nTry again · Esc to cancel",
        )@,
        CaptureHint::Accepted => translation(
            language,
            "主键已更新，应用后生效\r\n点击按钮可再次修改",
            "Key updated; Apply to save\r\nClick to change it again",
        )@,
        CaptureHint::Cancelled => translation(
            language,
            "已保留原主键\r\n点击按钮后重新录制",
            "Original key kept\r\nClick to record again",
        )@,
    }
}

impl SettingsWindow {
    /// The window with its labels in a language: its body fonts are to be made
    /// anew, unless it is in that language already.
    pub open spec fn relabelled(self, language: Language) -> SettingsWindow {
        if self.shown_language == Some(language) {
            self
        } else {
            SettingsWindow { shown_language: Some(language), font_dpi: 0, ..self }
        }
    }

    /// Relabels the window in a language. Controls, selections and the scroll
    /// position stay. Nothing is to be done where the window is in that language
    /// already.
    pub fn refresh_language(&mut self, language: Language) -> (r: Option<Vec<Label>>)
        ensures
            *final(self) == old(self).relabelled(language),
            r is Some <==> old(self).shown_language != Some(language),
            r matches Some(labels) ==> labels@ == settings_labels(language),
    {
        if let Some(shown) = self.shown_language {
            if shown == language {
                return None;
            }
        }
        self.shown_language = Some(language);
        self.font_dpi = 0;
        let mut labels = upper(language);
        let mut rest = lower(language);
        labels.append(&mut rest);
        Some(labels)
    }

    /// Which fonts have to be made for a DPI: that of the language selector, and
    /// those of everything else.
    pub open spec fn fonts_needed(&self, dpi: u32) -> (bool, bool) {
        (self.selector_font_dpi != dpi, self.font_dpi != dpi)
    }

    /// Which fonts a layout has to make first. The selector keeps its font when the
    /// language changes: a native list whose font is reset may open scrolled past
    /// its first choice.
    pub fn fonts_due(&mut self, dpi: u32) -> (r: (bool, bool))
        ensures
            r == old(self).fonts_needed(dpi),
            *final(self) == (SettingsWindow { selector_font_dpi: dpi, font_dpi: dpi, ..*old(self) }),
    {
        let selector = self.selector_font_dpi != dpi;
        let body = self.font_dpi != dpi;
        self.selector_font_dpi = dpi;
        self.font_dpi = dpi;
        (selector, body)
    }

    /// The text of the recording button.
    pub fn key_button_label(&self, language: Language) -> (r: String)
        requires
            self.wf(),
        ensures
            r@ == key_button_text(
                self.recording,
                key_text(self.selected_key as int)->0,
                language,
            ),
    {
        if self.recording {
            return String::from_str(tr(language, "按下主键…", "Press a key…"));
        }
        match key_name(self.selected_key) {
            Some(mut text) => {
                text.append(tr(language, " · 点击修改", " · Change"));
                text
            },
            None => String::new(),
        }
    }

    /// The text of the hint beside it.
    pub fn capture_hint_label(&self, language: Language) -> (r: &'static str)
        ensures
            r@ == hint_text(self.capture_hint, language),
    {
        match self.capture_hint {
            CaptureHint::Ready => tr(
                language,
                "点击按钮后按下新主键\r\n至少选择 Ctrl 或 Alt",
                "Click, then press a new key\r\nSelect Ctrl or Alt (or both)",
            ),
            CaptureHint::Listening => tr(
                language,
                "字母、数字或 F1–F11\r\nEsc 取消 · Tab 离开",
                "Letters, digits or F1–F11\r\nEsc to cancel · Tab to leave",
            ),
            CaptureHint::Invalid => tr(
                language,
                "仅支持字母、数字和 F1–F11\r\n请重试 · Esc 取消",
                "Use letters, digits or F1–F11\r\nTry again · Esc to cancel",
            ),
            CaptureHint::Accepted => tr(
                language,
                "主键已更新，应用后生效\r\n点击按钮可再次修改",
                "Key updated; Apply to save\r\nClick to change it again",
            ),
            CaptureHint::Cancelled => tr(
                language,
                "已保留原主键\r\n点击按钮后重新录制",
                "Original key kept\r\nClick to record again",
            ),
        }
    }

    /// The styles of the push buttons.
    pub fn default_styles(&self) -> (r: Vec<ButtonStyle>)
        ensures
            r@ == styles(seq![APPLY, CLOSE, KEY], self.default_id),
    {
        let ids: [usize; 3] = [APPLY, CLOSE, KEY];
        assert(ids@ =~= seq![APPLY, CLOSE, KEY]);
        button_styles(&ids, self.default_id)
    }

    /// What a new window tells.
    pub open spec fn opening_text(
        notice: Option<Seq<char>>,
        save_allowed: bool,
        language: Language,
    ) -> Seq<char> {
        if save_allowed {
            match notice {
                Some(notice) => notice,
                None => translation(
                    language,
                    "点击“应用”保存更改。",
                    "Click Apply to save changes.",
                )@,
            }
        } else {
            let read_only = translation(
                language,
                "当前配置只读，无法应用更改。",
                "Settings are read-only; changes cannot be applied.",
            )@;
            match notice {
                Some(notice) => notice + "\r\n"@ + read_only,
                None => read_only,
            }
        }
    }

    /// What a new window tells: a notice of the host, that changes can be saved, or
    /// that they cannot. Notices and read-only settings are shown as errors.
    pub fn opening_status(&mut self, notice: Option<&str>, language: Language) -> (r: String)
        ensures
            r@ == Self::opening_text(
                match notice {
                    Some(notice) => Some(notice@),
                    None => None,
                },
                old(self).save_allowed,
                language,
            ),
            *final(self) == (SettingsWindow {
                status_tone: if notice is Some || !old(self).save_allowed {
                    Tone::Error
                } else {
                    Tone::Muted
                },
                ..*old(self)
            }),
    {
        self.status_tone = if notice.is_some() || !self.save_allowed {
            Tone::Error
        } else {
            Tone::Muted
        };
        let usual = if self.save_allowed {
            tr(language, "点击“应用”保存更改。", "Click Apply to save changes.")
        } else {
            tr(
                language,
                "当前配置只读，无法应用更改。",
                "Settings are read-only; changes cannot be applied.",
            )
        };
        match notice {
            Some(notice) => {
                let mut text = String::from_str(notice);
                if !self.save_allowed {
                    text.append("\r\n");
                    text.append(usual);
                }
                text
            },
            None => String::from_str(usual),
        }
    }
}

/// Once laid out, a window whose language is set again needs no new font, and one
/// whose language changes keeps the font of its language selector and gets new
/// ones for everything else.
pub proof fn language_switches_keep_the_selector_font(
    window: SettingsWindow,
    dpi: u32,
    language: Language,
)
    requires
        dpi != 0,
        window.fonts_needed(dpi) == (false, false),
    ensures
        window.relabelled(language).fonts_needed(dpi) == (false, window.shown_language != Some(
            language,
        )),
        window.relabelled(language).relabelled(language) == window.relabelled(language),
        window.relabelled(language).scroll_offset == window.scroll_offset,
        window.relabelled(language).selected_key == window.selected_key,
{
}

/// The value of the border slider, as text.
pub fn border_value_text(border_width_dip: u8) -> (r: String)
    ensures
        r@ == natural_text(border_width_dip as nat) + " DIP"@,
{
    let mut text = String::new();
    push_natural(&mut text, border_width_dip as u32);
    text.append(" DIP");
    assert(text@ =~= natural_text(border_width_dip as nat) + " DIP"@);
    text
}

/// The value of the transparency slider, as text.
pub fn transparency_value_text(background_transparency_percent: u8) -> (r: String)
    ensures
        r@ == natural_text(background_transparency_percent as nat) + "%"@,
{
    let mut text = String::new();
    push_natural(&mut text, background_transparency_percent as u32);
    text.append("%");
    assert(text@ =~= natural_text(background_transparency_percent as nat) + "%"@);
    text
}

/// The example, described for those who do not see it.
pub open spec fn example_description(appearance: AppearanceConfig, language: Language) -> Seq<char> {
    translation(
        language,
        "取色外观示例：#49A7C6，X 1280 Y 720，边框 ",
        "Appearance sample: #49A7C6, X 1280 Y 720, border ",
    )@ + natural_text(appearance.border_width_dip as nat) + translation(
        language,
        " DIP，背景透明度 ",
        " DIP, transparency ",
    )@ + natural_text(appearance.background_transparency_percent as nat) + "%"@
}

pub fn preview_description(appearance: AppearanceConfig, language: Language) -> (r: String)
    ensures
        r@ == example_description(appearance, language),
{
    let mut text = String::from_str(
        tr(
            language,
            "取色外观示例：#49A7C6，X 1280 Y 720，边框 ",
            "Appearance sample: #49A7C6, X 1280 Y 720, border ",
        ),
    );
    push_natural(&mut text, appearance.border_width_dip as u32);
    text.append(tr(language, " DIP，背景透明度 ", " DIP, transparency "));
    push_natural(&mut text, appearance.background_transparency_percent as u32);
    text.append("%");
    text
}

/// Size and weight of a control's font in device-independent pixels.
pub open spec fn settings_font_size(id: usize) -> (i32, i32) {
    if id == TITLE {
        (20, 600)
    } else if id == HOTKEY_LABEL || id == COPY_HEADING || id == APPEARANCE_HEADING {
        (14, 600)
    } else if id == USAGE_HEADING || id == SUBTITLE || id == HINT || id == USAGE_HINT || id
        == STATUS || id == DETAILS || id == PREVIEW_HEADING || id == PREVIEW_HINT {
        (12, 400)
    } else {
        (14, 400)
    }
}

/// The font of a control. The language selector shows both languages and always
/// has the Chinese one.
pub fn settings_font(id: usize, dpi: u32, language: Language) -> (r: FontRequest)
    requires
        dpi <= 9600,
    ensures
        r.height == -dip(settings_font_size(id).0, dpi),
        r.weight == settings_font_size(id).1,
        r.face@ == control_face(
            false,
            if id == LANGUAGE {
                Language::SimplifiedChinese
            } else {
                language
            },
        ),
{
    let (size, weight): (i32, i32) = if id == TITLE {
        (20, 600)
    } else if id == HOTKEY_LABEL || id == COPY_HEADING || id == APPEARANCE_HEADING {
        (14, 600)
    } else if id == USAGE_HEADING || id == SUBTITLE || id == HINT || id == USAGE_HINT || id
        == STATUS || id == DETAILS || id == PREVIEW_HEADING || id == PREVIEW_HINT {
        (12, 400)
    } else {
        (14, 400)
    };
    proof {
        lemma_dip(size, dpi);
    }
    let language = if id == LANGUAGE {
        Language::SimplifiedChinese
    } else {
        language
    };
    control_font(size, dpi, weight, false, language)
}

/// What is told of a draft that cannot be read; nothing of one that is read and
/// refused.
pub fn draft_error_text(error: DraftError, language: Language) -> (r: Option<&'static str>)
    ensures
        match r {
            Some(text) => text@ == (match error {
                DraftError::NoChoice => translation(
                    language,
                    "请选择有效的选项",
                    "Choose a valid option",
                ),
                DraftError::Key => translation(language, "请选择有效的主键", "Choose a valid key"),
                DraftError::Format => translation(
                    language,
                    "请选择有效的颜色格式",
                    "Choose a valid color format",
                ),
                DraftError::Language => translation(
                    language,
                    "请选择有效的语言",
                    "Choose a valid language",
                ),
                _ => translation(
                    language,
                    "请选择有效的取色外观值",
                    "Choose a valid appearance value",
                ),
            })@ && !(error is Invalid),
            None => error is Invalid,
        },
{
    match error {
        DraftError::NoChoice => Some(tr(language, "请选择有效的选项", "Choose a valid option")),
        DraftError::Key => Some(tr(language, "请选择有效的主键", "Choose a valid key")),
        DraftError::Format => Some(
            tr(language, "请选择有效的颜色格式", "Choose a valid color format"),
        ),
        DraftError::Language => Some(tr(language, "请选择有效的语言", "Choose a valid language")),
        DraftError::Appearance => Some(
            tr(language, "请选择有效的取色外观值", "Choose a valid appearance value"),
        ),
        DraftError::Invalid(_) => None,
    }
}

/// The status, its details and the two buttons stay in place; everything else is in
/// the scrolling content and is brought into view by the keyboard.
pub proof fn everything_but_the_actions_scrolls(index: int)
    requires
        0 <= index < created_settings_controls().len(),
    ensures
        ({
            let control = created_settings_controls()[index];
            let stays = control.id == STATUS || control.id == DETAILS || control.id == CLOSE
                || control.id == APPLY;
            control.in_content == !stays && control.reveals == !stays
        }),
{
}

/// The button shows the recorded key in front of the invitation to change it; while a
/// key is recorded it says the same whatever the key was.
pub proof fn key_buttons_show_the_key(
    key: Seq<char>,
    other: Seq<char>,
    language: Language,
)
    ensures
        ({
            let text = key_button_text(false, key, language);
            let invitation = translation(language, " · 点击修改", " · Change")@;
            &&& text.len() == key.len() + invitation.len()
            &&& text.take(key.len() as int) == key
            &&& text.skip(key.len() as int) == invitation
        }),
        key_button_text(true, key, language) == key_button_text(true, other, language),
        key_button_text(true, key, language) == translation(
            language,
            "按下主键…",
            "Press a key…",
        )@,
{
    let text = key_button_text(false, key, language);
    let invitation = translation(language, " · 点击修改", " · Change")@;
    assert(text.take(key.len() as int) =~= key);
    assert(text.skip(key.len() as int) =~= invitation);
}

/// The description names the border first and the transparency second, as numbers
/// between the same words for every appearance. The numbers are handed out.
pub proof fn descriptions_name_the_appearance(
    appearance: AppearanceConfig,
    language: Language,
) -> (parts: (Seq<char>, Seq<char>))
    ensures
        example_description(appearance, language) == translation(
            language,
            "取色外观示例：#49A7C6，X 1280 Y 720，边框 ",
            "Appearance sample: #49A7C6, X 1280 Y 720, border ",
        )@ + parts.0 + translation(language, " DIP，背景透明度 ", " DIP, transparency ")@ + parts.1
            + seq!['%'],
        writes(parts.0, appearance.border_width_dip as int),
        writes(parts.1, appearance.background_transparency_percent as int),
{
    reveal_strlit("%");
    natural_texts_read_back(appearance.border_width_dip as nat);
    natural_texts_read_back(appearance.background_transparency_percent as nat);
    assert("%"@ =~= seq!['%']);
    (
        natural_text(appearance.border_width_dip as nat),
        natural_text(appearance.background_transparency_percent as nat),
    )
}

/// The title has the largest text and the headings are as bold as it; no other
/// control is bold, and notes are smaller than what is operated.
pub proof fn titles_stand_out(id: usize)
    ensures
        ({
            let (size, weight) = settings_font_size(id);
            let heading = id == HOTKEY_LABEL || id == COPY_HEADING || id == APPEARANCE_HEADING;
            let note = id == SUBTITLE || id == HINT || id == PREVIEW_HEADING || id == PREVIEW_HINT
                || id == USAGE_HEADING || id == USAGE_HINT || id == STATUS || id == DETAILS;
            let title = settings_font_size(TITLE);
            &&& id != TITLE ==> size < title.0
            &&& weight == title.1 <==> id == TITLE || heading
            &&& weight <= title.1
            &&& size == 12 <==> note
            &&& id != TITLE && !note ==> size == 14
        }),
        settings_font_size(TITLE) == (20i32, 600i32),
{
}

/// A new window always passes its notice on, in front of anything else; a read-only
/// one always ends with saying so, and one that can be saved never says it.
pub proof fn notices_are_passed_on(notice: Seq<char>, language: Language)
    ensures
        ({
            let read_only = translation(
                language,
                "当前配置只读，无法应用更改。",
                "Settings are read-only; changes cannot be applied.",
            )@;
            let told = SettingsWindow::opening_text(Some(notice), false, language);
            &&& SettingsWindow::opening_text(Some(notice), true, language) == notice
            &&& SettingsWindow::opening_text(None, false, language) == read_only
            &&& told.len() == notice.len() + 2 + read_only.len()
            &&& told.take(notice.len() as int) == notice
            &&& told.skip(notice.len() as int + 2) == read_only
            &&& SettingsWindow::opening_text(None, true, language) == translation(
                language,
                "点击“应用”保存更改。",
                "Click Apply to save changes.",
            )@
        }),
{
    reveal_strlit("\r\n");
    let read_only = translation(
        language,
        "当前配置只读，无法应用更改。",
        "Settings are read-only; changes cannot be applied.",
    )@;
    let told = SettingsWindow::opening_text(Some(notice), false, language);
    assert(told.take(notice.len() as int) =~= notice);
    assert(told.skip(notice.len() as int + 2) =~= read_only);
}

/// Every text has the same place in both languages, and each place is named once.
pub proof fn languages_label_the_same_places(i: int, j: int)
    requires
        0 <= i < j < settings_labels(Language::English).len(),
    ensures
        settings_labels(Language::English).len() == settings_labels(
            Language::SimplifiedChinese,
        ).len(),
        settings_labels(Language::English)[i].of == settings_labels(
            Language::SimplifiedChinese,
        )[i].of,
        settings_labels(Language::English)[j].of == settings_labels(
            Language::SimplifiedChinese,
        )[j].of,
        settings_labels(Language::English)[i].of != settings_labels(Language::English)[j].of,
{
}

} // verus!
