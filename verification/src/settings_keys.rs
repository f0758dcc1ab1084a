//! Recording a shortcut's key in the settings window. A key that was consumed
//! while recording stays owned until it is released, wherever the focus goes.
//! This filters messages of the window only; it is no global keyboard hook.
use crate::hotkey::{key_name, supported_key};
use crate::settings::{CaptureHint, SettingsIntention, SettingsWindow};
use crate::window_lifetime::WindowHandle;
use vstd::prelude::*;

verus! {

/// Native key codes with a meaning of their own while recording.
pub const TAB: u32 = 0x09;

pub const SHIFT_KEY: u32 = 0x10;

pub const CONTROL_KEY: u32 = 0x11;

pub const ALT_KEY: u32 = 0x12;

pub const ESCAPE: u32 = 0x1b;

/// The native messages of the recording button, with what it needs of each.
#[derive(Debug, Clone, Copy, PartialEq, Eq, Structural)]
pub enum KeyMessage {
    /// The dialog asks which keys the button takes.
    DialogCode { key: u32 },
    FocusLost,
    /// A key went down, with or without Alt.
    Down { key: u32 },
    /// A key came up, with or without Alt.
    Up { key: u32 },
    /// A translated character.
    Character,
    Destroyed,
    Other,
}

/// How the recording button answers a message.
#[derive(Debug, Clone, Copy, PartialEq, Eq, Structural)]
pub enum KeyReply {
    /// The message ends here.
    Consumed,
    /// Leave the message to the system.
    Default,
    /// Leave it to the system, and take all keys in addition to its answer.
    WantAllKeys,
    /// Detach from the button, then leave the message to the system.
    Detach,
}

/// The answer to a message, and whether the owner has to be woken.
#[derive(Debug, Clone, Copy, PartialEq, Eq, Structural)]
pub struct KeyDispatched {
    pub reply: KeyReply,
    pub post_wake: bool,
}

/// A modifier key.
pub open spec fn modifier_key(key: u32) -> bool {
    key == SHIFT_KEY || key == CONTROL_KEY || key == ALT_KEY
}

/// The owned keys with a key put in or taken out. Codes beyond the last key are
/// never owned.
pub open spec fn owning(keys: Set<u32>, key: u32, owned: bool) -> Set<u32> {
    if key >= 256 {
        keys
    } else if owned {
        keys.insert(key)
    } else {
        keys.remove(key)
    }
}

impl SettingsWindow {
    /// Whether a key press is recorded.
    pub open spec fn records(&self, key: u32) -> bool {
        self.recording && !self.suppressed@.contains(key) && key != TAB
    }

    /// The owned keys after a message of the recording button.
    pub open spec fn keys_after(&self, message: KeyMessage) -> Set<u32> {
        match message {
            KeyMessage::Down { key } => if self.records(key) {
                owning(self.suppressed@, key, true)
            } else {
                self.suppressed@
            },
            KeyMessage::Up { key } => if self.recording || self.suppressed@.contains(key) {
                owning(self.suppressed@, key, false)
            } else {
                self.suppressed@
            },
            _ => self.suppressed@,
        }
    }

    /// What a message of the recording button asks to have done later.
    pub open spec fn key_intention(&self, message: KeyMessage) -> Option<SettingsIntention> {
        match message {
            KeyMessage::FocusLost => self.cancelling_intention(),
            KeyMessage::Down { key } => if self.suppressed@.contains(key) || !self.recording {
                None
            } else if modifier_key(key) {
                None
            } else {
                Some(SettingsIntention::Capture)
            },
            _ => None,
        }
    }

    /// What a message of the recording button changes at once, apart from the
    /// owned keys: a usable key is selected and ends the recording, Esc, Tab and
    /// leaving the button give it up, modifiers are passed over, and any other key
    /// is refused.
    pub open spec fn key_noted(self, message: KeyMessage) -> SettingsWindow {
        match message {
            KeyMessage::FocusLost => self.capture_cancelled(),
            KeyMessage::Down { key } => if self.suppressed@.contains(key) || !self.recording {
                self
            } else if key == TAB || key == ESCAPE {
                self.capture_cancelled()
            } else if supported_key(key as int) {
                SettingsWindow {
                    selected_key: key,
                    recording: false,
                    capture_hint: CaptureHint::Accepted,
                    ..self
                }
            } else if modifier_key(key) {
                self
            } else {
                SettingsWindow { capture_hint: CaptureHint::Invalid, ..self }
            },
            _ => self,
        }
    }

    /// The answer of the recording button.
    pub open spec fn key_reply(&self, message: KeyMessage) -> KeyReply {
        match message {
            KeyMessage::DialogCode { key } => if (self.recording && key != TAB)
                || self.suppressed@.contains(key) {
                KeyReply::WantAllKeys
            } else {
                KeyReply::Default
            },
            KeyMessage::FocusLost => KeyReply::Default,
            KeyMessage::Down { key } => if self.suppressed@.contains(key) || self.records(key) {
                KeyReply::Consumed
            } else {
                KeyReply::Default
            },
            KeyMessage::Up { key } => if self.recording || self.suppressed@.contains(key) {
                KeyReply::Consumed
            } else {
                KeyReply::Default
            },
            // A character may already be queued when its key is accepted. The
            // button takes no text and has no mnemonic.
            KeyMessage::Character => KeyReply::Consumed,
            KeyMessage::Destroyed => KeyReply::Detach,
            KeyMessage::Other => KeyReply::Default,
        }
    }

    /// A key press on the recording button, while recording and not owned yet.
    /// Returns what is to be done later.
    fn record_key(&mut self, key: u32) -> (r: Option<SettingsIntention>)
        requires
            old(self).wf(),
            old(self).recording,
            !old(self).suppressed@.contains(key),
        ensures
            final(self).wf(),
            final(self).suppressed@ == old(self).keys_after(KeyMessage::Down { key }),
            *final(self) == (SettingsWindow {
                suppressed: final(self).suppressed,
                ..old(self).key_noted(KeyMessage::Down { key })
            }),
            r == old(self).key_intention(KeyMessage::Down { key }),
    {
        if key == TAB {
            return self.cancel_capture();
        }
        // Every consumed key is owned until its release. A held key that was
        // refused stays owned even if a later one is accepted.
        self.suppressed.record(key, true);
        if key == ESCAPE {
            return self.cancel_capture();
        }
        if key_name(key).is_some() {
            self.selected_key = key;
            self.recording = false;
            self.capture_hint = CaptureHint::Accepted;
            return Some(SettingsIntention::Capture);
        }
        if key == SHIFT_KEY || key == CONTROL_KEY || key == ALT_KEY {
            return None;
        }
        self.capture_hint = CaptureHint::Invalid;
        Some(SettingsIntention::Capture)
    }

    /// Answers a message of the recording button.
    pub fn key_dispatch(&mut self, message: KeyMessage) -> (r: KeyDispatched)
        requires
            old(self).wf(),
        ensures
            final(self).wf(),
            final(self).suppressed@ == old(self).keys_after(message),
            *final(self) == (SettingsWindow {
                suppressed: final(self).suppressed,
                ..old(self).key_noted(message).queued(old(self).key_intention(message))
            }),
            r.reply == old(self).key_reply(message),
            r.post_wake == old(self).wakes(old(self).key_intention(message)),
    {
        let (intention, reply): (Option<SettingsIntention>, KeyReply) = match message {
            KeyMessage::DialogCode { key } => {
                // Enter and Esc have to reach the button while it records, and Tab
                // keeps its navigation.
                if (self.recording && key != TAB) || self.suppressed.contains(key) {
                    (None, KeyReply::WantAllKeys)
                } else {
                    (None, KeyReply::Default)
                }
            },
            KeyMessage::FocusLost => (self.cancel_capture(), KeyReply::Default),
            KeyMessage::Down { key } => {
                if self.suppressed.contains(key) {
                    (None, KeyReply::Consumed)
                } else if self.recording {
                    let intention = self.record_key(key);
                    (
                        intention,
                        if key == TAB {
                            KeyReply::Default
                        } else {
                            KeyReply::Consumed
                        },
                    )
                } else {
                    (None, KeyReply::Default)
                }
            },
            KeyMessage::Up { key } => {
                if self.recording || self.suppressed.contains(key) {
                    self.suppressed.record(key, false);
                    (None, KeyReply::Consumed)
                } else {
                    (None, KeyReply::Default)
                }
            },
            KeyMessage::Character => (None, KeyReply::Consumed),
            KeyMessage::Destroyed => (None, KeyReply::Detach),
            KeyMessage::Other => (None, KeyReply::Default),
        };
        let post_wake = match intention {
            Some(intention) => self.queue(intention),
            None => false,
        };
        KeyDispatched { reply, post_wake }
    }

    /// A control of the scrolling part got the focus and is to be brought into
    /// view. Says whether the owner has to be woken.
    pub fn control_focused(&mut self, control: WindowHandle) -> (r: bool)
        ensures
            *final(self) == old(self).queued(Some(SettingsIntention::Reveal(control))),
            r == old(self).wakes(Some(SettingsIntention::Reveal(control))),
    {
        self.queue(SettingsIntention::Reveal(control))
    }
}

/// A keyboard message before the dialog sees it.
#[derive(Debug, Clone, Copy, PartialEq, Eq, Structural)]
pub enum KeyEvent {
    /// A key went down; whether it was down already.
    Down { key: u32, repeated: bool },
    Up { key: u32 },
    Other { key: u32 },
}

impl KeyEvent {
    pub open spec fn key(self) -> u32 {
        match self {
            KeyEvent::Down { key, .. } => key,
            KeyEvent::Up { key } => key,
            KeyEvent::Other { key } => key,
        }
    }
}

impl SettingsWindow {
    /// Whether a keyboard message is held back from the dialog.
    pub open spec fn filters(&self, own: bool, event: KeyEvent) -> bool {
        own && self.suppressed@.contains(event.key()) && match event {
            KeyEvent::Down { repeated, .. } => repeated,
            KeyEvent::Up { .. } => true,
            KeyEvent::Other { .. } => false,
        }
    }

    /// Whether a keyboard message ends the ownership of its key: it came up, or it
    /// is pressed anew because its release went to another window.
    pub open spec fn releases(own: bool, event: KeyEvent) -> bool {
        own && match event {
            KeyEvent::Down { repeated, .. } => !repeated,
            KeyEvent::Up { .. } => true,
            KeyEvent::Other { .. } => false,
        }
    }

    /// Filters a keyboard message before the dialog sees it. `own` says that it is
    /// for this window or one of its controls. Returns whether it ends here.
    pub fn filter_key_message(&mut self, own: bool, event: KeyEvent) -> (r: bool)
        ensures
            r == old(self).filters(own, event),
            final(self).suppressed@ == (if Self::releases(own, event) {
                old(self).suppressed@.remove(event.key())
            } else {
                old(self).suppressed@
            }),
            *final(self) == (SettingsWindow { suppressed: final(self).suppressed, ..*old(self) }),
    {
        if !own {
            return false;
        }
        let key: u32 = match event {
            KeyEvent::Down { key, .. } => key,
            KeyEvent::Up { key } => key,
            KeyEvent::Other { key } => key,
        };
        if !self.suppressed.contains(key) {
            assert(self.suppressed@.remove(key) =~= self.suppressed@);
            return false;
        }
        proof {
            self.suppressed.lemma_codes(key);
        }
        match event {
            KeyEvent::Down { repeated, .. } => {
                if !repeated {
                    self.suppressed.record(key, false);
                    false
                } else {
                    true
                }
            },
            KeyEvent::Up { .. } => {
                self.suppressed.record(key, false);
                true
            },
            KeyEvent::Other { .. } => false,
        }
    }
}

/// A key that was consumed while recording is owned afterwards, and stays so
/// through every further message of the button but its own release: also through
/// the end of the recording and the loss of the focus.
pub proof fn consumed_keys_stay_owned(window: SettingsWindow, key: u32, message: KeyMessage)
    requires
        key < 256,
    ensures
        window.records(key) ==> window.keys_after(KeyMessage::Down { key }).contains(key),
        window.suppressed@.contains(key) && message != (KeyMessage::Up { key })
            ==> window.keys_after(message).contains(key),
{
}

/// While a key is owned, its repeated presses are held back from the dialog, and
/// so is its release, after which it is free again.
pub proof fn owned_keys_are_held_back_until_released(window: SettingsWindow, key: u32)
    requires
        window.suppressed@.contains(key),
    ensures
        window.filters(true, KeyEvent::Down { key, repeated: true }),
        window.filters(true, KeyEvent::Up { key }),
        !SettingsWindow::releases(true, KeyEvent::Down { key, repeated: true }),
        SettingsWindow::releases(true, KeyEvent::Up { key }),
        window.key_reply(KeyMessage::Down { key }) == KeyReply::Consumed,
        !window.keys_after(KeyMessage::Up { key }).contains(key),
{
    window.suppressed.lemma_codes(key);
}

/// A fresh press is never lost to a release that went elsewhere: it passes the
/// filter and frees its key. Messages for other windows always pass.
pub proof fn fresh_presses_are_never_lost(window: SettingsWindow, key: u32, event: KeyEvent)
    ensures
        !window.filters(true, KeyEvent::Down { key, repeated: false }),
        SettingsWindow::releases(true, KeyEvent::Down { key, repeated: false }),
        !window.filters(false, event),
        !SettingsWindow::releases(false, event),
{
}

/// Esc, Tab, leaving the button and unusable keys keep the selected key; and a
/// key is only ever replaced by one that shortcuts can use.
pub proof fn only_usable_keys_are_selected(window: SettingsWindow, message: KeyMessage)
    ensures
        ({
            let after = window.key_noted(message);
            &&& after.selected_key != window.selected_key ==> supported_key(
                after.selected_key as int,
            ) && window.recording && message == (KeyMessage::Down { key: after.selected_key })
            &&& message == KeyMessage::FocusLost || message == (KeyMessage::Down { key: TAB })
                || message == (KeyMessage::Down { key: ESCAPE })
                ==> after.selected_key == window.selected_key
        }),
{
}

/// A recording ends with Esc, Tab, a usable key or the loss of the focus, and with
/// nothing else that the button gets; an owned key does not end it.
pub proof fn recordings_end_only_as_told(window: SettingsWindow, message: KeyMessage)
    requires
        window.recording,
    ensures
        window.key_noted(message).recording <==> !(message == KeyMessage::FocusLost || (message matches KeyMessage::Down {
            key,
        } && !window.suppressed@.contains(key) && (key == TAB || key == ESCAPE || supported_key(
            key as int,
        )))),
{
}

/// While recording, a press of a letter, a digit or one of F1 to F11 that is not
/// owned yet selects that very key and ends the recording as accepted; the button
/// takes the press and has the change shown.
pub proof fn pressed_keys_are_selected(window: SettingsWindow, key: u32)
    requires
        window.recording,
        !window.suppressed@.contains(key),
        '0' as int <= key <= '9' as int || 'A' as int <= key <= 'Z' as int || 0x70 <= key <= 0x7a,
    ensures
        window.key_noted(KeyMessage::Down { key }) == (SettingsWindow {
            selected_key: key,
            recording: false,
            capture_hint: CaptureHint::Accepted,
            ..window
        }),
        window.key_reply(KeyMessage::Down { key }) == KeyReply::Consumed,
        window.key_intention(KeyMessage::Down { key }) == Some(SettingsIntention::Capture),
{
}

/// While recording, Esc and Tab give the recording up, Shift, Ctrl and Alt change
/// nothing, and any other key that shortcuts cannot use is refused and waited
/// after. None of them changes the selected key.
pub proof fn other_presses_select_nothing(window: SettingsWindow, key: u32)
    requires
        window.recording,
        !window.suppressed@.contains(key),
        !supported_key(key as int),
    ensures
        ({
            let after = window.key_noted(KeyMessage::Down { key });
            &&& after.selected_key == window.selected_key
            &&& key == 0x1b || key == 0x09 ==> !after.recording && after.capture_hint
                == CaptureHint::Cancelled
            &&& key == 0x10 || key == 0x11 || key == 0x12 ==> after == window
            &&& key != 0x1b && key != 0x09 && key != 0x10 && key != 0x11 && key != 0x12
                ==> after.recording && after.capture_hint == CaptureHint::Invalid
        }),
        key == 0x09 <==> window.key_reply(KeyMessage::Down { key }) == KeyReply::Default,
{
}

/// A key that goes down and comes up again leaves the owned keys as they were,
/// apart from itself.
pub proof fn released_keys_are_forgotten(window: SettingsWindow, after: SettingsWindow, key: u32)
    requires
        window.recording,
        key != TAB,
        after.suppressed@ == window.keys_after(KeyMessage::Down { key }),
    ensures
        after.keys_after(KeyMessage::Up { key }) == window.suppressed@.remove(key),
{
    window.suppressed.lemma_codes(key);
    assert(after.keys_after(KeyMessage::Up { key }) =~= window.suppressed@.remove(key));
}

/// Without a recording, and with no key owned, the button behaves as any other:
/// presses and releases go to the system and change nothing.
pub proof fn idle_buttons_leave_keys_alone(window: SettingsWindow, key: u32)
    requires
        !window.recording,
        !window.suppressed@.contains(key),
    ensures
        window.key_noted(KeyMessage::Down { key }) == window,
        window.key_noted(KeyMessage::Up { key }) == window,
        window.key_reply(KeyMessage::Down { key }) == KeyReply::Default,
        window.key_reply(KeyMessage::Up { key }) == KeyReply::Default,
        window.keys_after(KeyMessage::Down { key }) == window.suppressed@,
        window.keys_after(KeyMessage::Up { key }) == window.suppressed@,
{
}

/// A press has something shown exactly where it changes the recording or is refused:
/// not without a recording, not for a key that is owned already, and not for Shift, Ctrl
/// and Alt.
pub proof fn presses_are_shown_where_they_count(window: SettingsWindow, key: u32)
    ensures
        window.key_intention(KeyMessage::Down { key }) == (if window.recording
            && !window.suppressed@.contains(key) && key != 0x10 && key != 0x11 && key != 0x12 {
            Some(SettingsIntention::Capture)
        } else {
            None
        }),
        window.key_intention(KeyMessage::FocusLost) is Some <==> window.recording,
        window.key_intention(KeyMessage::Up { key }) is None,
{
}

/// Messages that are neither presses nor releases always pass the filter and free no
/// key, and nothing of a key that is not owned is held back.
pub proof fn other_messages_pass(window: SettingsWindow, own: bool, event: KeyEvent, key: u32)
    ensures
        !window.filters(own, KeyEvent::Other { key }),
        !SettingsWindow::releases(own, KeyEvent::Other { key }),
        !window.suppressed@.contains(event.key()) ==> !window.filters(own, event),
        (KeyEvent::Other { key }).key() == key,
        (KeyEvent::Up { key }).key() == key,
        (KeyEvent::Down { key, repeated: own }).key() == key,
{
}

/// A press or a release changes the ownership of its own key alone, and only of one of
/// the 256 codes.
pub proof fn only_the_own_key_changes(window: SettingsWindow, key: u32, other: u32)
    requires
        other != key || key >= 256,
    ensures
        window.keys_after(KeyMessage::Down { key }).contains(other)
            <==> window.suppressed@.contains(other),
        window.keys_after(KeyMessage::Up { key }).contains(other)
            <==> window.suppressed@.contains(other),
        window.keys_after(KeyMessage::FocusLost) == window.suppressed@,
        window.keys_after(KeyMessage::Character) == window.suppressed@,
{
}

/// Characters end at the button, which takes all keys but Tab while it records and the
/// owned ones after that; anything that it does not know goes to the system.
pub proof fn recording_buttons_take_the_keys(window: SettingsWindow, key: u32)
    ensures
        window.key_reply(KeyMessage::Character) == KeyReply::Consumed,
        window.key_reply(KeyMessage::Destroyed) == KeyReply::Detach,
        window.key_reply(KeyMessage::FocusLost) == KeyReply::Default,
        window.key_reply(KeyMessage::Other) == KeyReply::Default,
        window.key_reply(KeyMessage::DialogCode { key }) == KeyReply::WantAllKeys
            <==> window.suppressed@.contains(key) || window.recording && key != 0x09,
        window.key_reply(KeyMessage::Up { key }) == KeyReply::Consumed <==> window.recording
            || window.suppressed@.contains(key),
        window.suppressed@.contains(key) ==> window.key_noted(KeyMessage::Down { key }) == window,
        window.key_noted(KeyMessage::Up { key }) == window,
        window.key_noted(KeyMessage::Character) == window,
{
}

} // verus!
