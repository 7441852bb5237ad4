//! Text injection decisions: the foreground window captured when recording
//! starts, whether a text field had focus, the checks made before pasting,
//! and the strategies that recognise a focused text input.
use vstd::prelude::*;
use vstd::string::*;
use crate::text::same_text;

verus! {

/// A reference to the window (or, where windows are not addressable, the
/// application) that had the focus.
pub type WindowRef = u64;

/// State captured at the moment recording starts.
#[derive(Debug, Clone, Copy, PartialEq, Eq, Structural)]
pub struct CapturedState {
    pub window: WindowRef,
    pub has_text_focus: bool,
}

/// The window reference of the foreground window. Where the platform offers
/// no way to address it, there is none.
pub fn current_window() -> (r: Option<WindowRef>)
    ensures
        r is None,
{
    None
}

/// Bring a window back to the foreground. Where the platform offers no way to
/// address windows this does nothing and succeeds.
pub fn focus_window(_window: WindowRef) -> (r: Result<(), String>)
    ensures
        r is Ok,
{
    Ok(())
}

/// Whether the focused element accepts text. Where the platform offers no way
/// to inspect the focused element it is assumed to.
pub fn has_text_focus() -> (r: bool)
    ensures
        r,
{
    true
}

/// What is kept when recording starts: nothing when no window was found,
/// otherwise the window and whether a text field had focus.
pub fn capture_foreground_window(window: Option<WindowRef>, text_focus: bool) -> (r: Option<CapturedState>)
    ensures
        window is None ==> r is None,
        window matches Some(w) ==> r == Some(CapturedState { window: w, has_text_focus: text_focus }),
{
    match window {
        Some(w) => Some(CapturedState { window: w, has_text_focus: text_focus }),
        None => None,
    }
}

/// The window to give the focus back to before pasting, if one was captured.
pub fn refocus_captured_window(captured: &Option<CapturedState>) -> (r: Option<WindowRef>)
    ensures
        r == (match *captured { Some(c) => Some(c.window), None => None }),
{
    match captured {
        Some(c) => Some(c.window),
        None => None,
    }
}

/// Pasting is refused when the window captured at the start of recording had
/// no text field focused; it is allowed when nothing was captured.
pub fn check_text_focus(captured: &Option<CapturedState>) -> (r: Result<(), String>)
    ensures
        (captured matches Some(c) && !c.has_text_focus) ==>
            (r matches Err(m) && m@ == "No text input field was focused when recording started"@),
        !(captured matches Some(c) && !c.has_text_focus) ==> r is Ok,
{
    match captured {
        Some(c) => {
            if !c.has_text_focus {
                return Err(String::from_str("No text input field was focused when recording started"));
            }
            Ok(())
        },
        None => Ok(()),
    }
}

/// Pasting needs the accessibility permission (simulated key presses).
pub fn check_accessibility(granted: bool) -> (r: Result<(), String>)
    ensures
        granted ==> r is Ok,
        !granted ==> (r matches Err(m) && m@ == "Accessibility permission required. Grant access in System Settings \u{2192} Privacy & Security \u{2192} Accessibility."@),
{
    if granted {
        Ok(())
    } else {
        Err(String::from_str(
            "Accessibility permission required. Grant access in System Settings \u{2192} Privacy & Security \u{2192} Accessibility.",
        ))
    }
}

/// UI Automation control type of an edit control.
pub const UIA_EDIT_CONTROL_TYPE_ID: i32 = 50004;

/// UI Automation control type of a document control.
pub const UIA_DOCUMENT_CONTROL_TYPE_ID: i32 = 50030;

/// LegacyIAccessible role of editable text.
pub const ROLE_SYSTEM_TEXT: u32 = 42;

/// LegacyIAccessible role of a combo box.
pub const ROLE_SYSTEM_COMBOBOX: u32 = 46;

/// The properties of the focused UI element that the strategies read.
#[derive(Debug)]
pub struct ElementInfo {
    pub control_type: i32,
    pub class_name: String,
    pub name: String,
    pub legacy_role: u32,
}

/// An edit control is always editable.
pub fn is_edit_control(control_type: i32) -> (r: bool)
    ensures
        r == (control_type == UIA_EDIT_CONTROL_TYPE_ID),
{
    control_type == UIA_EDIT_CONTROL_TYPE_ID
}

/// Terminal windows (by class name) always accept pasted text.
pub open spec fn terminal_class(class_name: Seq<char>) -> bool {
    class_name == "TermControl"@ || class_name == "ConsoleWindowClass"@
}

/// Whether the window class is a terminal's.
pub fn is_terminal_window(class_name: &str) -> (r: bool)
    ensures
        r == terminal_class(class_name@),
{
    same_text(class_name, "TermControl") || same_text(class_name, "ConsoleWindowClass")
}

/// Whether the control is a document control.
pub fn is_document_control(control_type: i32) -> (r: bool)
    ensures
        r == (control_type == UIA_DOCUMENT_CONTROL_TYPE_ID),
{
    control_type == UIA_DOCUMENT_CONTROL_TYPE_ID
}

/// Whether the legacy accessibility role is a text role.
pub fn has_legacy_text_role(legacy_role: u32) -> (r: bool)
    ensures
        r == (legacy_role == ROLE_SYSTEM_TEXT || legacy_role == ROLE_SYSTEM_COMBOBOX),
{
    legacy_role == ROLE_SYSTEM_TEXT || legacy_role == ROLE_SYSTEM_COMBOBOX
}

/// The verdict on the focused element, with the strategy that accepted it or
/// the reason it was rejected (for the log).
#[derive(Debug, Clone, Copy, PartialEq, Eq)]
pub enum FocusCheck {
    Hit(&'static str),
    Miss(&'static str),
}

/// The four strategies in order: edit control; terminal class; document
/// control, decided by a writable value pattern when the element has one;
/// text-like legacy role. `writable_value` is the value pattern's answer
/// (writable or read-only), `None` when the element has none.
pub open spec fn focus_check_spec(info: ElementInfo, writable_value: Option<bool>) -> (bool, Seq<char>) {
    if info.control_type == UIA_EDIT_CONTROL_TYPE_ID {
        (true, "S1:Edit"@)
    } else if terminal_class(info.class_name@) {
        (true, "S2:Terminal"@)
    } else if info.control_type == UIA_DOCUMENT_CONTROL_TYPE_ID && writable_value == Some(true) {
        (true, "S3:DocValue"@)
    } else if info.control_type == UIA_DOCUMENT_CONTROL_TYPE_ID && writable_value == Some(false) {
        (false, "Doc"@)
    } else if info.legacy_role == ROLE_SYSTEM_TEXT || info.legacy_role == ROLE_SYSTEM_COMBOBOX {
        (true, "S4:Legacy"@)
    } else {
        (false, ""@)
    }
}

/// Every element that is not an edit control but belongs to a terminal window
/// (class `TermControl` or `ConsoleWindowClass`) is accepted by the terminal
/// strategy, whatever its role or value pattern; an edit control is always
/// accepted by the edit strategy; and an element is rejected only when no
/// strategy applies.
pub proof fn law_terminals_and_edits_accept_text(info: ElementInfo, writable_value: Option<bool>)
    ensures
        info.control_type != UIA_EDIT_CONTROL_TYPE_ID
            && (info.class_name@ == "TermControl"@ || info.class_name@ == "ConsoleWindowClass"@)
            ==> focus_check_spec(info, writable_value) == (true, "S2:Terminal"@),
        info.control_type == UIA_EDIT_CONTROL_TYPE_ID ==> focus_check_spec(info, writable_value) == (true, "S1:Edit"@),
        !focus_check_spec(info, writable_value).0 ==> {
            &&& info.control_type != UIA_EDIT_CONTROL_TYPE_ID
            &&& info.class_name@ != "TermControl"@
            &&& info.class_name@ != "ConsoleWindowClass"@
            &&& info.legacy_role != ROLE_SYSTEM_TEXT || info.control_type == UIA_DOCUMENT_CONTROL_TYPE_ID
            &&& info.legacy_role != ROLE_SYSTEM_COMBOBOX || info.control_type == UIA_DOCUMENT_CONTROL_TYPE_ID
            &&& writable_value != Some(true) || info.control_type != UIA_DOCUMENT_CONTROL_TYPE_ID
        },
{
}

/// The verdict as a pair: accepted, and the strategy or the reason.
pub open spec fn focus_check_view(c: FocusCheck) -> (bool, Seq<char>) {
    match c {
        FocusCheck::Hit(s) => (true, s@),
        FocusCheck::Miss(s) => (false, s@),
    }
}

/// Decide whether the focused element accepts text.
pub fn evaluate_focus(info: &ElementInfo, writable_value: Option<bool>) -> (r: FocusCheck)
    ensures
        focus_check_view(r) == focus_check_spec(*info, writable_value),
{
    if is_edit_control(info.control_type) {
        return FocusCheck::Hit("S1:Edit");
    }
    if is_terminal_window(info.class_name.as_str()) {
        return FocusCheck::Hit("S2:Terminal");
    }
    if is_document_control(info.control_type) {
        match writable_value {
            Some(true) => {
                return FocusCheck::Hit("S3:DocValue");
            },
            Some(false) => {
                return FocusCheck::Miss("Doc");
            },
            None => {},
        }
    }
    if has_legacy_text_role(info.legacy_role) {
        return FocusCheck::Hit("S4:Legacy");
    }
    FocusCheck::Miss("")
}

/// Whether a verdict accepts the element.
pub fn is_hit(c: FocusCheck) -> (r: bool)
    ensures
        r == focus_check_view(c).0,
{
    match c {
        FocusCheck::Hit(_) => true,
        FocusCheck::Miss(_) => false,
    }
}

} // verus!
