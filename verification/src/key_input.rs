//! How a key acts on the engine and the highlight. Function keys go by key code, the rest by
//! character. While composing, modifier + digit is a shortcut; keys with Ctrl / Alt / Win that
//! match no shortcut belong to the application.
//!
//! The engine itself lives outside this library: these functions decide, from what the engine
//! reports, which engine operation the router performs and which effect it answers.

use vstd::prelude::*;

verus! {

/// Win32 virtual-key codes of the function keys the router handles.
pub const VK_BACK: u16 = 0x08;
pub const VK_RETURN: u16 = 0x0D;
pub const VK_ESCAPE: u16 = 0x1B;
pub const VK_PRIOR: u16 = 0x21;
pub const VK_NEXT: u16 = 0x22;
pub const VK_END: u16 = 0x23;
pub const VK_HOME: u16 = 0x24;
pub const VK_LEFT: u16 = 0x25;
pub const VK_UP: u16 = 0x26;
pub const VK_RIGHT: u16 = 0x27;
pub const VK_DOWN: u16 = 0x28;

/// What the router answers for a key.
#[derive(Debug)]
pub enum Effect {
    /// The key belongs to the application.
    Passthrough,
    /// The composition changed; the text, if any, is committed.
    Changed(Option<String>),
    /// Only the highlight or the page moved.
    Navigated,
}

/// A control character: general category Cc (C0 and C1 controls).
pub open spec fn is_control_spec(c: char) -> bool {
    (c as u32) <= 0x1f || (0x7f <= (c as u32) && (c as u32) <= 0x9f)
}

/// Whether `c` is a control character, as `char::is_control`.
pub fn is_control(c: char) -> (r: bool)
    ensures
        r == is_control_spec(c),
{
    let v = c as u32;
    v <= 0x1f || (0x7f <= v && v <= 0x9f)
}

/// Composing means the composition text is not empty.
pub fn composing(composition: &str) -> (r: bool)
    ensures
        r == (composition@.len() > 0),
{
    composition.unicode_len() > 0
}

/// While composing, a digit key is first offered to the modifier + digit shortcuts.
pub fn tries_digit_shortcut(composing: bool, digit_key: Option<usize>) -> (r: bool)
    ensures
        r == (composing && digit_key is Some),
{
    composing && digit_key.is_some()
}

/// Where a key goes once no digit shortcut took it.
#[derive(Clone, Copy, Debug, PartialEq, Eq, Structural)]
pub enum KeyRoute {
    /// Ctrl / Alt / Win held: the application's.
    Passthrough,
    /// No printable character: handled by key code.
    Function,
    /// English state (Caps Lock or the English mode): the letter goes into the text box.
    English(char),
    /// Chinese state.
    Chinese(char),
}

/// The route of a key: command keys pass through; keys without a printable character are
/// function keys; otherwise English when Caps Lock is on or English mode is set, else Chinese.
pub open spec fn route_key_spec(has_command_key: bool, character: Option<char>, caps: bool, english_mode: bool) -> KeyRoute {
    if has_command_key {
        KeyRoute::Passthrough
    } else {
        match character {
            Some(c) if !is_control_spec(c) => if caps || english_mode {
                KeyRoute::English(c)
            } else {
                KeyRoute::Chinese(c)
            },
            _ => KeyRoute::Function,
        }
    }
}

/// Routes a key that no digit shortcut took.
pub fn route_key(has_command_key: bool, character: Option<char>, caps: bool, english_mode: bool) -> (r: KeyRoute)
    ensures
        r == route_key_spec(has_command_key, character, caps, english_mode),
{
    if has_command_key {
        return KeyRoute::Passthrough;
    }
    match character {
        Some(c) => {
            if is_control(c) {
                KeyRoute::Function
            } else if caps || english_mode {
                KeyRoute::English(c)
            } else {
                KeyRoute::Chinese(c)
            }
        },
        None => KeyRoute::Function,
    }
}

/// What a function key does.
#[derive(Clone, Copy, Debug, PartialEq, Eq, Structural)]
pub enum FunctionAction {
    /// Not composing: the key is the application's; Return is also noted to the engine as a
    /// paragraph break when `note_newline`.
    PassToApp { note_newline: bool },
    /// Delete the character before the cursor; composition changed.
    Backspace,
    /// Drop the composition; composition changed.
    Clear,
    /// Commit the raw input as typed.
    CommitRaw,
    /// Move the highlight by the step; navigated.
    MoveHighlight(i32),
    /// Turn the page by the step; navigated.
    Page(i32),
    /// Move the cursor in the pinyin line; composition changed.
    CursorLeft,
    CursorRight,
    CursorHome,
    CursorEnd,
    /// Any other key while composing is the application's.
    Ignore,
}

/// The action of function key `virtual_key`.
pub open spec fn function_action_spec(composing: bool, virtual_key: u16) -> FunctionAction {
    if !composing {
        FunctionAction::PassToApp { note_newline: virtual_key == VK_RETURN }
    } else if virtual_key == VK_BACK {
        FunctionAction::Backspace
    } else if virtual_key == VK_ESCAPE {
        FunctionAction::Clear
    } else if virtual_key == VK_RETURN {
        FunctionAction::CommitRaw
    } else if virtual_key == VK_DOWN {
        FunctionAction::MoveHighlight(1i32)
    } else if virtual_key == VK_UP {
        FunctionAction::MoveHighlight(-1i32)
    } else if virtual_key == VK_NEXT {
        FunctionAction::Page(1i32)
    } else if virtual_key == VK_PRIOR {
        FunctionAction::Page(-1i32)
    } else if virtual_key == VK_LEFT {
        FunctionAction::CursorLeft
    } else if virtual_key == VK_RIGHT {
        FunctionAction::CursorRight
    } else if virtual_key == VK_HOME {
        FunctionAction::CursorHome
    } else if virtual_key == VK_END {
        FunctionAction::CursorEnd
    } else {
        FunctionAction::Ignore
    }
}

/// Backspace / Esc / Return / Tab / arrows; all go back to the application when not
/// composing.
pub fn apply_function_key(composing: bool, virtual_key: u16) -> (r: FunctionAction)
    ensures
        r == function_action_spec(composing, virtual_key),
{
    if !composing {
        return FunctionAction::PassToApp { note_newline: virtual_key == VK_RETURN };
    }
    if virtual_key == VK_BACK {
        FunctionAction::Backspace
    } else if virtual_key == VK_ESCAPE {
        FunctionAction::Clear
    } else if virtual_key == VK_RETURN {
        FunctionAction::CommitRaw
    } else if virtual_key == VK_DOWN {
        FunctionAction::MoveHighlight(1i32)
    } else if virtual_key == VK_UP {
        FunctionAction::MoveHighlight(-1i32)
    } else if virtual_key == VK_NEXT {
        FunctionAction::Page(1i32)
    } else if virtual_key == VK_PRIOR {
        FunctionAction::Page(-1i32)
    } else if virtual_key == VK_LEFT {
        FunctionAction::CursorLeft
    } else if virtual_key == VK_RIGHT {
        FunctionAction::CursorRight
    } else if virtual_key == VK_HOME {
        FunctionAction::CursorHome
    } else if virtual_key == VK_END {
        FunctionAction::CursorEnd
    } else {
        FunctionAction::Ignore
    }
}

/// The effect a function key answers with; `raw` is what committing the raw input took.
pub open spec fn function_effect_kind(action: FunctionAction) -> int {
    match action {
        FunctionAction::PassToApp { .. } | FunctionAction::Ignore => 0,
        FunctionAction::MoveHighlight(_) | FunctionAction::Page(_) => 2,
        _ => 1,
    }
}

/// The effect of a function-key action: pass through, navigated, or changed (committing the
/// raw input for Return).
pub fn function_effect(action: FunctionAction, raw: Option<String>) -> (r: Effect)
    ensures
        function_effect_kind(action) == 0 ==> r is Passthrough,
        function_effect_kind(action) == 2 ==> r is Navigated,
        action == FunctionAction::CommitRaw ==> r == Effect::Changed(raw),
        function_effect_kind(action) == 1 && action != FunctionAction::CommitRaw ==> r
            == Effect::Changed(None),
{
    match action {
        FunctionAction::PassToApp { .. } => Effect::Passthrough,
        FunctionAction::Ignore => Effect::Passthrough,
        FunctionAction::MoveHighlight(_) => Effect::Navigated,
        FunctionAction::Page(_) => Effect::Navigated,
        FunctionAction::CommitRaw => Effect::Changed(raw),
        _ => Effect::Changed(None),
    }
}

/// What a printable key does in the Chinese state.
#[derive(Clone, Copy, Debug, PartialEq, Eq, Structural)]
pub enum ChineseAction {
    /// Capital letter while composing with auxiliary codes on: an auxiliary-code key, pushed
    /// into the buffer; composition changed.
    FumaCode,
    /// Capital letter otherwise: English for one letter. When `commit_raw_first`, the pinyin
    /// typed so far is committed as is first; the letter is noted and passed through.
    ShiftLetter { commit_raw_first: bool },
    /// Lower-case letter: pinyin, pushed into the buffer; composition changed.
    Pinyin,
    /// Anything else while not composing: full-width punctuation.
    Punctuation,
    /// Anything else while composing: digits, page keys, space and direct English input.
    Printable,
}

/// The action of character `c` in the Chinese state.
pub open spec fn chinese_action_spec(c: char, composing: bool, fuma_enabled: bool) -> ChineseAction {
    if 'A' <= c && c <= 'Z' {
        if composing && fuma_enabled {
            ChineseAction::FumaCode
        } else {
            ChineseAction::ShiftLetter { commit_raw_first: composing }
        }
    } else if 'a' <= c && c <= 'z' {
        ChineseAction::Pinyin
    } else if !composing {
        ChineseAction::Punctuation
    } else {
        ChineseAction::Printable
    }
}

/// Chinese state: lower-case letters are pinyin; a capital letter types English for one letter
/// (committing the pinyin first while composing), or is an auxiliary-code key while composing
/// with auxiliary codes on; other keys are punctuation when not composing.
pub fn apply_chinese(c: char, composing: bool, fuma_enabled: bool) -> (r: ChineseAction)
    ensures
        r == chinese_action_spec(c, composing, fuma_enabled),
{
    if 'A' <= c && c <= 'Z' {
        if composing && fuma_enabled {
            return ChineseAction::FumaCode;
        }
        return ChineseAction::ShiftLetter { commit_raw_first: composing };
    }
    if 'a' <= c && c <= 'z' {
        return ChineseAction::Pinyin;
    }
    if !composing {
        return ChineseAction::Punctuation;
    }
    ChineseAction::Printable
}

/// What a printable key does while composing.
#[derive(Clone, Copy, Debug, PartialEq, Eq, Structural)]
pub enum PrintableAction {
    /// Pushed into the buffer (the `;` of an ing key, or direct English input).
    Push,
    /// Commit the candidate at this index of the whole list.
    Commit(usize),
    /// Turn the page by the step.
    Page(i32),
    /// Space: commit the highlighted candidate.
    CommitHighlighted,
}

/// The index a digit selects: the `digit`-th candidate of the highlighted page.
pub open spec fn digit_index(highlight: usize, page_size: usize, digit: usize) -> int {
    (highlight / page_size) * page_size + digit - 1
}

/// The action of a printable key while composing.
pub open spec fn printable_action_spec(
    c: char,
    takes_semicolon: bool,
    digit: Option<usize>,
    candidate_count: usize,
    highlight: usize,
    page_size: usize,
    page_step: Option<i32>,
) -> PrintableAction {
    if c == ';' && takes_semicolon {
        PrintableAction::Push
    } else if digit is Some && candidate_count > 0 {
        PrintableAction::Commit(digit_index(highlight, page_size, digit->0) as usize)
    } else if page_step is Some {
        PrintableAction::Page(page_step->0)
    } else if c == ' ' {
        PrintableAction::CommitHighlighted
    } else {
        PrintableAction::Push
    }
}

/// A printable key while composing: a digit selects the N-th candidate of the current page,
/// page keys turn the page, space commits the highlight, anything else goes into the buffer.
/// `;` is the ing key of the Microsoft / Sogou shuangpin schemes while a lone initial ends the
/// buffer (`takes_semicolon`). `digit` and `page_step` are what the key means as a candidate
/// digit and as a page key.
pub fn apply_printable(
    c: char,
    takes_semicolon: bool,
    digit: Option<usize>,
    candidate_count: usize,
    highlight: usize,
    page_size: usize,
    page_step: Option<i32>,
) -> (r: PrintableAction)
    requires
        page_size > 0,
        !(c == ';' && takes_semicolon) && digit is Some && candidate_count > 0 ==> digit->0 >= 1
            && digit_index(highlight, page_size, digit->0) <= usize::MAX,
    ensures
        r == printable_action_spec(c, takes_semicolon, digit, candidate_count, highlight, page_size, page_step),
{
    if c == ';' && takes_semicolon {
        return PrintableAction::Push;
    }
    match digit {
        Some(d) => {
            if candidate_count > 0 {
                let page = highlight / page_size;
                proof {
                    assert(page * page_size <= highlight) by (nonlinear_arith)
                        requires page == highlight / page_size, page_size > 0;
                }
                return PrintableAction::Commit(page * page_size + (d - 1));
            }
        },
        None => {},
    }
    match page_step {
        Some(step) => PrintableAction::Page(step),
        None => if c == ' ' {
            PrintableAction::CommitHighlighted
        } else {
            PrintableAction::Push
        },
    }
}

/// The answer after offering a character to full-width punctuation: the converted text when
/// there is one, otherwise the key passes through (and is noted to the engine by the caller).
pub fn apply_punctuation(converted: Option<String>) -> (r: Effect)
    ensures
        converted matches Some(text) ==> r == Effect::Changed(Some(text)),
        converted is None ==> r is Passthrough,
{
    match converted {
        Some(text) => Effect::Changed(Some(text)),
        None => Effect::Passthrough,
    }
}

/// What a key does in the English state.
#[derive(Clone, Copy, Debug, PartialEq, Eq, Structural)]
pub enum EnglishAction {
    /// A letter is inserted as typed (noted to the engine, not buffered, so no candidate
    /// window); pinyin typed before switching is committed first when `commit_raw_first`.
    Letter { commit_raw_first: bool },
    /// Anything else goes through the English mode's punctuation setting.
    Punctuation { commit_raw_first: bool },
}

/// English state: letters go straight into the text box; other keys through punctuation; pinyin
/// left from the Chinese mode is committed as typed first.
pub fn apply_english(c: char, composing: bool) -> (r: EnglishAction)
    ensures
        r == (if ('a' <= c && c <= 'z') || ('A' <= c && c <= 'Z') {
            EnglishAction::Letter { commit_raw_first: composing }
        } else {
            EnglishAction::Punctuation { commit_raw_first: composing }
        }),
{
    if ('a' <= c && c <= 'z') || ('A' <= c && c <= 'Z') {
        EnglishAction::Letter { commit_raw_first: composing }
    } else {
        EnglishAction::Punctuation { commit_raw_first: composing }
    }
}

/// The text a letter typed in the English state inserts: the letter itself.
pub fn letter_text(c: char) -> (r: String)
    ensures
        r@ == seq![c],
{
    let mut s = String::new();
    crate::text::push_char(&mut s, c);
    assert(s@ =~= seq![c]);
    s
}

/// What committing the highlight leads to.
#[derive(Debug, PartialEq, Eq)]
pub enum CommitStep {
    /// The highlighted candidate was committed with this text; the raw input stays untouched.
    Done(String),
    /// No candidate was committed: take the raw input as typed, and commit that.
    TakeRaw,
}

/// Space while composing commits the highlighted candidate; only when that commits nothing is
/// the raw input taken as typed. `committed` is what committing the highlight gave; the
/// caller takes the raw input on [`CommitStep::TakeRaw`] and never otherwise.
pub fn commit_highlighted(committed: Option<String>) -> (r: CommitStep)
    ensures
        committed matches Some(text) ==> r == CommitStep::Done(text),
        committed is None ==> r == CommitStep::TakeRaw,
{
    match committed {
        Some(text) => CommitStep::Done(text),
        None => CommitStep::TakeRaw,
    }
}

/// With nothing typed, no key is taken by the composition logic: function keys and printable
/// keys in the Chinese state are punctuation or pass through, never candidate selection.
pub proof fn lemma_not_composing_never_selects(c: char, fuma_enabled: bool, virtual_key: u16)
    ensures
        function_action_spec(false, virtual_key) is PassToApp,
        chinese_action_spec(c, false, fuma_enabled) != ChineseAction::Printable,
        chinese_action_spec(c, false, fuma_enabled) != ChineseAction::FumaCode,
{
}

} // verus!
