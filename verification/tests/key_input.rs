use qingjian_windows::key_input::{
    apply_chinese, apply_english, apply_function_key, apply_printable, apply_punctuation, commit_highlighted, CommitStep,
    composing, function_effect, is_control, letter_text, route_key, tries_digit_shortcut, ChineseAction, Effect,
    EnglishAction, FunctionAction, KeyRoute, PrintableAction, VK_BACK, VK_DOWN, VK_END, VK_ESCAPE, VK_HOME,
    VK_LEFT, VK_NEXT, VK_PRIOR, VK_RETURN, VK_RIGHT, VK_UP,
};

#[test]
fn routes_keys_by_modifiers_and_character() {
    assert_eq!(route_key(true, Some('a'), false, false), KeyRoute::Passthrough);
    assert_eq!(route_key(false, None, false, false), KeyRoute::Function);
    assert_eq!(route_key(false, Some('\u{8}'), false, false), KeyRoute::Function);
    assert_eq!(route_key(false, Some('\u{85}'), false, false), KeyRoute::Function);
    assert_eq!(route_key(false, Some('a'), true, false), KeyRoute::English('a'));
    assert_eq!(route_key(false, Some('a'), false, true), KeyRoute::English('a'));
    assert_eq!(route_key(false, Some('a'), false, false), KeyRoute::Chinese('a'));
    assert!(is_control('\u{7f}'));
    assert!(!is_control('中'));
    assert!(tries_digit_shortcut(true, Some(1)));
    assert!(!tries_digit_shortcut(false, Some(1)));
    assert!(composing("ni"));
    assert!(!composing(""));
}

#[test]
fn function_keys_map_to_engine_actions() {
    assert_eq!(apply_function_key(false, VK_RETURN), FunctionAction::PassToApp { note_newline: true });
    assert_eq!(apply_function_key(false, VK_BACK), FunctionAction::PassToApp { note_newline: false });
    assert_eq!(apply_function_key(true, VK_BACK), FunctionAction::Backspace);
    assert_eq!(apply_function_key(true, VK_ESCAPE), FunctionAction::Clear);
    assert_eq!(apply_function_key(true, VK_RETURN), FunctionAction::CommitRaw);
    assert_eq!(apply_function_key(true, VK_DOWN), FunctionAction::MoveHighlight(1));
    assert_eq!(apply_function_key(true, VK_UP), FunctionAction::MoveHighlight(-1));
    assert_eq!(apply_function_key(true, VK_NEXT), FunctionAction::Page(1));
    assert_eq!(apply_function_key(true, VK_PRIOR), FunctionAction::Page(-1));
    assert_eq!(apply_function_key(true, VK_LEFT), FunctionAction::CursorLeft);
    assert_eq!(apply_function_key(true, VK_RIGHT), FunctionAction::CursorRight);
    assert_eq!(apply_function_key(true, VK_HOME), FunctionAction::CursorHome);
    assert_eq!(apply_function_key(true, VK_END), FunctionAction::CursorEnd);
    assert_eq!(apply_function_key(true, 0x09), FunctionAction::Ignore);
    assert!(matches!(function_effect(FunctionAction::CommitRaw, Some("ni".to_owned())), Effect::Changed(Some(ref t)) if t == "ni"));
    assert!(matches!(function_effect(FunctionAction::Page(1), None), Effect::Navigated));
    assert!(matches!(function_effect(FunctionAction::Ignore, None), Effect::Passthrough));
    assert!(matches!(function_effect(FunctionAction::Clear, None), Effect::Changed(None)));
}

#[test]
fn chinese_keys() {
    assert_eq!(apply_chinese('n', false, false), ChineseAction::Pinyin);
    assert_eq!(apply_chinese('N', true, true), ChineseAction::FumaCode);
    assert_eq!(apply_chinese('N', true, false), ChineseAction::ShiftLetter { commit_raw_first: true });
    assert_eq!(apply_chinese('N', false, true), ChineseAction::ShiftLetter { commit_raw_first: false });
    assert_eq!(apply_chinese(',', false, false), ChineseAction::Punctuation);
    assert_eq!(apply_chinese(',', true, false), ChineseAction::Printable);
}

#[test]
fn printable_keys_while_composing() {
    assert_eq!(apply_printable(';', true, None, 0, 0, 5, None), PrintableAction::Push);
    assert_eq!(apply_printable('3', false, Some(3), 12, 7, 5, None), PrintableAction::Commit(7));
    assert_eq!(apply_printable('3', false, Some(3), 0, 7, 5, None), PrintableAction::Push);
    assert_eq!(apply_printable(']', false, None, 12, 0, 5, Some(1)), PrintableAction::Page(1));
    assert_eq!(apply_printable(' ', false, None, 12, 0, 5, None), PrintableAction::CommitHighlighted);
    assert_eq!(apply_printable('!', false, None, 12, 0, 5, None), PrintableAction::Push);
}

#[test]
fn english_and_punctuation() {
    assert_eq!(apply_english('q', true), EnglishAction::Letter { commit_raw_first: true });
    assert_eq!(apply_english('1', false), EnglishAction::Punctuation { commit_raw_first: false });
    assert_eq!(letter_text('Q'), "Q");
    assert!(matches!(apply_punctuation(Some("，".to_owned())), Effect::Changed(Some(ref t)) if t == "，"));
    assert!(matches!(apply_punctuation(None), Effect::Passthrough));
}

#[test]
fn commit_highlighted_falls_back_to_raw() {
    assert_eq!(commit_highlighted(Some("你好".to_owned())), CommitStep::Done("你好".to_owned()));
    assert_eq!(commit_highlighted(None), CommitStep::TakeRaw);
}
