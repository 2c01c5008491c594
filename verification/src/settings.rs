//! The settings window's decisions: which page a navigation tag shows, which option a combo
//! box selects, the font list, and what each change message writes to `config.toml`. Every
//! change is written back in place and the file is read again, so the window always reflects
//! the file.

use vstd::prelude::*;
use crate::strings::{str_equal, eq_ignore_ascii_case, eq_ignore_ascii_case_spec, trim, is_trim_of};
use crate::dictionaries::{names, with, without, toggle_domain, toggle_user};

verus! {

/// A page of the settings window.
#[derive(Clone, Copy, Debug, PartialEq, Eq, Structural)]
pub enum Page {
    General,
    Appearance,
    Dictionaries,
    Advanced,
    About,
}

/// The page a navigation tag selects; unknown tags show the general page.
pub open spec fn page_for_tag_spec(tag: Seq<char>) -> Page {
    if tag == "appearance"@ {
        Page::Appearance
    } else if tag == "dictionaries"@ {
        Page::Dictionaries
    } else if tag == "advanced"@ {
        Page::Advanced
    } else if tag == "about"@ {
        Page::About
    } else {
        Page::General
    }
}

/// The page shown for the current navigation tag.
pub fn page_for_tag(tag: &str) -> (r: Page)
    ensures
        r == page_for_tag_spec(tag@),
{
    if str_equal(tag, "appearance") {
        Page::Appearance
    } else if str_equal(tag, "dictionaries") {
        Page::Dictionaries
    } else if str_equal(tag, "advanced") {
        Page::Advanced
    } else if str_equal(tag, "about") {
        Page::About
    } else {
        Page::General
    }
}

/// The first index whose configuration spelling is `value`, or 0 when none is.
pub open spec fn index_of_spec(values: Seq<Seq<char>>, value: Seq<char>) -> int {
    if exists|i: int| 0 <= i < values.len() && values[i] == value {
        choose|i: int| 0 <= i < values.len() && values[i] == value && forall|j: int| 0 <= j < i ==> values[j] != value
    } else {
        0
    }
}

/// The configuration spellings of a list of `(label, spelling)` options.
pub open spec fn spellings(options: Seq<(&str, &str)>) -> Seq<Seq<char>> {
    options.map_values(|o: (&str, &str)| o.1@)
}

/// The index of `value` among the options' configuration spellings; 0 when it is not there.
pub fn index_of(options: &[(&str, &str)], value: &str) -> (r: usize)
    ensures
        r == index_of_spec(spellings(options@), value@),
        options@.len() > 0 ==> r < options@.len(),
{
    let mut i: usize = 0;
    while i < options.len()
        invariant
            i <= options@.len(),
            forall|j: int| 0 <= j < i ==> spellings(options@)[j] != value@,
        decreases options.len() - i,
    {
        if str_equal(options[i].1, value) {
            assert(spellings(options@)[i as int] == value@);
            assert(forall|j: int| 0 <= j < i ==> spellings(options@)[j] != value@);
            return i;
        }
        i = i + 1;
    }
    0
}

/// The font list and the selected entry: first the system font, then the installed
/// families; the trimmed configured family is matched ignoring ASCII case, and a configured
/// family that is not installed is appended and selected so the list shows what the file holds.
pub open spec fn font_options_spec(families: Seq<Seq<char>>, configured: Seq<char>, system_label: Seq<char>) -> (Seq<Seq<char>>, int) {
    let base = seq![system_label] + families;
    if exists|i: int| 0 <= i < families.len() && eq_ignore_ascii_case_spec(families[i], configured) {
        (base, 1 + choose|i: int| 0 <= i < families.len() && eq_ignore_ascii_case_spec(families[i], configured)
            && forall|j: int| 0 <= j < i ==> !eq_ignore_ascii_case_spec(families[j], configured))
    } else if configured.len() > 0 {
        (base.push(configured), families.len() + 1int)
    } else {
        (base, 0)
    }
}

fn find_family(families: &Vec<String>, configured: &str) -> (r: Option<usize>)
    ensures
        r matches Some(k) ==> k < families.len() && eq_ignore_ascii_case_spec(names(families@)[k as int], configured@)
            && forall|j: int| 0 <= j < k ==> !eq_ignore_ascii_case_spec(#[trigger] names(families@)[j], configured@),
        r is None ==> forall|j: int| 0 <= j < families.len() ==> !eq_ignore_ascii_case_spec(#[trigger] names(families@)[j], configured@),
{
    let mut k: usize = 0;
    while k < families.len()
        invariant
            k <= families.len(),
            forall|j: int| 0 <= j < k ==> !eq_ignore_ascii_case_spec(#[trigger] names(families@)[j], configured@),
        decreases families.len() - k,
    {
        assert(names(families@)[k as int] == families@[k as int]@);
        if eq_ignore_ascii_case(families[k].as_str(), configured) {
            return Some(k);
        }
        k = k + 1;
    }
    None
}

/// The entries of the font combo box and the index selected; `configured` is the `font` value
/// of the configuration, `system_label` the name of the system-font entry.
pub fn font_options(families: &Vec<String>, configured: &str, system_label: &str) -> (r: (Vec<String>, usize))
    requires
        families.len() + 2 <= usize::MAX,
    ensures
        exists|t: Seq<char>| #[trigger] is_trim_of(configured@, t) && names(r.0@) == font_options_spec(names(families@), t, system_label@).0
            && r.1 == font_options_spec(names(families@), t, system_label@).1,
{
    let configured = trim(configured);
    let ghost t = configured@;
    let ghost fams = names(families@);
    let mut options: Vec<String> = Vec::new();
    options.push(String::from_str(system_label));
    let mut i: usize = 0;
    while i < families.len()
        invariant
            i <= families.len(),
            names(options@) == seq![system_label@] + fams.take(i as int),
            fams == names(families@),
        decreases families.len() - i,
    {
        let ghost prev = names(options@);
        options.push(families[i].clone());
        assert(fams.take(i + 1) =~= fams.take(i as int).push(fams[i as int]));
        assert(names(options@) =~= prev.push(fams[i as int]));
        i = i + 1;
    }
    assert(fams.take(families.len() as int) =~= fams);
    let found = find_family(families, configured);
    match found {
        Some(index) => {
            assert(eq_ignore_ascii_case_spec(fams[index as int], t));
            (options, index + 1)
        },
        None => {
            assert(!exists|j: int| 0 <= j < fams.len() && eq_ignore_ascii_case_spec(fams[j], t));
            if configured.unicode_len() > 0 {
                let ghost prev = names(options@);
                options.push(String::from_str(configured));
                assert(names(options@) =~= prev.push(t));
                let selected = options.len() - 1;
                (options, selected)
            } else {
                (options, 0)
            }
        },
    }
}

/// The shuangpin schemes in the order of the combo box, by configuration spelling (empty for
/// full pinyin).
pub open spec fn shuangpin_value(i: int) -> Seq<char> {
    if i == 0 {
        ""@
    } else if i == 1 {
        "xiaohe"@
    } else if i == 2 {
        "ziranma"@
    } else if i == 3 {
        "microsoft"@
    } else {
        "sogou"@
    }
}

/// The auxiliary-code schemes of the combo box (empty for off).
pub open spec fn fuma_value(i: int) -> Seq<char> {
    if i == 0 {
        ""@
    } else {
        "xiaohe"@
    }
}

/// The page-key pairs of the combo box.
pub open spec fn page_keys_value(i: int) -> Seq<char> {
    if i == 0 {
        "[]"@
    } else if i == 1 {
        ",."@
    } else {
        "-="@
    }
}

/// The modifier presets for deleting a candidate.
pub open spec fn modifiers_value(i: int) -> Seq<char> {
    if i == 0 {
        "ctrl"@
    } else if i == 1 {
        "alt"@
    } else if i == 2 {
        "shift"@
    } else if i == 3 {
        "shift+ctrl"@
    } else if i == 4 {
        "ctrl+alt"@
    } else {
        "shift+alt"@
    }
}

/// Number of shuangpin schemes, auxiliary-code schemes, page-key pairs and modifier presets.
pub const SHUANGPIN_COUNT: usize = 5;
pub const FUMA_COUNT: usize = 2;
pub const PAGE_KEYS_COUNT: usize = 3;
pub const MODIFIERS_COUNT: usize = 6;

fn shuangpin_text(i: usize) -> (r: &'static str)
    ensures
        r@ == shuangpin_value(i as int),
{
    if i == 0 {
        ""
    } else if i == 1 {
        "xiaohe"
    } else if i == 2 {
        "ziranma"
    } else if i == 3 {
        "microsoft"
    } else {
        "sogou"
    }
}

fn fuma_text(i: usize) -> (r: &'static str)
    ensures
        r@ == fuma_value(i as int),
{
    if i == 0 {
        ""
    } else {
        "xiaohe"
    }
}

fn page_keys_text(i: usize) -> (r: &'static str)
    ensures
        r@ == page_keys_value(i as int),
{
    if i == 0 {
        "[]"
    } else if i == 1 {
        ",."
    } else {
        "-="
    }
}

fn modifiers_text(i: usize) -> (r: &'static str)
    ensures
        r@ == modifiers_value(i as int),
{
    if i == 0 {
        "ctrl"
    } else if i == 1 {
        "alt"
    } else if i == 2 {
        "shift"
    } else if i == 3 {
        "shift+ctrl"
    } else if i == 4 {
        "ctrl+alt"
    } else {
        "shift+alt"
    }
}

/// A change message of the settings window.
#[derive(Debug)]
pub enum Message {
    /// Navigation to another page (`None` is a deselection and ignored).
    Navigate(Option<String>),
    /// Candidates per page, as entered and rounded to an integer.
    PageSize(Option<i64>),
    Shuangpin(Option<usize>),
    Fuma(Option<usize>),
    /// The 大千注音 (zhuyin) switch.
    Zhuyin(bool),
    ChineseFirst(bool),
    FullWidthPunctuation(bool),
    EnglishFullWidthPunctuation(bool),
    Theme(Option<usize>),
    Layout(Option<usize>),
    Preedit(Option<usize>),
    Renderer(Option<usize>),
    /// A font picked from the list: 0 is the system font, then the installed families.
    Font(Option<usize>),
    StatusBar(bool),
    LocalModel(bool),
    PageKeys(Option<usize>),
    DeleteCandidate(Option<usize>),
    ToggleDomain(String, bool),
    ToggleUserDict(String, bool),
    /// Move an imported dictionary to `dicts\removed`.
    RemoveUserDict(String),
    ImportDictionary,
    VerboseLog(bool),
    InputLog(bool),
    Learning(bool),
    OpenConfigFile,
    OpenDataDir,
    OpenLogDir,
    ExportLogs,
    ClearInputLog,
    OpenWebsite,
    OpenRepository,
}

/// A value written into `config.toml`.
#[derive(Debug)]
pub enum ConfigValue {
    Text(String),
    Flag(bool),
    Number(i64),
}

/// A setting whose value is one of an enumeration defined by the platform configuration.
#[derive(Clone, Copy, Debug, PartialEq, Eq, Structural)]
pub enum ChoiceSetting {
    Theme,
    Layout,
    Preedit,
    Renderer,
}

/// How many values each enumerated setting has.
#[derive(Clone, Copy, Debug)]
pub struct ChoiceCounts {
    pub theme: usize,
    pub layout: usize,
    pub preedit: usize,
    pub renderer: usize,
}

/// What the settings window does for a message.
#[derive(Debug)]
pub enum SettingsAction {
    Nothing,
    /// Show the page with this tag.
    Navigate(String),
    /// Write `value` to `[section] key` and read the file again.
    Save { section: String, key: String, value: ConfigValue },
    /// Write the `index`-th value of the enumerated setting to `[general]` and read again.
    SaveChoice { setting: ChoiceSetting, index: usize },
    /// Write `[general] log_level` (debug or info) and read again.
    SaveLogLevel { debug: bool },
    /// Write the string array `values` to `[section] key` and read again.
    SaveArray { section: String, key: String, values: Vec<String> },
    RemoveUserDict(String),
    ImportDictionary,
    OpenConfigFile,
    OpenDataDir,
    OpenLogDir,
    ExportLogs,
    ClearInputLog,
    OpenWebsite,
    OpenRepository,
}

/// A written value, as a mathematical value.
pub enum ValueView {
    Text(Seq<char>),
    Flag(bool),
    Number(int),
}

/// An action, as a mathematical value.
pub enum ActionView {
    Nothing,
    Navigate(Seq<char>),
    Save(Seq<char>, Seq<char>, ValueView),
    SaveChoice(ChoiceSetting, int),
    SaveLogLevel(bool),
    SaveArray(Seq<char>, Seq<char>, Seq<Seq<char>>),
    RemoveUserDict(Seq<char>),
    ImportDictionary,
    OpenConfigFile,
    OpenDataDir,
    OpenLogDir,
    ExportLogs,
    ClearInputLog,
    OpenWebsite,
    OpenRepository,
}

/// The view of a written value.
pub open spec fn value_view(v: ConfigValue) -> ValueView {
    match v {
        ConfigValue::Text(s) => ValueView::Text(s@),
        ConfigValue::Flag(b) => ValueView::Flag(b),
        ConfigValue::Number(n) => ValueView::Number(n as int),
    }
}

/// The view of an action.
pub open spec fn action_view(a: SettingsAction) -> ActionView {
    match a {
        SettingsAction::Nothing => ActionView::Nothing,
        SettingsAction::Navigate(t) => ActionView::Navigate(t@),
        SettingsAction::Save { section, key, value } => ActionView::Save(section@, key@, value_view(value)),
        SettingsAction::SaveChoice { setting, index } => ActionView::SaveChoice(setting, index as int),
        SettingsAction::SaveLogLevel { debug } => ActionView::SaveLogLevel(debug),
        SettingsAction::SaveArray { section, key, values } => ActionView::SaveArray(section@, key@, names(values@)),
        SettingsAction::RemoveUserDict(n) => ActionView::RemoveUserDict(n@),
        SettingsAction::ImportDictionary => ActionView::ImportDictionary,
        SettingsAction::OpenConfigFile => ActionView::OpenConfigFile,
        SettingsAction::OpenDataDir => ActionView::OpenDataDir,
        SettingsAction::OpenLogDir => ActionView::OpenLogDir,
        SettingsAction::ExportLogs => ActionView::ExportLogs,
        SettingsAction::ClearInputLog => ActionView::ClearInputLog,
        SettingsAction::OpenWebsite => ActionView::OpenWebsite,
        SettingsAction::OpenRepository => ActionView::OpenRepository,
    }
}

/// Candidates per page are kept within 1 to 9.
pub open spec fn page_size_clamped(v: int) -> int {
    if v < 1 {
        1
    } else if v > 9 {
        9
    } else {
        v
    }
}

/// A write of `value` to `[section] key`.
pub open spec fn save(section: Seq<char>, key: Seq<char>, value: ValueView) -> ActionView {
    ActionView::Save(section, key, value)
}

/// An enumerated choice that is only written while in range.
pub open spec fn choice(setting: ChoiceSetting, index: Option<usize>, count: usize) -> ActionView {
    match index {
        Some(i) if i < count => ActionView::SaveChoice(setting, i as int),
        _ => ActionView::Nothing,
    }
}

/// What each message does. Combo-box indices out of range and cleared selections change
/// nothing; every other change message writes its value.
pub open spec fn update_spec(
    message: Message,
    families: Seq<Seq<char>>,
    domains: Seq<Seq<char>>,
    disabled: Seq<Seq<char>>,
    counts: ChoiceCounts,
) -> ActionView {
    match message {
        Message::Navigate(Some(tag)) => ActionView::Navigate(tag@),
        Message::Navigate(None) => ActionView::Nothing,
        Message::Shuangpin(Some(i)) if i < SHUANGPIN_COUNT => save("general"@, "shuangpin"@, ValueView::Text(shuangpin_value(i as int))),
        Message::Fuma(Some(i)) if i < FUMA_COUNT => save("general"@, "fuma"@, ValueView::Text(fuma_value(i as int))),
        Message::PageSize(Some(v)) => save("general"@, "page_size"@, ValueView::Number(page_size_clamped(v as int))),
        Message::PageKeys(Some(i)) if i < PAGE_KEYS_COUNT => save("general"@, "page_keys"@, ValueView::Text(page_keys_value(i as int))),
        Message::DeleteCandidate(Some(i)) if i < MODIFIERS_COUNT => save("shortcut"@, "delete_candidate"@, ValueView::Text(modifiers_value(i as int))),
        Message::FullWidthPunctuation(on) => save("general"@, "full_width_punctuation"@, ValueView::Flag(on)),
        Message::EnglishFullWidthPunctuation(on) => save("general"@, "english_full_width_punctuation"@, ValueView::Flag(on)),
        Message::LocalModel(on) => save("model"@, "enabled"@, ValueView::Flag(on)),
        Message::ChineseFirst(on) => save("general"@, "chinese_first"@, ValueView::Flag(on)),
        Message::Zhuyin(on) => save("general"@, "zhuyin"@, ValueView::Flag(on)),
        Message::Theme(i) => choice(ChoiceSetting::Theme, i, counts.theme),
        Message::Layout(i) => choice(ChoiceSetting::Layout, i, counts.layout),
        Message::Preedit(i) => choice(ChoiceSetting::Preedit, i, counts.preedit),
        Message::Renderer(i) => choice(ChoiceSetting::Renderer, i, counts.renderer),
        Message::Font(Some(i)) => if i == 0 {
            save("general"@, "font"@, ValueView::Text(""@))
        } else if i <= families.len() {
            save("general"@, "font"@, ValueView::Text(families[i - 1]))
        } else {
            ActionView::Nothing
        },
        Message::StatusBar(on) => save("status_bar"@, "enabled"@, ValueView::Flag(on)),
        Message::ToggleDomain(name, on) => ActionView::SaveArray(
            "dictionaries"@,
            "domains"@,
            if on { with(domains, name@) } else { without(domains, name@) },
        ),
        Message::ToggleUserDict(name, on) => ActionView::SaveArray(
            "dictionaries"@,
            "disabled"@,
            if on { without(disabled, name@) } else { with(disabled, name@) },
        ),
        Message::RemoveUserDict(name) => ActionView::RemoveUserDict(name@),
        Message::ImportDictionary => ActionView::ImportDictionary,
        Message::VerboseLog(on) => ActionView::SaveLogLevel(on),
        Message::InputLog(on) => save("general"@, "input_log"@, ValueView::Flag(on)),
        Message::Learning(on) => save("general"@, "learning"@, ValueView::Flag(on)),
        Message::OpenConfigFile => ActionView::OpenConfigFile,
        Message::OpenDataDir => ActionView::OpenDataDir,
        Message::OpenLogDir => ActionView::OpenLogDir,
        Message::ExportLogs => ActionView::ExportLogs,
        Message::ClearInputLog => ActionView::ClearInputLog,
        Message::OpenWebsite => ActionView::OpenWebsite,
        Message::OpenRepository => ActionView::OpenRepository,
        _ => ActionView::Nothing,
    }
}

fn save_action(section: &str, key: &str, value: ConfigValue) -> (r: SettingsAction)
    ensures
        action_view(r) == save(section@, key@, value_view(value)),
{
    SettingsAction::Save { section: String::from_str(section), key: String::from_str(key), value }
}

fn text(s: &str) -> (r: ConfigValue)
    ensures
        value_view(r) == ValueView::Text(s@),
{
    ConfigValue::Text(String::from_str(s))
}

fn clone_list(list: &Vec<String>) -> (r: Vec<String>)
    ensures
        names(r@) == names(list@),
{
    let mut out: Vec<String> = Vec::new();
    let mut i: usize = 0;
    while i < list.len()
        invariant
            i <= list.len(),
            names(out@) == names(list@).take(i as int),
        decreases list.len() - i,
    {
        let ghost prev = names(out@);
        out.push(list[i].clone());
        assert(names(list@).take(i + 1) =~= names(list@).take(i as int).push(names(list@)[i as int]));
        assert(names(out@) =~= prev.push(list@[i as int]@));
        i = i + 1;
    }
    assert(names(list@).take(list.len() as int) =~= names(list@));
    out
}

/// What the settings window does for `message`: which value it writes where, or which file,
/// folder or page it opens. `families` are the installed font families, `domains` and
/// `disabled` the current dictionary lists.
pub fn update(
    message: Message,
    families: &Vec<String>,
    domains: &Vec<String>,
    disabled: &Vec<String>,
    counts: ChoiceCounts,
) -> (r: SettingsAction)
    ensures
        action_view(r) == update_spec(message, names(families@), names(domains@), names(disabled@), counts),
{
    match message {
        Message::Navigate(Some(tag)) => SettingsAction::Navigate(tag),
        Message::Navigate(None) => SettingsAction::Nothing,
        Message::Shuangpin(Some(i)) if i < SHUANGPIN_COUNT => save_action("general", "shuangpin", text(shuangpin_text(i))),
        Message::Fuma(Some(i)) if i < FUMA_COUNT => save_action("general", "fuma", text(fuma_text(i))),
        Message::PageSize(Some(v)) => {
            let size: i64 = if v < 1 {
                1
            } else if v > 9 {
                9
            } else {
                v
            };
            save_action("general", "page_size", ConfigValue::Number(size))
        },
        Message::PageKeys(Some(i)) if i < PAGE_KEYS_COUNT => save_action("general", "page_keys", text(page_keys_text(i))),
        Message::DeleteCandidate(Some(i)) if i < MODIFIERS_COUNT => save_action("shortcut", "delete_candidate", text(modifiers_text(i))),
        Message::FullWidthPunctuation(on) => save_action("general", "full_width_punctuation", ConfigValue::Flag(on)),
        Message::EnglishFullWidthPunctuation(on) => save_action("general", "english_full_width_punctuation", ConfigValue::Flag(on)),
        Message::LocalModel(on) => save_action("model", "enabled", ConfigValue::Flag(on)),
        Message::ChineseFirst(on) => save_action("general", "chinese_first", ConfigValue::Flag(on)),
        Message::Zhuyin(on) => save_action("general", "zhuyin", ConfigValue::Flag(on)),
        Message::Theme(Some(i)) if i < counts.theme => SettingsAction::SaveChoice { setting: ChoiceSetting::Theme, index: i },
        Message::Layout(Some(i)) if i < counts.layout => SettingsAction::SaveChoice { setting: ChoiceSetting::Layout, index: i },
        Message::Preedit(Some(i)) if i < counts.preedit => SettingsAction::SaveChoice { setting: ChoiceSetting::Preedit, index: i },
        Message::Renderer(Some(i)) if i < counts.renderer => SettingsAction::SaveChoice { setting: ChoiceSetting::Renderer, index: i },
        Message::Font(Some(i)) => {
            if i == 0 {
                save_action("general", "font", text(""))
            } else if i <= families.len() {
                assert(names(families@)[i - 1] == families@[i - 1]@);
                save_action("general", "font", ConfigValue::Text(families[i - 1].clone()))
            } else {
                SettingsAction::Nothing
            }
        },
        Message::StatusBar(on) => save_action("status_bar", "enabled", ConfigValue::Flag(on)),
        Message::ToggleDomain(name, on) => {
            let values = toggle_domain(clone_list(domains), name.as_str(), on);
            SettingsAction::SaveArray { section: String::from_str("dictionaries"), key: String::from_str("domains"), values }
        },
        Message::ToggleUserDict(name, on) => {
            let values = toggle_user(clone_list(disabled), name.as_str(), on);
            SettingsAction::SaveArray { section: String::from_str("dictionaries"), key: String::from_str("disabled"), values }
        },
        Message::RemoveUserDict(name) => SettingsAction::RemoveUserDict(name),
        Message::ImportDictionary => SettingsAction::ImportDictionary,
        Message::VerboseLog(on) => SettingsAction::SaveLogLevel { debug: on },
        Message::InputLog(on) => save_action("general", "input_log", ConfigValue::Flag(on)),
        Message::Learning(on) => save_action("general", "learning", ConfigValue::Flag(on)),
        Message::OpenConfigFile => SettingsAction::OpenConfigFile,
        Message::OpenDataDir => SettingsAction::OpenDataDir,
        Message::OpenLogDir => SettingsAction::OpenLogDir,
        Message::ExportLogs => SettingsAction::ExportLogs,
        Message::ClearInputLog => SettingsAction::ClearInputLog,
        Message::OpenWebsite => SettingsAction::OpenWebsite,
        Message::OpenRepository => SettingsAction::OpenRepository,
        _ => SettingsAction::Nothing,
    }
}

/// The on/off switches of the settings window, numbered.
pub open spec fn flag_message(k: int, on: bool) -> Message {
    if k == 0 {
        Message::ChineseFirst(on)
    } else if k == 1 {
        Message::FullWidthPunctuation(on)
    } else if k == 2 {
        Message::EnglishFullWidthPunctuation(on)
    } else if k == 3 {
        Message::StatusBar(on)
    } else if k == 4 {
        Message::LocalModel(on)
    } else if k == 5 {
        Message::Zhuyin(on)
    } else if k == 6 {
        Message::InputLog(on)
    } else {
        Message::Learning(on)
    }
}

/// Number of on/off switches.
pub const FLAG_COUNT: usize = 8;

/// The `(section, key)` of `config.toml` that switch `k` stands for.
pub open spec fn flag_key(k: int) -> (Seq<char>, Seq<char>) {
    if k == 0 {
        ("general"@, "chinese_first"@)
    } else if k == 1 {
        ("general"@, "full_width_punctuation"@)
    } else if k == 2 {
        ("general"@, "english_full_width_punctuation"@)
    } else if k == 3 {
        ("status_bar"@, "enabled"@)
    } else if k == 4 {
        ("model"@, "enabled"@)
    } else if k == 5 {
        ("general"@, "zhuyin"@)
    } else if k == 6 {
        ("general"@, "input_log"@)
    } else {
        ("general"@, "learning"@)
    }
}

/// Each switch writes its own setting, and only its value: switch `k` turned to `on` writes
/// the flag `on` to its own `(section, key)`, and no two switches share a `(section, key)`, so
/// flipping one never overwrites another.
pub proof fn lemma_each_switch_writes_its_own_key(
    k: int,
    j: int,
    on: bool,
    families: Seq<Seq<char>>,
    domains: Seq<Seq<char>>,
    disabled: Seq<Seq<char>>,
    counts: ChoiceCounts,
)
    requires
        0 <= k < FLAG_COUNT,
        0 <= j < FLAG_COUNT,
    ensures
        update_spec(flag_message(k, on), families, domains, disabled, counts) == ActionView::Save(
            flag_key(k).0,
            flag_key(k).1,
            ValueView::Flag(on),
        ),
        k != j ==> flag_key(k) != flag_key(j),
{
    reveal_strlit("general");
    reveal_strlit("status_bar");
    reveal_strlit("model");
    reveal_strlit("chinese_first");
    reveal_strlit("full_width_punctuation");
    reveal_strlit("english_full_width_punctuation");
    reveal_strlit("enabled");
    reveal_strlit("zhuyin");
    reveal_strlit("input_log");
    reveal_strlit("learning");
    if k != j {
        assert(flag_key(k).0.len() != flag_key(j).0.len() || flag_key(k).1.len() != flag_key(j).1.len());
    }
}

} // verus!
