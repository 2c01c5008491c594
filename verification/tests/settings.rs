use qingjian_windows::about::{build_label, page_title, since_line};
use qingjian_windows::dictionaries::{dict_info, toggle_domain, toggle_user, DictMetadata};
use qingjian_windows::log_export::export_script;
use qingjian_windows::settings::{
    font_options, index_of, page_for_tag, update, ChoiceCounts, ChoiceSetting, ConfigValue, Message, Page,
    SettingsAction,
};
use qingjian_windows::title_bar::{alarming_hover, title_drag_command, window_button_command, WindowAction, WindowCommand};

fn strings(items: &[&str]) -> Vec<String> {
    items.iter().map(|s| s.to_string()).collect()
}

const COUNTS: ChoiceCounts = ChoiceCounts { theme: 3, layout: 2, preedit: 2, renderer: 2 };

#[test]
fn pages_by_tag() {
    assert_eq!(page_for_tag("about"), Page::About);
    assert_eq!(page_for_tag("dictionaries"), Page::Dictionaries);
    assert_eq!(page_for_tag("general"), Page::General);
    assert_eq!(page_for_tag("nonsense"), Page::General);
    assert_eq!(page_title("appearance"), "候选窗口");
    assert_eq!(page_title("other"), "other");
}

#[test]
fn combo_index_by_spelling() {
    let options = [("全拼", ""), ("小鹤双拼", "xiaohe"), ("自然码", "ziranma")];
    assert_eq!(index_of(&options, "ziranma"), 2);
    assert_eq!(index_of(&options, ""), 0);
    assert_eq!(index_of(&options, "unknown"), 0);
}

#[test]
fn font_list_appends_a_missing_configured_font() {
    let families = strings(&["Arial", "Segoe UI"]);
    let (options, selected) = font_options(&families, "  segoe ui ", "系统字体");
    assert_eq!(options, strings(&["系统字体", "Arial", "Segoe UI"]));
    assert_eq!(selected, 2);
    let (options, selected) = font_options(&families, "霞鹜文楷", "系统字体");
    assert_eq!(options, strings(&["系统字体", "Arial", "Segoe UI", "霞鹜文楷"]));
    assert_eq!(selected, 3);
    let (_, selected) = font_options(&families, "   ", "系统字体");
    assert_eq!(selected, 0);
}

#[test]
fn dictionary_toggles() {
    let domains = strings(&["law", "medicine"]);
    assert_eq!(toggle_domain(domains.clone(), "law", true), domains);
    assert_eq!(toggle_domain(domains.clone(), "it", true), strings(&["law", "medicine", "it"]));
    assert_eq!(toggle_domain(strings(&["law", "it", "law"]), "law", false), strings(&["it"]));
    assert_eq!(toggle_user(strings(&["a", "b"]), "a", true), strings(&["b"]));
    assert_eq!(toggle_user(strings(&["b"]), "a", false), strings(&["b", "a"]));
    assert_eq!(toggle_user(strings(&["b"]), "b", false), strings(&["b"]));
}

#[test]
fn toggling_on_then_off_restores_the_list() {
    let domains = strings(&["law", "medicine"]);
    let on = toggle_domain(domains.clone(), "it", true);
    assert_eq!(toggle_domain(on, "it", false), domains);
    let disabled = strings(&["b"]);
    let off = toggle_user(disabled.clone(), "a", false);
    assert_eq!(toggle_user(off, "a", true), disabled);
}

#[test]
fn dictionary_labels() {
    let broken = dict_info("old".to_owned(), None, false);
    assert!(broken.broken);
    assert_eq!(broken.label, "old（文件损坏）");
    let bundled = dict_info("law".to_owned(), Some((None, 1234)), true);
    assert_eq!(bundled.label, "law · 1234 条 · 随包");
    let meta = DictMetadata { name: "诗词".to_owned(), license: "CC0".to_owned() };
    let imported = dict_info("poems".to_owned(), Some((Some(meta), 7)), false);
    assert_eq!(imported.label, "诗词 · 7 条 · CC0");
    assert_eq!(imported.stem, "poems");
    let plain = DictMetadata { name: "诗词".to_owned(), license: String::new() };
    assert_eq!(dict_info("p".to_owned(), Some((Some(plain), 0)), false).label, "诗词 · 0 条");
}

fn saved(action: SettingsAction) -> (String, String, String) {
    match action {
        SettingsAction::Save { section, key, value } => {
            let v = match value {
                ConfigValue::Text(t) => t,
                ConfigValue::Flag(b) => b.to_string(),
                ConfigValue::Number(n) => n.to_string(),
            };
            (section, key, v)
        }
        other => panic!("not a save: {other:?}"),
    }
}

fn t(a: &str, b: &str, c: &str) -> (String, String, String) {
    (a.to_owned(), b.to_owned(), c.to_owned())
}

#[test]
fn update_writes_the_right_keys() {
    let families = strings(&["Arial", "Segoe UI"]);
    let domains = strings(&["law"]);
    let disabled = strings(&[]);
    let run = |m: Message| update(m, &families, &domains, &disabled, COUNTS);
    assert_eq!(saved(run(Message::Shuangpin(Some(1)))), t("general", "shuangpin", "xiaohe"));
    assert!(matches!(run(Message::Shuangpin(Some(5))), SettingsAction::Nothing));
    assert_eq!(saved(run(Message::Fuma(Some(0)))), t("general", "fuma", ""));
    assert_eq!(saved(run(Message::PageSize(Some(12)))), t("general", "page_size", "9"));
    assert_eq!(saved(run(Message::PageSize(Some(-3)))), t("general", "page_size", "1"));
    assert_eq!(saved(run(Message::PageSize(Some(6)))), t("general", "page_size", "6"));
    assert_eq!(saved(run(Message::PageKeys(Some(2)))), t("general", "page_keys", "-="));
    assert_eq!(saved(run(Message::DeleteCandidate(Some(3)))), t("shortcut", "delete_candidate", "shift+ctrl"));
    assert_eq!(saved(run(Message::LocalModel(true))), t("model", "enabled", "true"));
    assert_eq!(saved(run(Message::StatusBar(false))), t("status_bar", "enabled", "false"));
    assert_eq!(saved(run(Message::Font(Some(0)))), t("general", "font", ""));
    assert_eq!(saved(run(Message::Font(Some(2)))), t("general", "font", "Segoe UI"));
    assert!(matches!(run(Message::Font(Some(3))), SettingsAction::Nothing));
    assert_eq!(saved(run(Message::Zhuyin(true))), t("general", "zhuyin", "true"));
    assert_eq!(saved(run(Message::Zhuyin(false))), t("general", "zhuyin", "false"));
    assert!(matches!(run(Message::Theme(Some(2))), SettingsAction::SaveChoice { setting: ChoiceSetting::Theme, index: 2 }));
    assert!(matches!(run(Message::Theme(Some(3))), SettingsAction::Nothing));
    assert!(matches!(run(Message::VerboseLog(true)), SettingsAction::SaveLogLevel { debug: true }));
    assert!(matches!(run(Message::Navigate(None)), SettingsAction::Nothing));
    match run(Message::Navigate(Some("about".to_owned()))) {
        SettingsAction::Navigate(tag) => assert_eq!(tag, "about"),
        other => panic!("{other:?}"),
    }
    match run(Message::ToggleDomain("it".to_owned(), true)) {
        SettingsAction::SaveArray { section, key, values } => {
            assert_eq!((section.as_str(), key.as_str()), ("dictionaries", "domains"));
            assert_eq!(values, strings(&["law", "it"]));
        }
        other => panic!("{other:?}"),
    }
    match run(Message::ToggleUserDict("mine".to_owned(), false)) {
        SettingsAction::SaveArray { key, values, .. } => {
            assert_eq!(key, "disabled");
            assert_eq!(values, strings(&["mine"]));
        }
        other => panic!("{other:?}"),
    }
    assert!(matches!(run(Message::ExportLogs), SettingsAction::ExportLogs));
}

#[test]
fn about_texts() {
    assert_eq!(build_label(Some("main@abc123 (2024-05-01)")), "abc123 (2024-05-01)");
    assert_eq!(build_label(Some("a@b@c")), "b@c");
    assert_eq!(build_label(Some("nobranch")), "本地构建");
    assert_eq!(build_label(None), "本地构建");
    assert_eq!(since_line(Some("2024-05-01"), 12), "自 2024-05-01 起，有输入的天数 12。");
    assert_eq!(since_line(None, 0), "还没有记录，打几个字再来看。");
}

#[test]
fn export_script_packs_logs_and_config() {
    let script = export_script("C:\\Logs", Some("C:\\cfg\\config.toml"), "2024-05-01");
    assert_eq!(
        script,
        "$zip = Join-Path ([Environment]::GetFolderPath('Desktop')) 'qingjian-logs-2024-05-01.zip'\n\
         Compress-Archive -Path 'C:\\Logs\\*','C:\\cfg\\config.toml' -DestinationPath $zip -Force\n\
         explorer.exe \"/select,`\"$zip`\"\"\n"
    );
    let script = export_script("L", None, "d");
    assert!(script.contains("-Path 'L\\*' -DestinationPath"));
}

#[test]
fn title_bar_commands() {
    assert_eq!(title_drag_command(true, true, false), Some(WindowCommand::Maximized(true)));
    assert_eq!(title_drag_command(false, true, true), Some(WindowCommand::StartDrag));
    assert_eq!(title_drag_command(false, false, true), None);
    assert_eq!(window_button_command(WindowAction::Maximize, true), WindowCommand::Maximized(false));
    assert_eq!(window_button_command(WindowAction::Minimize, false), WindowCommand::Minimized(true));
    assert_eq!(window_button_command(WindowAction::Close, false), WindowCommand::Close);
    assert!(alarming_hover(WindowAction::Close, true));
    assert!(!alarming_hover(WindowAction::Minimize, true));
}
