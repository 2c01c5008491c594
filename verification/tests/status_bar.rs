use qingjian_windows::geometry::Rect;
use qingjian_windows::theme::ColorScheme;
use qingjian_windows::status_bar::{clamp_anchor, default_anchor, edge_gap, status_cells, StatusCell, StatusPlacement, StatusView};

fn view(english: bool, scheme: Option<&str>) -> StatusView {
    StatusView { english, scheme: scheme.map(str::to_owned), full_width: false, color_scheme: ColorScheme::Zizai, anchor: None }
}

#[test]
fn shuangpin_uses_compact_scheme_marks() {
    let xiaohe = view(false, Some("xiaohe"));
    assert_eq!(
        status_cells(&xiaohe, Some("鹤".to_owned()))[1],
        StatusCell::Mode { text: "中".to_owned(), scheme: Some("鹤".to_owned()) }
    );
    let english = view(true, Some("xiaohe"));
    assert_eq!(
        status_cells(&english, Some("鹤".to_owned()))[1],
        StatusCell::Mode { text: "A".to_owned(), scheme: None }
    );
}

#[test]
fn punctuation_cell_follows_full_width() {
    let mut v = view(false, None);
    assert_eq!(status_cells(&v, None)[2], StatusCell::Text { text: ",.".to_owned(), active: false });
    v.full_width = true;
    let cells = status_cells(&v, None);
    assert_eq!(cells[2], StatusCell::Text { text: "，。".to_owned(), active: true });
    assert_eq!(cells[0], StatusCell::Logo);
    assert_eq!(cells[3], StatusCell::Gear);
}

const WORK: Rect = Rect { left: 0, top: 0, right: 1920, bottom: 1040 };

#[test]
fn default_anchor_sits_at_the_bottom_right() {
    assert_eq!(edge_gap(12), 8);
    assert_eq!(edge_gap(32), 16);
    assert_eq!(edge_gap(-40), 8);
    assert_eq!(default_anchor(WORK, (120, 30), 12), (1920 - 12 - 8 - 120, 1040 - 12 - 8 - 30));
    assert_eq!(default_anchor(WORK, (120, 30), 32), (1920 - 32 - 16 - 120, 1040 - 32 - 16 - 30));
}

#[test]
fn clamp_anchor_keeps_the_bar_visible() {
    assert_eq!(clamp_anchor(WORK, (5000, -50), (120, 30), 12), (1920 - 12 - 120, 12));
    assert_eq!(clamp_anchor(WORK, (500, 500), (120, 30), 12), (500, 500));
}

#[test]
fn remembered_position_wins_over_configuration() {
    let mut placement = StatusPlacement::new();
    placement.adopt(Some((10, 20)));
    assert_eq!(placement.pos, Some((10, 20)));
    placement.adopt(Some((30, 40)));
    assert_eq!(placement.pos, Some((10, 20)));
    let proposed = placement.proposed_anchor(WORK, (120, 30), 12);
    assert_eq!(proposed, (10, 20));
    assert_eq!(placement.anchor(WORK, proposed, (120, 30), 12), (12, 20));
    assert_eq!(placement.pos, Some((12, 20)));
}
