use qingjian_windows::render_data::{fuma_hint, footer, Candidate, Frame, PreeditKind, PreeditSegment, PreeditStyle, RenderData};
use qingjian_windows::theme::ColorScheme;

fn candidate(fuma: Option<&str>) -> Candidate {
    Candidate { text: "栏".to_owned(), fuma: fuma.map(str::to_owned) }
}

fn frame(kinds: &[PreeditKind], items: Vec<Candidate>, highlight: usize) -> Frame {
    Frame {
        preedit: kinds.iter().map(|kind| PreeditSegment { text: "x".to_owned(), kind: *kind }).collect(),
        cursor: 0,
        candidates: items,
        highlight,
        page: 0,
        page_count: 0,
        notice: None,
        color_scheme: ColorScheme::Zizai,
    }
}

/// Only the first code typed: the highlighted candidate's second code is the hint.
#[test]
fn first_code_hints_the_second() {
    let frame = frame(&[PreeditKind::Typed], vec![candidate(Some("ms")), candidate(Some("cm"))], 0);
    assert_eq!(fuma_hint(&frame).as_deref(), Some(" s"));
}

/// Both codes typed: the auxiliary segment is already in the pinyin line, no hint.
#[test]
fn both_codes_draw_no_hint() {
    let frame = frame(&[PreeditKind::Typed, PreeditKind::Fuma], vec![candidate(Some("ms"))], 0);
    assert_eq!(fuma_hint(&frame), None);
}

/// No codes typed, or the highlight out of range: no hint.
#[test]
fn no_fuma_no_hint() {
    let without_fuma = frame(&[PreeditKind::Typed], vec![candidate(None)], 0);
    assert_eq!(fuma_hint(&without_fuma), None);
    let out_of_range = frame(&[PreeditKind::Typed], vec![candidate(Some("ms"))], 9);
    assert_eq!(fuma_hint(&out_of_range), None);
}

#[test]
fn footer_counts_pages_from_one() {
    assert_eq!(footer(1, 5).as_deref(), Some("2/5"));
    assert_eq!(footer(9, 12).as_deref(), Some("10/12"));
    assert_eq!(footer(0, 1), None);
    assert_eq!(footer(0, 0), None);
}

#[test]
fn render_frame_maps_styles_and_highlight() {
    let mut data = RenderData::empty();
    let rendered = data.render_frame();
    assert!(rendered.preedit.is_none());
    assert_eq!(rendered.highlighted, None);
    let mut f = frame(&[PreeditKind::Typed, PreeditKind::Corrected], vec![candidate(Some("m"))], 0);
    f.page = 0;
    f.page_count = 3;
    f.notice = Some("已删除".to_owned());
    data.set(&f);
    let rendered = data.render_frame();
    let preedit = rendered.preedit.expect("segments");
    assert_eq!(preedit.segments.len(), 2);
    assert_eq!(preedit.segments[1].style, PreeditStyle::Struck);
    assert_eq!(rendered.highlighted, Some(0));
    assert_eq!(rendered.footer.as_deref(), Some("1/3"));
    assert_eq!(rendered.status.as_deref(), Some("已删除"));
    assert_eq!(rendered.fuma_hint, None);
}

#[test]
fn rows_follow_the_candidates_and_no_sentence_is_drawn() {
    let mut data = RenderData::empty();
    let f = frame(&[PreeditKind::Typed], vec![candidate(None), Candidate { text: "蓝".to_owned(), fuma: None }], 1);
    data.set(&f);
    assert_eq!(data.rows.len(), 2);
    assert_eq!((data.rows[1].index, data.rows[1].text.as_str()), (1, "蓝"));
    let rendered = data.render_frame();
    assert_eq!(rendered.rows.len(), 2);
    assert_eq!((rendered.rows[0].index, rendered.rows[0].text.as_str()), (0, "栏"));
    assert_eq!(rendered.sentence, None);
}
