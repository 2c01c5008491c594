use qingjian_windows::geometry::Rect;
use qingjian_windows::placement::{place, place_in, sticky_side, Placement};

const WORK: Rect = Rect { left: 0, top: 0, right: 1920, bottom: 1000 };

/// Caret line from `top` to `top + 20`, left edge at 100.
fn caret(top: i32) -> Rect {
    Rect { left: 100, top, right: 108, bottom: top + 20 }
}

#[test]
fn defaults_to_below_and_flips_up_only_when_it_does_not_fit() {
    let ((x, y), above) = place_in(WORK, caret(400), (300, 200), None);
    assert_eq!((x, y, above), (100, 422, false));
    // Against the bottom edge: no room below, so above, with the gap above the caret.
    let ((_, y), above) = place_in(WORK, caret(900), (300, 200), None);
    assert_eq!((y, above), (698, true));
}

#[test]
fn keeps_the_side_while_the_caret_stays_on_the_same_line() {
    let last: Option<Placement> = Some(Placement { line: (900, 920), above: true });
    let anchor = caret(900);
    // Only one candidate left, it would fit below, but the same line stays above.
    let ((_, y), above) = place_in(WORK, anchor, (300, 40), sticky_side(&last, anchor));
    assert_eq!((y, above), (858, true));
    // Another line: decided again by what fits.
    let anchor = caret(400);
    let ((_, y), above) = place_in(WORK, anchor, (300, 40), sticky_side(&last, anchor));
    assert_eq!((y, above), (422, false));
}

#[test]
fn a_sticky_side_that_no_longer_fits_gives_way() {
    let last: Option<Placement> = Some(Placement { line: (100, 120), above: true });
    let anchor = caret(100);
    // Only 100 pixels above, too little for a 200-pixel window: below it goes.
    let ((_, y), above) = place_in(WORK, anchor, (300, 200), sticky_side(&last, anchor));
    assert_eq!((y, above), (122, false));
}

#[test]
fn content_stays_inside_the_work_area() {
    // Taller than the work area: kept inside it, not off screen.
    let ((_, y), above) = place_in(WORK, caret(500), (300, 2000), None);
    assert_eq!((y, above), (0, false));
    // Too far right: moved left until it just fits.
    let anchor = Rect { left: 1900, ..caret(400) };
    let ((x, _), _) = place_in(WORK, anchor, (300, 200), None);
    assert_eq!(x, 1620);
}

/// Only checks that the line is remembered and the side kept on the same line.
#[test]
fn place_remembers_the_line_and_keeps_the_side() {
    let mut last: Option<Placement> = None;
    place(&mut last, WORK, caret(400), (300, 200));
    let first = last.expect("remembered after the first placement");
    assert_eq!(first.line, (400, 420));
    // Next frame on the same line is much shorter; still the same side.
    place(&mut last, WORK, caret(400), (300, 60));
    assert_eq!(last.expect("still remembered").above, first.above);
}

#[test]
fn sticky_side_is_forgotten_on_another_line() {
    let last = Some(Placement { line: (400, 420), above: true });
    assert_eq!(sticky_side(&last, caret(410)), Some(true));
    assert_eq!(sticky_side(&last, caret(420)), None);
    assert_eq!(sticky_side(&None, caret(400)), None);
}

#[test]
fn same_line_keeps_above_after_place_even_when_below_fits() {
    let mut last: Option<Placement> = None;
    let (_, y) = place(&mut last, WORK, caret(900), (300, 200));
    assert_eq!(y, 698);
    assert!(last.unwrap().above);
    let (_, y) = place(&mut last, WORK, caret(900), (300, 40));
    assert_eq!(y, 858);
}

#[test]
fn neither_side_fits_pushes_up_from_the_bottom() {
    let work = Rect { left: 0, top: 0, right: 1920, bottom: 600 };
    let ((_, y), above) = place_in(work, caret(300), (300, 400), None);
    assert_eq!((y, above), (200, false));
}
