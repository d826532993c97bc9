use rectcut::Rect;
use rectcut::RectCut;
use rectcut::RectCutSide;

#[test]
fn test_rectcut() {
    let rect = Rect::new(0, 0, 10, 10);
    let mut rectcut = RectCut::new(rect, RectCutSide::Left);
    let left = rectcut.cut(1);
    assert_eq!(0, left.minx);
    assert_eq!(0, left.miny);
    assert_eq!(1, left.maxx);
    assert_eq!(10, left.maxy);

    assert_eq!(1, rectcut.rect.minx);
    assert_eq!(0, rectcut.rect.miny);
    assert_eq!(10, rectcut.rect.maxx);
    assert_eq!(10, rectcut.rect.maxy);
}

fn assert_same_rect(p: &Rect, q: &Rect) {
    assert_eq!(p.minx, q.minx);
    assert_eq!(p.miny, q.miny);
    assert_eq!(p.maxx, q.maxx);
    assert_eq!(p.maxy, q.maxy);
}

#[test]
fn rectcut_left_matches_direct() {
    let mut direct = Rect::new(0, 0, 10, 10);
    let direct_piece = direct.cut_left(3);

    let mut rc = RectCut::new(Rect::new(0, 0, 10, 10), RectCutSide::Left);
    let piece = rc.cut(3);

    assert_same_rect(&piece, &direct_piece);
    assert_same_rect(&rc.rect, &direct);
}

#[test]
fn rectcut_right_matches_direct() {
    let mut direct = Rect::new(0, 0, 10, 10);
    let direct_piece = direct.cut_right(3);

    let mut rc = RectCut::new(Rect::new(0, 0, 10, 10), RectCutSide::Right);
    let piece = rc.cut(3);

    assert_same_rect(&piece, &direct_piece);
    assert_same_rect(&rc.rect, &direct);
}

#[test]
fn rectcut_top_matches_direct() {
    let mut direct = Rect::new(0, 0, 10, 10);
    let direct_piece = direct.cut_top(3);

    let mut rc = RectCut::new(Rect::new(0, 0, 10, 10), RectCutSide::Top);
    let piece = rc.cut(3);

    assert_same_rect(&piece, &direct_piece);
    assert_same_rect(&rc.rect, &direct);
}

#[test]
fn rectcut_bottom_matches_direct() {
    let mut direct = Rect::new(0, 0, 10, 10);
    let direct_piece = direct.cut_bottom(3);

    let mut rc = RectCut::new(Rect::new(0, 0, 10, 10), RectCutSide::Bottom);
    let piece = rc.cut(3);

    assert_same_rect(&piece, &direct_piece);
    assert_same_rect(&rc.rect, &direct);
}

#[test]
fn sides_are_distinct_and_totally_ordered() {
    assert!(RectCutSide::Left < RectCutSide::Right);
    assert!(RectCutSide::Right < RectCutSide::Top);
    assert!(RectCutSide::Top < RectCutSide::Bottom);
    assert_eq!(RectCutSide::Left, RectCutSide::Left);
    assert_ne!(RectCutSide::Left, RectCutSide::Bottom);
}

#[test]
fn rectcut_side_is_kept_across_cuts() {
    let mut rc = RectCut::new(Rect::new(0, 0, 10, 10), RectCutSide::Top);
    rc.cut(2);
    rc.cut(2);
    assert_eq!(RectCutSide::Top, rc.side);
    assert_eq!(4, rc.rect.miny);
    assert_eq!(10, rc.rect.maxy);
}
