use rectcut::Rect;

#[test]
fn test_cut_left() {
    let mut rect = Rect::new(0, 0, 10, 10);
    let left = rect.cut_left(1);

    assert_eq!(0, left.minx);
    assert_eq!(1, left.maxx);
    assert_eq!(rect.miny, left.miny);
    assert_eq!(rect.maxy, left.maxy);

    assert_eq!(1, rect.minx);
    assert_eq!(10, rect.maxx);
    assert_eq!(0, rect.miny);
    assert_eq!(10, rect.maxy);
}

#[test]
fn test_cut_right() {
    let mut rect = Rect::new(0, 0, 10, 10);
    let right = rect.cut_right(1);

    assert_eq!(9, right.minx);
    assert_eq!(10, right.maxy);
    assert_eq!(rect.miny, right.miny);
    assert_eq!(rect.maxy, right.maxy);

    assert_eq!(0, rect.minx);
    assert_eq!(9, rect.maxx);
    assert_eq!(0, rect.miny);
    assert_eq!(10, rect.maxy);
}

#[test]
fn test_cut_top() {
    let mut rect = Rect::new(0, 0, 10, 10);
    let top = rect.cut_top(1);

    assert_eq!(0, top.minx);
    assert_eq!(10, top.maxx);
    assert_eq!(0, top.miny);
    assert_eq!(1, top.maxy);

    assert_eq!(0, rect.minx);
    assert_eq!(10, rect.maxx);
    assert_eq!(1, rect.miny);
    assert_eq!(10, rect.maxy);
}

#[test]
fn test_cut_bottom() {
    let mut rect = Rect::new(0, 0, 10, 10);
    let bottom = rect.cut_bottom(1);

    assert_eq!(0, bottom.minx);
    assert_eq!(10, bottom.maxx);
    assert_eq!(9, bottom.miny);
    assert_eq!(10, bottom.maxy);

    assert_eq!(0, rect.minx);
    assert_eq!(10, rect.maxx);
    assert_eq!(0, rect.miny);
    assert_eq!(9, rect.maxy);
}

#[test]
fn test_get_left() {
    let rect = Rect::new(0, 0, 10, 10);
    let left = rect.get_left(1);

    assert_eq!(0, left.minx);
    assert_eq!(1, left.maxx);
    assert_eq!(0, left.miny);
    assert_eq!(10, left.maxy);
}

#[test]
fn test_get_right() {
    let rect = Rect::new(0, 0, 10, 10);
    let right = rect.get_right(1);

    assert_eq!(9, right.minx);
    assert_eq!(10, right.maxx);
    assert_eq!(0, right.miny);
    assert_eq!(10, right.maxy);
}

#[test]
fn test_get_top() {
    let rect = Rect::new(0, 0, 10, 10);
    let top = rect.get_top(1);

    assert_eq!(0, top.minx);
    assert_eq!(10, top.maxx);
    assert_eq!(0, top.miny);
    assert_eq!(1, top.maxy);
}

#[test]
fn test_get_bottom() {
    let rect = Rect::new(0, 0, 10, 10);
    let bottom = rect.get_bottom(1);

    assert_eq!(0, bottom.minx);
    assert_eq!(10, bottom.maxx);
    assert_eq!(9, bottom.miny);
    assert_eq!(10, bottom.maxy);
}

#[test]
fn test_add_left() {
    let rect = Rect::new(0, 0, 10, 10);
    let left = rect.add_left(1);

    assert_eq!(-1, left.minx);
    assert_eq!(0, left.maxx);
    assert_eq!(0, left.miny);
    assert_eq!(10, left.maxy);
}

#[test]
fn test_add_right() {
    let rect = Rect::new(0, 0, 10, 10);
    let right = rect.add_right(1);

    assert_eq!(10, right.minx);
    assert_eq!(11, right.maxx);
    assert_eq!(0, right.miny);
    assert_eq!(10, right.maxy);
}

#[test]
fn test_add_top() {
    let rect = Rect::new(0, 0, 10, 10);
    let top = rect.add_top(1);

    assert_eq!(0, top.minx);
    assert_eq!(10, top.maxx);
    assert_eq!(-1, top.miny);
    assert_eq!(0, top.maxy);
}

#[test]
fn test_add_bottom() {
    let rect = Rect::new(0, 0, 10, 10);
    let bottom = rect.add_bottom(1);

    assert_eq!(0, bottom.minx);
    assert_eq!(10, bottom.maxx);
    assert_eq!(10, bottom.miny);
    assert_eq!(11, bottom.maxy);
}

#[test]
fn test_extend() {
    let rect = Rect::new(0, 0, 10, 10);

    let extended = rect.extend(1);

    assert_eq!(-1, extended.minx);
    assert_eq!(11, extended.maxx);
    assert_eq!(-1, extended.miny);
    assert_eq!(11, extended.maxy);
}

#[test]
fn test_contract() {
    let rect = Rect::new(0, 0, 10, 10);

    let contract = rect.contract(1);

    assert_eq!(1, contract.minx);
    assert_eq!(9, contract.maxx);
    assert_eq!(1, contract.miny);
    assert_eq!(9, contract.maxy);
}
