use std::cell::Cell;

use pxtally::recolor::recolor_pixels;

#[test]
fn recolor_checking_value() {
    let mut raw = vec![10, 20, 30, 1, 2, 3, 10, 20, 30, 10, 20, 30];
    let calls = Cell::new(0);
    recolor_pixels(&mut raw, |c: (u8, u8, u8)| {
        calls.set(calls.get() + 1);
        (c.2, c.1, c.0)
    });
    assert_eq!(raw, vec![30, 20, 10, 3, 2, 1, 30, 20, 10, 30, 20, 10]);
    // One call per distinct colour.
    assert_eq!(calls.get(), 2);
}

#[test]
fn recolor_reuses_first_answer() {
    // An adjustment that answers differently each time: pixels of one
    // colour still get one answer.
    let mut raw = vec![7, 7, 7, 7, 7, 7, 8, 8, 8, 7, 7, 7];
    let next = Cell::new(100u8);
    recolor_pixels(&mut raw, |_c: (u8, u8, u8)| {
        let v = next.get();
        next.set(v + 1);
        (v, v, v)
    });
    assert_eq!(raw, vec![100, 100, 100, 100, 100, 100, 101, 101, 101, 100, 100, 100]);
}

#[test]
fn recolor_empty_image() {
    let mut raw: Vec<u8> = Vec::new();
    recolor_pixels(&mut raw, |c: (u8, u8, u8)| c);
    assert!(raw.is_empty());
}
