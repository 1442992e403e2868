use gers::graphics::Rect;

#[test]
fn test_rect_fit() {
    let cases: &[(Rect<i32>, Rect<i32>, bool)] = &[
        (Rect::new([0, 0], [10, 10]), Rect::new([2, 2], [5, 5]), true),
        (Rect::new([0, 0], [10, 10]), Rect::new([2, 2], [10, 10]), false),
        (Rect::new([0, 0], [10, 10]), Rect::new([-15, -15], [10, 10]), false),
    ];

    for (outer, inner, expect) in cases {
        println!("case: can {} fit inside {}", inner.to_string(), outer.to_string());
        assert_eq!(outer.can_fit(inner), *expect);
    }
}

#[test]
fn rect_bounds_are_corners() {
    let rect: Rect<u32> = Rect::new([2, 3], [5, 7]);
    assert_eq!(rect.as_bounds(), [2, 3, 7, 10]);
    let signed: Rect<i32> = Rect::new([-4, -5], [3, 2]);
    assert_eq!(signed.as_bounds(), [-4, -5, -1, -3]);
}

#[test]
fn rect_fit_near_the_limits() {
    let outer: Rect<u32> = Rect::new([0, 0], [u32::MAX, u32::MAX]);
    let inner: Rect<u32> = Rect::new([u32::MAX, u32::MAX], [u32::MAX, u32::MAX]);
    assert!(!outer.can_fit(&inner));
    assert!(outer.can_fit(&outer));
    assert!(inner.can_fit(&inner));
}

#[test]
fn rect_to_string() {
    let rect: Rect<u32> = Rect::new([0, 1], [10, 20]);
    assert_eq!(rect.to_string(), "[0, 1, 10, 20]");
    let signed: Rect<i32> = Rect::new([-15, 0], [10, 10]);
    assert_eq!(signed.to_string(), "[-15, 0, 10, 10]");
}
