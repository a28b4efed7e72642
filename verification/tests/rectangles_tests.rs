use demos::rectangles::Rectangle;
use demos::rectangles::area;
use demos::rectangles::area_from_struct;
use demos::rectangles::area_from_tuple;

#[test]
fn all_area_forms_agree_at_thirty_by_fifty() {
    let rect = Rectangle { width: 30, height: 50 };
    assert_eq!(area(30, 50), 1500);
    assert_eq!(area_from_tuple((30, 50)), 1500);
    assert_eq!(area_from_struct(&rect), 1500);
    assert_eq!(rect.area(), 1500);
}

#[test]
fn can_hold_is_strict_on_both_axes() {
    let rect2 = Rectangle { width: 30, height: 50 };
    let rect3 = Rectangle { width: 10, height: 40 };
    let rect4 = Rectangle { width: 60, height: 45 };
    assert!(rect2.can_hold(&rect3));
    assert!(!rect2.can_hold(&rect4));
}

#[test]
fn can_hold_rejects_equal_dimensions() {
    let rect = Rectangle { width: 30, height: 50 };
    assert!(!rect.can_hold(&Rectangle { width: 30, height: 50 }));
    assert!(!rect.can_hold(&Rectangle { width: 30, height: 40 }));
    assert!(!rect.can_hold(&Rectangle { width: 20, height: 50 }));
}

#[test]
fn square_sets_both_dimensions() {
    let square = Rectangle::square(3);
    assert_eq!(square, Rectangle { width: 3, height: 3 });
}

#[test]
fn method_and_qualified_area_agree() {
    let r = Rectangle { width: 1, height: 2 };
    let area1: u32 = r.area();
    let area2: u32 = Rectangle::area(&r);
    assert_eq!(area1, area2);
}

#[test]
fn zero_dimensions_give_zero_area() {
    let rect = Rectangle { width: 0, height: 0 };
    assert_eq!(rect.area(), 0);
}

#[test]
fn max_is_component_wise() {
    let a = Rectangle { width: 1, height: 2 };
    let b = Rectangle { width: 1, height: 1 };
    assert_eq!(a.max(b), Rectangle { width: 1, height: 2 });
}

#[test]
fn max_of_zero_rectangle() {
    let rect = Rectangle { width: 0, height: 0 };
    let other_rect = Rectangle { width: 1, height: 1 };
    let max_rect = rect.max(other_rect);
    assert_eq!(max_rect, Rectangle { width: 1, height: 1 });
}

#[test]
fn set_width_method_and_qualified_agree() {
    let mut r1 = Rectangle { width: 1, height: 2 };
    let mut r2 = Rectangle { width: 1, height: 2 };
    r1.set_width(2);
    Rectangle::set_width(&mut r2, 2);
    assert_eq!(r1, r2);
    assert_eq!(r1, Rectangle { width: 2, height: 2 });
}
