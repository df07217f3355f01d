use lectures::ip::{match_arm, v6_candidate, IpAddr, MatchArm};
use lectures::mybox::MyBox;
use lectures::paths::{
    create_rectangle_v1, create_rectangle_v2, create_rectangle_v3, create_rectangle_v4,
};
use lectures::pipeline::product_filter_sum;
use lectures::shapes::new_rect;
use lectures::shapes::rectangles::Rect;

#[test]
fn rect_area_is_width_times_height() {
    let r = new_rect(5, 6);
    assert_eq!(r.get_area(), 30);
    let q = Rect {
        width: 3,
        height: 4,
    };
    assert_eq!(q.get_area(), 12);
}

#[test]
fn rect_perimeter_is_twice_the_side_sum() {
    let r = new_rect(5, 6);
    assert_eq!(r.get_perimeter(), 22);
    let q = Rect {
        width: 3,
        height: 4,
    };
    assert_eq!(q.get_perimeter(), 14);
}

#[test]
fn new_rect_keeps_its_sides() {
    let r = new_rect(1, 2);
    assert_eq!(r.width, 1);
    assert_eq!(r.height, 2);
}

#[test]
fn rect_with_zero_side_has_zero_area() {
    let r = new_rect(0, 1000);
    assert_eq!(r.get_area(), 0);
    assert_eq!(r.get_perimeter(), 2000);
}

#[test]
fn builders_run() {
    create_rectangle_v1();
    create_rectangle_v2();
    create_rectangle_v3();
    create_rectangle_v4();
}

#[test]
fn mybox_hands_back_what_it_was_given() {
    let b = MyBox::new(5);
    assert_eq!(*b.deref(), 5);
    let s = MyBox::new(String::from("hello"));
    assert_eq!(b.deref() + 1, 6);
    assert_eq!(s.deref().as_str(), "hello");
}

#[test]
fn or_pattern_arm_takes_127_and_128() {
    let home = IpAddr::V4(127, 0, 0, 1);
    assert_eq!(match_arm(&home), MatchArm::Net127Or128);
    let other_net = IpAddr::V4(128, 9, 9, 9);
    assert_eq!(match_arm(&other_net), MatchArm::Net127Or128);
}

#[test]
fn guarded_arm_is_shadowed() {
    // 127.x.x.1 satisfies the guarded arm's pattern and guard, yet the
    // or-pattern arm declared before it wins.
    let addr = IpAddr::V4(127, 5, 5, 1);
    assert_eq!(match_arm(&addr), MatchArm::Net127Or128);
}

#[test]
fn plain_v4_arm_takes_the_rest() {
    let addr = IpAddr::V4(10, 1, 2, 3);
    assert_eq!(match_arm(&addr), MatchArm::PlainV4);
}

#[test]
fn v6_arms_split_on_the_loopback_text() {
    let loopback = IpAddr::V6(String::from("::1"));
    assert_eq!(match_arm(&loopback), MatchArm::LoopbackV6);
    let other = IpAddr::V6(String::from("fe80::1"));
    assert_eq!(match_arm(&other), MatchArm::OtherV6);
}

#[test]
fn v6_candidate_keeps_only_textual_addresses() {
    let home = IpAddr::V4(127, 0, 0, 1);
    assert!(v6_candidate(home).is_none());
    let other = IpAddr::V4(10, 1, 2, 3);
    assert!(v6_candidate(other).is_none());
    let loopback = IpAddr::V6(String::from("::1"));
    match v6_candidate(loopback) {
        Some(IpAddr::V6(s)) => assert_eq!(s.as_str(), "::1"),
        _ => panic!("a textual address must be handed back whole"),
    }
}

#[test]
fn pipeline_sums_bumped_even_products() {
    // Products 5, 12, 21, 32; the even ones bumped: 22 and 42; sum 64.
    let v1 = vec![1, 2, 3, 4];
    let v2 = vec![5, 6, 7, 8];
    assert_eq!(product_filter_sum(&v1, &v2), 64);
}

#[test]
fn pipeline_stops_at_the_shorter_vector() {
    let v1 = vec![2, 3, 4];
    let v2 = vec![3];
    // Only the pair (2, 3) is zipped: product 6, bumped to 16.
    assert_eq!(product_filter_sum(&v1, &v2), 16);
}

#[test]
fn pipeline_of_empty_input_is_zero() {
    let v1: Vec<i32> = vec![];
    let v2 = vec![1, 2, 3];
    assert_eq!(product_filter_sum(&v1, &v2), 0);
}

#[test]
fn pipeline_keeps_negative_even_products() {
    // Products -6 and -3; only -6 is even, bumped to 4.
    let v1 = vec![-2, -3];
    let v2 = vec![3, 1];
    assert_eq!(product_filter_sum(&v1, &v2), 4);
}
