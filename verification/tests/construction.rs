use vec2::Vec2;

#[test]
fn test_new_f32() {
    let vec = Vec2::new(1.0, 2.0);

    assert_eq!(vec.x, 1.0);
    assert_eq!(vec.y, 2.0);
}

#[test]
fn test_new_integer() {
    let vec = Vec2::new(1, 2);

    assert_eq!(vec.x, 1);
    assert_eq!(vec.y, 2);
}

#[test]
fn new_keeps_extreme_coordinates() {
    let vec = Vec2::new(i64::MIN, i64::MAX);
    assert_eq!(vec.x, i64::MIN);
    assert_eq!(vec.y, i64::MAX);

    let vec = Vec2::new(f32::INFINITY, -0.0f32);
    assert_eq!(vec.x, f32::INFINITY);
    assert!(vec.y == 0.0 && vec.y.is_sign_negative());
}

#[test]
fn new_accepts_any_element_type() {
    let vec = Vec2::new("left", "right");
    assert_eq!(vec.x, "left");
    assert_eq!(vec.y, "right");
}

#[test]
fn default_is_zero_for_integers() {
    let vec: Vec2<i32> = Vec2::default();
    assert_eq!(vec.x, 0);
    assert_eq!(vec.y, 0);

    let vec: Vec2<u8> = Vec2::default();
    assert_eq!(vec.x, 0);
    assert_eq!(vec.y, 0);
}

#[test]
fn default_is_zero_for_floats() {
    let vec: Vec2<f32> = Vec2::default();
    assert_eq!(vec.x, 0.0);
    assert_eq!(vec.y, 0.0);
}

#[test]
fn default_is_the_additive_identity() {
    let vec = Vec2::new(-17, 42);
    let sum = vec + Vec2::default();
    assert_eq!(sum.x, -17);
    assert_eq!(sum.y, 42);
}

#[test]
fn clone_keeps_both_coordinates() {
    let vec = Vec2::new(String::from("a"), String::from("b"));
    let copy = vec.clone();
    assert_eq!(copy.x, "a");
    assert_eq!(copy.y, "b");
    assert_eq!(vec.x, "a");
    assert_eq!(vec.y, "b");
}

#[test]
fn clone_is_independent_of_its_source() {
    let vec = Vec2::new(vec![1, 2], vec![3]);
    let mut copy = vec.clone();
    copy.x.push(9);
    copy.y.clear();
    assert_eq!(vec.x, vec![1, 2]);
    assert_eq!(vec.y, vec![3]);
    assert_eq!(copy.x, vec![1, 2, 9]);
    assert_eq!(copy.y, Vec::<i32>::new());
}

#[test]
fn copy_leaves_the_source_usable() {
    let vec = Vec2::new(3, 4);
    let copy = vec;
    assert_eq!(vec.x, 3);
    assert_eq!(vec.y, 4);
    assert_eq!(copy.x, 3);
    assert_eq!(copy.y, 4);
}

#[test]
fn debug_shows_name_and_fields() {
    assert_eq!(format!("{:?}", Vec2::new(1, 2)), "Vec2 { x: 1, y: 2 }");
    assert_eq!(format!("{:?}", Vec2::new(1.5, -2.0)), "Vec2 { x: 1.5, y: -2.0 }");
}
