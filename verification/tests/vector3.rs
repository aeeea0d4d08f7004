use rogue_core::geometry::vector::Dot;
use rogue_core::geometry::vector3::Vector3;

fn components<T: Copy>(v: Vector3<T>) -> (T, T, T) {
    (v.x, v.y, v.z)
}

#[test]
fn new_sets_components() {
    assert_eq!(components(Vector3::new(1, -2, 3)), (1, -2, 3));
}

#[test]
fn convert_widens_each_component() {
    let v: Vector3<u32> = Vector3::new(200u8, 1u8, 255u8).convert();
    assert_eq!(components(v), (200u32, 1u32, 255u32));
}

#[test]
fn add_and_sub_are_componentwise() {
    let a = Vector3::new(1i64, 2, 3);
    let b = Vector3::new(10i64, -20, 30);
    assert_eq!(components(a + b), (11, -18, 33));
    assert_eq!(components(a - b), (-9, 22, -27));
}

#[test]
fn scalar_mul_and_div() {
    let a = Vector3::new(3i64, -4, 5);
    assert_eq!(components(a * 2i64), (6, -8, 10));
    assert_eq!(components(a / 2i64), (1, -2, 2));
}

#[test]
fn assign_operators() {
    let mut a = Vector3::new(1i32, 2, 3);
    a += Vector3::new(1, 1, 1);
    assert_eq!(components(a), (2, 3, 4));
    a -= Vector3::new(2, 2, 2);
    assert_eq!(components(a), (0, 1, 2));
    a *= 5;
    assert_eq!(components(a), (0, 5, 10));
    a /= 5;
    assert_eq!(components(a), (0, 1, 2));
}

#[test]
fn dot_product() {
    let a = Vector3::new(1i64, 2, 3);
    let b = Vector3::new(4i64, -5, 6);
    assert_eq!(a.dot(b), 12);
}

#[test]
fn law_sub_undoes_add_holds() {
    let a = Vector3::new(7i64, -8, 9);
    let b = Vector3::new(-100i64, 50, 3);
    assert_eq!(components((a + b) - b), components(a));
}

#[test]
fn law_add_commutes_holds() {
    let a = Vector3::new(7i64, -8, 9);
    let b = Vector3::new(-100i64, 50, 3);
    assert_eq!(components(a + b), components(b + a));
}
