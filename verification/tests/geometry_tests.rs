use rustcraft::geometry::distance;

#[test]
fn distance_is_taxicab() {
    assert_eq!(distance(&[0, 0, 0], &[1, 2, 3]), 6);
    assert_eq!(distance(&[10, 5, 7], &[4, 9, 7]), 10);
}

#[test]
fn distance_to_self_is_zero() {
    assert_eq!(distance(&[3, 4, 5], &[3, 4, 5]), 0);
}

#[test]
fn distance_is_symmetric() {
    let a = [12, 0, 99];
    let b = [7, 40, 3];
    assert_eq!(distance(&a, &b), distance(&b, &a));
}

#[test]
fn distance_obeys_triangle_inequality() {
    let a = [1, 2, 3];
    let b = [9, 0, 4];
    let c = [5, 5, 5];
    assert!(distance(&a, &c) <= distance(&a, &b) + distance(&b, &c));
}
