use rsvg_core::region::Region;

#[test]
fn region_from_size_has_its_edges() {
    let region = Region::from_size(-5, 2, 10, 1).unwrap();
    assert_eq!(region, Region::new(-5, 2, 5, 3));
    assert_eq!(region.x(), -5);
    assert_eq!(region.y(), 2);
    assert_eq!(region.width(), 10);
    assert_eq!(region.height(), 1);
}

#[test]
fn region_beyond_the_largest_coordinate_is_refused() {
    assert_eq!(Region::from_size(i32::MAX, 0, 1, 1), None);
    assert_eq!(Region::from_size(0, 1, 1, i32::MAX as u32), None);
    assert_eq!(Region::from_size(0, 0, u32::MAX, 0), None);
    assert_eq!(
        Region::from_size(0, 0, i32::MAX as u32, i32::MAX as u32),
        Some(Region::new(0, 0, i32::MAX, i32::MAX))
    );
    assert_eq!(
        Region::from_size(i32::MIN, i32::MIN, u32::MAX, u32::MAX),
        Some(Region::new(i32::MIN, i32::MIN, i32::MAX, i32::MAX))
    );
}

#[test]
fn inverted_region_is_empty() {
    let region = Region::new(5, 5, 2, 9);
    assert!(region.is_empty());
    assert_eq!(region.width(), 0);
    assert_eq!(region.height(), 4);
    assert!(Region::new(0, 0, 0, 10).is_empty());
    assert!(!Region::new(0, 0, 1, 1).is_empty());
}

#[test]
fn widest_region_has_the_full_width() {
    let region = Region::new(i32::MIN, i32::MIN, i32::MAX, i32::MAX);
    assert_eq!(region.width(), u32::MAX);
    assert_eq!(region.height(), u32::MAX);
}

#[test]
fn union_is_the_bounding_rectangle() {
    let a = Region::new(0, 0, 10, 10);
    let b = Region::new(5, -3, 20, 4);
    assert_eq!(a.union(b), Region::new(0, -3, 20, 10));
    assert_eq!(b.union(a), Region::new(0, -3, 20, 10));
    assert_eq!(a.union(a), a);
}

#[test]
fn intersection_is_the_common_part() {
    let a = Region::new(0, 0, 10, 10);
    let b = Region::new(5, -3, 20, 4);
    assert_eq!(a.intersection(b), Region::new(5, 0, 10, 4));
    assert_eq!(b.intersection(a), Region::new(5, 0, 10, 4));
    assert_eq!(a.intersection(a), a);
}

#[test]
fn intersection_of_disjoint_regions_is_empty() {
    let a = Region::new(0, 0, 10, 10);
    let b = Region::new(10, 0, 20, 10);
    assert!(a.intersection(b).is_empty());
    let c = Region::new(30, 30, 40, 40);
    assert!(a.intersection(c).is_empty());
}
