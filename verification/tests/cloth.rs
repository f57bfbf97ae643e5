use grisui::cloth::{cloth_springs, FROZEN_PARTICLE_COUNT, UNFROZEN_PARTICLE_COUNT};

#[test]
fn cloth_spring_layout() {
    let springs = cloth_springs();
    // 49 along the lines, 48 between moving lines, 8 from the fixed line.
    assert_eq!(springs.len(), 105);
    assert_eq!(&springs[..3], &[(0, 1), (0, 8), (1, 2)]);
    assert!(springs.contains(&(7, 15)));
    assert!(!springs.contains(&(7, 8)));
    assert!(springs.contains(&(48, 49)));
    assert!(!springs.contains(&(48, 56)));
    assert_eq!(&springs[97..], &[(56, 8), (57, 9), (58, 10), (59, 11), (60, 12), (61, 13), (62, 14), (63, 15)]);
}

#[test]
fn cloth_springs_join_two_particles() {
    let n = UNFROZEN_PARTICLE_COUNT + FROZEN_PARTICLE_COUNT;
    for (a, b) in cloth_springs() {
        assert!(a < n && b < n && a != b);
    }
}
