use my_tracer::scene::{pixel_coords, SceneIndex};

#[test]
fn slots_are_assigned_in_insertion_order() {
    // The shape of the default scene: a ground plane, three plain spheres,
    // then two emissive spheres.
    let mut s = SceneIndex::new();
    assert_eq!(s.add_object(), 0);
    assert_eq!(s.add_object(), 1);
    assert_eq!(s.add_object(), 2);
    assert_eq!(s.add_object(), 3);
    assert_eq!(s.add_light(), 4);
    assert_eq!(s.add_light(), 5);
    assert_eq!(s.primitive_count(), 6);
    assert_eq!(s.light_count(), 2);
}

#[test]
fn light_list_names_exactly_the_emissive_slots() {
    let mut s = SceneIndex::new();
    s.add_object();
    s.add_light();
    s.add_object();
    s.add_light();
    assert!(!s.is_light(0));
    assert!(s.is_light(1));
    assert!(!s.is_light(2));
    assert!(s.is_light(3));
    assert_eq!(s.select_light(0), 1);
    assert_eq!(s.select_light(1), 3);
}

#[test]
fn selected_light_is_emissive() {
    let mut s = SceneIndex::new();
    for _ in 0..5 {
        s.add_object();
    }
    s.add_light();
    for k in 0..s.light_count() {
        let idx = s.select_light(k);
        assert!(s.is_light(idx));
    }
}

#[test]
fn pixel_coords_row_major() {
    assert_eq!(pixel_coords(0, 1080), (0, 0));
    assert_eq!(pixel_coords(1079, 1080), (1079, 0));
    assert_eq!(pixel_coords(1080, 1080), (0, 1));
    assert_eq!(pixel_coords(1080 * 720 - 1, 1080), (1079, 719));
}
