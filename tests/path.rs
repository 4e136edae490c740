use raytracer::path::{is_traced, resolve, Bounce, PathStep};

#[test]
fn no_depth_left_is_not_traced() {
    assert!(!is_traced(0));
    assert!(!is_traced(-4));
    assert!(is_traced(1));
    assert!(is_traced(50));
}

#[test]
fn miss_shows_the_sky() {
    assert_eq!(resolve(3, Bounce::Missed), PathStep::Sky);
}

#[test]
fn absorption_is_black() {
    assert_eq!(resolve(3, Bounce::Absorbed), PathStep::Black);
}

#[test]
fn scatter_costs_one_unit_of_depth() {
    assert_eq!(resolve(3, Bounce::Scattered), PathStep::Continue { depth: 2 });
    assert_eq!(resolve(1, Bounce::Scattered), PathStep::Continue { depth: 0 });
    assert!(!is_traced(0));
}

#[test]
fn scattering_path_meets_the_scene_depth_times() {
    let mut depth = 4;
    let mut intersections = 0;
    while is_traced(depth) {
        intersections += 1;
        match resolve(depth, Bounce::Scattered) {
            PathStep::Continue { depth: next } => depth = next,
            other => panic!("unexpected {:?}", other),
        }
    }
    assert_eq!(intersections, 4);
}
