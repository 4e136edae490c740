use raytracer::schedule::{RenderCursor, RenderStep};
use raytracer::settings::RenderSettings;

#[test]
fn pixels_come_row_by_row_each_after_its_samples() {
    let settings = RenderSettings::new(2, 2, 2, 5).unwrap();
    let mut cursor = RenderCursor::new(&settings);
    let mut steps = Vec::new();
    loop {
        let step = cursor.next_step();
        steps.push(step);
        if step == RenderStep::Finished {
            break;
        }
    }
    let mut expected = Vec::new();
    for (i, j) in [(0, 0), (1, 0), (0, 1), (1, 1)] {
        expected.push(RenderStep::Sample { i, j });
        expected.push(RenderStep::Sample { i, j });
        expected.push(RenderStep::Emit { i, j });
    }
    expected.push(RenderStep::Finished);
    assert_eq!(steps, expected);
}

#[test]
fn finished_cursor_stays_finished() {
    let settings = RenderSettings::new(1, 1, 1, 1).unwrap();
    let mut cursor = RenderCursor::new(&settings);
    assert_eq!(cursor.next_step(), RenderStep::Sample { i: 0, j: 0 });
    assert_eq!(cursor.next_step(), RenderStep::Emit { i: 0, j: 0 });
    for _ in 0..3 {
        assert_eq!(cursor.next_step(), RenderStep::Finished);
    }
}

#[test]
fn every_pixel_is_emitted_once_in_row_major_order() {
    let settings = RenderSettings::new(3, 4, 5, 1).unwrap();
    let mut cursor = RenderCursor::new(&settings);
    let mut emitted = Vec::new();
    let mut samples = 0;
    loop {
        match cursor.next_step() {
            RenderStep::Sample { .. } => samples += 1,
            RenderStep::Emit { i, j } => emitted.push((i, j)),
            RenderStep::Finished => break,
        }
    }
    let expected: Vec<(i32, i32)> = (0..4).flat_map(|j| (0..3).map(move |i| (i, j))).collect();
    assert_eq!(emitted, expected);
    assert_eq!(samples, 3 * 4 * 5);
}
