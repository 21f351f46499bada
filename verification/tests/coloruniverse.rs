use gravity_sim::body::{Advance, Object, Point, Vector};
use gravity_sim::color::{Color, ObjectColor};
use gravity_sim::coloruniverse::{ColorUniverse, ADD_POSITION_MULTIPLE, MAX_POSITIONS_STORED};
use gravity_sim::trail::CapVecDeque;

fn body(n: u64) -> Object {
    Object::new(n, Vector::new(0, 0), Point::new(n, n), 1)
}

fn moved(object: &Object, by: u64) -> Object {
    Object::new(
        object.mass,
        object.velocity,
        Point::new(object.position.x + by, object.position.y + by),
        object.radius,
    )
}

fn tint(n: u8) -> ObjectColor {
    ObjectColor::UserSet(Color(n, n, n))
}

fn universe_of(count: u64) -> ColorUniverse {
    let mut universe = ColorUniverse::default();
    for n in 0..count {
        universe.add_object(body(n), tint(n as u8));
    }
    universe
}

fn trail(buffer: &CapVecDeque) -> Vec<Point> {
    (0..buffer.len()).map(|i| *buffer.index(i)).collect()
}

fn colors(universe: &ColorUniverse) -> Vec<ObjectColor> {
    universe.object_mapped().iter().map(|entry| *entry.1).collect()
}

fn trails(universe: &ColorUniverse) -> Vec<Vec<Point>> {
    universe.object_mapped().iter().map(|entry| trail(entry.2)).collect()
}

fn keep_all(objects: &[Object], _time: u64, _iterations: usize) -> Advance {
    Advance { removed: vec![], objects: objects.iter().map(|o| moved(o, 100)).collect() }
}

fn without(objects: &[Object], removed: &[usize]) -> Vec<Object> {
    objects
        .iter()
        .enumerate()
        .filter(|(i, _)| !removed.contains(i))
        .map(|(_, o)| moved(o, 100))
        .collect()
}

#[test]
fn default_universe_is_empty() {
    let universe = ColorUniverse::default();
    assert_eq!(universe.objects().len(), 0);
    assert_eq!(universe.object_mapped().len(), 0);
}

#[test]
fn add_object_keeps_the_three_lists_in_step() {
    let universe = universe_of(3);
    assert_eq!(universe.objects(), &[body(0), body(1), body(2)]);
    let mapped = universe.object_mapped();
    assert_eq!(mapped.len(), 3);
    for (i, entry) in mapped.iter().enumerate() {
        assert_eq!(*entry.0, body(i as u64));
        assert_eq!(*entry.1, tint(i as u8));
        assert_eq!(entry.2.len(), 0);
        assert_eq!(entry.2.capacity(), MAX_POSITIONS_STORED);
    }
}

#[test]
fn trail_constants_are_as_documented() {
    assert_eq!(MAX_POSITIONS_STORED, 100000);
    assert_eq!(ADD_POSITION_MULTIPLE, 2);
}

#[test]
fn positions_are_recorded_on_every_second_advance() {
    let mut universe = universe_of(2);
    assert!(universe.update_state_repeat(0, 1, keep_all));
    assert_eq!(trails(&universe), vec![vec![], vec![]]);
    assert!(universe.update_state_repeat(0, 1, keep_all));
    assert_eq!(trails(&universe), vec![vec![Point::new(200, 200)], vec![Point::new(201, 201)]]);
    assert!(universe.update_state_repeat(0, 1, keep_all));
    assert_eq!(trails(&universe).iter().map(|t| t.len()).collect::<Vec<_>>(), vec![1, 1]);
    assert!(universe.update_state_repeat(0, 1, keep_all));
    assert_eq!(
        trails(&universe),
        vec![
            vec![Point::new(200, 200), Point::new(400, 400)],
            vec![Point::new(201, 201), Point::new(401, 401)],
        ]
    );
}

#[test]
fn removal_drops_colour_and_trail_at_the_same_index() {
    let mut universe = universe_of(5);
    let objects = universe.objects().to_vec();
    let advance = Advance { removed: vec![1, 3], objects: without(&objects, &[1, 3]) };
    assert!(universe.accepts(&advance));
    universe.apply_advance(advance);
    assert_eq!(universe.objects().len(), 3);
    assert_eq!(colors(&universe), vec![tint(0), tint(2), tint(4)]);
    assert_eq!(universe.object_mapped().len(), 3);
}

#[test]
fn removal_order_in_the_report_does_not_matter() {
    let reports: [&[usize]; 4] = [&[0, 2, 4], &[4, 2, 0], &[2, 4, 0], &[2, 0, 4]];
    for report in reports {
        let mut universe = universe_of(6);
        let objects = universe.objects().to_vec();
        let advance = Advance { removed: report.to_vec(), objects: without(&objects, report) };
        assert!(universe.accepts(&advance));
        universe.apply_advance(advance);
        assert_eq!(colors(&universe), vec![tint(1), tint(3), tint(5)]);
        assert_eq!(universe.objects().len(), 3);
    }
}

#[test]
fn an_index_reported_twice_is_removed_once() {
    let mut universe = universe_of(4);
    let objects = universe.objects().to_vec();
    let advance = Advance { removed: vec![2, 2, 2], objects: without(&objects, &[2]) };
    assert!(universe.accepts(&advance));
    universe.apply_advance(advance);
    assert_eq!(colors(&universe), vec![tint(0), tint(1), tint(3)]);
}

#[test]
fn survivors_keep_their_trails() {
    let mut universe = universe_of(3);
    assert!(universe.update_state_repeat(0, 1, keep_all));
    assert!(universe.update_state_repeat(0, 1, keep_all));
    let before = trails(&universe);
    assert_eq!(before[2], vec![Point::new(202, 202)]);
    let objects = universe.objects().to_vec();
    let advance = Advance { removed: vec![0, 1], objects: without(&objects, &[0, 1]) };
    universe.apply_advance(advance);
    assert_eq!(trails(&universe), vec![before[2].clone()]);
    assert_eq!(colors(&universe), vec![tint(2)]);
}

#[test]
fn removal_and_sampling_happen_in_one_advance() {
    let mut universe = universe_of(3);
    assert!(universe.update_state_repeat(0, 1, keep_all));
    let objects = universe.objects().to_vec();
    let advance = Advance { removed: vec![1], objects: without(&objects, &[1]) };
    universe.apply_advance(advance);
    assert_eq!(colors(&universe), vec![tint(0), tint(2)]);
    assert_eq!(trails(&universe), vec![vec![Point::new(200, 200)], vec![Point::new(202, 202)]]);
}

#[test]
fn everything_can_be_removed() {
    let mut universe = universe_of(3);
    let advance = Advance { removed: vec![0, 1, 2], objects: vec![] };
    assert!(universe.accepts(&advance));
    universe.apply_advance(advance);
    assert_eq!(universe.objects().len(), 0);
    assert_eq!(universe.object_mapped().len(), 0);
}

#[test]
fn report_with_an_index_out_of_range_is_not_accepted() {
    let universe = universe_of(3);
    let objects = universe.objects().to_vec();
    let advance = Advance { removed: vec![3], objects: objects.clone() };
    assert!(!universe.accepts(&advance));
    let advance = Advance { removed: vec![0, 7], objects: without(&objects, &[0]) };
    assert!(!universe.accepts(&advance));
}

#[test]
fn report_with_the_wrong_number_of_bodies_is_not_accepted() {
    let universe = universe_of(3);
    let objects = universe.objects().to_vec();
    assert!(!universe.accepts(&Advance { removed: vec![1], objects: objects.clone() }));
    assert!(!universe.accepts(&Advance { removed: vec![], objects: without(&objects, &[1]) }));
    assert!(!universe.accepts(&Advance { removed: vec![1, 1], objects: without(&objects, &[1, 2]) }));
    assert!(universe.accepts(&Advance { removed: vec![], objects }));
}

#[test]
fn a_report_that_does_not_fit_changes_nothing() {
    let mut universe = universe_of(3);
    let lying = |objects: &[Object], _time: u64, _iterations: usize| Advance {
        removed: vec![9],
        objects: objects.to_vec(),
    };
    assert!(!universe.update_state_repeat(0, 1, lying));
    assert_eq!(universe.objects(), &[body(0), body(1), body(2)]);
    assert_eq!(colors(&universe), vec![tint(0), tint(1), tint(2)]);
    assert!(universe.update_state_repeat(0, 1, keep_all));
    assert_eq!(trails(&universe), vec![vec![], vec![], vec![]]);
}

#[test]
fn the_integrator_is_given_the_bodies_time_and_steps() {
    let mut universe = universe_of(2);
    let mut seen = None;
    let spy = |objects: &[Object], time: u64, iterations: usize| {
        seen = Some((objects.to_vec(), time, iterations));
        Advance { removed: vec![], objects: objects.to_vec() }
    };
    assert!(universe.update_state_repeat(2.5f64.to_bits(), 17, spy));
    assert_eq!(seen, Some((vec![body(0), body(1)], 2.5f64.to_bits(), 17)));
}

#[test]
fn bodies_are_replaced_by_what_the_integrator_reports() {
    let mut universe = universe_of(2);
    assert!(universe.update_state_repeat(0, 1, keep_all));
    assert_eq!(universe.objects(), &[moved(&body(0), 100), moved(&body(1), 100)]);
}

#[test]
fn clone_is_a_deep_copy() {
    let mut universe = universe_of(2);
    assert!(universe.update_state_repeat(0, 1, keep_all));
    assert!(universe.update_state_repeat(0, 1, keep_all));
    let snapshot = universe.clone();
    assert!(universe.update_state_repeat(0, 1, keep_all));
    assert!(universe.update_state_repeat(0, 1, keep_all));
    universe.add_object(body(9), ObjectColor::FromMass);
    assert_eq!(snapshot.objects().len(), 2);
    assert_eq!(snapshot.objects(), &[moved(&body(0), 200), moved(&body(1), 200)]);
    assert_eq!(trails(&snapshot), vec![vec![Point::new(200, 200)], vec![Point::new(201, 201)]]);
    assert_eq!(colors(&snapshot), vec![tint(0), tint(1)]);
    for entry in snapshot.object_mapped() {
        assert_eq!(entry.2.capacity(), MAX_POSITIONS_STORED);
    }
    assert_eq!(universe.objects().len(), 3);
    assert_eq!(trails(&universe)[0].len(), 2);
}

#[test]
fn clone_keeps_the_sampling_phase() {
    let mut universe = universe_of(1);
    assert!(universe.update_state_repeat(0, 1, keep_all));
    let mut copy = universe.clone();
    assert!(copy.update_state_repeat(0, 1, keep_all));
    assert_eq!(trails(&copy), vec![vec![Point::new(200, 200)]]);
}
