use shuttle::gateway::load::{build_seconds, let_in, load, max_builds, LoadResponse, RunningBuilds};

fn response(builds_count: usize, has_capacity: bool) -> LoadResponse {
    LoadResponse { builds_count, has_capacity }
}

#[test]
fn builds_are_let_in_until_there_is_no_room() {
    let mut builds = RunningBuilds::new(2);
    assert_eq!(builds.get_load_admin(), response(0, true));
    assert_eq!(builds.post_load(1, 5), response(1, true));
    assert_eq!(builds.post_load(2, 5), response(2, true));
    assert_eq!(builds.post_load(3, 5), response(2, false));
    assert_eq!(builds.get_load_admin(), response(2, false));
}

#[test]
fn build_that_is_let_in_again_does_not_count_twice() {
    let mut builds = RunningBuilds::new(3);
    assert_eq!(builds.post_load(7, 5), response(1, true));
    assert_eq!(builds.post_load(7, 5), response(1, true));
    assert_eq!(builds.calculate_capacity(), response(1, true));
}

#[test]
fn forgotten_build_makes_room() {
    let mut builds = RunningBuilds::new(1);
    assert_eq!(builds.post_load(1, 5), response(1, true));
    assert_eq!(builds.post_load(2, 5), response(1, false));
    assert_eq!(builds.delete_load(1), response(0, true));
    assert_eq!(builds.post_load(2, 5), response(1, true));
    assert_eq!(builds.delete_load(1), response(1, false));
}

#[test]
fn every_build_is_forgotten() {
    let mut builds = RunningBuilds::new(2);
    builds.post_load(1, 5);
    builds.post_load(2, 5);
    assert_eq!(builds.delete_load_admin(), response(0, true));
}

#[test]
fn build_is_past_its_time() {
    let mut builds = RunningBuilds::new(1);
    assert_eq!(builds.post_load(1, 0), response(1, true));
    while builds.get_load_admin() != response(0, true) {}
    assert_eq!(builds.post_load(2, 5), response(1, true));
}

#[test]
fn no_room_at_all() {
    let mut builds = RunningBuilds::new(0);
    assert_eq!(builds.post_load(1, 5), response(0, false));
}

#[test]
fn builds_on_a_machine() {
    assert_eq!(max_builds(1), 1);
    assert_eq!(max_builds(5), 1);
    assert_eq!(max_builds(10), 1);
    assert_eq!(max_builds(11), 2);
    assert_eq!(max_builds(16), 3);
    assert_eq!(max_builds(64), 12);
    for cores in 1..500 {
        assert_eq!(max_builds(cores), (cores * 3 / 4 / 4).max(1));
    }
    assert_eq!(max_builds(usize::MAX), usize::MAX / 16 * 3 + 2);
}

#[test]
fn builds_on_this_machine() {
    let mut builds = RunningBuilds::for_this_machine();
    let limit = max_builds(num_cpus::get());
    for id in 0..limit {
        assert!(builds.post_load(id as u128, 5).has_capacity);
    }
    assert_eq!(builds.post_load(limit as u128, 5), response(limit, false));
}

#[test]
fn load_of_builders() {
    assert_eq!(load(1, 2), response(1, true));
    assert_eq!(load(2, 2), response(2, false));
    assert_eq!(let_in(load(1, 2), false), response(2, true));
    assert_eq!(let_in(load(1, 2), true), response(1, true));
}

#[test]
fn count_decides() {
    let mut builds = RunningBuilds::new(2);
    assert_eq!(builds.decide(0, 1, 5), response(1, true));
    assert_eq!(builds.decide(1, 2, 5), response(2, true));
    assert_eq!(builds.decide(2, 3, 5), response(2, false));
    // The build that was refused took no place.
    assert_eq!(builds.delete_load(3), response(2, false));
    // One build is past its time, so there is room again.
    assert_eq!(builds.decide(1, 3, 5), response(2, true));
}

#[test]
fn others_are_kept() {
    let mut builds = RunningBuilds::new(3);
    for id in 1..4 {
        builds.post_load(id, 5);
    }
    builds.forget(2);
    assert_eq!(builds.get_load_admin(), response(2, true));
    builds.forget(2);
    builds.forget(9);
    assert_eq!(builds.get_load_admin(), response(2, true));
    assert_eq!(builds.delete_load(1), response(1, true));
    assert_eq!(builds.delete_load(3), response(0, true));
}

#[test]
fn seconds_of_a_build() {
    assert_eq!(build_seconds(0), 0);
    assert_eq!(build_seconds(5), 300);
    assert_eq!(build_seconds(u32::MAX), 257_698_037_700);
}
