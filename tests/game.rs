use gyro_controller::controller::{init_movement, Dir, Movement, DEAD_BAND};
use gyro_controller::level::{rm_basic_scene, Level, SceneEntity};
use gyro_controller::score::{add_score, setup_score, Score};

#[test]
fn dir_defaults_to_neutral() {
    assert_eq!(Dir::default(), Dir::Neutral);
}

#[test]
fn movement_starts_at_rest() {
    let m = init_movement();
    assert_eq!(m.value, 0);
    assert_eq!(m.direction, Dir::Neutral);
    assert_eq!(Movement::new(), m);
}

#[test]
fn movement_direction_follows_rate() {
    let mut m = Movement::new();
    m.update(-DEAD_BAND - 1);
    assert_eq!(m.direction, Dir::Right);
    assert_eq!(m.value, -DEAD_BAND - 1);
    m.update(DEAD_BAND + 1);
    assert_eq!(m.direction, Dir::Left);
    m.update(DEAD_BAND);
    assert_eq!(m.direction, Dir::Neutral);
    m.update(-DEAD_BAND);
    assert_eq!(m.direction, Dir::Neutral);
    // one radian per second
    m.update(1_000_000_000_000_000);
    assert_eq!(m.direction, Dir::Left);
    m.update(0);
    assert_eq!(m.direction, Dir::Neutral);
}

#[test]
fn score_starts_empty() {
    assert!(setup_score().history.is_empty());
}

#[test]
fn scores_append_to_the_single_board() {
    let mut boards = vec![setup_score()];
    add_score(&mut boards, &vec![3, 7]);
    add_score(&mut boards, &vec![]);
    add_score(&mut boards, &vec![5]);
    assert_eq!(boards.len(), 1);
    assert_eq!(boards[0].history, vec![3, 7, 5]);
}

#[test]
fn scores_ignored_without_single_board() {
    let mut none: Vec<Score> = Vec::new();
    add_score(&mut none, &vec![1]);
    assert!(none.is_empty());
    let mut two = vec![setup_score(), Score { history: vec![9] }];
    add_score(&mut two, &vec![1, 2]);
    assert_eq!(two.len(), 2);
    assert!(two[0].history.is_empty());
    assert_eq!(two[1].history, vec![9]);
}

#[test]
fn level_scenery_is_cleared() {
    let mut scene = vec![
        SceneEntity { id: 1, level: Some(Level) },
        SceneEntity { id: 2, level: None },
        SceneEntity { id: 3, level: Some(Level) },
        SceneEntity { id: 4, level: None },
    ];
    rm_basic_scene(&mut scene);
    let ids: Vec<u64> = scene.iter().map(|e| e.id).collect();
    assert_eq!(ids, vec![2, 4]);
    let mut empty: Vec<SceneEntity> = Vec::new();
    rm_basic_scene(&mut empty);
    assert!(empty.is_empty());
}
