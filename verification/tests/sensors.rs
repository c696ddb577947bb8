use robot_car::movement::Obstacles;
use robot_car::sensors::{detect_obstacle, nearest_distance, sensor_update, SensorReport};

#[test]
fn obstacle_threshold_is_five_cm() {
    assert!(detect_obstacle(Some(0)));
    assert!(detect_obstacle(Some(4)));
    assert!(!detect_obstacle(Some(5)));
    assert!(!detect_obstacle(Some(300)));
    assert!(!detect_obstacle(None));
}

#[test]
fn nearest_skips_failed_measurements() {
    assert_eq!(nearest_distance(&[]), 255);
    assert_eq!(nearest_distance(&[None, None]), 255);
    assert_eq!(nearest_distance(&[Some(40), None, Some(12), Some(90)]), 12);
    assert_eq!(nearest_distance(&[Some(1000), Some(256)]), 255);
    assert_eq!(nearest_distance(&[Some(255), Some(254)]), 254);
    assert_eq!(nearest_distance(&[Some(0)]), 0);
}

#[test]
fn update_reports_each_direction() {
    let report = sensor_update([Some(3), Some(20), None, Some(4)]);
    assert_eq!(
        report,
        SensorReport {
            obstacles: Obstacles { front: true, back: false, left: false, right: true },
            nearest_cm: 3,
        }
    );
}

#[test]
fn update_with_nothing_near() {
    let report = sensor_update([None, Some(600), Some(70), None]);
    assert_eq!(
        report.obstacles,
        Obstacles { front: false, back: false, left: false, right: false }
    );
    assert_eq!(report.nearest_cm, 70);
}

#[test]
fn obstacle_means_near_on_examples() {
    for distances in [
        [Some(2), None, None, None],
        [None, Some(4), Some(100), None],
        [Some(50), Some(50), Some(0), Some(9)],
        [None, None, None, Some(1)],
    ] {
        let report = sensor_update(distances);
        let o = report.obstacles;
        assert!(o.front || o.back || o.left || o.right);
        assert!(report.nearest_cm < 5);
    }
}
