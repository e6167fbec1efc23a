use sagansearch::entropy::EntropySample;
use sagansearch::history::RollingHistory;

fn sample(value: f32) -> EntropySample {
    EntropySample::from_bits(value.to_bits()).unwrap()
}

fn values(history: &RollingHistory) -> Vec<f32> {
    (0..history.len())
        .map(|slot| f32::from_bits(history.get(slot).unwrap().bits()))
        .collect()
}

#[test]
fn a_new_history_holds_zeros() {
    let history = RollingHistory::new(4);
    assert_eq!(history.len(), 4);
    assert_eq!(values(&history), vec![0.0, 0.0, 0.0, 0.0]);
    assert_eq!(history.get(4), None);
}

#[test]
fn the_newest_sample_takes_the_last_slot() {
    let mut history = RollingHistory::new(3);
    history.push(sample(0.25));
    assert_eq!(values(&history), vec![0.0, 0.0, 0.25]);
    history.push(sample(0.5));
    assert_eq!(values(&history), vec![0.0, 0.25, 0.5]);
}

#[test]
fn the_oldest_sample_is_dropped() {
    let mut history = RollingHistory::new(3);
    for value in [0.125f32, 0.25, 0.5, 0.75, 1.0] {
        history.push(sample(value));
        assert_eq!(history.len(), 3);
    }
    assert_eq!(values(&history), vec![0.5, 0.75, 1.0]);
}

#[test]
fn a_history_without_slots_stays_empty() {
    let mut history = RollingHistory::new(0);
    history.push(sample(0.5));
    assert_eq!(history.len(), 0);
    assert_eq!(history.get(0), None);
    assert!(history.points().is_empty());
}

#[test]
fn points_pair_each_sample_with_its_age() {
    let mut history = RollingHistory::new(3);
    history.push(sample(0.25));
    history.push(sample(0.5));
    let points = history.points();
    assert_eq!(
        points,
        vec![(3, sample(0.0)), (2, sample(0.25)), (1, sample(0.5))]
    );
}

#[test]
fn the_reference_line_runs_across_all_positions() {
    let history = RollingHistory::new(3);
    assert_eq!(
        history.reference_line(sample(0.9)),
        vec![(0, sample(0.9)), (1, sample(0.9)), (2, sample(0.9))]
    );
    assert!(RollingHistory::new(0).reference_line(sample(0.9)).is_empty());
}
