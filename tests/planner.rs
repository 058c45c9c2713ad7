use robot_simulator::planner::{
    check_window, cost_weights, index_of_min, min_max_positions, same_value, select_candidate, CostWeights, PlanError,
};

fn bits(v: &[f64]) -> Vec<u64> {
    v.iter().map(|x| x.to_bits()).collect()
}

#[test]
fn near_weights_when_goal_within_reach() {
    assert_eq!(
        cost_weights(true),
        CostWeights { heading: 100, velocity: 1, distance: 80, theta: 80 }
    );
}

#[test]
fn far_weights_otherwise() {
    assert_eq!(
        cost_weights(false),
        CostWeights { heading: 100, velocity: 50, distance: 80, theta: 1 }
    );
}

#[test]
fn least_cost_wins() {
    assert_eq!(index_of_min(&bits(&[0.7, 0.2, 0.9, 0.3])), Ok(1));
}

#[test]
fn first_of_equal_costs_wins() {
    assert_eq!(index_of_min(&bits(&[0.5, 0.25, 0.8, 0.25])), Ok(1));
}

#[test]
fn negative_costs_order_below_positive_ones() {
    assert_eq!(index_of_min(&bits(&[0.5, -0.25, -1.5, 0.0])), Ok(2));
    assert_eq!(index_of_min(&bits(&[-0.0, 0.0, 1.0])), Ok(0));
    assert_eq!(index_of_min(&bits(&[0.0, -0.0, 1.0])), Ok(0));
}

#[test]
fn no_candidate_is_an_empty_window() {
    assert_eq!(index_of_min(&Vec::new()), Err(PlanError::EmptyWindow));
}

#[test]
fn nan_cost_is_numerical() {
    assert_eq!(index_of_min(&bits(&[0.1, f64::NAN, 0.0])), Err(PlanError::Numerical));
}

#[test]
fn window_with_bounds_in_order_is_accepted() {
    let (v_lo, v_hi, w_lo, w_hi) = (-0.2f64, 0.5f64, -0.5f64, 0.5f64);
    assert_eq!(check_window(v_lo.to_bits(), v_hi.to_bits(), w_lo.to_bits(), w_hi.to_bits()), Ok(()));
    // A single sample per axis (a zero time step) is still a window.
    assert_eq!(check_window(0.0f64.to_bits(), 0.0f64.to_bits(), 0.3f64.to_bits(), 0.3f64.to_bits()), Ok(()));
}

#[test]
fn window_with_reversed_axis_is_empty() {
    let r = check_window(0.5f64.to_bits(), 0.2f64.to_bits(), (-0.5f64).to_bits(), 0.5f64.to_bits());
    assert_eq!(r, Err(PlanError::EmptyWindow));
    let r = check_window(0.1f64.to_bits(), 0.2f64.to_bits(), (-0.4f64).to_bits(), (-0.5f64).to_bits());
    assert_eq!(r, Err(PlanError::EmptyWindow));
}

#[test]
fn window_with_nan_bound_is_numerical() {
    let r = check_window(0.1f64.to_bits(), f64::NAN.to_bits(), 0.0f64.to_bits(), 0.1f64.to_bits());
    assert_eq!(r, Err(PlanError::Numerical));
}

#[test]
fn select_candidate_returns_the_pair_of_least_cost() {
    let candidates = vec![(0.0f64, -0.1f64), (0.1, 0.0), (0.2, 0.1)];
    let costs = bits(&[0.9, 0.4, 0.6]);
    assert_eq!(select_candidate(&candidates, &costs), Ok((0.1, 0.0)));
}

#[test]
fn select_candidate_reports_empty_window() {
    let candidates: Vec<(f64, f64)> = Vec::new();
    assert_eq!(select_candidate(&candidates, &Vec::new()), Err(PlanError::EmptyWindow));
}

#[test]
fn extremes_of_scores() {
    assert_eq!(min_max_positions(&bits(&[0.4, 0.1, 0.9, 0.1, 0.9])), Some((1, 2)));
    assert_eq!(min_max_positions(&bits(&[-1.0, 2.0, -3.5])), Some((2, 1)));
}

#[test]
fn extremes_leave_nan_aside() {
    assert_eq!(min_max_positions(&bits(&[f64::NAN, 0.3, f64::NAN, 0.2])), Some((3, 1)));
    assert_eq!(min_max_positions(&bits(&[f64::NAN, f64::NAN])), None);
    assert_eq!(min_max_positions(&Vec::new()), None);
}

#[test]
fn constant_scores_have_equal_extremes() {
    let v = bits(&[0.75, 0.75, 0.75]);
    let (lo, hi) = min_max_positions(&v).unwrap();
    assert!(same_value(v[lo], v[hi]));
    assert!(same_value(0.0f64.to_bits(), (-0.0f64).to_bits()));
    assert!(!same_value(0.5f64.to_bits(), 0.25f64.to_bits()));
}
