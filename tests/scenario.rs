use faer::prelude::Solve;
use faer::Mat;
use fractional_fx::error::{check_inputs, PricingError};
use fractional_fx::march::{MarchEvent, MarchState};
use fractional_fx::memory::history_terms;
use fractional_fx::operator::TridiagonalOperator;
use fractional_fx::solution::SolutionMatrix;
use statrs::function::gamma::gamma;

struct Run {
    grid: Vec<f64>,
    v: SolutionMatrix<f64>,
    dt: f64,
}

fn price(s_max: f64, k: f64, t: f64, rd: f64, rf: f64, sigma: f64, alpha: f64, m: usize, n: usize) -> Result<Run, PricingError> {
    let finite = [s_max, k, t, rd, rf, sigma, alpha].iter().all(|x| x.is_finite());
    let ok = finite && alpha > 0.0 && alpha < 1.0 && s_max > 0.0 && k > 0.0 && t > 0.0 && sigma > 0.0;
    check_inputs(ok, m, n)?;
    let x_min = (k / 10.0).ln();
    let dx = (s_max.ln() - x_min) / m as f64;
    let dt = t / n as f64;
    let mut grid: Vec<f64> = (0..=m).map(|i| (x_min + i as f64 * dx).exp()).collect();
    grid[m] = s_max;
    let sigma2 = sigma.powi(2);
    let drift = (rd - rf) - 0.5 * sigma2;
    let d = dt.powf(alpha) * gamma(2.0 - alpha);
    let b: Vec<f64> = (0..=n)
        .map(|j| (j as f64 + 1.0).powf(1.0 - alpha) - (j as f64).powf(1.0 - alpha))
        .collect();
    let mut v = SolutionMatrix::new(grid.iter().map(|&s| (s - k).max(0.0)).collect());
    let a = d * (sigma2 / (2.0 * dx.powi(2)));
    let be = d * (drift / (2.0 * dx));
    let main_diag = 1.0 + 2.0 * a + d * rd;
    let upper = -(a + be);
    let lower = -(a - be);
    let operator = TridiagonalOperator::new(m - 1, lower, main_diag, upper);
    let mut op = Mat::<f64>::zeros(m - 1, m - 1);
    for r in 0..operator.size() {
        for c in r.saturating_sub(1)..(r + 2).min(operator.size()) {
            if let Some(x) = operator.entry(r, c) {
                op[(r, c)] = x;
            }
        }
    }
    let lu = op.partial_piv_lu();
    let u = lu.U();
    let factorized = (0..operator.size()).all(|i| u[(i, i)].is_finite() && u[(i, i)] != 0.0);
    let event = if factorized { MarchEvent::Factorized } else { MarchEvent::Singular };
    let mut state = MarchState::Uninitialized.next(n, event)?;
    while let MarchState::Stepping(step) = state {
        let tc = step as f64 * dt;
        let v_upper = s_max * (-rf * tc).exp() - k * (-rd * tc).exp();
        let terms = history_terms(step);
        let mut rhs = Mat::<f64>::zeros(m - 1, 1);
        for i in 1..m {
            let mut h = 0.0;
            for term in &terms {
                let w = match term.older {
                    Some(o) => b[term.newer] - b[o],
                    None => b[term.newer],
                };
                h += w * v.get(i, term.column);
            }
            rhs[(i - 1, 0)] = h;
        }
        rhs[(m - 2, 0)] -= operator.upper_value() * v_upper;
        let sol = lu.solve(&rhs);
        let interior: Vec<f64> = (0..m - 1).map(|i| sol[(i, 0)]).collect();
        let event = match interior.iter().position(|x| !x.is_finite()) {
            Some(i) => MarchEvent::NonFinite(i + 1),
            None if !v_upper.is_finite() => MarchEvent::NonFinite(m),
            None => MarchEvent::Solved,
        };
        state = state.next(n, event)?;
        v.push_step(0.0, interior, v_upper);
    }
    Ok(Run { grid, v, dt })
}

fn reference_run() -> Run {
    price(20.0, 1.10, 1.0, 0.04, 0.02, 0.15, 0.85, 400, 200).unwrap()
}

#[test]
fn end_to_end_price_near_strike() {
    let run = reference_run();
    let prices = run.v.last_column();
    let pos = run.grid.iter().position(|&x| x >= 1.10).unwrap();
    assert!((run.grid[pos] - 1.1141).abs() < 1e-3);
    assert!((prices[pos] - 0.08356).abs() < 1e-3);
}

#[test]
fn terminal_column_is_the_call_payoff() {
    let run = reference_run();
    for i in 0..run.grid.len() {
        assert_eq!(run.v.get(i, 0), (run.grid[i] - 1.10).max(0.0));
    }
}

#[test]
fn boundary_values_hold_at_every_step() {
    let run = reference_run();
    let m = run.v.nodes() - 1;
    for step in 1..run.v.levels() {
        let t = step as f64 * run.dt;
        assert_eq!(run.v.get(0, step), 0.0);
        assert_eq!(run.v.get(m, step), 20.0 * (-0.02 * t).exp() - 1.10 * (-0.04 * t).exp());
    }
}

#[test]
fn grid_shape() {
    let run = reference_run();
    assert_eq!(run.grid.len(), 401);
    assert!(run.grid.windows(2).all(|w| w[0] < w[1]));
    assert!((run.grid[0] - 0.11).abs() < 1e-12);
    assert_eq!(run.grid[400], 20.0);
}

#[test]
fn repeated_runs_are_bit_identical() {
    let a = reference_run().v.last_column();
    let b = reference_run().v.last_column();
    assert_eq!(a.iter().map(|x| x.to_bits()).collect::<Vec<_>>(), b.iter().map(|x| x.to_bits()).collect::<Vec<_>>());
}

#[test]
fn zero_volatility_is_rejected() {
    assert!(matches!(price(20.0, 1.10, 1.0, 0.04, 0.02, 0.0, 0.85, 4, 4), Err(PricingError::InvalidParameter)));
}

#[test]
fn values_rise_with_the_spot() {
    let run = reference_run();
    for step in [0usize, 1, 50, 200] {
        for i in 1..run.v.nodes() {
            assert!(run.v.get(i, step) >= run.v.get(i - 1, step) - 1e-9);
        }
    }
}

#[test]
fn degenerate_inputs_are_rejected() {
    assert!(matches!(price(20.0, 1.10, 1.0, 0.04, 0.02, 0.15, 0.85, 1, 200), Err(PricingError::InvalidGridSize)));
    assert!(matches!(price(20.0, 1.10, 1.0, 0.04, 0.02, 0.15, 0.85, 400, 1), Err(PricingError::InvalidGridSize)));
    for alpha in [0.0, 1.0, 1.5] {
        assert!(matches!(price(20.0, 1.10, 1.0, 0.04, 0.02, 0.15, alpha, 400, 200), Err(PricingError::InvalidParameter)));
    }
    assert!(matches!(price(20.0, 1.10, 1.0, f64::NAN, 0.02, 0.15, 0.85, 400, 200), Err(PricingError::InvalidParameter)));
}
