use vstd::prelude::*;

verus! {

/// Why a pricing run was refused or abandoned.
#[derive(Debug, Clone, Copy, PartialEq, Eq, Structural)]
pub enum PricingError {
    /// The fractional order is outside (0, 1), or a level, strike, maturity
    /// or volatility is not positive.
    InvalidParameter,
    /// Fewer than two spatial or two time steps were asked for.
    InvalidGridSize,
    /// The implicit step operator could not be factorized.
    SingularSystem,
    /// A solve produced a value that is not finite.
    NumericalInstability { step: usize, node: usize },
}

/// Smallest number of spatial and of time steps a run accepts.
pub const MIN_STEPS: usize = 2;

/// Whether a grid of `m` spatial and `n` time steps is accepted.
pub open spec fn grid_size_ok(m: int, n: int) -> bool {
    m >= MIN_STEPS && n >= MIN_STEPS
}

/// Refuses grids with fewer than two spatial or two time steps.
pub fn check_grid_size(m: usize, n: usize) -> (r: Result<(), PricingError>)
    ensures
        r is Ok <==> grid_size_ok(m as int, n as int),
        r is Err ==> r == Err::<(), PricingError>(PricingError::InvalidGridSize),
{
    if m < MIN_STEPS || n < MIN_STEPS {
        Err(PricingError::InvalidGridSize)
    } else {
        Ok(())
    }
}

/// Validation done before anything is allocated. `params_ok` says whether
/// the fractional order lies in (0, 1) and the level, strike, maturity and
/// volatility are all positive; the parameters are checked before the grid.
pub fn check_inputs(params_ok: bool, m: usize, n: usize) -> (r: Result<(), PricingError>)
    ensures
        !params_ok ==> r == Err::<(), PricingError>(PricingError::InvalidParameter),
        params_ok && !grid_size_ok(m as int, n as int) ==> r == Err::<(), PricingError>(
            PricingError::InvalidGridSize,
        ),
        r is Ok <==> params_ok && grid_size_ok(m as int, n as int),
{
    if !params_ok {
        return Err(PricingError::InvalidParameter);
    }
    check_grid_size(m, n)
}

} // verus!
