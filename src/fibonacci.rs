use vstd::prelude::*;

verus! {

/// The number of trace columns of the Fibonacci circuit: the current and the
/// next number.
pub const FIBONACCI_WIDTH: usize = 2;

/// A Fibonacci arithmetic circuit over `num_steps` rows that ends in `final_value`.
pub struct FibonacciAir {
    pub num_steps: usize,
    pub final_value: u32,
}

impl FibonacciAir {
    /// The number of trace columns.
    pub fn width(&self) -> (r: usize)
        ensures
            r == FIBONACCI_WIDTH,
    {
        FIBONACCI_WIDTH
    }
}

} // verus!
