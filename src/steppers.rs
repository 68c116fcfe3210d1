use vstd::prelude::*;

verus! {

/// A tick-driven state machine that owns a current and a target value and
/// advances the current value by an elapsed duration.
pub trait TickInterpolator<T> {
    /// Advances the internal state by the elapsed time `dt`.
    fn tick(&mut self, dt: std::time::Duration);

    /// Replaces the target value.
    fn set_target(&mut self, target: T);

    /// Returns the current value, without side effects.
    fn get(&self) -> T;
}

} // verus!
