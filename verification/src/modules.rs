use vstd::prelude::*;

verus! {

/// Base trait for noise modules.
///
/// A noise module is a unit that calculates and outputs a value given an
/// n-dimensional input point, where n is 2, 3 or 4. Concrete units compute
/// their output in different ways: from a coherent-noise or other
/// mathematical function, by reshaping the output of one inner module, or by
/// combining the outputs of several inner modules.
///
/// Evaluation is referentially transparent: within one configuration of a
/// unit, the same point always yields the same output. `spec_get` is that
/// fixed mathematical output, and `get` is bound to it, so every caller may
/// reason about a module's result without knowing the concrete unit.
pub trait NoiseModule<T, U> {
    /// The output of this unit at `point`, as a mathematical function of the
    /// unit's configuration and the point.
    spec fn spec_get(&self, point: T) -> U;

    /// Calculate and output the value for `point`.
    fn get(&self, point: T) -> (value: U)
        ensures
            value == self.spec_get(point),
    ;
}

impl<'a, T, U, M: NoiseModule<T, U>> NoiseModule<T, U> for &'a M {
    /// A reference to a module outputs exactly what the referenced module
    /// outputs.
    open spec fn spec_get(&self, point: T) -> U {
        (**self).spec_get(point)
    }

    fn get(&self, point: T) -> (value: U) {
        M::get(*self, point)
    }
}

/// Delegation transparency: evaluating through a reference to a module is
/// observably identical to evaluating the module directly, at every point.
pub proof fn lemma_reference_delegates<T, U, M: NoiseModule<T, U>>(source: &M, point: T)
    ensures
        (<&M as NoiseModule<T, U>>::spec_get(&source, point)) == source.spec_get(point),
{
}

/// Trait for modules that require a seed before generating their values.
///
/// The seed fully determines the unit's deterministic output pattern. All
/// `u32` values are legal seeds. Configuration is functional: `set_seed`
/// consumes the unit and returns a reconfigured one, so a caller must capture
/// the returned value. The two contracts together force the round trip
/// `unit.set_seed(seed).seed() == seed` on every implementation.
pub trait Seedable: Sized {
    /// The seed this unit is currently configured with.
    spec fn spec_seed(&self) -> u32;

    /// Set the seed for the module implementing the `Seedable` trait.
    fn set_seed(self, seed: u32) -> (configured: Self)
        ensures
            configured.spec_seed() == seed,
    ;

    /// Getter to retrieve the seed from the module.
    fn seed(&self) -> (seed: u32)
        ensures
            seed == self.spec_seed(),
    ;
}

} // verus!
