use crate::modules::NoiseModule;
use crate::scalar::ScalarOps;
use vstd::prelude::*;

verus! {

/// Noise module that applies a scaling factor and a bias to the output value
/// from the source module.
///
/// The module retrieves the output value from the source module, multiplies
/// it with the scaling factor, adds the bias to it, then outputs the value.
/// The scaled output and the bias are summed in the same operation as the
/// product wherever the scalar type computes the affine map fused; either
/// way the output is the scalar type's `spec_mul_add` of the three values.
///
/// The source module is borrowed, not owned, so one source can feed several
/// composing units at once; the modifier must not outlive its source.
pub struct ScaleBias<'a, U, M> {
    /// Outputs a value.
    pub source: &'a M,
    /// Scaling factor to apply to the output value from the source module.
    /// The default value is one.
    pub scale: U,
    /// Bias to apply to the scaled output value from the source module.
    /// The default value is zero.
    pub bias: U,
}

impl<'a, U: ScalarOps, M> ScaleBias<'a, U, M> {
    /// The configuration `set_scale` builds: the same unit with only the
    /// scaling factor replaced.
    pub open spec fn spec_set_scale(self, scale: U) -> ScaleBias<'a, U, M> {
        ScaleBias { scale, ..self }
    }

    /// The configuration `set_bias` builds: the same unit with only the
    /// bias replaced.
    pub open spec fn spec_set_bias(self, bias: U) -> ScaleBias<'a, U, M> {
        ScaleBias { bias, ..self }
    }

    /// Wrap `source` in an identity transform: scale one, bias zero,
    /// pending configuration.
    pub fn new(source: &'a M) -> (modifier: ScaleBias<'a, U, M>)
        ensures
            modifier.source == source,
            modifier.scale == U::spec_one(),
            modifier.bias == U::spec_zero(),
    {
        ScaleBias { source, scale: U::one(), bias: U::zero() }
    }

    /// Return a new configuration with the given scaling factor; every other
    /// field is kept. The prior configuration is consumed, and no state is
    /// shared with the returned one.
    pub fn set_scale(self, scale: U) -> (modifier: ScaleBias<'a, U, M>)
        ensures
            modifier == self.spec_set_scale(scale),
            modifier.scale == scale,
            modifier.bias == self.bias,
            modifier.source == self.source,
    {
        ScaleBias { scale, ..self }
    }

    /// Return a new configuration with the given bias; every other field is
    /// kept. The prior configuration is consumed, and no state is shared
    /// with the returned one.
    pub fn set_bias(self, bias: U) -> (modifier: ScaleBias<'a, U, M>)
        ensures
            modifier == self.spec_set_bias(bias),
            modifier.bias == bias,
            modifier.scale == self.scale,
            modifier.source == self.source,
    {
        ScaleBias { bias, ..self }
    }
}

impl<'a, T, U: ScalarOps, M: NoiseModule<T, U>> NoiseModule<T, U> for ScaleBias<'a, U, M> {
    /// The source's output at `point`, scaled and offset by the affine map
    /// of the scalar type.
    open spec fn spec_get(&self, point: T) -> U {
        self.source.spec_get(point).spec_mul_add(self.scale, self.bias)
    }

    fn get(&self, point: T) -> (value: U) {
        self.source.get(point).mul_add(self.scale, self.bias)
    }
}

/// Identity law: a freshly constructed modifier (scale one, bias zero, as
/// `new` builds it) outputs exactly what its source outputs, at every point.
pub proof fn lemma_fresh_modifier_is_identity<'a, T, U: ScalarOps, M: NoiseModule<T, U>>(
    modifier: ScaleBias<'a, U, M>,
    point: T,
)
    requires
        modifier.scale == U::spec_one(),
        modifier.bias == U::spec_zero(),
    ensures
        modifier.spec_get(point) == modifier.source.spec_get(point),
{
    modifier.source.spec_get(point).lemma_mul_add_identity();
}

/// Builder independence: deriving a configuration from a base touches only
/// the named field, and two fields set one after the other are both kept,
/// whatever the base held; the base itself is a value and is never changed.
pub proof fn lemma_builder_independence<'a, U: ScalarOps, M>(
    base: ScaleBias<'a, U, M>,
    scale: U,
    bias: U,
)
    ensures
        base.spec_set_scale(scale).bias == base.bias,
        base.spec_set_scale(scale).source == base.source,
        base.spec_set_bias(bias).scale == base.scale,
        base.spec_set_bias(bias).source == base.source,
        base.spec_set_scale(scale).spec_set_bias(bias).scale == scale,
        base.spec_set_scale(scale).spec_set_bias(bias).bias == bias,
{
}

/// Affine correctness: over the integer model scalar, wherever the scaled
/// product and the biased sum stay in range, the modifier's output is the
/// mathematical `source output * scale + bias`, exactly.
pub proof fn lemma_modifier_is_exact_affine<'a, T, M: NoiseModule<T, i64>>(
    modifier: ScaleBias<'a, i64, M>,
    point: T,
)
    requires
        i64::MIN <= modifier.source.spec_get(point) * modifier.scale <= i64::MAX,
        i64::MIN <= modifier.source.spec_get(point) * modifier.scale + modifier.bias <= i64::MAX,
    ensures
        modifier.spec_get(point) == modifier.source.spec_get(point) * modifier.scale
            + modifier.bias,
{
    crate::scalar::lemma_mul_add_exact(modifier.source.spec_get(point), modifier.scale, modifier.bias);
}

/// Scale zero blanks the source: over the integer model scalar a modifier
/// whose scaling factor is zero outputs exactly its bias, whatever the
/// source outputs at the point.
pub proof fn lemma_zero_scale_yields_bias<'a, T, M: NoiseModule<T, i64>>(
    modifier: ScaleBias<'a, i64, M>,
    point: T,
)
    requires
        modifier.scale == 0i64,
    ensures
        modifier.spec_get(point) == modifier.bias,
{
    crate::scalar::lemma_mul_add_zero_scale(modifier.source.spec_get(point), modifier.bias);
}

} // verus!
