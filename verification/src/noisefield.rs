//! The noise field: an ordered list of noise layers under one seed.
//!
//! The field holds, for each layer, what fixes its generator: the kind of
//! noise, its tuning parameters and the seed it was realized with. A layer
//! is only ever built from parameters that passed validation, so a field
//! never holds a generator that could not be evaluated.

use vstd::prelude::*;
use crate::scalar::Scalar;

verus! {

/// A kind of noise with its tuning parameters.
#[derive(Clone, Copy, Debug, PartialEq, Eq, Structural)]
pub enum NoiseType {
    /// Gradient noise; no parameters.
    Perlin,
    /// Fractional Brownian motion: octaves, frequency, lacunarity,
    /// persistence.
    Brownian(usize, Scalar, Scalar, Scalar),
    /// Cellular noise: frequency, displacement.
    Worley(Scalar, Scalar),
}

/// Why a layer's parameters were turned down.
#[derive(Clone, Copy, Debug, PartialEq, Eq, Structural)]
pub enum ConfigurationError {
    /// The octave count is zero.
    ZeroOctaves,
    /// The frequency is an infinity or a NaN.
    NonFiniteFrequency,
    /// The lacunarity is an infinity or a NaN.
    NonFiniteLacunarity,
    /// The persistence is an infinity or a NaN.
    NonFinitePersistence,
    /// The displacement is an infinity or a NaN.
    NonFiniteDisplacement,
}

impl NoiseType {
    /// The first thing wrong with the parameters, in the order in which
    /// the kind lists them, or `None` where they are all usable: at least
    /// one octave, and every real parameter finite.
    pub open spec fn defect(self) -> Option<ConfigurationError> {
        match self {
            NoiseType::Perlin => None,
            NoiseType::Brownian(octaves, frequency, lacunarity, persistence) => {
                if octaves < 1 {
                    Some(ConfigurationError::ZeroOctaves)
                } else if !frequency.is_finite_spec() {
                    Some(ConfigurationError::NonFiniteFrequency)
                } else if !lacunarity.is_finite_spec() {
                    Some(ConfigurationError::NonFiniteLacunarity)
                } else if !persistence.is_finite_spec() {
                    Some(ConfigurationError::NonFinitePersistence)
                } else {
                    None
                }
            },
            NoiseType::Worley(frequency, displacement) => {
                if !frequency.is_finite_spec() {
                    Some(ConfigurationError::NonFiniteFrequency)
                } else if !displacement.is_finite_spec() {
                    Some(ConfigurationError::NonFiniteDisplacement)
                } else {
                    None
                }
            },
        }
    }

    /// Checks the parameters.
    pub fn validate(&self) -> (r: Result<(), ConfigurationError>)
        ensures
            self.defect() is None ==> r is Ok,
            self.defect() is Some ==> r == Err::<(), ConfigurationError>(self.defect().unwrap()),
    {
        match *self {
            NoiseType::Perlin => Ok(()),
            NoiseType::Brownian(octaves, frequency, lacunarity, persistence) => {
                if octaves < 1 {
                    Err(ConfigurationError::ZeroOctaves)
                } else if !frequency.is_finite() {
                    Err(ConfigurationError::NonFiniteFrequency)
                } else if !lacunarity.is_finite() {
                    Err(ConfigurationError::NonFiniteLacunarity)
                } else if !persistence.is_finite() {
                    Err(ConfigurationError::NonFinitePersistence)
                } else {
                    Ok(())
                }
            },
            NoiseType::Worley(frequency, displacement) => {
                if !frequency.is_finite() {
                    Err(ConfigurationError::NonFiniteFrequency)
                } else if !displacement.is_finite() {
                    Err(ConfigurationError::NonFiniteDisplacement)
                } else {
                    Ok(())
                }
            },
        }
    }

    /// Realizes a layer of this kind under `seed`. Fails, with the first
    /// defect, exactly where the parameters have one.
    pub fn make_noise_module(&self, seed: usize) -> (r: Result<NoiseLayer, ConfigurationError>)
        ensures
            self.defect() is None ==> r is Ok && r.unwrap()@ == (*self, seed),
            self.defect() is Some ==> r is Err && r.unwrap_err() == self.defect().unwrap(),
    {
        match self.validate() {
            Ok(()) => Ok(NoiseLayer { kind: *self, seed }),
            Err(e) => Err(e),
        }
    }
}

/// A realized layer: a kind of noise with valid parameters, and a seed.
/// Two layers with the same view stand for the same generator.
#[derive(Clone, Copy, Debug)]
pub struct NoiseLayer {
    kind: NoiseType,
    seed: usize,
}

impl View for NoiseLayer {
    type V = (NoiseType, usize);

    closed spec fn view(&self) -> (NoiseType, usize) {
        (self.kind, self.seed)
    }
}

impl NoiseLayer {
    #[verifier::type_invariant]
    spec fn valid(self) -> bool {
        self.kind.defect() is None
    }

    /// The kind and parameters; they have no defect.
    pub fn kind(&self) -> (k: NoiseType)
        ensures
            k == self@.0,
            k.defect() is None,
    {
        proof {
            use_type_invariant(self);
        }
        self.kind
    }

    /// The seed that the layer was realized with.
    pub fn seed(&self) -> (s: usize)
        ensures
            s == self@.1,
    {
        self.seed
    }
}

/// What a field is: its seed, and its layers in the order they were added.
pub struct NoiseFieldView {
    pub seed: usize,
    pub layers: Seq<(NoiseType, usize)>,
}

impl NoiseFieldView {
    /// The empty field under `seed`.
    pub open spec fn empty(seed: usize) -> NoiseFieldView {
        NoiseFieldView { seed: seed, layers: Seq::empty() }
    }

    /// This field with one more layer of the given kind, realized under
    /// the field's own seed.
    pub open spec fn with_layer(self, kind: NoiseType) -> NoiseFieldView {
        NoiseFieldView { seed: self.seed, layers: self.layers.push((kind, self.seed)) }
    }

    /// The field that a reset to `seed` and then one layer of each kind,
    /// in order, leads to.
    pub open spec fn replay(seed: usize, kinds: Seq<NoiseType>) -> NoiseFieldView
        decreases kinds.len(),
    {
        if kinds.len() == 0 {
            Self::empty(seed)
        } else {
            Self::replay(seed, kinds.drop_last()).with_layer(kinds.last())
        }
    }

    /// The kinds of the layers, in order.
    pub open spec fn kinds(self) -> Seq<NoiseType> {
        self.layers.map_values(|l: (NoiseType, usize)| l.0)
    }

    /// Every layer was realized under the field's own seed.
    pub open spec fn uniform(self) -> bool {
        forall|i: int| 0 <= i < self.layers.len() ==> (#[trigger] self.layers[i]).1 == self.seed
    }
}

/// A two-dimensional noise field. Its value at a point is the sum of its
/// layers' values there, taken in the order of `layers`.
pub struct NoiseField {
    seed: usize,
    noise: Vec<NoiseLayer>,
}

impl View for NoiseField {
    type V = NoiseFieldView;

    closed spec fn view(&self) -> NoiseFieldView {
        NoiseFieldView { seed: self.seed, layers: self.noise@.map_values(|l: NoiseLayer| l@) }
    }
}

impl NoiseField {
    /// An empty field under `seed`.
    pub fn new(seed: usize) -> (field: NoiseField)
        ensures
            field@.seed == seed,
            field@.layers == Seq::<(NoiseType, usize)>::empty(),
    {
        let field = NoiseField { seed: seed, noise: Vec::new() };
        assert(field@.layers =~= Seq::<(NoiseType, usize)>::empty());
        field
    }

    /// Appends a realized layer; the layers before it stay as they are.
    pub fn add_noise(&mut self, noise: NoiseLayer)
        ensures
            final(self)@.seed == old(self)@.seed,
            final(self)@.layers == old(self)@.layers.push(noise@),
    {
        self.noise.push(noise);
        assert(self@.layers =~= old(self)@.layers.push(noise@));
    }

    /// Drops every layer and takes a new seed.
    pub fn reset(&mut self, seed: usize)
        ensures
            final(self)@.seed == seed,
            final(self)@.layers == Seq::<(NoiseType, usize)>::empty(),
    {
        self.seed = seed;
        self.noise = Vec::new();
        assert(self@.layers =~= Seq::<(NoiseType, usize)>::empty());
    }

    /// The seed that new layers are realized with.
    pub fn seed(&self) -> (s: usize)
        ensures
            s == self@.seed,
    {
        self.seed
    }

    /// The number of layers.
    pub fn len(&self) -> (n: usize)
        ensures
            n == self@.layers.len(),
    {
        self.noise.len()
    }

    /// The layer added as number `i`, counting from 0.
    pub fn layer(&self, i: usize) -> (l: NoiseLayer)
        requires
            i < self@.layers.len(),
        ensures
            l@ == self@.layers[i as int],
    {
        self.noise[i]
    }
}

/// The field that a session starts with: seed 1 and one Perlin layer.
pub fn init() -> (field: NoiseField)
    ensures
        field@ == NoiseFieldView::empty(1).with_layer(NoiseType::Perlin),
{
    let mut field = NoiseField::new(1);
    assert(field@ == NoiseFieldView::empty(1));
    let added = lua_noise_add(&mut field, NoiseType::Perlin);
    field
}

/// Script entry `reset`: empties the field and gives it a new seed.
pub fn lua_noise_reset(field: &mut NoiseField, seed: u32)
    ensures
        final(field)@ == NoiseFieldView::empty(seed as usize),
{
    field.reset(seed as usize);
}

/// Script entry `add`: realizes a layer of the given kind under the
/// field's seed and appends it. Where the parameters have a defect the
/// field is left as it was and the defect is returned.
pub fn lua_noise_add(field: &mut NoiseField, noise_type: NoiseType) -> (r: Result<
    (),
    ConfigurationError,
>)
    ensures
        noise_type.defect() is None ==> r is Ok && final(field)@ == old(field)@.with_layer(
            noise_type,
        ),
        noise_type.defect() is Some ==> r is Err && r.unwrap_err() == noise_type.defect().unwrap()
            && final(field)@ == old(field)@,
{
    match noise_type.make_noise_module(field.seed()) {
        Ok(module) => {
            field.add_noise(module);
            Ok(())
        },
        Err(e) => Err(e),
    }
}

/// Script entry `perlin`.
pub fn lua_noisetype_perlin() -> (t: NoiseType)
    ensures
        t == NoiseType::Perlin,
{
    NoiseType::Perlin
}

/// Script entry `brownian`.
pub fn lua_noisetype_brownian(
    octaves: u32,
    frequency: Scalar,
    lacunarity: Scalar,
    persistence: Scalar,
) -> (t: NoiseType)
    ensures
        t == NoiseType::Brownian(octaves as usize, frequency, lacunarity, persistence),
{
    NoiseType::Brownian(octaves as usize, frequency, lacunarity, persistence)
}

/// Script entry `worley`.
pub fn lua_noisetype_worley(frequency: Scalar, displacement: Scalar) -> (t: NoiseType)
    ensures
        t == NoiseType::Worley(frequency, displacement),
{
    NoiseType::Worley(frequency, displacement)
}

/// A replay has one layer for each kind, in the same order, all of them
/// under the replay's seed.
pub proof fn lemma_replay_layers(seed: usize, kinds: Seq<NoiseType>)
    ensures
        NoiseFieldView::replay(seed, kinds).seed == seed,
        NoiseFieldView::replay(seed, kinds).layers.len() == kinds.len(),
        forall|i: int|
            0 <= i < kinds.len() ==> NoiseFieldView::replay(seed, kinds).layers[i] == (
                #[trigger] kinds[i],
                seed,
            ),
    decreases kinds.len(),
{
    if kinds.len() > 0 {
        let shorter = kinds.drop_last();
        lemma_replay_layers(seed, shorter);
        assert forall|i: int| 0 <= i < kinds.len() implies NoiseFieldView::replay(
            seed,
            kinds,
        ).layers[i] == (#[trigger] kinds[i], seed) by {
            if i < shorter.len() {
                assert(shorter[i] == kinds[i]);
            }
        }
    }
}

/// Resetting a field to the seed it has and adding layers of the same
/// kinds again, in the same order, gives the same field back, provided
/// each of its layers was realized under that seed. A field's value at a
/// point depends on nothing but its view, so the replayed field samples
/// as the first one did.
pub proof fn lemma_replay_restores(field: NoiseFieldView)
    requires
        field.uniform(),
    ensures
        NoiseFieldView::replay(field.seed, field.kinds()) == field,
{
    let kinds = field.kinds();
    lemma_replay_layers(field.seed, kinds);
    assert forall|i: int| 0 <= i < field.layers.len() implies NoiseFieldView::replay(
        field.seed,
        kinds,
    ).layers[i] == field.layers[i] by {
        assert(kinds[i] == field.layers[i].0);
    }
    assert(NoiseFieldView::replay(field.seed, field.kinds()).layers =~= field.layers);
}

/// Fields built by resets and script additions alone are uniform.
pub proof fn lemma_uniform_kept(field: NoiseFieldView, seed: usize, kind: NoiseType)
    ensures
        NoiseFieldView::empty(seed).uniform(),
        field.uniform() ==> field.with_layer(kind).uniform(),
{
}

} // verus!
