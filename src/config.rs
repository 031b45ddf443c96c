use vstd::prelude::*;

use crate::display::{Dimensions, Rotation};
use crate::error::Ssd1680Error;

verus! {

/// A validated display configuration: dimensions within the controller's
/// limits, a rotation, and whether reset loads the fast-refresh waveform.
#[derive(Clone, Copy, Debug)]
pub struct Config {
    dimensions: Dimensions,
    rotation: Rotation,
    fast_init: bool,
}

impl Config {
    #[verifier::type_invariant]
    spec fn inv(self) -> bool {
        self.dimensions.valid()
    }

    pub closed spec fn spec_dimensions(self) -> Dimensions {
        self.dimensions
    }

    pub closed spec fn spec_rotation(self) -> Rotation {
        self.rotation
    }

    pub closed spec fn spec_fast_init(self) -> bool {
        self.fast_init
    }

    /// A configuration, provided that `dimensions` are within the controller's limits.
    pub fn new(dimensions: Dimensions, rotation: Rotation, fast_init: bool) -> (r: Result<
        Config,
        Ssd1680Error,
    >)
        ensures
            r is Ok <==> dimensions.valid(),
            r is Ok ==> r->Ok_0.spec_dimensions() == dimensions && r->Ok_0.spec_rotation()
                == rotation && r->Ok_0.spec_fast_init() == fast_init,
            r is Err ==> r->Err_0 == Ssd1680Error::Configuration,
    {
        if dimensions.is_valid() {
            Ok(Config { dimensions, rotation, fast_init })
        } else {
            Err(Ssd1680Error::Configuration)
        }
    }

    /// The dimensions, which are always valid.
    pub fn dimensions(&self) -> (d: Dimensions)
        ensures
            d == self.spec_dimensions(),
            d.valid(),
    {
        proof {
            use_type_invariant(self);
        }
        self.dimensions
    }

    pub fn rotation(&self) -> (r: Rotation)
        ensures
            r == self.spec_rotation(),
    {
        self.rotation
    }

    /// Whether reset loads the fast-refresh waveform before the standard
    /// initialisation.
    pub fn fast_init(&self) -> (f: bool)
        ensures
            f == self.spec_fast_init(),
    {
        self.fast_init
    }
}

/// Step-by-step construction of a [`Config`].
#[derive(Clone, Copy, Debug)]
pub struct Builder {
    dimensions: Option<Dimensions>,
    rotation: Rotation,
    fast_init: bool,
}

impl Builder {
    pub closed spec fn spec_dimensions(self) -> Option<Dimensions> {
        self.dimensions
    }

    pub closed spec fn spec_rotation(self) -> Rotation {
        self.rotation
    }

    pub closed spec fn spec_fast_init(self) -> bool {
        self.fast_init
    }

    /// A builder with no dimensions yet, no rotation, and fast init off.
    pub fn new() -> (b: Builder)
        ensures
            b.spec_dimensions() is None,
            b.spec_rotation() == Rotation::Rotate0,
            !b.spec_fast_init(),
    {
        Builder { dimensions: None, rotation: Rotation::Rotate0, fast_init: false }
    }

    pub fn dimensions(self, dimensions: Dimensions) -> (b: Builder)
        ensures
            b.spec_dimensions() == Some(dimensions),
            b.spec_rotation() == self.spec_rotation(),
            b.spec_fast_init() == self.spec_fast_init(),
    {
        Builder { dimensions: Some(dimensions), ..self }
    }

    pub fn rotation(self, rotation: Rotation) -> (b: Builder)
        ensures
            b.spec_dimensions() == self.spec_dimensions(),
            b.spec_rotation() == rotation,
            b.spec_fast_init() == self.spec_fast_init(),
    {
        Builder { rotation, ..self }
    }

    /// Whether reset loads the fast-refresh waveform (off unless asked for).
    pub fn fast_init(self, fast_init: bool) -> (b: Builder)
        ensures
            b.spec_dimensions() == self.spec_dimensions(),
            b.spec_rotation() == self.spec_rotation(),
            b.spec_fast_init() == fast_init,
    {
        Builder { fast_init, ..self }
    }

    /// The configuration; `Configuration` when the dimensions are missing or
    /// outside the controller's limits.
    pub fn build(self) -> (r: Result<Config, Ssd1680Error>)
        ensures
            r is Ok <==> (self.spec_dimensions() matches Some(d) && d.valid()),
            r is Ok ==> Some(r->Ok_0.spec_dimensions()) == self.spec_dimensions()
                && r->Ok_0.spec_rotation() == self.spec_rotation() && r->Ok_0.spec_fast_init()
                == self.spec_fast_init(),
            r is Err ==> r->Err_0 == Ssd1680Error::Configuration,
    {
        match self.dimensions {
            Some(dimensions) => Config::new(dimensions, self.rotation, self.fast_init),
            None => Err(Ssd1680Error::Configuration),
        }
    }
}

} // verus!
