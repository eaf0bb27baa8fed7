use vstd::prelude::*;

verus! {

/// The backends a driver can be asked for.
#[derive(Clone, Copy, Debug, PartialEq, Eq, Structural)]
pub enum DriverType {
    /// Windows presented through OpenGL.
    GL,
    /// A text backend; recognised but not implemented.
    Text,
}

/// Why no driver could be created.
#[derive(Clone, Copy, Debug, PartialEq, Eq, Structural)]
pub enum DriverError {
    /// The requested backend exists in name only.
    Unimplemented(DriverType),
}

/// The OpenGL backend. It holds no state: each window it opens owns its own resources.
#[derive(Clone, Copy, Debug, PartialEq, Eq, Structural)]
pub struct GliumDriver {}

impl GliumDriver {
    pub fn new() -> (r: GliumDriver)
        ensures
            r == (GliumDriver {}),
    {
        GliumDriver {  }
    }
}

/// Selects a backend: OpenGL is served, any other kind fails with
/// `Unimplemented` naming it.
pub fn create(driver: DriverType) -> (r: Result<GliumDriver, DriverError>)
    ensures
        driver == DriverType::GL ==> r == Ok::<GliumDriver, DriverError>(GliumDriver {  }),
        driver != DriverType::GL ==> r == Err::<GliumDriver, DriverError>(
            DriverError::Unimplemented(driver),
        ),
{
    match driver {
        DriverType::GL => Ok(GliumDriver::new()),
        DriverType::Text => Err(DriverError::Unimplemented(DriverType::Text)),
    }
}

} // verus!
