//! The error returned when a shape fails to build.
use vstd::prelude::*;

verus! {

/// Declares glium's `vertex::BufferCreationError` (the error of
/// `glium::vertex::VertexBuffer::new`) so that `ShapeCreationError` can carry
/// it. It is only moved around: nothing about its value is relied on.
#[verifier::external_type_specification]
#[verifier::external_body]
pub struct ExBufferCreationError(glium::vertex::BufferCreationError);

/// The error object that is returned when a shape fails to build.
#[derive(Clone, Copy, Debug)]
pub enum ShapeCreationError {
    /// The shape failed to build because the vertex buffer could not be created.
    VertexBufferCreationError(glium::vertex::BufferCreationError),
    /// The shape failed to build because the number of divisions in the u axis
    /// is too small.
    NotEnoughDivisionsInU,
    /// The shape failed to build because the number of divisions in the v axis
    /// is too small.
    NotEnoughDivisionsInV,
}

/// Relies on `std::error::Error::description` as glium's
/// `vertex::BufferCreationError` implements it; nothing is assumed of the text.
#[verifier::external_body]
#[allow(deprecated)]
fn buffer_error_description(error: &glium::vertex::BufferCreationError) -> &str {
    std::error::Error::description(error)
}

impl ShapeCreationError {
    /// A short human-readable description of the error. A buffer error is
    /// described by the rendering backend's own description of it.
    pub fn description(&self) -> (r: &str)
        ensures
            self is NotEnoughDivisionsInU ==> r@ == "Not enough divisions in the u axis"@,
            self is NotEnoughDivisionsInV ==> r@ == "Not enough divisions in the v axis"@,
    {
        match self {
            ShapeCreationError::VertexBufferCreationError(error) => buffer_error_description(error),
            ShapeCreationError::NotEnoughDivisionsInU => "Not enough divisions in the u axis",
            ShapeCreationError::NotEnoughDivisionsInV => "Not enough divisions in the v axis",
        }
    }
}

impl From<glium::vertex::BufferCreationError> for ShapeCreationError {
    fn from(error: glium::vertex::BufferCreationError) -> (r: Self)
        ensures
            r == ShapeCreationError::VertexBufferCreationError(error),
    {
        ShapeCreationError::VertexBufferCreationError(error)
    }
}

impl vstd::std_specs::convert::FromSpecImpl<glium::vertex::BufferCreationError> for ShapeCreationError {
    open spec fn obeys_from_spec() -> bool {
        true
    }

    open spec fn from_spec(error: glium::vertex::BufferCreationError) -> Self {
        ShapeCreationError::VertexBufferCreationError(error)
    }
}

} // verus!
