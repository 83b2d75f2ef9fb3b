//! The viewer's error taxonomy.
//!
//! Every startup failure is one of these; all of them abort the program with
//! a message. A render failure during the live loop is the one error that is
//! swallowed rather than propagated.

use vstd::prelude::*;

verus! {

/// Everything that can go wrong while setting up or running the viewer.
#[derive(Clone, Copy, Debug, PartialEq, Eq, Structural)]
pub enum ViewerError {
    /// The window could not be created.
    WindowCreationFailure,
    /// The image could not be decoded to 8-bit RGB.
    ImageDecodeFailure,
    /// The image file could not be read.
    FileIoFailure,
    /// No primary monitor was found to size the window against.
    NoPrimaryMonitorFound,
    /// The presentation surface could not be created.
    SurfaceCreationFailure,
    /// A frame could not be presented; not fatal during the live loop.
    RenderFailure,
}

/// The human-readable message for each error.
pub open spec fn spec_message(e: ViewerError) -> Seq<char> {
    match e {
        ViewerError::WindowCreationFailure => "unable to create a window"@,
        ViewerError::ImageDecodeFailure => "unable to decode the image to 8-bit RGB"@,
        ViewerError::FileIoFailure => "unable to read the image file"@,
        ViewerError::NoPrimaryMonitorFound => "unable to find a primary monitor"@,
        ViewerError::SurfaceCreationFailure => "unable to create a presentation surface"@,
        ViewerError::RenderFailure => "unable to present the frame"@,
    }
}

impl ViewerError {
    /// The message shown when the error aborts the program.
    pub fn message(&self) -> (r: &'static str)
        ensures
            r@ == spec_message(*self),
    {
        match self {
            ViewerError::WindowCreationFailure => "unable to create a window",
            ViewerError::ImageDecodeFailure => "unable to decode the image to 8-bit RGB",
            ViewerError::FileIoFailure => "unable to read the image file",
            ViewerError::NoPrimaryMonitorFound => "unable to find a primary monitor",
            ViewerError::SurfaceCreationFailure => "unable to create a presentation surface",
            ViewerError::RenderFailure => "unable to present the frame",
        }
    }
}

} // verus!
