//! Per-frame decisions of the render loop.
//!
//! The window loop and the GPU belong to the unverified layer; it
//! reports what happened as a plain event or outcome, and these
//! functions decide what to do next and keep the camera up to date.

use crate::camera::Camera;
use vstd::prelude::*;

verus! {

/// A window event, reduced to what the renderer reacts to.
#[derive(Clone, Copy, Debug, PartialEq, Eq, Structural)]
pub enum FrameEvent {
    /// The window was asked to close.
    CloseRequested,
    /// The exit key was pressed.
    EscapePressed,
    /// The window surface changed to the given size in pixels.
    Resized { width: u32, height: u32 },
    /// Any event the renderer ignores.
    Other,
}

/// The outcome the GPU reported for one presented frame.
#[derive(Clone, Copy, Debug, PartialEq, Eq, Structural)]
pub enum RenderOutcome {
    /// The frame was drawn and presented.
    Completed,
    /// The surface was lost and must be configured again.
    SurfaceLost,
    /// The surface could not be acquired for lack of memory.
    OutOfMemory,
    /// Any other, transient, failure to acquire the surface.
    OtherFailure,
}

/// What the loop does after a frame.
#[derive(Clone, Copy, Debug, PartialEq, Eq, Structural)]
pub enum RenderAction {
    /// Go on to the next frame.
    Proceed,
    /// Configure the surface again at the current size, then go on.
    Reconfigure,
    /// Leave the loop: the failure is fatal.
    Exit,
    /// Report the failure and go on: it is transient.
    Report,
}

/// Applies one window event to the camera and says whether the loop
/// must exit: a close request or the exit key ends the loop, a resize
/// updates the camera's aspect ratio (ignoring zero dimensions), and
/// everything else changes nothing.
pub fn handle_window_event(camera: &mut Camera, event: &FrameEvent) -> (exit: bool)
    ensures
        exit == (*event == FrameEvent::CloseRequested || *event == FrameEvent::EscapePressed),
        match *event {
            FrameEvent::Resized { width, height } => {
                &&& width > 0 && height > 0 ==> *final(camera) == (Camera {
                    aspect_width: width,
                    aspect_height: height,
                    ..*old(camera)
                })
                &&& !(width > 0 && height > 0) ==> *final(camera) == *old(camera)
            },
            _ => *final(camera) == *old(camera),
        },
        old(camera).wf() ==> final(camera).wf(),
{
    match event {
        FrameEvent::CloseRequested => true,
        FrameEvent::EscapePressed => true,
        FrameEvent::Resized { width, height } => {
            camera.resize(*width, *height);
            false
        },
        FrameEvent::Other => false,
    }
}

/// Chooses the surface format at startup, given which of the formats
/// the surface offers are sRGB-encoded: the first sRGB format, or the
/// first format of the list when none is.
pub fn preferred_surface_format(is_srgb: &Vec<bool>) -> (idx: usize)
    requires
        is_srgb@.len() > 0,
    ensures
        idx < is_srgb@.len(),
        forall|j: int| 0 <= j < idx ==> !is_srgb@[j],
        is_srgb@[idx as int] || (idx == 0 && forall|j: int|
            0 <= j < is_srgb@.len() ==> !is_srgb@[j]),
{
    let mut i: usize = 0;
    while i < is_srgb.len()
        invariant
            i <= is_srgb@.len(),
            forall|j: int| 0 <= j < i ==> !is_srgb@[j],
        decreases is_srgb@.len() - i,
    {
        if is_srgb[i] {
            return i;
        }
        i = i + 1;
    }
    0
}

/// Decides what follows one frame: success proceeds, a lost surface
/// is configured again at the current size, running out of memory
/// ends the loop, and any other failure is reported and the loop goes
/// on.
pub fn handle_render_outcome(outcome: &RenderOutcome) -> (action: RenderAction)
    ensures
        action == match *outcome {
            RenderOutcome::Completed => RenderAction::Proceed,
            RenderOutcome::SurfaceLost => RenderAction::Reconfigure,
            RenderOutcome::OutOfMemory => RenderAction::Exit,
            RenderOutcome::OtherFailure => RenderAction::Report,
        },
{
    match outcome {
        RenderOutcome::Completed => RenderAction::Proceed,
        RenderOutcome::SurfaceLost => RenderAction::Reconfigure,
        RenderOutcome::OutOfMemory => RenderAction::Exit,
        RenderOutcome::OtherFailure => RenderAction::Report,
    }
}

} // verus!
