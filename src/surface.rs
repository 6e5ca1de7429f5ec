use bevy::window::WindowId;
use vstd::prelude::*;

verus! {

/// bevy's identifier of a window; the library carries it without looking inside.
#[verifier::external_type_specification]
#[verifier::external_body]
pub struct ExWindowId(WindowId);

/// Relies on bevy's `WindowId::new`, which mints the identifier of a window
/// that is yet to be created. It is random, so nothing is promised of it.
pub assume_specification[ WindowId::new ]() -> WindowId;

/// The output surface that a camera presents its image to.
#[derive(Clone, Copy, Debug)]
pub enum SurfaceTarget {
    /// The primary window, shared by every camera in single-window mode.
    Primary,
    /// A window owned by one camera in multi-window mode.
    Dedicated(WindowId),
}

} // verus!
