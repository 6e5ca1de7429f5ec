use crate::surface::SurfaceTarget;
use vstd::prelude::*;

verus! {

/// The three cameras that compose the scene.
#[derive(Clone, Copy, Debug, PartialEq, Eq, Structural)]
pub enum CameraRole {
    Foreground,
    Background,
    Scene,
}

/// Number of layers a camera can draw; layers are `0..LAYER_COUNT`.
pub const LAYER_COUNT: u8 = 6;

/// Priority after one step of the three-tier cycle.
pub open spec fn next_priority(p: int) -> int {
    (p + 3) % 9
}

/// Layer after one step of the layer cycle.
pub open spec fn next_layer(l: int) -> int {
    (l + 1) % 6
}

/// The name a role is shown and titled by.
pub open spec fn role_text(role: CameraRole) -> Seq<char> {
    match role {
        CameraRole::Foreground => "Foreground"@,
        CameraRole::Background => "Background"@,
        CameraRole::Scene => "Scene"@,
    }
}

/// The label of a priority tier: `priority / 3` picks high, mid or low.
pub open spec fn priority_text(p: int) -> Seq<char> {
    if p / 3 == 0 {
        "high"@
    } else if p / 3 == 1 {
        "mid"@
    } else {
        "low"@
    }
}

pub fn role_name(role: CameraRole) -> (r: &'static str)
    ensures
        r@ == role_text(role),
{
    match role {
        CameraRole::Foreground => "Foreground",
        CameraRole::Background => "Background",
        CameraRole::Scene => "Scene",
    }
}

/// Label of the tier of a priority that the cycle can produce.
pub fn priority_label(priority: u32) -> (r: &'static str)
    requires
        priority < 9,
    ensures
        r@ == priority_text(priority as int),
{
    if priority / 3 == 0 {
        "high"
    } else if priority / 3 == 1 {
        "mid"
    } else {
        "low"
    }
}

/// One camera's configuration.
#[derive(Clone, Copy, Debug)]
pub struct Camera {
    pub role: CameraRole,
    /// Composite-order key: lower composites earlier.
    pub priority: u32,
    /// Inactive cameras neither render nor appear in the composite order.
    pub is_active: bool,
    /// The layer drawn, below `LAYER_COUNT`.
    pub layer: u8,
    pub target: SurfaceTarget,
}

impl Camera {
    pub open spec fn wf(&self) -> bool {
        self.layer < LAYER_COUNT
    }

    /// An active camera presenting to the primary window.
    pub fn new(role: CameraRole, priority: u32, layer: u8) -> (r: Camera)
        requires
            layer < LAYER_COUNT,
        ensures
            r.wf(),
            r.role == role,
            r.priority == priority,
            r.is_active,
            r.layer == layer,
            r.target is Primary,
    {
        Camera { role, priority, is_active: true, layer, target: SurfaceTarget::Primary }
    }

    /// Flips `is_active` and returns its new value.
    pub fn toggle_active(&mut self) -> (r: bool)
        ensures
            *final(self) == (Camera { is_active: !old(self).is_active, ..*old(self) }),
            r == final(self).is_active,
    {
        self.is_active = !self.is_active;
        self.is_active
    }

    /// Advances the priority by three, modulo nine, and returns the new value.
    pub fn cycle_priority(&mut self) -> (r: u32)
        ensures
            *final(self) == (Camera { priority: next_priority(old(self).priority as int) as u32, ..*old(self) }),
            r == final(self).priority,
            r < 9,
    {
        self.priority = (self.priority % 9 + 3) % 9;
        self.priority
    }

    /// Advances the layer by one, modulo `LAYER_COUNT`, and returns the new value.
    pub fn cycle_layer(&mut self) -> (r: u8)
        ensures
            *final(self) == (Camera { layer: next_layer(old(self).layer as int) as u8, ..*old(self) }),
            r == final(self).layer,
            final(self).wf(),
    {
        self.layer = (self.layer % LAYER_COUNT + 1) % LAYER_COUNT;
        self.layer
    }
}

} // verus!
