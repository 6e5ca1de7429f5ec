use crate::camera::{next_layer, next_priority, Camera, CameraRole};
use crate::order;
use crate::order::{is_composite_order, order_text};
use crate::registry::{cameras_wf, has_role, replace_role, CameraError, CameraRegistry};
use crate::surface::SurfaceTarget;
use bevy::window::WindowId;
use vstd::prelude::*;

verus! {

/// Whether the cameras share the primary window or each owns one.
#[derive(Clone, Copy, Debug, PartialEq, Eq, Structural)]
pub enum WindowMode {
    Single,
    Multi,
}

/// Why a window-mode toggle was refused.
#[derive(Clone, Copy, Debug, PartialEq, Eq, Structural)]
pub enum RouterError {
    /// A camera has no entry in the surface map in multi-window mode; the
    /// toggle is abandoned and nothing changes.
    InvariantViolation,
}

/// What the windowing side must do after a toggle.
#[derive(Clone, Copy, Debug)]
pub enum SurfaceAction {
    /// Create the window `window` for the camera of `role`, titled by the
    /// role's name, in tiling position `slot` counted from the left.
    Open { role: CameraRole, slot: usize, window: WindowId },
    /// Close the window `window`.
    Close { window: WindowId },
}

/// The surface map agrees with the window mode and with every camera's target:
/// empty and all on the primary window in single-window mode; in multi-window
/// mode one entry per camera, in creation order, naming the camera's window.
pub open spec fn routing_consistent(
    cams: Seq<Camera>,
    mode: WindowMode,
    entries: Seq<(CameraRole, WindowId)>,
) -> bool {
    &&& mode == WindowMode::Single ==> {
        &&& entries.len() == 0
        &&& forall|i: int| 0 <= i < cams.len() ==> (#[trigger] cams[i]).target is Primary
    }
    &&& mode == WindowMode::Multi ==> {
        &&& entries.len() == cams.len()
        &&& forall|i: int|
            0 <= i < cams.len() ==> entries[i].0 == (#[trigger] cams[i]).role
                && cams[i].target == SurfaceTarget::Dedicated(entries[i].1)
    }
}

/// The outcome of entering multi-window mode: each camera, in creation order,
/// got a new window recorded in the surface map and announced by an action.
pub open spec fn opened(
    before: Seq<Camera>,
    after: Seq<Camera>,
    entries: Seq<(CameraRole, WindowId)>,
    actions: Seq<SurfaceAction>,
) -> bool {
    &&& after.len() == before.len()
    &&& entries.len() == before.len()
    &&& actions.len() == before.len()
    &&& forall|i: int|
        0 <= i < before.len() ==> {
            &&& (#[trigger] entries[i]).0 == before[i].role
            &&& after[i] == (Camera { target: SurfaceTarget::Dedicated(entries[i].1), ..before[i] })
            &&& actions[i] == (SurfaceAction::Open { role: before[i].role, slot: i as usize, window: entries[i].1 })
        }
}

/// The outcome of leaving multi-window mode: each camera, in creation order,
/// is back on the primary window and its window is closed.
pub open spec fn released(
    before: Seq<Camera>,
    after: Seq<Camera>,
    entries: Seq<(CameraRole, WindowId)>,
    actions: Seq<SurfaceAction>,
) -> bool {
    &&& after.len() == before.len()
    &&& actions.len() == before.len()
    &&& forall|i: int|
        0 <= i < before.len() ==> {
            &&& (#[trigger] after[i]) == (Camera { target: SurfaceTarget::Primary, ..before[i] })
            &&& actions[i] == (SurfaceAction::Close { window: entries[i].1 })
        }
}

/// An update that keeps every camera's role and target keeps the routing.
proof fn lemma_replace_keeps_routing(
    cams: Seq<Camera>,
    role: CameraRole,
    f: spec_fn(Camera) -> Camera,
    mode: WindowMode,
    entries: Seq<(CameraRole, WindowId)>,
)
    requires
        routing_consistent(cams, mode, entries),
        forall|c: Camera| #[trigger] f(c).role == c.role && f(c).target == c.target,
    ensures
        routing_consistent(replace_role(cams, role, f), mode, entries),
{
    let after = replace_role(cams, role, f);
    assert(after.len() == cams.len());
    assert forall|i: int| 0 <= i < cams.len() implies (#[trigger] after[i]).role == cams[i].role
        && after[i].target == cams[i].target by {
        if cams[i].role == role {
            assert(f(cams[i]).role == cams[i].role);
        }
    }
}

/// The window recorded for `role` in a surface map.
fn find_surface(entries: &Vec<(CameraRole, WindowId)>, role: CameraRole) -> (r: Result<WindowId, RouterError>)
    ensures
        r is Ok <==> exists|k: int| 0 <= k < entries@.len() && #[trigger] entries@[k].0 == role,
        r is Ok ==> exists|k: int| 0 <= k < entries@.len() && #[trigger] entries@[k].0 == role && entries@[k].1 == r->Ok_0,
        r is Err ==> r->Err_0 == RouterError::InvariantViolation,
{
    let mut k: usize = 0;
    while k < entries.len()
        invariant
            k <= entries@.len(),
            forall|j: int| 0 <= j < k ==> (#[trigger] entries@[j]).0 != role,
        decreases entries@.len() - k,
    {
        if entries[k].0 == role {
            return Ok(entries[k].1);
        }
        k = k + 1;
    }
    Err(RouterError::InvariantViolation)
}

/// The effect of a command addressed to the selection `sel`: with nothing
/// selected, nothing changes; when the selected camera is missing, `NotFound`;
/// otherwise `f` is applied to that camera and `value` of its new state is
/// returned.
pub open spec fn command_outcome<T>(
    before: Seq<Camera>,
    after: Seq<Camera>,
    sel: Option<CameraRole>,
    f: spec_fn(Camera) -> Camera,
    value: spec_fn(Camera) -> T,
    r: Result<Option<T>, CameraError>,
) -> bool {
    match sel {
        None => r == Ok::<Option<T>, CameraError>(None) && after == before,
        Some(role) => if has_role(before, role) {
            &&& after == replace_role(before, role, f)
            &&& exists|i: int|
                0 <= i < before.len() && #[trigger] before[i].role == role
                    && r == Ok::<Option<T>, CameraError>(Some(value(after[i])))
        } else {
            r == Err::<Option<T>, CameraError>(CameraError::NotFound) && after == before
        },
    }
}

/// Two updates that agree on the camera at `i` agree on the whole sequence,
/// since no other camera shares its role.
proof fn lemma_replace_same_at(
    before: Seq<Camera>,
    i: int,
    f: spec_fn(Camera) -> Camera,
    g: spec_fn(Camera) -> Camera,
)
    requires
        cameras_wf(before),
        0 <= i < before.len(),
        f(before[i]) == g(before[i]),
    ensures
        replace_role(before, before[i].role, f) == replace_role(before, before[i].role, g),
{
    let role = before[i].role;
    assert forall|k: int| 0 <= k < before.len() implies #[trigger] replace_role(before, role, f)[k]
        == replace_role(before, role, g)[k] by {
        if k != i && before[k].role == role {
            if k < i {
                assert(before[k].role != before[i].role);
            } else {
                assert(before[i].role != before[k].role);
            }
        }
    }
    assert(replace_role(before, role, f) =~= replace_role(before, role, g));
}

/// The whole configuration state: the cameras, which one is being configured,
/// the window mode, and the surface map of multi-window mode.
pub struct CameraRig {
    registry: CameraRegistry,
    selection: Option<CameraRole>,
    mode: WindowMode,
    surfaces: Vec<(CameraRole, WindowId)>,
}

impl CameraRig {
    pub closed spec fn cams(&self) -> Seq<Camera> {
        self.registry@
    }

    pub closed spec fn selected(&self) -> Option<CameraRole> {
        self.selection
    }

    pub closed spec fn window_mode(&self) -> WindowMode {
        self.mode
    }

    /// The surface map: each camera role with the window it owns.
    pub closed spec fn entries(&self) -> Seq<(CameraRole, WindowId)> {
        self.surfaces@
    }

    pub open spec fn wf(&self) -> bool {
        &&& cameras_wf(self.cams())
        &&& routing_consistent(self.cams(), self.window_mode(), self.entries())
    }

    /// A rig over the cameras of `registry`, each bound to the primary window,
    /// with nothing selected, in single-window mode.
    pub fn new(registry: CameraRegistry) -> (r: CameraRig)
        requires
            registry.wf(),
        ensures
            r.wf(),
            r.cams() == registry@.map_values(|c: Camera| Camera { target: SurfaceTarget::Primary, ..c }),
            r.selected() is None,
            r.window_mode() == WindowMode::Single,
            r.entries().len() == 0,
    {
        let mut registry = registry;
        let ghost before = registry@;
        let n = registry.len();
        let mut i: usize = 0;
        while i < n
            invariant
                n == before.len(),
                i <= n,
                registry.wf(),
                registry@.len() == n,
                forall|j: int| 0 <= j < i ==> #[trigger] registry@[j] == (Camera { target: SurfaceTarget::Primary, ..before[j] }),
                forall|j: int| i <= j < n ==> #[trigger] registry@[j] == before[j],
            decreases n - i,
        {
            registry.retarget_at(i, SurfaceTarget::Primary);
            i = i + 1;
        }
        let r = CameraRig { registry, selection: None, mode: WindowMode::Single, surfaces: Vec::new() };
        assert(r.cams() =~= before.map_values(|c: Camera| Camera { target: SurfaceTarget::Primary, ..c }));
        r
    }

    /// The rig as the program starts: the three cameras of
    /// `CameraRegistry::startup`, nothing selected, single-window mode.
    pub fn startup() -> (r: CameraRig)
        ensures
            r.wf(),
            r.cams() == CameraRegistry::startup_cameras(),
            r.selected() is None,
            r.window_mode() == WindowMode::Single,
            r.entries().len() == 0,
    {
        let registry = CameraRegistry::startup();
        let r = CameraRig::new(registry);
        assert(r.cams() =~= CameraRegistry::startup_cameras());
        r
    }

    /// The camera being configured, if any.
    pub fn selection(&self) -> (r: Option<CameraRole>)
        ensures
            r == self.selected(),
    {
        self.selection
    }

    pub fn mode(&self) -> (r: WindowMode)
        ensures
            r == self.window_mode(),
    {
        self.mode
    }

    /// Every camera with its current state, in creation order.
    pub fn cameras(&self) -> (r: Vec<Camera>)
        ensures
            r@ == self.cams(),
    {
        self.registry.snapshot()
    }

    /// The surface map, in creation order of the cameras.
    pub fn surfaces(&self) -> (r: Vec<(CameraRole, WindowId)>)
        ensures
            r@ == self.entries(),
    {
        let mut r: Vec<(CameraRole, WindowId)> = Vec::new();
        let mut k: usize = 0;
        while k < self.surfaces.len()
            invariant
                k <= self.entries().len(),
                r@ == self.entries().subrange(0, k as int),
            decreases self.entries().len() - k,
        {
            r.push(self.surfaces[k]);
            k = k + 1;
        }
        assert(r@ =~= self.entries());
        r
    }

    /// The camera of `role`.
    pub fn camera(&self, role: CameraRole) -> (r: Result<Camera, CameraError>)
        requires
            self.wf(),
        ensures
            r is Ok <==> has_role(self.cams(), role),
            r is Ok ==> self.cams().contains(r->Ok_0) && r->Ok_0.role == role,
            r is Err ==> r->Err_0 == CameraError::NotFound,
    {
        self.registry.get(role)
    }

    /// Makes `role` the subject of the following commands.
    pub fn select(&mut self, role: CameraRole)
        requires
            old(self).wf(),
        ensures
            final(self).wf(),
            final(self).selected() == Some(role),
            final(self).cams() == old(self).cams(),
            final(self).window_mode() == old(self).window_mode(),
            final(self).entries() == old(self).entries(),
    {
        self.selection = Some(role);
    }

    /// Flips `is_active` of the selected camera and returns its new value.
    pub fn toggle_active(&mut self) -> (r: Result<Option<bool>, CameraError>)
        requires
            old(self).wf(),
        ensures
            final(self).wf(),
            final(self).selected() == old(self).selected(),
            final(self).window_mode() == old(self).window_mode(),
            final(self).entries() == old(self).entries(),
            command_outcome(
                old(self).cams(),
                final(self).cams(),
                old(self).selected(),
                |c: Camera| Camera { is_active: !c.is_active, ..c },
                |c: Camera| c.is_active,
                r,
            ),
    {
        let role = match self.selection {
            None => return Ok(None),
            Some(role) => role,
        };
        let i = self.registry.find(role)?;
        let c = self.registry.camera_at(i);
        let v = !c.is_active;
        let ghost before = self.registry@;
        let _ = self.registry.set_active(role, v);
        proof {
            let f = |c: Camera| Camera { is_active: !c.is_active, ..c };
            lemma_replace_same_at(before, i as int, f, |x: Camera| Camera { is_active: v, ..x });
            lemma_replace_keeps_routing(before, role, f, self.mode, self.surfaces@);
            assert(before[i as int].role == role);
        }
        Ok(Some(v))
    }

    /// Moves the selected camera one priority tier on (`+3 mod 9`) and returns
    /// its new priority.
    pub fn cycle_priority(&mut self) -> (r: Result<Option<u32>, CameraError>)
        requires
            old(self).wf(),
        ensures
            final(self).wf(),
            final(self).selected() == old(self).selected(),
            final(self).window_mode() == old(self).window_mode(),
            final(self).entries() == old(self).entries(),
            command_outcome(
                old(self).cams(),
                final(self).cams(),
                old(self).selected(),
                |c: Camera| Camera { priority: next_priority(c.priority as int) as u32, ..c },
                |c: Camera| c.priority,
                r,
            ),
    {
        let role = match self.selection {
            None => return Ok(None),
            Some(role) => role,
        };
        let i = self.registry.find(role)?;
        let mut c = self.registry.camera_at(i);
        let p = c.cycle_priority();
        let ghost before = self.registry@;
        let _ = self.registry.set_priority(role, p);
        proof {
            let f = |c: Camera| Camera { priority: next_priority(c.priority as int) as u32, ..c };
            lemma_replace_same_at(before, i as int, f, |x: Camera| Camera { priority: p, ..x });
            lemma_replace_keeps_routing(before, role, f, self.mode, self.surfaces@);
            assert(before[i as int].role == role);
        }
        Ok(Some(p))
    }

    /// Moves the selected camera to the next layer (`+1 mod 6`) and returns
    /// its new layer.
    pub fn cycle_layer(&mut self) -> (r: Result<Option<u8>, CameraError>)
        requires
            old(self).wf(),
        ensures
            final(self).wf(),
            final(self).selected() == old(self).selected(),
            final(self).window_mode() == old(self).window_mode(),
            final(self).entries() == old(self).entries(),
            command_outcome(
                old(self).cams(),
                final(self).cams(),
                old(self).selected(),
                |c: Camera| Camera { layer: next_layer(c.layer as int) as u8, ..c },
                |c: Camera| c.layer,
                r,
            ),
    {
        let role = match self.selection {
            None => return Ok(None),
            Some(role) => role,
        };
        let i = self.registry.find(role)?;
        let mut c = self.registry.camera_at(i);
        let l = c.cycle_layer();
        let ghost before = self.registry@;
        let _ = self.registry.set_layer(role, l);
        proof {
            let f = |c: Camera| Camera { layer: next_layer(c.layer as int) as u8, ..c };
            lemma_replace_same_at(before, i as int, f, |x: Camera| Camera { layer: l, ..x });
            lemma_replace_keeps_routing(before, role, f, self.mode, self.surfaces@);
            assert(before[i as int].role == role);
        }
        Ok(Some(l))
    }

    /// Switches between one shared window and one window per camera.
    ///
    /// Entering multi-window mode mints a window for each camera in creation
    /// order, binds the camera to it and records it in the surface map.
    /// Leaving it closes each camera's window, found by role in the surface
    /// map, and binds the camera back to the primary window; the map is then
    /// empty. A camera missing from the map abandons the toggle with
    /// `InvariantViolation` before anything changes, which the rig's
    /// consistency rules out.
    pub fn toggle_window_mode(&mut self) -> (r: Result<Vec<SurfaceAction>, RouterError>)
        requires
            old(self).wf(),
        ensures
            final(self).wf(),
            r is Ok,
            final(self).selected() == old(self).selected(),
            old(self).window_mode() == WindowMode::Single ==> final(self).window_mode() == WindowMode::Multi
                && opened(old(self).cams(), final(self).cams(), final(self).entries(), r->Ok_0@),
            old(self).window_mode() == WindowMode::Multi ==> final(self).window_mode() == WindowMode::Single
                && final(self).entries().len() == 0
                && released(old(self).cams(), final(self).cams(), old(self).entries(), r->Ok_0@),
    {
        let ghost before = self.registry@;
        let n = self.registry.len();
        let mut actions: Vec<SurfaceAction> = Vec::new();
        if self.mode == WindowMode::Single {
            let mut i: usize = 0;
            while i < n
                invariant
                    n == before.len(),
                    i <= n,
                    self.registry.wf(),
                    self.registry@.len() == n,
                    self.surfaces@.len() == i,
                    actions@.len() == i,
                    self.selection == old(self).selection,
                    forall|j: int|
                        0 <= j < i ==> {
                            &&& (#[trigger] self.surfaces@[j]).0 == before[j].role
                            &&& self.registry@[j] == (Camera { target: SurfaceTarget::Dedicated(self.surfaces@[j].1), ..before[j] })
                            &&& actions@[j] == (SurfaceAction::Open { role: before[j].role, slot: j as usize, window: self.surfaces@[j].1 })
                        },
                    forall|j: int| i <= j < n ==> #[trigger] self.registry@[j] == before[j],
                decreases n - i,
            {
                let c = self.registry.camera_at(i);
                let window = WindowId::new();
                self.registry.retarget_at(i, SurfaceTarget::Dedicated(window));
                self.surfaces.push((c.role, window));
                actions.push(SurfaceAction::Open { role: c.role, slot: i, window });
                i = i + 1;
            }
            self.mode = WindowMode::Multi;
            assert forall|j: int| 0 <= j < n implies (#[trigger] self.registry@[j]).role == self.surfaces@[j].0 by {
                assert(self.surfaces@[j].0 == before[j].role);
            }
        } else {
            let mut windows: Vec<WindowId> = Vec::new();
            let mut i: usize = 0;
            while i < n
                invariant
                    n == before.len(),
                    i <= n,
                    self.registry@ == before,
                    self.wf(),
                    self.mode == WindowMode::Multi,
                    windows@.len() == i,
                    forall|j: int| 0 <= j < i ==> #[trigger] windows@[j] == self.surfaces@[j].1,
                decreases n - i,
            {
                let c = self.registry.camera_at(i);
                let window = find_surface(&self.surfaces, c.role)?;
                proof {
                    let k = choose|k: int| 0 <= k < self.surfaces@.len() && #[trigger] self.surfaces@[k].0 == c.role
                        && self.surfaces@[k].1 == window;
                    assert(before[k].role == c.role);
                    if k < i {
                        assert(before[k].role != before[i as int].role);
                    } else if k > i {
                        assert(before[i as int].role != before[k].role);
                    }
                }
                windows.push(window);
                i = i + 1;
            }
            let ghost entries = self.surfaces@;
            let mut i: usize = 0;
            while i < n
                invariant
                    n == before.len(),
                    i <= n,
                    self.registry.wf(),
                    self.registry@.len() == n,
                    windows@.len() == n,
                    entries.len() == n,
                    actions@.len() == i,
                    self.selection == old(self).selection,
                    forall|j: int| 0 <= j < n ==> #[trigger] windows@[j] == entries[j].1,
                    forall|j: int|
                        0 <= j < i ==> {
                            &&& (#[trigger] self.registry@[j]) == (Camera { target: SurfaceTarget::Primary, ..before[j] })
                            &&& actions@[j] == (SurfaceAction::Close { window: entries[j].1 })
                        },
                    forall|j: int| i <= j < n ==> #[trigger] self.registry@[j] == before[j],
                decreases n - i,
            {
                self.registry.retarget_at(i, SurfaceTarget::Primary);
                actions.push(SurfaceAction::Close { window: windows[i] });
                i = i + 1;
            }
            self.surfaces = Vec::new();
            self.mode = WindowMode::Single;
        }
        Ok(actions)
    }

    /// The positions of the active cameras in composite order.
    pub fn composite_order(&self) -> (r: Vec<usize>)
        ensures
            is_composite_order(self.cams(), r@),
    {
        order::composite_order(&self.registry.snapshot())
    }

    /// The active cameras in composite order, as `Role(layer) -> ...`.
    pub fn report_order(&self) -> (r: String)
        requires
            self.wf(),
        ensures
            exists|o: Seq<usize>| is_composite_order(self.cams(), o) && r@ == order_text(self.cams(), o),
    {
        order::report_order(&self.registry.snapshot())
    }
}

} // verus!
