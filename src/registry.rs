use crate::camera::{Camera, CameraRole, LAYER_COUNT};
use crate::surface::SurfaceTarget;
use vstd::prelude::*;

verus! {

/// Why a registry operation could not be carried out.
#[derive(Clone, Copy, Debug, PartialEq, Eq, Structural)]
pub enum CameraError {
    /// No camera of the requested role has been created.
    NotFound,
}

/// Whether some camera in `cams` has `role`.
pub open spec fn has_role(cams: Seq<Camera>, role: CameraRole) -> bool {
    exists|i: int| 0 <= i < cams.len() && #[trigger] cams[i].role == role
}

/// `cams` with `f` applied to the camera of `role`, the others left alone.
pub open spec fn replace_role(
    cams: Seq<Camera>,
    role: CameraRole,
    f: spec_fn(Camera) -> Camera,
) -> Seq<Camera> {
    cams.map_values(|c: Camera| if c.role == role { f(c) } else { c })
}

/// No two cameras share a role, and every layer is in range.
pub open spec fn cameras_wf(cams: Seq<Camera>) -> bool {
    &&& forall|i: int, j: int|
        0 <= i < j < cams.len() ==> #[trigger] cams[i].role != #[trigger] cams[j].role
    &&& forall|i: int| 0 <= i < cams.len() ==> (#[trigger] cams[i]).wf()
}

/// The cameras, in the order they were created; that order breaks ties in the
/// composite order and lays out dedicated windows.
pub struct CameraRegistry {
    cameras: Vec<Camera>,
}

impl View for CameraRegistry {
    type V = Seq<Camera>;

    closed spec fn view(&self) -> Seq<Camera> {
        self.cameras@
    }
}

impl CameraRegistry {
    pub open spec fn wf(&self) -> bool {
        cameras_wf(self@)
    }

    /// A registry that holds no camera yet.
    pub fn new() -> (r: CameraRegistry)
        ensures
            r.wf(),
            r@ == Seq::<Camera>::empty(),
    {
        CameraRegistry { cameras: Vec::new() }
    }

    /// The three cameras as they are first created: the scene camera on
    /// layer 2 at priority 2, the background camera on layer 3 at priority 1,
    /// and the foreground camera on layer 1 at priority 3, all active and on
    /// the primary window.
    pub open spec fn startup_cameras() -> Seq<Camera> {
        seq![
            Camera { role: CameraRole::Scene, priority: 2, is_active: true, layer: 2, target: SurfaceTarget::Primary },
            Camera { role: CameraRole::Background, priority: 1, is_active: true, layer: 3, target: SurfaceTarget::Primary },
            Camera { role: CameraRole::Foreground, priority: 3, is_active: true, layer: 1, target: SurfaceTarget::Primary },
        ]
    }

    /// A registry holding `startup_cameras`.
    pub fn startup() -> (r: CameraRegistry)
        ensures
            r.wf(),
            r@ == CameraRegistry::startup_cameras(),
    {
        let mut cameras: Vec<Camera> = Vec::new();
        cameras.push(Camera::new(CameraRole::Scene, 2, 2));
        cameras.push(Camera::new(CameraRole::Background, 1, 3));
        cameras.push(Camera::new(CameraRole::Foreground, 3, 1));
        let r = CameraRegistry { cameras };
        assert(r@ =~= CameraRegistry::startup_cameras());
        r
    }

    pub fn len(&self) -> (r: usize)
        ensures
            r == self@.len(),
    {
        self.cameras.len()
    }

    /// The camera at position `i` in creation order.
    pub fn camera_at(&self, i: usize) -> (r: Camera)
        requires
            i < self@.len(),
        ensures
            r == self@[i as int],
    {
        self.cameras[i]
    }

    /// Every camera with its current state, in creation order.
    pub fn snapshot(&self) -> (r: Vec<Camera>)
        ensures
            r@ == self@,
    {
        self.cameras.clone()
    }

    /// Position of the camera of `role`.
    pub fn find(&self, role: CameraRole) -> (r: Result<usize, CameraError>)
        requires
            self.wf(),
        ensures
            r is Ok <==> has_role(self@, role),
            r is Ok ==> r->Ok_0 < self@.len() && self@[r->Ok_0 as int].role == role,
            r is Err ==> r->Err_0 == CameraError::NotFound,
    {
        let mut i: usize = 0;
        while i < self.cameras.len()
            invariant
                i <= self@.len(),
                forall|k: int| 0 <= k < i ==> self@[k].role != role,
            decreases self@.len() - i,
        {
            if self.cameras[i].role == role {
                return Ok(i);
            }
            i = i + 1;
        }
        Err(CameraError::NotFound)
    }

    /// The camera of `role`.
    pub fn get(&self, role: CameraRole) -> (r: Result<Camera, CameraError>)
        requires
            self.wf(),
        ensures
            r is Ok <==> has_role(self@, role),
            r is Ok ==> self@.contains(r->Ok_0) && r->Ok_0.role == role,
            r is Err ==> r->Err_0 == CameraError::NotFound,
    {
        let i = self.find(role)?;
        Ok(self.cameras[i])
    }

    /// Puts `c`, which is `f` of the camera at `i` and keeps its role, at `i`.
    fn replace_at(&mut self, i: usize, c: Camera, Ghost(f): Ghost<spec_fn(Camera) -> Camera>)
        requires
            old(self).wf(),
            i < old(self)@.len(),
            c == f(old(self)@[i as int]),
            c.role == old(self)@[i as int].role,
            c.wf(),
        ensures
            final(self).wf(),
            final(self)@ == replace_role(old(self)@, c.role, f),
    {
        let ghost before = self@;
        self.cameras.set(i, c);
        assert(self@ =~= replace_role(before, c.role, f)) by {
            assert forall|k: int| 0 <= k < before.len() implies #[trigger] self@[k] == replace_role(before, c.role, f)[k] by {
                if k != i {
                    assert(before[k].role != before[i as int].role);
                }
            }
        }
    }

    /// Sets whether the camera of `role` is active.
    pub fn set_active(&mut self, role: CameraRole, is_active: bool) -> (r: Result<(), CameraError>)
        requires
            old(self).wf(),
        ensures
            final(self).wf(),
            r is Ok <==> has_role(old(self)@, role),
            r is Ok ==> final(self)@ == replace_role(old(self)@, role, |c: Camera| Camera { is_active, ..c }),
            r is Err ==> r->Err_0 == CameraError::NotFound && final(self)@ == old(self)@,
    {
        let i = self.find(role)?;
        let c = Camera { is_active, ..self.cameras[i] };
        self.replace_at(i, c, Ghost(|c: Camera| Camera { is_active, ..c }));
        Ok(())
    }

    /// Sets the priority of the camera of `role`.
    pub fn set_priority(&mut self, role: CameraRole, priority: u32) -> (r: Result<(), CameraError>)
        requires
            old(self).wf(),
        ensures
            final(self).wf(),
            r is Ok <==> has_role(old(self)@, role),
            r is Ok ==> final(self)@ == replace_role(old(self)@, role, |c: Camera| Camera { priority, ..c }),
            r is Err ==> r->Err_0 == CameraError::NotFound && final(self)@ == old(self)@,
    {
        let i = self.find(role)?;
        let c = Camera { priority, ..self.cameras[i] };
        self.replace_at(i, c, Ghost(|c: Camera| Camera { priority, ..c }));
        Ok(())
    }

    /// Sets the layer of the camera of `role`.
    pub fn set_layer(&mut self, role: CameraRole, layer: u8) -> (r: Result<(), CameraError>)
        requires
            old(self).wf(),
            layer < LAYER_COUNT,
        ensures
            final(self).wf(),
            r is Ok <==> has_role(old(self)@, role),
            r is Ok ==> final(self)@ == replace_role(old(self)@, role, |c: Camera| Camera { layer, ..c }),
            r is Err ==> r->Err_0 == CameraError::NotFound && final(self)@ == old(self)@,
    {
        let i = self.find(role)?;
        let c = Camera { layer, ..self.cameras[i] };
        self.replace_at(i, c, Ghost(|c: Camera| Camera { layer, ..c }));
        Ok(())
    }

    /// Binds the camera of `role` to `target`.
    pub fn set_target(&mut self, role: CameraRole, target: SurfaceTarget) -> (r: Result<(), CameraError>)
        requires
            old(self).wf(),
        ensures
            final(self).wf(),
            r is Ok <==> has_role(old(self)@, role),
            r is Ok ==> final(self)@ == replace_role(old(self)@, role, |c: Camera| Camera { target, ..c }),
            r is Err ==> r->Err_0 == CameraError::NotFound && final(self)@ == old(self)@,
    {
        let i = self.find(role)?;
        let c = Camera { target, ..self.cameras[i] };
        self.replace_at(i, c, Ghost(|c: Camera| Camera { target, ..c }));
        Ok(())
    }

    /// Binds the camera at position `i` to `target`.
    pub fn retarget_at(&mut self, i: usize, target: SurfaceTarget)
        requires
            old(self).wf(),
            i < old(self)@.len(),
        ensures
            final(self).wf(),
            final(self)@ == old(self)@.update(i as int, Camera { target, ..old(self)@[i as int] }),
    {
        let c = Camera { target, ..self.cameras[i] };
        self.cameras.set(i, c);
    }
}

} // verus!
