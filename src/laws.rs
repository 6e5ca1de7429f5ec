use crate::camera::{next_layer, next_priority, Camera, CameraRole};
use crate::registry::has_role;
use crate::rig::{opened, released, CameraRig, SurfaceAction, WindowMode};
use crate::surface::SurfaceTarget;
use bevy::window::WindowId;
use vstd::prelude::*;

verus! {

/// The priority after `n` priority cycles from `p`.
pub open spec fn priority_after(p: int, n: nat) -> int
    decreases n,
{
    if n == 0 {
        p
    } else {
        next_priority(priority_after(p, (n - 1) as nat))
    }
}

/// The layer after `n` layer cycles from `l`.
pub open spec fn layer_after(l: int, n: nat) -> int
    decreases n,
{
    if n == 0 {
        l
    } else {
        next_layer(layer_after(l, (n - 1) as nat))
    }
}

/// The surface map has an entry for `role`.
pub open spec fn has_surface(entries: Seq<(CameraRole, WindowId)>, role: CameraRole) -> bool {
    exists|i: int| 0 <= i < entries.len() && #[trigger] entries[i].0 == role
}

/// However many times a priority below nine is cycled, it stays below nine
/// and on its residue modulo three, so a priority of 0, 3 or 6 stays in
/// {0, 3, 6}; three cycles bring it back to where it started.
pub proof fn lemma_priority_cycle(p: int, n: nat)
    requires
        0 <= p < 9,
    ensures
        0 <= priority_after(p, n) < 9,
        priority_after(p, n) % 3 == p % 3,
        p == 0 || p == 3 || p == 6 ==> priority_after(p, n) == 0 || priority_after(p, n) == 3
            || priority_after(p, n) == 6,
        priority_after(p, 3) == p,
    decreases n,
{
    if n > 0 {
        lemma_priority_cycle(p, (n - 1) as nat);
    }
    reveal_with_fuel(priority_after, 4);
}

/// However many times a layer below six is cycled, it stays below six; six
/// cycles bring it back to where it started.
pub proof fn lemma_layer_cycle(l: int, n: nat)
    requires
        0 <= l < 6,
    ensures
        0 <= layer_after(l, n) < 6,
        layer_after(l, 6) == l,
    decreases n,
{
    if n > 0 {
        lemma_layer_cycle(l, (n - 1) as nat);
    }
    reveal_with_fuel(layer_after, 7);
}

/// Entering multi-window mode from `start`, issuing any commands that leave
/// the rig consistent and in multi-window mode (`multi`), and leaving it again
/// (`end`) puts every camera back on the primary window with an empty surface
/// map, each camera keeping what the commands made of it; with no command in
/// between, the cameras are exactly as they were at `start`.
pub proof fn lemma_window_round_trip(
    start: CameraRig,
    entered: CameraRig,
    open_actions: Seq<SurfaceAction>,
    multi: CameraRig,
    end: CameraRig,
    close_actions: Seq<SurfaceAction>,
)
    requires
        start.wf(),
        start.window_mode() == WindowMode::Single,
        opened(start.cams(), entered.cams(), entered.entries(), open_actions),
        multi.wf(),
        multi.window_mode() == WindowMode::Multi,
        end.entries().len() == 0,
        released(multi.cams(), end.cams(), multi.entries(), close_actions),
    ensures
        end.entries().len() == 0,
        end.cams().len() == multi.cams().len(),
        forall|i: int|
            0 <= i < end.cams().len() ==> #[trigger] end.cams()[i] == (Camera { target: SurfaceTarget::Primary, ..multi.cams()[i] }),
        multi.cams() == entered.cams() ==> end.cams() == start.cams(),
{
    if multi.cams() == entered.cams() {
        assert forall|i: int| 0 <= i < end.cams().len() implies #[trigger] end.cams()[i] == start.cams()[i] by {
            let e = entered.entries()[i];
            assert(entered.cams()[i] == (Camera { target: SurfaceTarget::Dedicated(e.1), ..start.cams()[i] }));
            assert(start.cams()[i].target is Primary);
            assert(start.cams()[i].target == SurfaceTarget::Primary);
            assert(end.cams()[i] == (Camera { target: SurfaceTarget::Primary, ..multi.cams()[i] }));
        }
        assert(end.cams() =~= start.cams());
    }
}

/// In multi-window mode, with all three cameras created, the surface map has
/// exactly three entries, exactly one for each role, and each names the window
/// that its camera presents to.
pub proof fn lemma_multi_mode_surface_map(rig: CameraRig)
    requires
        rig.wf(),
        rig.window_mode() == WindowMode::Multi,
        has_role(rig.cams(), CameraRole::Foreground),
        has_role(rig.cams(), CameraRole::Background),
        has_role(rig.cams(), CameraRole::Scene),
    ensures
        rig.entries().len() == 3,
        forall|role: CameraRole| #[trigger] has_surface(rig.entries(), role),
        forall|i: int, j: int| 0 <= i < j < 3 ==> #[trigger] rig.entries()[i].0 != #[trigger] rig.entries()[j].0,
        forall|i: int|
            0 <= i < 3 ==> (#[trigger] rig.cams()[i]).target == SurfaceTarget::Dedicated(rig.entries()[i].1),
{
    let cams = rig.cams();
    let f = choose|i: int| 0 <= i < cams.len() && #[trigger] cams[i].role == CameraRole::Foreground;
    let b = choose|i: int| 0 <= i < cams.len() && #[trigger] cams[i].role == CameraRole::Background;
    let s = choose|i: int| 0 <= i < cams.len() && #[trigger] cams[i].role == CameraRole::Scene;
    if cams.len() > 3 {
        assert(cams[0].role != cams[1].role && cams[0].role != cams[2].role && cams[0].role != cams[3].role);
        assert(cams[1].role != cams[2].role && cams[1].role != cams[3].role && cams[2].role != cams[3].role);
    }
    assert(cams.len() == 3);
    assert(rig.entries()[f].0 == cams[f].role);
    assert(rig.entries()[b].0 == cams[b].role);
    assert(rig.entries()[s].0 == cams[s].role);
    assert forall|i: int, j: int| 0 <= i < j < 3 implies #[trigger] rig.entries()[i].0 != #[trigger] rig.entries()[j].0 by {
        assert(rig.entries()[i].0 == cams[i].role && rig.entries()[j].0 == cams[j].role);
    }
}

} // verus!
