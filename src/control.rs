use crate::camera::{priority_label, priority_text, role_name, role_text, CameraRole, LAYER_COUNT};
use crate::order::{layer_digit, layer_text};
use vstd::prelude::*;

verus! {

/// What the operator can ask for.
#[derive(Clone, Copy, Debug, PartialEq, Eq, Structural)]
pub enum Command {
    Select(CameraRole),
    ToggleActive,
    CyclePriority,
    CycleLayer,
    ToggleWindowMode,
}

/// The command bound to a key: each has a letter and a digit.
pub open spec fn key_command(key: char) -> Option<Command> {
    if key == 'F' || key == '1' {
        Some(Command::Select(CameraRole::Foreground))
    } else if key == 'S' || key == '2' {
        Some(Command::Select(CameraRole::Scene))
    } else if key == 'B' || key == '3' {
        Some(Command::Select(CameraRole::Background))
    } else if key == 'A' || key == '4' {
        Some(Command::ToggleActive)
    } else if key == 'P' || key == '5' {
        Some(Command::CyclePriority)
    } else if key == 'L' || key == '6' {
        Some(Command::CycleLayer)
    } else if key == 'M' || key == '7' {
        Some(Command::ToggleWindowMode)
    } else {
        None
    }
}

pub fn command_for_key(key: char) -> (r: Option<Command>)
    ensures
        r == key_command(key),
{
    if key == 'F' || key == '1' {
        Some(Command::Select(CameraRole::Foreground))
    } else if key == 'S' || key == '2' {
        Some(Command::Select(CameraRole::Scene))
    } else if key == 'B' || key == '3' {
        Some(Command::Select(CameraRole::Background))
    } else if key == 'A' || key == '4' {
        Some(Command::ToggleActive)
    } else if key == 'P' || key == '5' {
        Some(Command::CyclePriority)
    } else if key == 'L' || key == '6' {
        Some(Command::CycleLayer)
    } else if key == 'M' || key == '7' {
        Some(Command::ToggleWindowMode)
    } else {
        None
    }
}

/// Some key of `keys` is bound to `cmd`.
pub open spec fn pressed(keys: Seq<char>, cmd: Command) -> bool {
    exists|k: int| 0 <= k < keys.len() && key_command(#[trigger] keys[k]) == Some(cmd)
}

/// `cmd` alone when `keys` asks for it, else nothing.
pub open spec fn planned(keys: Seq<char>, cmd: Command) -> Seq<Command> {
    if pressed(keys, cmd) {
        seq![cmd]
    } else {
        Seq::empty()
    }
}

/// The commands of one frame, each at most once, in the order they take
/// effect: the selections (foreground, scene, background, so the last one
/// pressed in that order wins), then the changes to the selected camera, then
/// the window-mode toggle.
pub open spec fn frame_plan(keys: Seq<char>) -> Seq<Command> {
    planned(keys, Command::Select(CameraRole::Foreground))
        + planned(keys, Command::Select(CameraRole::Scene))
        + planned(keys, Command::Select(CameraRole::Background))
        + planned(keys, Command::ToggleActive)
        + planned(keys, Command::CyclePriority)
        + planned(keys, Command::CycleLayer)
        + planned(keys, Command::ToggleWindowMode)
}

fn is_pressed(keys: &Vec<char>, cmd: Command) -> (r: bool)
    ensures
        r == pressed(keys@, cmd),
{
    let mut k: usize = 0;
    while k < keys.len()
        invariant
            k <= keys@.len(),
            forall|j: int| 0 <= j < k ==> key_command(#[trigger] keys@[j]) != Some(cmd),
        decreases keys@.len() - k,
    {
        if command_for_key(keys[k]) == Some(cmd) {
            return true;
        }
        k = k + 1;
    }
    false
}

fn plan(commands: &mut Vec<Command>, keys: &Vec<char>, cmd: Command)
    ensures
        final(commands)@ == old(commands)@ + planned(keys@, cmd),
{
    if is_pressed(keys, cmd) {
        commands.push(cmd);
        assert(final(commands)@ =~= old(commands)@ + planned(keys@, cmd));
    } else {
        assert(old(commands)@ + planned(keys@, cmd) =~= old(commands)@);
    }
}

/// The commands that the keys pressed in one frame ask for, in the order
/// they are to be applied.
pub fn frame_commands(keys: &Vec<char>) -> (r: Vec<Command>)
    ensures
        r@ == frame_plan(keys@),
{
    let mut r: Vec<Command> = Vec::new();
    plan(&mut r, keys, Command::Select(CameraRole::Foreground));
    plan(&mut r, keys, Command::Select(CameraRole::Scene));
    plan(&mut r, keys, Command::Select(CameraRole::Background));
    plan(&mut r, keys, Command::ToggleActive);
    plan(&mut r, keys, Command::CyclePriority);
    plan(&mut r, keys, Command::CycleLayer);
    plan(&mut r, keys, Command::ToggleWindowMode);
    assert(r@ =~= frame_plan(keys@));
    r
}

/// `Role: is_active changed to true|false`.
pub open spec fn active_status_text(role: CameraRole, is_active: bool) -> Seq<char> {
    role_text(role) + ": is_active changed to "@ + if is_active { "true"@ } else { "false"@ }
}

/// `Role: priority changed to high|mid|low`.
pub open spec fn priority_status_text(role: CameraRole, priority: int) -> Seq<char> {
    role_text(role) + ": priority changed to "@ + priority_text(priority)
}

/// `Role: layer changed to <digit>`.
pub open spec fn layer_status_text(role: CameraRole, layer: u8) -> Seq<char> {
    role_text(role) + ": layer changed to "@ + layer_text(layer)
}

pub fn active_status(role: CameraRole, is_active: bool) -> (r: String)
    ensures
        r@ == active_status_text(role, is_active),
{
    let mut r = String::from_str(role_name(role));
    r.append(": is_active changed to ");
    if is_active {
        r.append("true");
    } else {
        r.append("false");
    }
    r
}

pub fn priority_status(role: CameraRole, priority: u32) -> (r: String)
    requires
        priority < 9,
    ensures
        r@ == priority_status_text(role, priority as int),
{
    let mut r = String::from_str(role_name(role));
    r.append(": priority changed to ");
    r.append(priority_label(priority));
    r
}

pub fn layer_status(role: CameraRole, layer: u8) -> (r: String)
    requires
        layer < LAYER_COUNT,
    ensures
        r@ == layer_status_text(role, layer),
{
    let mut r = String::from_str(role_name(role));
    r.append(": layer changed to ");
    r.append(layer_digit(layer));
    r
}

} // verus!
