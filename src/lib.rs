//! Runtime configuration of a small set of compositing cameras: which one is
//! being configured, its activity, priority and layer, the order in which the
//! active ones composite, and whether they share one window or each own one.

pub mod camera;
pub mod control;
pub mod laws;
pub mod order;
pub mod registry;
pub mod rig;
pub mod surface;
