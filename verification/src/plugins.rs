//! A small catalogue of plugin types: the baseline set that a minimal
//! application registers, a render plugin that the baseline leaves out,
//! and a trivial plugin for exercising the fallback operations.

use vstd::prelude::*;
use crate::registry::App;
use crate::registry::Plugin;

verus! {

/// Sets up the task pools; part of the baseline set.
pub struct TaskPoolPlugin;

impl Plugin for TaskPoolPlugin {
    open spec fn spec_tag() -> u64 {
        1
    }

    fn tag() -> (t: u64) {
        1
    }
}

/// Registers the core types; part of the baseline set.
pub struct TypeRegistrationPlugin;

impl Plugin for TypeRegistrationPlugin {
    open spec fn spec_tag() -> u64 {
        2
    }

    fn tag() -> (t: u64) {
        2
    }
}

/// Maintains the frame counter; part of the baseline set.
pub struct FrameCountPlugin;

impl Plugin for FrameCountPlugin {
    open spec fn spec_tag() -> u64 {
        3
    }

    fn tag() -> (t: u64) {
        3
    }
}

/// Drives the clock; part of the baseline set.
pub struct TimePlugin;

impl Plugin for TimePlugin {
    open spec fn spec_tag() -> u64 {
        4
    }

    fn tag() -> (t: u64) {
        4
    }
}

/// Sets up physically based rendering; not part of the baseline set.
pub struct PbrPlugin;

impl Plugin for PbrPlugin {
    open spec fn spec_tag() -> u64 {
        5
    }

    fn tag() -> (t: u64) {
        5
    }
}

/// A trivial plugin with no setup logic of its own.
pub struct MyPlugin;

impl Plugin for MyPlugin {
    open spec fn spec_tag() -> u64 {
        6
    }

    fn tag() -> (t: u64) {
        6
    }
}

impl Default for MyPlugin {
    fn default() -> (d: Self)
        ensures
            d == (MyPlugin {}),
    {
        MyPlugin {}
    }
}

impl App {
    /// Registers the baseline set of plugins: task pools, type
    /// registration, the frame counter, and the clock.
    pub fn add_minimal_plugins(&mut self)
        ensures
            final(self).plugins() == old(self).plugins().insert(
                TaskPoolPlugin::spec_tag(),
            ).insert(TypeRegistrationPlugin::spec_tag()).insert(
                FrameCountPlugin::spec_tag(),
            ).insert(TimePlugin::spec_tag()),
    {
        self.add_plugin(TaskPoolPlugin);
        self.add_plugin(TypeRegistrationPlugin);
        self.add_plugin(FrameCountPlugin);
        self.add_plugin(TimePlugin);
    }
}

} // verus!
