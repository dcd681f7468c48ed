//! Assertion-style plugin checks for an application registry.
//!
//! An [`App`] tracks which plugin types have been registered, each plugin
//! type carrying a stable identity tag. The [`AssertPluginAppExt`] trait
//! adds assertion-style conveniences on top: check that a required plugin
//! is present, or fall back to registering one when it is not.

use vstd::prelude::*;

mod plugins;
mod registry;

pub use plugins::FrameCountPlugin;
pub use plugins::MyPlugin;
pub use plugins::PbrPlugin;
pub use plugins::TaskPoolPlugin;
pub use plugins::TimePlugin;
pub use plugins::TypeRegistrationPlugin;
pub use registry::App;
pub use registry::Plugin;

verus! {

/// An extension trait for the application object providing methods that
/// make assertions on the plugins registered in it.
pub trait AssertPluginAppExt: Sized {
    /// The set of registered plugin tags, as contracts see it.
    spec fn plugin_set(&self) -> Set<u64>;

    /// Checks that `P` has been registered. A missing required plugin is
    /// a fatal programming error, not a recoverable one, so the check is
    /// a precondition: callers must show that `P` is present, and the
    /// call then changes nothing.
    fn assert_plugin<P: Plugin>(&mut self) -> (r: &mut Self)
        requires
            old(self).plugin_set().contains(P::spec_tag()),
        ensures
            *r == *old(self),
            *final(self) == *final(r),
    ;

    /// Checks whether `P` has been registered. If so, nothing changes and
    /// the supplied constructor is not invoked; otherwise the constructor
    /// runs once and its result is registered.
    fn assert_plugin_else<P: Plugin, F: FnOnce() -> P>(&mut self, make_plugin: F) -> (r: &mut Self)
        requires
            !old(self).plugin_set().contains(P::spec_tag()) ==> call_requires(make_plugin, ()),
        ensures
            old(self).plugin_set().contains(P::spec_tag()) ==> *r == *old(self),
            !old(self).plugin_set().contains(P::spec_tag()) ==> (*r).plugin_set() == old(
                self,
            ).plugin_set().insert(P::spec_tag()),
            !old(self).plugin_set().contains(P::spec_tag()) ==> (exists|p: P|
                call_ensures(make_plugin, (), p)),
            (*r).plugin_set().contains(P::spec_tag()),
            *final(self) == *final(r),
    ;

    /// Checks whether `P` has been registered. If so, nothing changes;
    /// otherwise a default-constructed instance of `P` is registered.
    fn assert_plugin_else_default<P: Plugin + Default>(&mut self) -> (r: &mut Self)
        ensures
            old(self).plugin_set().contains(P::spec_tag()) ==> *r == *old(self),
            !old(self).plugin_set().contains(P::spec_tag()) ==> (*r).plugin_set() == old(
                self,
            ).plugin_set().insert(P::spec_tag()),
            (*r).plugin_set().contains(P::spec_tag()),
            *final(self) == *final(r),
    ;
}

impl AssertPluginAppExt for App {
    open spec fn plugin_set(&self) -> Set<u64> {
        self.plugins()
    }

    fn assert_plugin<P: Plugin>(&mut self) -> (r: &mut Self) {
        self
    }

    fn assert_plugin_else<P: Plugin, F: FnOnce() -> P>(&mut self, make_plugin: F) -> (r: &mut Self) {
        if !self.has_plugin::<P>() {
            let plugin = make_plugin();
            self.add_plugin::<P>(plugin);
        }
        self
    }

    fn assert_plugin_else_default<P: Plugin + Default>(&mut self) -> (r: &mut Self) {
        if !self.has_plugin::<P>() {
            self.add_plugin::<P>(P::default());
        }
        self
    }
}

/// Law: the fallback operations enable a later assertion. Once a missing
/// plugin's tag has been inserted into the plugin set, the set contains
/// that tag, so `assert_plugin` for the same plugin type is permitted
/// immediately afterwards.
pub proof fn lemma_fallback_enables_assert(tags: Set<u64>, tag: u64)
    requires
        !tags.contains(tag),
    ensures
        tags.insert(tag).contains(tag),
{
}

/// Law: registering one plugin never unregisters another. Every tag in
/// the plugin set before an insertion is still in it afterwards.
pub proof fn lemma_register_preserves_plugins(tags: Set<u64>, tag: u64, other: u64)
    requires
        tags.contains(other),
    ensures
        tags.insert(tag).contains(other),
{
}

} // verus!
