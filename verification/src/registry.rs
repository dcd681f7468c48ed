//! The application registry and the plugin identity trait.

use vstd::prelude::*;

verus! {

/// A unit of setup logic that can be registered into an [`App`].
///
/// Each plugin type carries a stable identity tag; the registry keys its
/// membership set by that tag, so a plugin type is either present or
/// absent, with no ordering or multiplicity exposed.
pub trait Plugin: Sized {
    /// The identity tag of this plugin type, as contracts see it.
    spec fn spec_tag() -> u64;

    /// The identity tag of this plugin type.
    fn tag() -> (t: u64)
        ensures
            t == Self::spec_tag(),
    ;
}

/// The application object: tracks which plugin types have been registered,
/// keyed by their identity tags.
pub struct App {
    registered: Vec<u64>,
}

impl App {
    /// The set of registered plugin tags.
    pub closed spec fn plugins(&self) -> Set<u64> {
        self.registered@.to_set()
    }

    /// Creates an application with no plugins registered.
    pub fn new() -> (app: App)
        ensures
            app.plugins() == Set::<u64>::empty(),
    {
        let app = App { registered: Vec::new() };
        proof {
            assert(app.plugins() =~= Set::<u64>::empty());
        }
        app
    }

    /// Reports whether a plugin of type `P` has been registered.
    pub fn has_plugin<P: Plugin>(&self) -> (present: bool)
        ensures
            present == self.plugins().contains(P::spec_tag()),
    {
        let t = P::tag();
        let n = self.registered.len();
        let mut i: usize = 0;
        while i < n
            invariant
                n == self.registered@.len(),
                0 <= i <= n,
                t == P::spec_tag(),
                forall|j: int| 0 <= j < i ==> self.registered@[j] != t,
            decreases n - i,
        {
            if self.registered[i] == t {
                proof {
                    assert(self.registered@[i as int] == t);
                }
                return true;
            }
            i = i + 1;
        }
        proof {
            assert(!self.registered@.contains(t));
        }
        false
    }

    /// Registers a plugin of type `P`.
    ///
    /// The registry only records the plugin type's identity tag; running
    /// the plugin's own setup logic is the host's concern, not the
    /// registry's.
    pub fn add_plugin<P: Plugin>(&mut self, _plugin: P)
        ensures
            final(self).plugins() == old(self).plugins().insert(P::spec_tag()),
    {
        let t = P::tag();
        self.registered.push(t);
        proof {
            let s0 = old(self).registered@;
            let s1 = self.registered@;
            assert forall|a: u64| s1.contains(a) implies (s0.contains(a) || a == t) by {
                let j = choose|j: int| 0 <= j < s1.len() && s1[j] == a;
                if j < s0.len() {
                    assert(s0[j] == a);
                } else {
                    assert(a == t);
                }
            };
            assert forall|a: u64| s0.contains(a) || a == t implies s1.contains(a) by {
                if s0.contains(a) {
                    let j = choose|j: int| 0 <= j < s0.len() && s0[j] == a;
                    assert(s1[j] == a);
                } else {
                    assert(s1[s0.len() as int] == a);
                }
            };
            assert(self.plugins() =~= old(self).plugins().insert(t));
        }
    }
}

} // verus!
