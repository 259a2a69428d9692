//! An uninhabited type masquerading as an ordered map.
//!
//! The interface mirrors an owned B-tree map, but no value of the type
//! can ever be created: its private member carries a type invariant that
//! no value satisfies.  Modules written against this interface compile
//! in heap-less builds without a feature gate, and it is up to the
//! eventual consumer of the library to supply a real map provider.  The
//! verifier confirms that every method here is unreachable: each proves
//! its own receiver impossible and diverges.

use vstd::prelude::*;
use vstd::pervasive::unreached;

verus! {

/// The impossible member: its invariant rules out both values of the
/// field, so no `Void` (and hence no map, and no entry) ever exists.
#[derive(Clone, Copy, Debug, PartialEq, Eq, PartialOrd, Ord, Hash)]
struct Void {
    nothing: bool,
}

#[verifier::type_invariant]
spec fn void_inv(v: Void) -> bool {
    v.nothing && !v.nothing
}

/// A phantom ordered map over `(K, V)` pairs.
///
/// The marker field keeps the type parameters in use; the `data` field
/// keeps the type uninhabited.
#[derive(Debug, PartialEq, Eq, PartialOrd, Ord, Hash)]
pub struct BTreeMap<K: Ord, V> {
    elements: core::marker::PhantomData<(K, V)>,
    data: Void,
}

/// A view into a single map entry, vacant or occupied.
pub enum Entry<'a, K, V> {
    /// The key has no value in the map.
    Vacant(VacantEntry<'a, K, V>),
    /// The key has a value in the map.
    Occupied(OccupiedEntry<'a, K, V>),
}

/// A vacant entry of a phantom map; as unreachable as the map itself.
pub struct VacantEntry<'a, K, V> {
    phantom: core::marker::PhantomData<&'a (K, V)>,
    void: Void,
}

/// An occupied entry of a phantom map; as unreachable as the map itself.
pub struct OccupiedEntry<'a, K, V> {
    phantom: core::marker::PhantomData<&'a (K, V)>,
    void: Void,
}

impl<K: Ord, V> BTreeMap<K, V> {
    /// No map exists, so there is nothing to clear.
    pub fn clear(&mut self) {
        proof {
            use_type_invariant(&self.data);
        }
    }

    /// Look a key up; unreachable, as no map exists.
    pub fn get(&self, key: &K) -> Option<&V> {
        proof {
            use_type_invariant(&self.data);
        }
        unreached()
    }

    /// Ask whether a key is present; unreachable, as no map exists.
    pub fn contains_key(&self, key: &K) -> bool {
        proof {
            use_type_invariant(&self.data);
        }
        unreached()
    }

    /// Look a key up mutably; unreachable, as no map exists.
    pub fn get_mut(&self, key: &K) -> Option<&mut V> {
        proof {
            use_type_invariant(&self.data);
        }
        unreached()
    }

    /// Insert a pair; unreachable, as no map exists.
    pub fn insert(&mut self, key: K, value: V) -> Option<V> {
        proof {
            use_type_invariant(&self.data);
        }
        unreached()
    }

    /// Remove a key; unreachable, as no map exists.
    pub fn remove(&mut self, key: &K) -> Option<V> {
        proof {
            use_type_invariant(&self.data);
        }
        unreached()
    }

    /// Take the entry for a key; unreachable, as no map exists.
    pub fn entry(&mut self, key: K) -> Entry<K, V> {
        proof {
            use_type_invariant(&self.data);
        }
        unreached()
    }
}

impl<K, V> OccupiedEntry<'_, K, V> {
    /// Read the value; unreachable, as no entry exists.
    pub fn get(&self) -> &V {
        proof {
            use_type_invariant(&self.void);
        }
        unreached()
    }

    /// Borrow the value mutably; unreachable, as no entry exists.
    pub fn get_mut(&mut self) -> &mut V {
        proof {
            use_type_invariant(&self.void);
        }
        unreached()
    }

    /// Remove the entry; unreachable, as no entry exists.
    pub fn remove(self) {
        proof {
            use_type_invariant(&self.void);
        }
    }

    /// Remove and return the pair; unreachable, as no entry exists.
    pub fn remove_entry(self) -> (K, V) {
        proof {
            use_type_invariant(&self.void);
        }
        unreached()
    }
}

impl<'a, K, V> OccupiedEntry<'a, K, V> {
    /// Turn the entry into a borrow of the value; unreachable, as no
    /// entry exists.
    pub fn into_mut(self) -> &'a mut V {
        proof {
            use_type_invariant(&self.void);
        }
        unreached()
    }
}

impl<K, V> VacantEntry<'_, K, V> {
    /// Read the key; unreachable, as no entry exists.
    pub fn key(&self) -> &K {
        proof {
            use_type_invariant(&self.void);
        }
        unreached()
    }

    /// Take the key back; unreachable, as no entry exists.
    pub fn into_key(self) -> K {
        proof {
            use_type_invariant(&self.void);
        }
        unreached()
    }
}

impl<'a, K, V> VacantEntry<'a, K, V> {
    /// Fill the entry; unreachable, as no entry exists.
    pub fn insert(self, value: V) -> &'a mut V {
        proof {
            use_type_invariant(&self.void);
        }
        unreached()
    }
}

} // verus!
