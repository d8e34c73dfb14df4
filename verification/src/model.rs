//! `MouseModel`: a reference into the registry table, or "unrecognized".
//!
//! The model stores only an index, so every derived fact (name, wired flag)
//! stays consistent with the single registry table.

use vstd::prelude::*;
use vstd::string::StringExecFns;
use crate::registry;
use crate::registry::MouseConfig;

verus! {

/// A detected mouse model: an index into the registry, or `None` when the
/// product id was not recognized.
#[derive(Debug, Clone, Copy, PartialEq, Eq, Hash)]
pub struct MouseModel {
    pub config_index: Option<usize>,
}

/// A model is well formed when its index, if any, points into the registry.
pub open spec fn model_wf(m: MouseModel) -> bool {
    m.config_index is Some ==> 0 <= m.config_index->0 < registry::mouse_count()
}

/// The model that `MouseModel::from_product_id` yields for `pid`.
pub open spec fn spec_model_of(pid: u16) -> MouseModel {
    if registry::is_supported_pid(pid) {
        MouseModel { config_index: Some(registry::config_index_of(pid) as usize) }
    } else {
        MouseModel { config_index: None }
    }
}

/// Display name of a model: the registry name, or a fallback when unrecognized.
pub open spec fn spec_model_name(m: MouseModel) -> Seq<char> {
    match m.config_index {
        Some(i) => registry::spec_name(i as int),
        None => "Unknown Mouse"@,
    }
}

/// Wired flag of a model; an unrecognized model counts as wireless.
pub open spec fn spec_model_is_wired(m: MouseModel) -> bool {
    match m.config_index {
        Some(i) => registry::spec_is_wired(i as int),
        None => false,
    }
}

impl MouseModel {
    /// Resolve a product id to a model; unsupported ids map to the
    /// unrecognized model rather than an error.
    pub fn from_product_id(product_id: u16) -> (r: MouseModel)
        ensures
            r == spec_model_of(product_id),
            model_wf(r),
    {
        let mice = registry::supported_mice();
        let mut i: usize = 0;
        while i < mice.len()
            invariant
                i <= mice@.len(),
                mice@.len() == registry::mouse_count(),
                forall|k: int|
                    0 <= k < registry::mouse_count() ==> (#[trigger] mice@[k]).product_id
                        == registry::spec_product_id(k),
                forall|k: int|
                    0 <= k < i ==> (#[trigger] mice@[k]).product_id != product_id,
            decreases mice@.len() - i,
        {
            if mice[i].product_id == product_id {
                proof {
                    assert(mice@[i as int].product_id == registry::spec_product_id(i as int));
                    assert(registry::config_index_of(product_id) == i as int);
                }
                return MouseModel { config_index: Some(i) };
            }
            i += 1;
        }
        proof {
            if registry::is_supported_pid(product_id) {
                let k = registry::config_index_of(product_id);
                assert(mice@[k].product_id == registry::spec_product_id(k));
                assert(false);
            }
        }
        MouseModel { config_index: None }
    }

    /// Resolve a display name back to a model: the first registry entry with
    /// that name, or the unrecognized model.
    pub fn from_name(name: &String) -> (r: MouseModel)
        ensures
            r == spec_model_of_name(name@),
            model_wf(r),
    {
        let mice = registry::supported_mice();
        let mut i: usize = 0;
        while i < mice.len()
            invariant
                i <= mice@.len(),
                mice@.len() == registry::mouse_count(),
                forall|k: int|
                    0 <= k < registry::mouse_count() ==> (#[trigger] mice@[k]).name@
                        == registry::spec_name(k),
                forall|k: int| 0 <= k < i ==> (#[trigger] mice@[k]).name@ != name@,
            decreases mice@.len() - i,
        {
            let entry_name = String::from_str(mice[i].name);
            if entry_name == *name {
                proof {
                    assert(mice@[i as int].name@ == registry::spec_name(i as int));
                    assert forall|j: int| 0 <= j < i implies name@ != registry::spec_name(j) by {
                        assert(mice@[j].name@ == registry::spec_name(j));
                    }
                }
                return MouseModel { config_index: Some(i) };
            }
            i += 1;
        }
        proof {
            assert(mice@[0].name@ == registry::spec_name(0));
            assert(mice@[1].name@ == registry::spec_name(1));
            assert(mice@[2].name@ == registry::spec_name(2));
            assert(mice@[3].name@ == registry::spec_name(3));
        }
        MouseModel { config_index: None }
    }

    /// Display name of the detected model.
    pub fn name(&self) -> (r: &'static str)
        requires
            model_wf(*self),
        ensures
            r@ == spec_model_name(*self),
    {
        match self.config() {
            Some(c) => c.name,
            None => "Unknown Mouse",
        }
    }

    /// Whether the detected model is a wired mouse.
    pub fn is_wired(&self) -> (r: bool)
        requires
            model_wf(*self),
        ensures
            r == spec_model_is_wired(*self),
    {
        match self.config() {
            Some(c) => c.is_wired,
            None => false,
        }
    }

    /// The registry entry behind this model, if the model was recognized.
    fn config(&self) -> (r: Option<MouseConfig>)
        requires
            model_wf(*self),
        ensures
            r is Some <==> self.config_index is Some,
            r is Some ==> {
                let i = self.config_index->0 as int;
                r->0.product_id == registry::spec_product_id(i)
                    && r->0.is_wired == registry::spec_is_wired(i)
                    && r->0.name@ == registry::spec_name(i)
            },
    {
        match self.config_index {
            Some(i) => {
                let mice = registry::supported_mice();
                Some(mice[i])
            },
            None => None,
        }
    }
}

/// The model that `MouseModel::from_name` yields for the name `n`: the first
/// registry index whose name is `n`, or the unrecognized model.
pub open spec fn spec_model_of_name(n: Seq<char>) -> MouseModel {
    if n == registry::spec_name(0) {
        MouseModel { config_index: Some(0usize) }
    } else if n == registry::spec_name(1) {
        MouseModel { config_index: Some(1usize) }
    } else if n == registry::spec_name(2) {
        MouseModel { config_index: Some(2usize) }
    } else if n == registry::spec_name(3) {
        MouseModel { config_index: Some(3usize) }
    } else {
        MouseModel { config_index: None }
    }
}

} // verus!
