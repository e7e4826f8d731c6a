//! Instance creation decisions: extensions and validation layers.
//!
//! The required instance-extension set is the union of what the window
//! platform demands and, when validation is requested, the debug-diagnostics
//! extension. The required layer set is one well-known validation layer;
//! bootstrap fails with the missing-layers condition when any required layer
//! is absent from what the library reports, carrying the full missing set.

use vstd::prelude::*;

use crate::errors::AppError;

verus! {

/// The one required validation layer, as a sequence of layer names.
pub open spec fn required_layer_names() -> Seq<Seq<char>> {
    seq!["VK_LAYER_KHRONOS_validation"@]
}

/// The name of the debug-diagnostics instance extension.
pub open spec fn debug_extension_name() -> Seq<char> {
    "VK_EXT_debug_utils"@
}

/// The required validation-layer set: one well-known layer name.
pub fn validation_layers() -> (r: Vec<String>)
    ensures
        r.deep_view() == required_layer_names(),
{
    let mut layers: Vec<String> = Vec::new();
    layers.push("VK_LAYER_KHRONOS_validation".to_owned());
    proof {
        assert(layers.deep_view() =~= required_layer_names());
    }
    layers
}

/// Decides equality of two layer or extension names.
fn string_eq(a: &String, b: &String) -> (r: bool)
    ensures
        r == (a@ == b@),
{
    *a == *b
}

/// Whether some name in `names` reads `needle`.
pub fn contains_name(names: &Vec<String>, needle: &String) -> (r: bool)
    ensures
        r == names.deep_view().contains(needle@),
{
    let n = names.len();
    let mut k: usize = 0;
    while k < n
        invariant
            n == names@.len(),
            0 <= k <= n,
            forall|j: int| 0 <= j < k ==> names.deep_view()[j] != needle@,
        decreases n - k,
    {
        if string_eq(&names[k], needle) {
            assert(names.deep_view()[k as int] == needle@);
            return true;
        }
        k = k + 1;
    }
    assert(!names.deep_view().contains(needle@));
    false
}

/// The names absent from `excluded`.
pub open spec fn absent_from(excluded: Seq<Seq<char>>) -> spec_fn(Seq<char>) -> bool {
    |name: Seq<char>| !excluded.contains(name)
}

/// Keeps, in order, exactly the names of `names` that do not occur in
/// `excluded`: the set difference `names - excluded` as an ordered list.
pub fn names_not_in(names: &Vec<String>, excluded: &Vec<String>) -> (r: Vec<String>)
    ensures
        r.deep_view() == names.deep_view().filter(absent_from(excluded.deep_view())),
{
    let ghost pred = absent_from(excluded.deep_view());
    let ghost all = names.deep_view();
    let n = names.len();
    let mut out: Vec<String> = Vec::new();
    let mut k: usize = 0;
    proof {
        reveal(Seq::filter);
        assert(out.deep_view() =~= all.take(0).filter(pred));
    }
    while k < n
        invariant
            n == names@.len(),
            all == names.deep_view(),
            pred == absent_from(excluded.deep_view()),
            0 <= k <= n,
            out.deep_view() == all.take(k as int).filter(pred),
        decreases n - k,
    {
        let ghost prev = out.deep_view();
        let keep = !contains_name(excluded, &names[k]);
        if keep {
            out.push(names[k].clone());
        }
        proof {
            reveal(Seq::filter);
            let taken = all.take(k as int + 1);
            assert(taken.drop_last() =~= all.take(k as int));
            assert(taken.last() == all[k as int]);
            assert(names@[k as int]@ == all[k as int]);
            assert(keep == pred(all[k as int]));
            if keep {
                assert(out.deep_view() =~= prev.push(all[k as int]));
            } else {
                assert(out.deep_view() =~= prev);
            }
        }
        k = k + 1;
    }
    proof {
        assert(all.take(n as int) =~= all);
    }
    out
}

/// The layers required but unavailable: the full set difference between the
/// required validation layers and the reported layer names, in order.
pub fn missing_layers(available: &Vec<String>) -> (r: Vec<String>)
    ensures
        r.deep_view() == required_layer_names().filter(absent_from(available.deep_view())),
{
    let required = validation_layers();
    names_not_in(&required, available)
}

/// Everything decided ahead of instance creation: the instance extensions to
/// enable, the layers to enable, and whether a debug messenger is attached.
#[derive(Debug, Clone, PartialEq, Eq)]
pub struct InstancePlan {
    pub extensions: Vec<String>,
    pub layers: Vec<String>,
    pub enable_debug_messenger: bool,
}

/// Decides the instance configuration before any device is enumerated.
///
/// The extension set is the window's required set with the debug extension
/// added exactly when validation is requested. Without validation no layer
/// is enabled and no messenger attached. With validation, the required
/// layers must all be available: otherwise the plan fails with the
/// missing-layers condition, reporting the full missing set, and nothing
/// further of the bootstrap can run.
pub fn plan_instance(
    validate: bool,
    window_extensions: &Vec<String>,
    available_layers: &Vec<String>,
) -> (r: Result<InstancePlan, AppError>)
    ensures
        r matches Ok(p) ==> {
            &&& p.extensions.deep_view() == window_extensions.deep_view().filter(
                absent_from(seq![debug_extension_name()]),
            ) + (if validate {
                seq![debug_extension_name()]
            } else {
                Seq::<Seq<char>>::empty()
            })
            &&& p.enable_debug_messenger == validate
            &&& (validate ==> p.layers.deep_view() == required_layer_names())
            &&& (!validate ==> p.layers.deep_view() == Seq::<Seq<char>>::empty())
        },
        !validate ==> r is Ok,
        validate ==> ((r is Ok) <==> required_layer_names().filter(
            absent_from(available_layers.deep_view()),
        ) =~= Seq::<Seq<char>>::empty()),
        r matches Err(e) ==> (e matches AppError::RequiredLayers(m) && m.deep_view()
            == required_layer_names().filter(absent_from(available_layers.deep_view()))),
{
    let mut debug_names: Vec<String> = Vec::new();
    debug_names.push("VK_EXT_debug_utils".to_owned());
    proof {
        assert(debug_names.deep_view() =~= seq![debug_extension_name()]);
    }
    let mut extensions = names_not_in(window_extensions, &debug_names);
    let ghost base = extensions.deep_view();
    if validate {
        let missing = missing_layers(available_layers);
        if missing.len() > 0 {
            proof {
                assert(missing.deep_view().len() > 0);
            }
            return Err(AppError::RequiredLayers(missing));
        }
        proof {
            assert(missing.deep_view() =~= Seq::<Seq<char>>::empty());
        }
        extensions.push("VK_EXT_debug_utils".to_owned());
        let layers = validation_layers();
        proof {
            assert(extensions.deep_view() =~= base + seq![debug_extension_name()]);
        }
        Ok(InstancePlan { extensions, layers, enable_debug_messenger: true })
    } else {
        proof {
            assert(extensions.deep_view() =~= base + Seq::<Seq<char>>::empty());
        }
        Ok(InstancePlan { extensions, layers: Vec::new(), enable_debug_messenger: false })
    }
}

} // verus!
