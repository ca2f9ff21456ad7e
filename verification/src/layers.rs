//! Validation-layer availability: the fixed set of layers the bootstrap
//! requires in debug mode, and the check that every one of them is present
//! among the layers the driver reports.

use vstd::prelude::*;

verus! {

/// The fixed validation layer set required whenever debug mode is requested.
pub open spec fn spec_required_validation_layers() -> Seq<Seq<char>> {
    seq!["VK_LAYER_KHRONOS_validation"@]
}

/// Executable copy of the required validation layer set.
pub fn required_validation_layers() -> (r: Vec<String>)
    ensures
        r.deep_view() == spec_required_validation_layers(),
{
    let mut v: Vec<String> = Vec::new();
    v.push("VK_LAYER_KHRONOS_validation".to_owned());
    proof {
        assert(v.deep_view() =~= spec_required_validation_layers());
    }
    v
}

/// A layer name occurs among the names the driver reported.
pub open spec fn layer_present(available: Seq<Seq<char>>, layer: Seq<char>) -> bool {
    exists|i: int| 0 <= i < available.len() && available[i] == layer
}

/// Every required layer name occurs among the reported names.
pub open spec fn all_layers_present(required: Seq<Seq<char>>, available: Seq<Seq<char>>) -> bool {
    forall|i: int| 0 <= i < required.len() ==> layer_present(available, required[i])
}

/// Decides whether every name in `layers` occurs in `availables`.
/// In debug mode the bootstrap refuses to create an instance unless this
/// holds of the required validation layer set.
pub fn check_availabilities_validation_layers(layers: &Vec<String>, availables: &Vec<String>) -> (r: bool)
    ensures
        r == all_layers_present(layers.deep_view(), availables.deep_view()),
{
    let ghost req = layers.deep_view();
    let ghost av = availables.deep_view();
    let mut i: usize = 0;
    while i < layers.len()
        invariant
            i <= layers.len(),
            req == layers.deep_view(),
            av == availables.deep_view(),
            forall|k: int| 0 <= k < i ==> layer_present(av, req[k]),
        decreases layers.len() - i,
    {
        let mut found = false;
        let mut j: usize = 0;
        while j < availables.len()
            invariant
                j <= availables.len(),
                i < layers.len(),
                req == layers.deep_view(),
                av == availables.deep_view(),
                found == exists|k: int| 0 <= k < j && av[k] == req[i as int],
            decreases availables.len() - j,
        {
            proof {
                assert(av[j as int] == availables@[j as int]@);
                assert(req[i as int] == layers@[i as int]@);
            }
            if availables[j].eq(&layers[i]) {
                found = true;
            }
            j += 1;
        }
        if !found {
            proof {
                assert(!layer_present(av, req[i as int]));
            }
            return false;
        }
        i += 1;
    }
    true
}

} // verus!
