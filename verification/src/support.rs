//! Window capability provider: reports the instance extensions a platform
//! window needs before a presentable surface can be created on it.

use vstd::prelude::*;

verus! {

/// A platform window type that can state which instance extensions it needs.
///
/// This is a pure query with no failure mode. The default implementation
/// supplies the minimum: the generic surface extension. Platform variants
/// override it to append their platform-specific surface extension.
pub trait VulkanSupport {
    fn get_required_extensions_list(&self) -> (r: Vec<&'static str>)
        default_ensures
            r.deep_view() == seq!["VK_KHR_surface"@],
    {
        let v: Vec<&'static str> = vec!["VK_KHR_surface"];
        proof {
            assert(v.deep_view() =~= seq!["VK_KHR_surface"@]);
        }
        v
    }
}

} // verus!
