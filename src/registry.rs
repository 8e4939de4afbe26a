use vstd::prelude::*;
use crate::platform::Platform;

verus! {

/// A native feature unit attached to the application during startup.
#[derive(Clone, Copy, Debug, PartialEq, Eq, Structural)]
pub enum Capability {
    /// Persistent key-value storage.
    Storage,
    /// Outbound HTTP access.
    Network,
    /// Operating-system metadata.
    OsInfo,
    /// Edge-to-edge display handling.
    EdgeToEdge,
}

/// The modules every build activates, in activation order.
pub open spec fn core_modules() -> Seq<Capability> {
    seq![Capability::Storage, Capability::Network, Capability::OsInfo]
}

/// The ordered activation list of a build for platform `p`: the core modules,
/// then edge-to-edge handling on touch-mobile targets only.
pub open spec fn modules_for(p: Platform) -> Seq<Capability> {
    if p.is_touch_mobile() {
        core_modules().push(Capability::EdgeToEdge)
    } else {
        core_modules()
    }
}

/// `c` stands in `s` at index `i` and nowhere else.
pub open spec fn occurs_once_at(s: Seq<Capability>, c: Capability, i: int) -> bool {
    &&& 0 <= i < s.len()
    &&& s[i] == c
    &&& forall|j: int| 0 <= j < s.len() && s[j] == c ==> j == i
}

/// Builds the activation list for `platform`.
pub fn capability_modules(platform: Platform) -> (r: Vec<Capability>)
    ensures
        r@ == modules_for(platform),
{
    let mut r: Vec<Capability> = Vec::new();
    r.push(Capability::Storage);
    r.push(Capability::Network);
    r.push(Capability::OsInfo);
    if platform.is_mobile() {
        r.push(Capability::EdgeToEdge);
    }
    assert(r@ =~= modules_for(platform));
    r
}

/// Whatever the platform, storage, network and OS metadata are each activated
/// exactly once, in that order, at the head of the list.
pub proof fn lemma_core_modules_once_in_order(p: Platform)
    ensures
        occurs_once_at(modules_for(p), Capability::Storage, 0),
        occurs_once_at(modules_for(p), Capability::Network, 1),
        occurs_once_at(modules_for(p), Capability::OsInfo, 2),
{
}

/// Edge-to-edge handling is in the activation list exactly when the platform
/// is touch-mobile.
pub proof fn lemma_edge_to_edge_iff_mobile(p: Platform)
    ensures
        modules_for(p).contains(Capability::EdgeToEdge) <==> p.is_touch_mobile(),
{
    let s = modules_for(p);
    if p.is_touch_mobile() {
        assert(s[3] == Capability::EdgeToEdge);
    } else {
        assert(forall|i: int| 0 <= i < s.len() ==> s[i] != Capability::EdgeToEdge);
    }
}

} // verus!
