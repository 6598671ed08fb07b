//! Deterministic names for the three backing resources of a Watcher.
//!
//! Each resource is named from the Watcher's identifier by a fixed prefix,
//! so every get, patch and delete can address a resource directly, with no
//! auxiliary lookup table. The mapping must stay bit-stable: a renamed
//! prefix would orphan every resource provisioned before it.

use vstd::prelude::*;

verus! {

/// The name of the Workload (deployment) resource for an identifier.
pub open spec fn spec_workload_name(id: Seq<char>) -> Seq<char> {
    "hawkeye-deploy-"@ + id
}

/// The name of the Config resource for an identifier.
pub open spec fn spec_config_name(id: Seq<char>) -> Seq<char> {
    "hawkeye-config-"@ + id
}

/// The name of the Endpoint (service) resource for an identifier.
pub open spec fn spec_endpoint_name(id: Seq<char>) -> Seq<char> {
    "hawkeye-vid-svc-"@ + id
}

/// Name of the Workload resource backing the Watcher with this identifier.
pub fn workload_name(id: &String) -> (r: String)
    ensures
        r@ == spec_workload_name(id@),
{
    String::from_str("hawkeye-deploy-").concat(id.as_str())
}

/// Name of the Config resource backing the Watcher with this identifier.
pub fn config_name(id: &String) -> (r: String)
    ensures
        r@ == spec_config_name(id@),
{
    String::from_str("hawkeye-config-").concat(id.as_str())
}

/// Name of the Endpoint resource backing the Watcher with this identifier.
pub fn endpoint_name(id: &String) -> (r: String)
    ensures
        r@ == spec_endpoint_name(id@),
{
    String::from_str("hawkeye-vid-svc-").concat(id.as_str())
}

/// Two Watchers never share a backing resource: equal resource names force
/// equal identifiers, for each of the three kinds.
pub proof fn lemma_names_injective(a: Seq<char>, b: Seq<char>)
    ensures
        spec_workload_name(a) == spec_workload_name(b) ==> a == b,
        spec_config_name(a) == spec_config_name(b) ==> a == b,
        spec_endpoint_name(a) == spec_endpoint_name(b) ==> a == b,
{
    if spec_workload_name(a) == spec_workload_name(b) {
        assert(("hawkeye-deploy-"@ + a).skip("hawkeye-deploy-"@.len() as int) =~= a);
        assert(("hawkeye-deploy-"@ + b).skip("hawkeye-deploy-"@.len() as int) =~= b);
    }
    if spec_config_name(a) == spec_config_name(b) {
        assert(("hawkeye-config-"@ + a).skip("hawkeye-config-"@.len() as int) =~= a);
        assert(("hawkeye-config-"@ + b).skip("hawkeye-config-"@.len() as int) =~= b);
    }
    if spec_endpoint_name(a) == spec_endpoint_name(b) {
        assert(("hawkeye-vid-svc-"@ + a).skip("hawkeye-vid-svc-"@.len() as int) =~= a);
        assert(("hawkeye-vid-svc-"@ + b).skip("hawkeye-vid-svc-"@.len() as int) =~= b);
    }
}

} // verus!
