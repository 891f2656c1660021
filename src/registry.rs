//! What the agent registry says of an agent.
use vstd::prelude::*;
use std::collections::HashMap;

verus! {

/// A single agent provider from the registry
pub struct RegistryAgent {
    pub id: String,
    pub name: String,
    pub version: String,
    pub description: String,
    pub icon: Option<String>,
    pub distribution: Distribution,
}

/// How to spawn or run the agent
pub struct Distribution {
    pub npx: Option<NpxDistribution>,
    pub binary: Option<HashMap<String, BinaryPlatform>>,
}

pub struct NpxDistribution {
    pub package: String,
    pub args: Vec<String>,
    pub env: HashMap<String, String>,
}

pub struct BinaryPlatform {
    pub archive: String,
    pub cmd: String,
    pub args: Vec<String>,
}

/// The full registry
pub struct Registry {
    pub version: String,
    pub agents: Vec<RegistryAgent>,
}

} // verus!
