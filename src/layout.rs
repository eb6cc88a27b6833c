//! The fixed shape of a provisioned instance, as paths relative to its root.

use vstd::prelude::*;

use crate::artifacts::ArtifactRole;

verus! {

/// Directory that the server loads mods from.
pub const MODS_DIR: &'static str = "mods";

/// Directory of the world's datapacks.
pub const DATAPACKS_DIR: &'static str = "world/datapacks";

/// The server's configuration file.
pub const PROPERTIES_FILE: &'static str = "server.properties";

/// The log that the server writes during a run.
pub const LOG_FILE: &'static str = "logs/latest.log";

/// Where the test-runner mod is stored.
pub const PACKTEST_JAR: &'static str = "mods/packtest.jar";

/// Where the Fabric API mod is stored.
pub const FABRIC_API_JAR: &'static str = "mods/fabric_api.jar";

pub open spec fn artifact_file_spec(role: ArtifactRole) -> Seq<char> {
    match role {
        ArtifactRole::PackTest => PACKTEST_JAR@,
        ArtifactRole::FabricApi => FABRIC_API_JAR@,
    }
}

/// The fixed file name, inside the mods directory, of each artifact.
pub fn artifact_file(role: ArtifactRole) -> (r: &'static str)
    ensures
        r@ == artifact_file_spec(role),
{
    match role {
        ArtifactRole::PackTest => PACKTEST_JAR,
        ArtifactRole::FabricApi => FABRIC_API_JAR,
    }
}

} // verus!
