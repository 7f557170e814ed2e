//! Flavor detection and launch-command building for a terraria server
//! installation.

use crate::install::{InstallDir, LaunchCommand, LaunchError, Platform};
use crate::tmodloader;
use vstd::prelude::*;

verus! {

/// The supported terraria server flavors.
#[derive(Clone, Copy, Debug, PartialEq, Eq, Structural)]
pub enum ServerType {
    Vanilla,
    TModLoader,
}

/// Which flavor the marker files of the installation directory reveal: the
/// stock server binary first, then the tModLoader library.
pub open spec fn spec_detect(d: InstallDir) -> Option<ServerType> {
    if d.has_terraria_server {
        Some(ServerType::Vanilla)
    } else if d.has_tmodloader_dll {
        Some(ServerType::TModLoader)
    } else {
        None
    }
}

impl ServerType {
    /// Detects the installed flavor from the marker files, or none.
    pub fn detect(d: &InstallDir) -> (r: Option<ServerType>)
        ensures
            r == spec_detect(*d),
    {
        if d.has_terraria_server {
            Some(ServerType::Vanilla)
        } else if d.has_tmodloader_dll {
            Some(ServerType::TModLoader)
        } else {
            None
        }
    }
}

/// Builds the launch command for a detected flavor. A vanilla install is
/// excluded by contract, as launching one is not implemented; a tModLoader
/// install launches through its shipped start script, as
/// [`tmodloader::command`] says.
pub fn build_command(
    t: ServerType,
    server_dir: &String,
    config_dir: &String,
    platform: Platform,
) -> (r: Result<LaunchCommand, LaunchError>)
    requires
        t != ServerType::Vanilla,
    ensures
        r matches Ok(c) ==> tmodloader::command_matches(c, server_dir@, config_dir@, platform),
        r is Ok,
{
    Ok(tmodloader::command(server_dir, config_dir, platform))
}

/// The whole launch strategy for a terraria installation: detect the flavor,
/// then build its command. An undetected flavor fails the start. A directory
/// detected as the stock server is excluded by contract, as launching one is
/// not implemented.
pub fn plan(
    d: &InstallDir,
    server_dir: &String,
    config_dir: &String,
    platform: Platform,
) -> (r: Result<LaunchCommand, LaunchError>)
    requires
        spec_detect(*d) != Some(ServerType::Vanilla),
    ensures
        spec_detect(*d) is None <==> (r matches Err(e) && e == LaunchError::NotDetected),
        spec_detect(*d) is Some ==> (r is Ok && (r matches Ok(c) ==> tmodloader::command_matches(
            c,
            server_dir@,
            config_dir@,
            platform,
        ))),
{
    match ServerType::detect(d) {
        None => Err(LaunchError::NotDetected),
        Some(t) => build_command(t, server_dir, config_dir, platform),
    }
}

} // verus!
