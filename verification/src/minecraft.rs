//! Flavor detection and launch-command building for a minecraft server
//! installation.

use crate::forge;
use crate::install::{InstallDir, LaunchCommand, LaunchError, Platform};
use crate::paper;
use vstd::prelude::*;

verus! {

/// The supported minecraft server flavors.
#[derive(Clone, Copy, Debug, PartialEq, Eq, Structural)]
pub enum ServerType {
    Forge,
    Paper,
    Vanilla,
}

/// Which flavor the marker paths of the installation directory reveal, in
/// the order they are consulted: forge first, then velocity (paper), then
/// mojang (vanilla).
pub open spec fn spec_detect(d: InstallDir) -> Option<ServerType> {
    if d.has_forge_marker {
        Some(ServerType::Forge)
    } else if d.has_velocity_marker {
        Some(ServerType::Paper)
    } else if d.has_mojang_marker {
        Some(ServerType::Vanilla)
    } else {
        None
    }
}

impl ServerType {
    /// Detects the installed flavor from the marker paths, or none.
    pub fn detect(d: &InstallDir) -> (r: Option<ServerType>)
        ensures
            r == spec_detect(*d),
    {
        if d.has_forge_marker {
            Some(ServerType::Forge)
        } else if d.has_velocity_marker {
            Some(ServerType::Paper)
        } else if d.has_mojang_marker {
            Some(ServerType::Vanilla)
        } else {
            None
        }
    }
}

/// Builds the launch command for a detected flavor: `java` with the flavor's
/// argument list, run in the installation directory. A vanilla install has
/// no supported launch arguments and is excluded by contract, as launching
/// one is not implemented.
pub fn build_command(
    t: ServerType,
    d: &InstallDir,
    platform: Platform,
    extra_jvm_args: &Vec<String>,
    server_dir: &String,
) -> (r: Result<LaunchCommand, LaunchError>)
    requires
        t != ServerType::Vanilla,
    ensures
        t == ServerType::Forge ==> (r is Ok <==> forge::spec_forge_ok(*d)) && (r matches Err(e)
            ==> e == LaunchError::MissingArgsFile),
        t == ServerType::Paper ==> (r is Ok <==> paper::spec_paper_ok(*d)) && (r matches Err(e)
            ==> e == LaunchError::NoArtifact),
        r matches Ok(c) ==> c.program@ == "java"@ && c.workdir@ == server_dir@ && c.env@.len() == 0
            && (t == ServerType::Forge ==> c.args.deep_view() == forge::spec_forge_args(
            *d,
            platform,
        )) && (t == ServerType::Paper ==> c.args.deep_view() == paper::spec_paper_args(
            *d,
            extra_jvm_args.deep_view(),
        )),
{
    let args = if t == ServerType::Forge {
        match forge::args(d, platform) {
            Ok(v) => v,
            Err(e) => {
                return Err(e);
            },
        }
    } else {
        match paper::args(d, extra_jvm_args) {
            Ok(v) => v,
            Err(e) => {
                return Err(e);
            },
        }
    };
    Ok(
        LaunchCommand {
            program: "java".to_owned(),
            args,
            env: Vec::new(),
            workdir: server_dir.clone(),
        },
    )
}

/// The whole launch strategy for a minecraft installation: detect the
/// flavor, then build its command. An undetected flavor fails the start. A
/// directory detected as vanilla is excluded by contract, as launching one
/// is not implemented.
pub fn plan(
    d: &InstallDir,
    platform: Platform,
    extra_jvm_args: &Vec<String>,
    server_dir: &String,
) -> (r: Result<LaunchCommand, LaunchError>)
    requires
        spec_detect(*d) != Some(ServerType::Vanilla),
    ensures
        spec_detect(*d) is None <==> (r matches Err(e) && e == LaunchError::NotDetected),
        spec_detect(*d) == Some(ServerType::Forge) ==> (r is Ok <==> forge::spec_forge_ok(*d)) && (
        r matches Err(e) ==> e == LaunchError::MissingArgsFile),
        spec_detect(*d) == Some(ServerType::Paper) ==> (r is Ok <==> paper::spec_paper_ok(*d)) && (
        r matches Err(e) ==> e == LaunchError::NoArtifact),
        r matches Ok(c) ==> c.program@ == "java"@ && c.workdir@ == server_dir@ && c.env@.len() == 0
            && (spec_detect(*d) == Some(ServerType::Forge) ==> c.args.deep_view()
            == forge::spec_forge_args(*d, platform)) && (spec_detect(*d) == Some(ServerType::Paper)
            ==> c.args.deep_view() == paper::spec_paper_args(*d, extra_jvm_args.deep_view())),
{
    match ServerType::detect(d) {
        None => Err(LaunchError::NotDetected),
        Some(t) => build_command(t, d, platform, extra_jvm_args, server_dir),
    }
}

} // verus!
