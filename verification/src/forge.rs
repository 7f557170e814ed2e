//! Argument building for a forge server: the user JVM arguments file when
//! present, the platform-specific arguments file shipped under the forge
//! libraries, and the headless flag.

use crate::install::{InstallDir, LaunchError, Platform};
use vstd::prelude::*;

verus! {

/// The name of the platform-arguments file forge ships per platform.
pub open spec fn spec_args_file(p: Platform) -> Seq<char> {
    if p == Platform::Windows {
        "win_args.txt"@
    } else {
        "unix_args.txt"@
    }
}

/// The `@`-prefixed path of the platform-arguments file, under the first
/// entry of the forge version directory.
pub open spec fn spec_platform_args_path(d: InstallDir, p: Platform) -> Seq<char>
    recommends
        d.forge_version_dirs@.len() > 0,
{
    "@libraries/net/minecraftforge/forge/"@ + d.forge_version_dirs@[0]@ + "/"@ + spec_args_file(p)
}

/// Arguments can be built exactly when a forge version directory exists.
pub open spec fn spec_forge_ok(d: InstallDir) -> bool {
    d.forge_version_dirs@.len() > 0
}

/// The complete forge argument list.
pub open spec fn spec_forge_args(d: InstallDir, p: Platform) -> Seq<Seq<char>>
    recommends
        spec_forge_ok(d),
{
    let base: Seq<Seq<char>> = if d.has_user_jvm_args {
        seq!["@user_jvm_args.txt"@]
    } else {
        Seq::empty()
    };
    base + seq![spec_platform_args_path(d, p), "--nogui"@]
}

/// Locates the platform-arguments file under the first forge version
/// directory, or fails when no version directory exists.
pub fn find_platform_args(d: &InstallDir, platform: Platform) -> (r: Result<String, LaunchError>)
    ensures
        r is Ok <==> spec_forge_ok(*d),
        r matches Err(e) ==> e == LaunchError::MissingArgsFile,
        r matches Ok(path) ==> path@ == spec_platform_args_path(*d, platform),
{
    if d.forge_version_dirs.len() == 0 {
        return Err(LaunchError::MissingArgsFile);
    }
    let mut path = "@libraries/net/minecraftforge/forge/".to_owned();
    path.append(d.forge_version_dirs[0].as_str());
    path.append("/");
    if platform == Platform::Windows {
        path.append("win_args.txt");
    } else {
        path.append("unix_args.txt");
    }
    Ok(path)
}

/// The forge argument list: `@user_jvm_args.txt` when that file exists, the
/// platform-arguments file, then `--nogui`.
pub fn args(d: &InstallDir, platform: Platform) -> (r: Result<Vec<String>, LaunchError>)
    ensures
        r is Ok <==> spec_forge_ok(*d),
        r matches Err(e) ==> e == LaunchError::MissingArgsFile,
        r matches Ok(v) ==> v.deep_view() == spec_forge_args(*d, platform),
{
    let platform_args = match find_platform_args(d, platform) {
        Ok(p) => p,
        Err(e) => {
            return Err(e);
        },
    };
    let mut out: Vec<String> = Vec::new();
    if d.has_user_jvm_args {
        out.push("@user_jvm_args.txt".to_owned());
    }
    out.push(platform_args);
    out.push("--nogui".to_owned());
    proof {
        assert(out.deep_view() =~= spec_forge_args(*d, platform));
    }
    Ok(out)
}

} // verus!
