//! The launch strategy's view of the server installation directory: the
//! marker paths and directory listings that flavor detection and command
//! building read, as plain values. The surrounding service fills this in
//! from the filesystem; the strategy itself touches nothing else.

use vstd::prelude::*;

verus! {

/// What the launch strategy reads from the installation directory.
pub struct InstallDir {
    /// `libraries/net/minecraftforge` exists.
    pub has_forge_marker: bool,
    /// `libraries/com/velocitypowered` exists.
    pub has_velocity_marker: bool,
    /// `libraries/com/mojang` exists.
    pub has_mojang_marker: bool,
    /// `TerrariaServer.exe` exists.
    pub has_terraria_server: bool,
    /// `tModLoader.dll` exists.
    pub has_tmodloader_dll: bool,
    /// `user_jvm_args.txt` exists.
    pub has_user_jvm_args: bool,
    /// `server.jar` exists.
    pub has_server_jar: bool,
    /// The entries of `libraries/net/minecraftforge/forge/`, in directory
    /// order; empty when that directory is missing or empty.
    pub forge_version_dirs: Vec<String>,
    /// The names of the regular files of the directory whose extension is
    /// `jar`, in directory order.
    pub jar_files: Vec<String>,
}

/// The platform the launch command is built for.
#[derive(Clone, Copy, Debug, PartialEq, Eq, Structural)]
pub enum Platform {
    Windows,
    Unix,
}

/// Why a launch command could not be built. A start that fails here rolls
/// the supervisor back to `Stopped`; nothing was acquired.
#[derive(Clone, Copy, Debug, PartialEq, Eq, Structural)]
pub enum LaunchError {
    /// No supported server flavor was detected at the installation directory.
    NotDetected,
    /// The platform-arguments file could not be located under the forge
    /// libraries.
    MissingArgsFile,
    /// No server jar artifact was found. When several candidates exist the
    /// first is picked instead of failing, so this arises only when there is
    /// none at all.
    NoArtifact,
}

/// An executable launch plan: what to spawn, with which arguments, which
/// extra environment variables, and in which working directory.
pub struct LaunchCommand {
    pub program: String,
    pub args: Vec<String>,
    pub env: Vec<(String, String)>,
    pub workdir: String,
}

} // verus!
