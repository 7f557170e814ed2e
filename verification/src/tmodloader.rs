//! The tModLoader launch command: the server's shipped start script, run
//! through bash — on windows through the busybox bash the installation
//! carries — pointed at the supervisor's terraria configuration file.

use crate::install::{LaunchCommand, Platform};
use vstd::prelude::*;

verus! {

/// The start script under the installation directory.
pub open spec fn spec_script_path(server_dir: Seq<char>) -> Seq<char> {
    server_dir + "/start-tModLoaderServer.sh"@
}

/// The terraria configuration file under the supervisor's own working
/// directory.
pub open spec fn spec_config_path(config_dir: Seq<char>) -> Seq<char> {
    config_dir + "/terrariaConfig.txt"@
}

/// What the built command is, per platform: on windows the shipped busybox
/// runs bash with windows-version variables set for the script; on unix the
/// system bash runs the script directly. Either way the script gets
/// `-config` with the configuration file, and the child runs in the
/// installation directory.
pub open spec fn command_matches(
    c: LaunchCommand,
    server_dir: Seq<char>,
    config_dir: Seq<char>,
    p: Platform,
) -> bool {
    &&& c.workdir@ == server_dir
    &&& (p == Platform::Windows ==> {
        &&& c.program@ == server_dir + "/LaunchUtils/busybox64.exe"@
        &&& c.args.deep_view() == seq![
            "bash"@,
            spec_script_path(server_dir),
            "-config"@,
            spec_config_path(config_dir),
        ]
        &&& c.env@.len() == 2
        &&& c.env@[0].0@ == "WINDOWS_MAJOR"@
        &&& c.env@[0].1@ == "10"@
        &&& c.env@[1].0@ == "WINDOWS_MINOR"@
        &&& c.env@[1].1@ == "0"@
    })
    &&& (p == Platform::Unix ==> {
        &&& c.program@ == "bash"@
        &&& c.args.deep_view() == seq![
            spec_script_path(server_dir),
            "-config"@,
            spec_config_path(config_dir),
        ]
        &&& c.env@.len() == 0
    })
}

/// Builds the tModLoader launch command for the given installation and
/// configuration directories.
pub fn command(server_dir: &String, config_dir: &String, platform: Platform) -> (r: LaunchCommand)
    ensures
        command_matches(r, server_dir@, config_dir@, platform),
{
    let mut script = server_dir.clone();
    script.append("/start-tModLoaderServer.sh");
    let mut config = config_dir.clone();
    config.append("/terrariaConfig.txt");
    let mut args: Vec<String> = Vec::new();
    let mut env: Vec<(String, String)> = Vec::new();
    let program: String;
    if platform == Platform::Windows {
        let mut busybox = server_dir.clone();
        busybox.append("/LaunchUtils/busybox64.exe");
        program = busybox;
        args.push("bash".to_owned());
        env.push(("WINDOWS_MAJOR".to_owned(), "10".to_owned()));
        env.push(("WINDOWS_MINOR".to_owned(), "0".to_owned()));
    } else {
        program = "bash".to_owned();
    }
    args.push(script);
    args.push("-config".to_owned());
    args.push(config);
    let r = LaunchCommand { program, args, env, workdir: server_dir.clone() };
    proof {
        if platform == Platform::Windows {
            assert(r.args.deep_view() =~= seq![
                "bash"@,
                spec_script_path(server_dir@),
                "-config"@,
                spec_config_path(config_dir@),
            ]);
        } else {
            assert(r.args.deep_view() =~= seq![
                spec_script_path(server_dir@),
                "-config"@,
                spec_config_path(config_dir@),
            ]);
        }
    }
    r
}

} // verus!
