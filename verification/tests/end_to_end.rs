use runner::install::{InstallDir, Platform};
use runner::minecraft;
use runner::relay::encode_command;
use runner::supervisor::{ExecResponse, StartResponse, Supervisor, SupervisorState};

/// A start against a detectable forge fixture reaches `Running`, an operator
/// command becomes `list` followed by a newline on the input stream, and an
/// externally observed exit makes `running` report false.
#[test]
fn start_exec_and_external_kill() {
    let fixture = InstallDir {
        has_forge_marker: true,
        has_velocity_marker: false,
        has_mojang_marker: false,
        has_terraria_server: false,
        has_tmodloader_dll: false,
        has_user_jvm_args: true,
        has_server_jar: false,
        forge_version_dirs: vec!["47.2.0".to_string()],
        jar_files: vec![],
    };
    let (tx, mut rx) = tokio::sync::broadcast::channel(16);
    let mut sup = Supervisor::new(tx);

    // start: gate, launch strategy, spawn, wire
    assert_eq!(sup.begin_start(), StartResponse::Accepted);
    let cmd = minecraft::plan(&fixture, Platform::Unix, &vec![], &"/srv/mc".to_string()).unwrap();
    assert_eq!(cmd.program, "java");
    let spawned_pid = 31337u32;
    assert!(sup.complete_start(spawned_pid));
    assert_eq!(sup.current_state(), SupervisorState::Running);
    assert!(sup.is_running());
    assert_eq!(sup.tracked_pid(), spawned_pid);

    // exec("list") writes "list\n" to the recorded input stream
    assert_eq!(sup.exec_command("list".to_string()), ExecResponse::Accepted);
    let queued = rx.try_recv().unwrap();
    let written = encode_command(&queued);
    assert_eq!(written, "list\n");

    // the process dies externally; the exit watcher reports it
    sup.on_exit();
    assert!(!sup.is_running());
    assert_eq!(sup.tracked_pid(), 0);
}
