use runner::install::{InstallDir, LaunchError, Platform};
use runner::{forge, minecraft, paper, terraria, tmodloader};

fn empty_dir() -> InstallDir {
    InstallDir {
        has_forge_marker: false,
        has_velocity_marker: false,
        has_mojang_marker: false,
        has_terraria_server: false,
        has_tmodloader_dll: false,
        has_user_jvm_args: false,
        has_server_jar: false,
        forge_version_dirs: vec![],
        jar_files: vec![],
    }
}

fn strings(v: &[&str]) -> Vec<String> {
    v.iter().map(|s| s.to_string()).collect()
}

#[test]
fn minecraft_flavors_are_detected_in_order() {
    let mut d = empty_dir();
    assert_eq!(minecraft::ServerType::detect(&d), None);

    d.has_mojang_marker = true;
    assert_eq!(minecraft::ServerType::detect(&d), Some(minecraft::ServerType::Vanilla));

    d.has_velocity_marker = true;
    assert_eq!(minecraft::ServerType::detect(&d), Some(minecraft::ServerType::Paper));

    d.has_forge_marker = true;
    assert_eq!(minecraft::ServerType::detect(&d), Some(minecraft::ServerType::Forge));
}

#[test]
fn terraria_flavors_are_detected_in_order() {
    let mut d = empty_dir();
    assert_eq!(terraria::ServerType::detect(&d), None);

    d.has_tmodloader_dll = true;
    assert_eq!(terraria::ServerType::detect(&d), Some(terraria::ServerType::TModLoader));

    d.has_terraria_server = true;
    assert_eq!(terraria::ServerType::detect(&d), Some(terraria::ServerType::Vanilla));
}

#[test]
fn find_platform_args_names_the_platform_file() {
    let mut d = empty_dir();
    d.forge_version_dirs = strings(&["1.20.1-47.2.0"]);

    let win = forge::find_platform_args(&d, Platform::Windows).unwrap();
    assert_eq!(win, "@libraries/net/minecraftforge/forge/1.20.1-47.2.0/win_args.txt");
    let unix = forge::find_platform_args(&d, Platform::Unix).unwrap();
    assert_eq!(unix, "@libraries/net/minecraftforge/forge/1.20.1-47.2.0/unix_args.txt");
}

#[test]
fn find_platform_args_fails_without_a_version_dir() {
    let d = empty_dir();
    assert_eq!(
        forge::find_platform_args(&d, Platform::Unix),
        Err(LaunchError::MissingArgsFile)
    );
}

#[test]
fn forge_args_list_is_exact() {
    let mut d = empty_dir();
    d.forge_version_dirs = strings(&["1.20.1-47.2.0"]);
    d.has_user_jvm_args = true;
    assert_eq!(
        forge::args(&d, Platform::Unix).unwrap(),
        strings(&[
            "@user_jvm_args.txt",
            "@libraries/net/minecraftforge/forge/1.20.1-47.2.0/unix_args.txt",
            "--nogui",
        ])
    );

    d.has_user_jvm_args = false;
    assert_eq!(
        forge::args(&d, Platform::Unix).unwrap(),
        strings(&[
            "@libraries/net/minecraftforge/forge/1.20.1-47.2.0/unix_args.txt",
            "--nogui",
        ])
    );
}

#[test]
fn paper_prefers_server_jar() {
    let mut d = empty_dir();
    d.has_user_jvm_args = true;
    d.has_server_jar = true;
    d.jar_files = strings(&["paper-1.20.jar"]);
    assert_eq!(
        paper::args(&d, &vec![]).unwrap(),
        strings(&["@user_jvm_args.txt", "-jar", "server.jar", "nogui"])
    );
}

#[test]
fn paper_prefers_a_paper_named_jar_then_the_first() {
    let mut d = empty_dir();
    d.has_user_jvm_args = true;
    d.jar_files = strings(&["other.jar", "paper-1.20.jar", "second.jar"]);
    assert_eq!(
        paper::args(&d, &vec![]).unwrap(),
        strings(&["@user_jvm_args.txt", "-jar", "paper-1.20.jar", "nogui"])
    );

    d.jar_files = strings(&["one.jar", "two.jar"]);
    assert_eq!(
        paper::args(&d, &vec![]).unwrap(),
        strings(&["@user_jvm_args.txt", "-jar", "one.jar", "nogui"])
    );
}

#[test]
fn paper_uses_extra_jvm_args_without_the_file() {
    let mut d = empty_dir();
    d.jar_files = strings(&["server-x.jar"]);
    let extra = strings(&["-Xms1G", "-Xmx4G"]);
    assert_eq!(
        paper::args(&d, &extra).unwrap(),
        strings(&["-Xms1G", "-Xmx4G", "-jar", "server-x.jar", "nogui"])
    );
}

#[test]
fn paper_without_any_jar_is_no_artifact() {
    let mut d = empty_dir();
    d.has_user_jvm_args = true;
    assert_eq!(paper::args(&d, &vec![]), Err(LaunchError::NoArtifact));
}

#[test]
fn minecraft_plan_builds_a_java_command() {
    let mut d = empty_dir();
    d.has_forge_marker = true;
    d.has_user_jvm_args = true;
    d.forge_version_dirs = strings(&["47.2.0"]);
    let server_dir = "/srv/mc".to_string();
    let c = minecraft::plan(&d, Platform::Unix, &vec![], &server_dir).unwrap();
    assert_eq!(c.program, "java");
    assert_eq!(c.workdir, "/srv/mc");
    assert!(c.env.is_empty());
    assert_eq!(
        c.args,
        strings(&[
            "@user_jvm_args.txt",
            "@libraries/net/minecraftforge/forge/47.2.0/unix_args.txt",
            "--nogui",
        ])
    );
}

#[test]
fn undetected_install_fails_the_start() {
    let d = empty_dir();
    assert!(matches!(
        minecraft::plan(&d, Platform::Unix, &vec![], &"/srv".to_string()),
        Err(LaunchError::NotDetected)
    ));
    assert!(matches!(
        terraria::plan(&d, &"/srv".to_string(), &"/wd".to_string(), Platform::Unix),
        Err(LaunchError::NotDetected)
    ));
}

#[test]
fn tmodloader_command_on_unix() {
    let c = tmodloader::command(&"/srv/tml".to_string(), &"/wd".to_string(), Platform::Unix);
    assert_eq!(c.program, "bash");
    assert_eq!(
        c.args,
        strings(&["/srv/tml/start-tModLoaderServer.sh", "-config", "/wd/terrariaConfig.txt"])
    );
    assert!(c.env.is_empty());
    assert_eq!(c.workdir, "/srv/tml");
}

#[test]
fn tmodloader_command_on_windows() {
    let c = tmodloader::command(&"C:/tml".to_string(), &"C:/wd".to_string(), Platform::Windows);
    assert_eq!(c.program, "C:/tml/LaunchUtils/busybox64.exe");
    assert_eq!(
        c.args,
        strings(&["bash", "C:/tml/start-tModLoaderServer.sh", "-config", "C:/wd/terrariaConfig.txt"])
    );
    assert_eq!(
        c.env,
        vec![
            ("WINDOWS_MAJOR".to_string(), "10".to_string()),
            ("WINDOWS_MINOR".to_string(), "0".to_string()),
        ]
    );
    assert_eq!(c.workdir, "C:/tml");
}
