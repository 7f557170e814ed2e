use runner::discovery::{find_by_name, DiscoveryDriver, DiscoveryStep};
use runner::process_tree::ProcessInfo;

fn p(name: &str, pid: u32, parent_pid: u32) -> ProcessInfo {
    ProcessInfo { name: name.to_string(), pid, parent_pid }
}

#[test]
fn the_first_process_with_the_name_wins() {
    let procs = vec![p("bash", 10, 1), p("dotnet.exe", 20, 10), p("dotnet.exe", 30, 10)];
    assert_eq!(find_by_name(&procs, &"dotnet.exe".to_string()), Some(20));
    assert_eq!(find_by_name(&procs, &"java".to_string()), None);
    assert_eq!(find_by_name(&vec![], &"dotnet.exe".to_string()), None);
}

#[test]
fn discovery_polls_until_the_worker_appears() {
    let target = "dotnet.exe".to_string();
    let mut driver = DiscoveryDriver::new(5);

    let early = vec![p("bash", 10, 1)];
    assert_eq!(driver.step(Some(&early), &target), DiscoveryStep::PollAgain);
    // a failed scan costs a poll but only means trying again
    assert_eq!(driver.step(None, &target), DiscoveryStep::PollAgain);

    let later = vec![p("bash", 10, 1), p("dotnet.exe", 77, 10)];
    assert_eq!(driver.step(Some(&later), &target), DiscoveryStep::Found(77));
}

#[test]
fn discovery_times_out_after_its_budget() {
    let target = "dotnet.exe".to_string();
    let scan = vec![p("bash", 10, 1)];
    let mut driver = DiscoveryDriver::new(2);
    assert_eq!(driver.step(Some(&scan), &target), DiscoveryStep::PollAgain);
    assert_eq!(driver.step(Some(&scan), &target), DiscoveryStep::PollAgain);
    assert_eq!(driver.step(Some(&scan), &target), DiscoveryStep::TimedOut);
    // the timeout is final, whatever later scans would show
    let found = vec![p("dotnet.exe", 77, 10)];
    assert_eq!(driver.step(Some(&found), &target), DiscoveryStep::TimedOut);
}
