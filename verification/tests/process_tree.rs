use runner::process_tree::{children_of, ProcessInfo};

fn p(name: &str, pid: u32, parent_pid: u32) -> ProcessInfo {
    ProcessInfo { name: name.to_string(), pid, parent_pid }
}

#[test]
fn get_children() {
    // 4 is the system process
    let snapshot = vec![
        p("system", 4, 0),
        p("smss", 300, 4),
        p("csrss", 400, 4),
        p("other", 900, 1),
    ];
    let children = children_of(4, &snapshot);

    assert!(!children.is_empty());
    assert!(children.iter().all(|e| e.parent_pid == 4));
}

#[test]
fn grandchildren_are_returned_and_root_never_is() {
    // root -> a -> b
    let snapshot = vec![p("root", 10, 1), p("a", 20, 10), p("b", 30, 20), p("loner", 40, 99)];
    let children = children_of(10, &snapshot);

    let pids: Vec<u32> = children.iter().map(|e| e.pid).collect();
    assert_eq!(pids.len(), 2);
    assert!(pids.contains(&20));
    assert!(pids.contains(&30));
    assert!(!pids.contains(&10));
}

#[test]
fn unknown_pid_has_no_children() {
    let snapshot = vec![p("a", 20, 10), p("b", 30, 20)];
    let children = children_of(7777, &snapshot);
    assert!(children.is_empty());
}

#[test]
fn transient_parent_is_tolerated() {
    // b's parent chain reaches 10 through 20, though no process 20 exists
    let snapshot = vec![p("a", 21, 10), p("b", 30, 20)];
    let children = children_of(10, &snapshot);
    let pids: Vec<u32> = children.iter().map(|e| e.pid).collect();
    assert_eq!(pids, vec![21]);
}

#[test]
fn deep_chain_and_no_duplicates() {
    let snapshot = vec![
        p("c", 3, 2),
        p("a", 1, 0),
        p("b", 2, 1),
        p("d", 4, 3),
        p("e", 5, 3),
    ];
    let children = children_of(1, &snapshot);
    let mut pids: Vec<u32> = children.iter().map(|e| e.pid).collect();

    // a parent always stands before its children in the output
    for (i, c) in children.iter().enumerate() {
        assert!(c.parent_pid == 1 || children[..i].iter().any(|e| e.pid == c.parent_pid));
    }

    pids.sort();
    assert_eq!(pids, vec![2, 3, 4, 5]);
}
