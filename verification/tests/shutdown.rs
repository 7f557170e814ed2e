use runner::shutdown::{ShutdownDriver, ShutdownStep};

#[test]
fn a_process_that_never_exits_gets_at_most_three_more_stops() {
    let mut driver = ShutdownDriver::new(3);
    let mut sends = 0u32;
    let mut wakeups = 0u32;
    loop {
        match driver.step(true) {
            ShutdownStep::SendStopAndWait => sends += 1,
            ShutdownStep::GiveUp => break,
            ShutdownStep::Done => panic!("the process never exits"),
        }
        wakeups += 1;
        assert!(wakeups < 100, "shutdown must not hang");
    }
    assert_eq!(sends, 3);
}

#[test]
fn a_process_that_exits_ends_the_shutdown() {
    let mut driver = ShutdownDriver::new(3);
    assert_eq!(driver.step(true), ShutdownStep::SendStopAndWait);
    assert_eq!(driver.step(false), ShutdownStep::Done);
}

#[test]
fn zero_retries_give_up_at_once() {
    let mut driver = ShutdownDriver::new(0);
    assert_eq!(driver.step(true), ShutdownStep::GiveUp);
    assert_eq!(driver.step(false), ShutdownStep::Done);
}
