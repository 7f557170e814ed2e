use runner::sampler::{build_snapshot, ProcessReading, SystemReading};

#[test]
fn a_tick_with_a_live_process_fills_every_field() {
    let sys = SystemReading { cpu_per_core: vec![1550, 25, 0, 10000], ram_used: 900, ram_free: 100 };
    let process = ProcessReading { cpu: 4200, ram: 512, disk_read: 30, disk_written: 12 };
    let snap = build_snapshot(sys, Some(process));

    assert_eq!(snap.system_cpu_usage, vec![1550, 25, 0, 10000]);
    assert_eq!(snap.system_ram_used, 900);
    assert_eq!(snap.system_ram_free, 100);
    assert_eq!(snap.server_cpu_usage, Some(4200));
    assert_eq!(snap.server_ram_usage, Some(512));
    assert_eq!(snap.server_disk_usage, Some(42));
}

#[test]
fn a_tick_without_a_resolvable_process_omits_the_server_fields() {
    let sys = SystemReading { cpu_per_core: vec![100], ram_used: 1, ram_free: 2 };
    let snap = build_snapshot(sys, None);
    assert_eq!(snap.server_cpu_usage, None);
    assert_eq!(snap.server_ram_usage, None);
    assert_eq!(snap.server_disk_usage, None);
    assert_eq!(snap.system_cpu_usage, vec![100]);
}

#[test]
fn disk_traffic_saturates_instead_of_wrapping() {
    let sys = SystemReading { cpu_per_core: vec![], ram_used: 0, ram_free: 0 };
    let process = ProcessReading { cpu: 0, ram: 0, disk_read: u64::MAX - 1, disk_written: 5 };
    let snap = build_snapshot(sys, Some(process));
    assert_eq!(snap.server_disk_usage, Some(u64::MAX));
}
