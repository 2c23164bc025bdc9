use sysmon::{fixed2_text, percent_text, round_div, DiskUsage, HostReading, NetworkUsage, RawDisk, SystemSnapshot};

#[test]
fn build_keeps_order_and_derives_used_space() {
    let reading = HostReading {
        cpu_usages: vec![1250, 3],
        used_memory: 7,
        total_memory: 9,
        used_swap: 1,
        total_swap: 2,
        disks: vec![
            RawDisk { name: "nvme0".to_string(), total_space: 100, available_space: 40 },
            RawDisk { name: "sdb".to_string(), total_space: 50, available_space: 50 },
        ],
        networks: vec![NetworkUsage { name: "eth1".to_string(), received: 1, transmitted: 2 }],
    };
    let s = SystemSnapshot::build(reading);
    assert_eq!(s.cpu_usages, vec![1250, 3]);
    assert_eq!((s.used_memory, s.total_memory, s.used_swap, s.total_swap), (7, 9, 1, 2));
    assert_eq!(s.disks.len(), 2);
    assert_eq!((s.disks[0].name.as_str(), s.disks[0].total_space, s.disks[0].used_space), ("nvme0", 100, 60));
    assert_eq!((s.disks[1].name.as_str(), s.disks[1].total_space, s.disks[1].used_space), ("sdb", 50, 0));
    assert_eq!(s.networks.len(), 1);
    assert_eq!((s.networks[0].received, s.networks[0].transmitted), (1, 2));
}

#[test]
fn build_with_no_devices_gives_empty_lists() {
    let s = SystemSnapshot::build(HostReading {
        cpu_usages: vec![],
        used_memory: 0,
        total_memory: 0,
        used_swap: 0,
        total_swap: 0,
        disks: vec![],
        networks: vec![],
    });
    assert!(s.cpu_usages.is_empty() && s.disks.is_empty() && s.networks.is_empty());
}

#[test]
fn more_available_than_total_gives_zero_used() {
    let s = SystemSnapshot::build(HostReading {
        cpu_usages: vec![],
        used_memory: 0,
        total_memory: 0,
        used_swap: 0,
        total_swap: 0,
        disks: vec![RawDisk { name: "odd".to_string(), total_space: 10, available_space: 11 }],
        networks: vec![],
    });
    assert_eq!(s.disks[0].used_space, 0);
}

fn snapshot(used_memory: u64, total_memory: u64, used_swap: u64, total_swap: u64) -> SystemSnapshot {
    SystemSnapshot {
        cpu_usages: vec![],
        used_memory,
        total_memory,
        used_swap,
        total_swap,
        disks: vec![],
        networks: vec![],
    }
}

#[test]
fn memory_percent_values() {
    assert_eq!(snapshot(512, 1024, 0, 0).memory_percent(), Some(5000));
    assert_eq!(snapshot(1, 3, 0, 0).memory_percent(), Some(3333));
    assert_eq!(snapshot(2, 3, 0, 0).memory_percent(), Some(6667));
    assert_eq!(snapshot(1024, 1024, 0, 0).memory_percent(), Some(10000));
    assert_eq!(snapshot(0, 1024, 0, 0).memory_percent(), Some(0));
    assert_eq!(snapshot(5, 0, 0, 0).memory_percent(), None);
    assert_eq!(snapshot(0, 0, 0, 0).memory_percent(), None);
}

#[test]
fn memory_percent_stays_within_range() {
    for total in 1..200u64 {
        for used in 0..=total {
            let h = snapshot(used, total, 0, 0).memory_percent().unwrap();
            assert!(h <= 10000);
            let exact = (used as f64 / total as f64) * 100.0;
            assert!((h as f64 / 100.0 - exact).abs() <= 0.005 + 1e-9);
        }
    }
}

#[test]
fn swap_and_disk_percent() {
    assert_eq!(snapshot(0, 0, 1, 4).swap_percent(), Some(2500));
    assert_eq!(snapshot(0, 0, 1, 0).swap_percent(), None);
    let d = DiskUsage { name: "sda".to_string(), total_space: 1073741824, used_space: 536870912 };
    assert_eq!(d.usage_percent(), Some(5000));
    let empty = DiskUsage { name: "none".to_string(), total_space: 0, used_space: 0 };
    assert_eq!(empty.usage_percent(), None);
}

#[test]
fn rounding_is_to_nearest_ties_to_even() {
    assert_eq!(round_div(7, 2), 4);
    assert_eq!(round_div(5, 2), 2);
    assert_eq!(round_div(10, 4), 2);
    assert_eq!(round_div(14, 4), 4);
    assert_eq!(round_div(11, 4), 3);
    assert_eq!(round_div(9, 4), 2);
    assert_eq!(round_div(0, 9), 0);
}

#[test]
fn fixed_two_decimals() {
    assert_eq!(fixed2_text(0), "0.00");
    assert_eq!(fixed2_text(5), "0.05");
    assert_eq!(fixed2_text(1234), "12.34");
    assert_eq!(fixed2_text(100000), "1000.00");
    assert_eq!(fixed2_text(u64::MAX), "184467440737095516.15");
}

#[test]
fn percent_text_values() {
    assert_eq!(percent_text(1, 2), "50.00");
    assert_eq!(percent_text(0, 0), "NaN");
    assert_eq!(percent_text(7, 0), "NaN");
    assert_eq!(percent_text(1, 3), "33.33");
}

#[test]
fn percent_text_matches_float_formatting() {
    for total in 1..300u64 {
        for used in 0..=total {
            let twice = used * 20000;
            if twice % total == 0 && (twice / total) % 2 == 1 {
                continue;
            }
            let float = format!("{:.2}", (used as f64 / total as f64) * 100.0);
            assert_eq!(percent_text(used, total), float, "{} / {}", used, total);
        }
    }
}

#[test]
fn memory_figures_match_float_formatting() {
    for x in [0u64, 1, 5242, 5243, 10485, 10486, 3276800, 1048576, 123456789, 9437184, 1572864] {
        let record = sysmon::format_record(&snapshot(x, 1048576, 0, 0), 0, 0);
        let expected = format!("used {:.2} TB", x as f64 / 1048576.0);
        assert!(record.contains(&expected), "{} gives {}", x, record);
    }
}
