use sysmon::{
    format_record, format_untimed_record, record_now, signed_seconds, DiskUsage, HostReading,
    NetworkUsage, RawDisk, SystemSnapshot,
};

fn name(s: &str) -> String {
    s.to_string()
}

fn sample_reading() -> HostReading {
    HostReading {
        cpu_usages: vec![1000, 2000],
        used_memory: 512,
        total_memory: 1024,
        used_swap: 0,
        total_swap: 0,
        disks: vec![RawDisk { name: name("sda"), total_space: 1073741824, available_space: 536870912 }],
        networks: vec![NetworkUsage { name: name("eth0"), received: 2048, transmitted: 4096 }],
    }
}

fn empty_snapshot(used_memory: u64, total_memory: u64) -> SystemSnapshot {
    SystemSnapshot {
        cpu_usages: vec![],
        used_memory,
        total_memory,
        used_swap: 0,
        total_swap: 0,
        disks: vec![],
        networks: vec![],
    }
}

#[test]
fn end_to_end_record_lines() {
    let snapshot = SystemSnapshot::build(sample_reading());
    let record = format_record(&snapshot, 9, 5);
    let lines: Vec<&str> = record.split('\n').collect();
    assert_eq!(lines[0], "Time: 09:05");
    assert_eq!(lines[1], "Memory: used 0.00 TB / total 0.00 TB (50.00%)");
    assert_eq!(lines[2], "Swap: used 0.00 TB / total 0.00 TB (NaN%)");
    assert_eq!(lines[3], "CPU Usage: CPU 1: 10.00%, CPU 2: 20.00%");
    assert_eq!(lines[4], "Disk Usage: sda: 0.50 GB used / 1.00 GB total (50.00%)");
    assert_eq!(lines[5], "Network Usage: eth0: received 2 KB / transmitted 4 KB");
    assert!(record.ends_with("KB\n\n"));
    assert_eq!(lines.len(), 8);
}

#[test]
fn whole_record_text() {
    let snapshot = SystemSnapshot::build(sample_reading());
    assert_eq!(
        format_record(&snapshot, 23, 59),
        "Time: 23:59\nMemory: used 0.00 TB / total 0.00 TB (50.00%)\nSwap: used 0.00 TB / total 0.00 TB (NaN%)\nCPU Usage: CPU 1: 10.00%, CPU 2: 20.00%\nDisk Usage: sda: 0.50 GB used / 1.00 GB total (50.00%)\nNetwork Usage: eth0: received 2 KB / transmitted 4 KB\n\n"
    );
}

#[test]
fn empty_device_lists_keep_their_labels() {
    let record = format_record(&empty_snapshot(1048576, 2097152), 0, 0);
    assert_eq!(
        record,
        "Time: 00:00\nMemory: used 1.00 TB / total 2.00 TB (50.00%)\nSwap: used 0.00 TB / total 0.00 TB (NaN%)\nCPU Usage: \nDisk Usage: \nNetwork Usage: \n\n"
    );
}

#[test]
fn zero_memory_total_renders_nan() {
    let record = format_record(&empty_snapshot(0, 0), 12, 30);
    assert!(record.contains("\nMemory: used 0.00 TB / total 0.00 TB (NaN%)\n"));
}

#[test]
fn several_items_are_comma_joined() {
    let snapshot = SystemSnapshot {
        cpu_usages: vec![0, 5, 10000],
        used_memory: 3,
        total_memory: 4,
        used_swap: 1,
        total_swap: 3,
        disks: vec![
            DiskUsage { name: name("a"), total_space: 0, used_space: 0 },
            DiskUsage { name: name("b"), total_space: 3221225472, used_space: 1073741824 },
        ],
        networks: vec![
            NetworkUsage { name: name("lo"), received: 1023, transmitted: 1024 },
            NetworkUsage { name: name("wlan0"), received: 10 * 1024 + 1023, transmitted: 0 },
        ],
    };
    let record = format_record(&snapshot, 7, 45);
    let lines: Vec<&str> = record.split('\n').collect();
    assert_eq!(lines[1], "Memory: used 0.00 TB / total 0.00 TB (75.00%)");
    assert_eq!(lines[2], "Swap: used 0.00 TB / total 0.00 TB (33.33%)");
    assert_eq!(lines[3], "CPU Usage: CPU 1: 0.00%, CPU 2: 0.05%, CPU 3: 100.00%");
    assert_eq!(
        lines[4],
        "Disk Usage: a: 0.00 GB used / 0.00 GB total (NaN%), b: 1.00 GB used / 3.00 GB total (33.33%)"
    );
    assert_eq!(lines[5], "Network Usage: lo: received 0 KB / transmitted 1 KB, wlan0: received 10 KB / transmitted 0 KB");
}

#[test]
fn large_counters_do_not_overflow() {
    let record = format_record(&empty_snapshot(u64::MAX, 1), 10, 10);
    assert!(record.contains("(1844674407370955161500.00%)"));
    assert!(record.contains("used 17592186044416.00 TB"));
}

#[test]
fn record_now_stamps_a_valid_time() {
    let snapshot = SystemSnapshot::build(sample_reading());
    let record = record_now(&snapshot);
    let first = record.split('\n').next().unwrap();
    assert_eq!(first.len(), "Time: HH:MM".len());
    assert!(first.starts_with("Time: "));
    assert_ne!(first, "Time: --:--");
    let hour: u32 = first[6..8].parse().unwrap();
    let minute: u32 = first[9..11].parse().unwrap();
    assert!(hour < 24 && minute < 60);
    assert_eq!(record, format_record(&snapshot, hour, minute));
}

#[test]
fn untimed_record_keeps_every_field() {
    let snapshot = SystemSnapshot::build(sample_reading());
    let record = format_untimed_record(&snapshot);
    assert!(record.starts_with("Time: --:--\nMemory: "));
    assert_eq!(&record[11..], &format_record(&snapshot, 1, 2)[11..]);
}

#[test]
fn signed_seconds_of_clock_readings() {
    assert_eq!(signed_seconds(Ok(0)), Some(0));
    assert_eq!(signed_seconds(Ok(1_700_000_000)), Some(1_700_000_000));
    assert_eq!(signed_seconds(Err(86_400)), Some(-86_400));
    assert_eq!(signed_seconds(Ok(i64::MAX as u64)), Some(i64::MAX));
    assert_eq!(signed_seconds(Ok(i64::MAX as u64 + 1)), None);
    assert_eq!(signed_seconds(Err(i64::MAX as u64)), Some(-i64::MAX));
    assert_eq!(signed_seconds(Err(u64::MAX)), None);
}

#[test]
fn two_records_concatenate_unchanged() {
    let first = format_record(&SystemSnapshot::build(sample_reading()), 8, 0);
    let second = format_record(&empty_snapshot(1, 2), 8, 1);
    let mut log = String::new();
    log.push_str(&first);
    log.push_str(&second);
    assert!(log.starts_with(&first));
    assert_eq!(log.matches("Time: ").count(), 2);
    assert_eq!(log.split("\n\n").filter(|r| !r.is_empty()).count(), 2);
}
