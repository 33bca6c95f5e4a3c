use stats_provider::stats::network::{get_network_stats, InterfaceReading};
use stats_provider::stats::system::{can_tell, get_system_stats, SystemInfo};
use stats_provider::stats::uptime::get_uptime_stats;

fn uptime(secs: u64, flags: &[&str]) -> String {
    let mut buf = String::new();
    get_uptime_stats(secs, flags, &mut buf);
    buf
}

fn reading(name: &str, received: u64, transmitted: u64) -> InterfaceReading {
    InterfaceReading { name: name.to_string(), received, transmitted }
}

fn network(
    readings: &[InterfaceReading],
    interfaces: Option<&[String]>,
    interval: u32,
    no_units: bool,
) -> String {
    let mut buf = String::new();
    get_network_stats(readings, interfaces, interval, no_units, &mut buf);
    buf
}

fn machine() -> SystemInfo {
    SystemInfo {
        arch: "arm64".to_string(),
        distro: "macos".to_string(),
        host_name: Some("mini.local".to_string()),
        kernel_version: Some("23.5.0".to_string()),
        name: Some("Darwin".to_string()),
        os_version: Some("14.5".to_string()),
        long_os_version: Some("macOS 14.5 Sonoma".to_string()),
    }
}

fn system(info: &SystemInfo, flags: &[&str]) -> String {
    let mut buf = String::new();
    assert!(can_tell(info, flags));
    get_system_stats(info, flags, &mut buf);
    buf
}

const SAMPLE_UPTIMES: [u64; 6] = [0, 59, 61, 3600, 1_000_000, u64::MAX];

#[test]
fn test_get_uptime_stats_all_units() {
    for secs in SAMPLE_UPTIMES {
        let mut buf = String::new();
        get_uptime_stats(secs, &["week", "day", "hour", "min", "sec"], &mut buf);

        assert!(buf.starts_with("UPTIME=\""));
        assert!(buf.ends_with("\" "));
    }
}

#[test]
fn test_get_uptime_stats_single_unit() {
    for secs in SAMPLE_UPTIMES {
        let mut buf = String::new();
        get_uptime_stats(secs, &["min"], &mut buf);

        assert!(buf.contains("UPTIME=\""));
        assert!(buf.contains("m"));
    }
}

#[test]
fn test_get_uptime_stats_empty_flags() {
    for secs in SAMPLE_UPTIMES {
        let mut buf = String::new();
        get_uptime_stats(secs, &[], &mut buf);

        assert!(buf.contains("UPTIME=\""));
    }
}

#[test]
fn test_get_uptime_stats_invalid_flag() {
    for secs in SAMPLE_UPTIMES {
        let mut buf = String::new();
        get_uptime_stats(secs, &["invalid"], &mut buf);

        assert_eq!(buf, "UPTIME=\"0s\" ");
    }
}

#[test]
fn uptime_is_split_over_all_units() {
    let secs = 2 * 604800 + 3 * 86400 + 4 * 3600 + 5 * 60 + 6;
    assert_eq!(uptime(secs, &[]), "UPTIME=\"2w 3d 4h 5m 6s\" ");
    assert_eq!(uptime(secs, &["week", "day", "hour", "min", "sec"]), "UPTIME=\"2w 3d 4h 5m 6s\" ");
}

#[test]
fn uptime_units_that_do_not_fit_are_left_out() {
    assert_eq!(uptime(3600, &[]), "UPTIME=\"1h\" ");
    assert_eq!(uptime(3661, &[]), "UPTIME=\"1h 1m 1s\" ");
    assert_eq!(uptime(604800 + 1, &[]), "UPTIME=\"1w 1s\" ");
    assert_eq!(uptime(59, &[]), "UPTIME=\"59s\" ");
}

#[test]
fn uptime_goes_to_the_units_asked_for() {
    assert_eq!(uptime(90061, &["hour"]), "UPTIME=\"25h\" ");
    assert_eq!(uptime(90061, &["min"]), "UPTIME=\"1501m\" ");
    assert_eq!(uptime(90061, &["day", "min"]), "UPTIME=\"1d 61m\" ");
    assert_eq!(uptime(90061, &["sec"]), "UPTIME=\"90061s\" ");
}

#[test]
fn uptime_flags_are_taken_in_the_order_of_the_units() {
    assert_eq!(uptime(90061, &["min", "day"]), "UPTIME=\"1d 61m\" ");
    assert_eq!(uptime(90061, &["sec", "min", "hour", "day", "week"]), "UPTIME=\"1d 1h 1m 1s\" ");
}

#[test]
fn uptime_flag_given_twice_counts_once() {
    assert_eq!(uptime(125, &["min", "min"]), "UPTIME=\"2m\" ");
    assert_eq!(uptime(125, &["min", "sec", "min"]), "UPTIME=\"2m 5s\" ");
}

#[test]
fn uptime_too_short_is_zero_in_the_smallest_unit_asked_for() {
    assert_eq!(uptime(0, &[]), "UPTIME=\"0s\" ");
    assert_eq!(uptime(59, &["min"]), "UPTIME=\"0m\" ");
    assert_eq!(uptime(59, &["week", "hour"]), "UPTIME=\"0h\" ");
    assert_eq!(uptime(59, &["hour", "week"]), "UPTIME=\"0h\" ");
    assert_eq!(uptime(3599, &["day"]), "UPTIME=\"0d\" ");
    assert_eq!(uptime(3599, &["week"]), "UPTIME=\"0w\" ");
    assert_eq!(uptime(0, &["sec"]), "UPTIME=\"0s\" ");
}

#[test]
fn uptime_unknown_flags_select_nothing() {
    assert_eq!(uptime(90061, &["invalid"]), "UPTIME=\"0s\" ");
    assert_eq!(uptime(90061, &["invalid", "hour"]), "UPTIME=\"25h\" ");
    assert_eq!(uptime(90061, &["Hour", ""]), "UPTIME=\"0s\" ");
}

#[test]
fn uptime_of_the_longest_count_is_written_in_full() {
    assert_eq!(uptime(u64::MAX, &["sec"]), "UPTIME=\"18446744073709551615s\" ");
    assert_eq!(uptime(u64::MAX, &[]), "UPTIME=\"30500568904943w 7h 15s\" ");
}

#[test]
fn uptime_is_appended_to_the_payload() {
    let mut buf = "CPU_USAGE=\"4%\" ".to_string();
    get_uptime_stats(61, &["min"], &mut buf);
    assert_eq!(buf, "CPU_USAGE=\"4%\" UPTIME=\"1m\" ");
}

#[test]
fn network_rates_are_whole_kilobytes_per_second() {
    let readings = [reading("en0", 10240, 2048)];
    assert_eq!(
        network(&readings, None, 1, false),
        "NETWORK_RX_en0=\"10KB/s\" NETWORK_TX_en0=\"2KB/s\" "
    );
    assert_eq!(
        network(&readings, None, 5, false),
        "NETWORK_RX_en0=\"2KB/s\" NETWORK_TX_en0=\"0KB/s\" "
    );
    let readings = [reading("en0", 1023, 5 * 1024 * 3 - 1)];
    assert_eq!(
        network(&readings, None, 3, false),
        "NETWORK_RX_en0=\"0KB/s\" NETWORK_TX_en0=\"4KB/s\" "
    );
}

#[test]
fn network_without_units() {
    let readings = [reading("lo0", 4096, 8192)];
    assert_eq!(network(&readings, None, 2, true), "NETWORK_RX_lo0=\"2\" NETWORK_TX_lo0=\"4\" ");
}

#[test]
fn network_interval_of_zero_writes_nothing() {
    let readings = [reading("en0", 10240, 2048)];
    assert_eq!(network(&readings, None, 0, false), "");
    let names = vec!["en0".to_string()];
    assert_eq!(network(&readings, Some(&names), 0, true), "");
}

#[test]
fn network_named_interfaces_come_in_the_order_asked() {
    let readings = [reading("en0", 1024, 0), reading("lo0", 2048, 0), reading("en1", 3072, 0)];
    let names = vec!["en1".to_string(), "en0".to_string()];
    assert_eq!(
        network(&readings, Some(&names), 1, true),
        "NETWORK_RX_en1=\"3\" NETWORK_TX_en1=\"0\" NETWORK_RX_en0=\"1\" NETWORK_TX_en0=\"0\" "
    );
}

#[test]
fn network_interface_that_is_missing_is_left_out() {
    let readings = [reading("en0", 1024, 1024)];
    let names = vec!["utun9".to_string(), "en0".to_string(), "en7".to_string()];
    assert_eq!(
        network(&readings, Some(&names), 1, false),
        "NETWORK_RX_en0=\"1KB/s\" NETWORK_TX_en0=\"1KB/s\" "
    );
    assert_eq!(network(&[], Some(&names), 1, false), "");
    assert_eq!(network(&readings, Some(&[]), 1, false), "");
}

#[test]
fn network_without_names_reports_every_interface() {
    let readings = [reading("en0", 1024, 0), reading("lo0", 0, 1024)];
    assert_eq!(
        network(&readings, None, 1, true),
        "NETWORK_RX_en0=\"1\" NETWORK_TX_en0=\"0\" NETWORK_RX_lo0=\"0\" NETWORK_TX_lo0=\"1\" "
    );
    assert_eq!(network(&[], None, 1, true), "");
}

#[test]
fn network_interface_asked_twice_is_reported_twice() {
    let readings = [reading("en0", 2048, 1024)];
    let names = vec!["en0".to_string(), "en0".to_string()];
    assert_eq!(
        network(&readings, Some(&names), 1, true),
        "NETWORK_RX_en0=\"2\" NETWORK_TX_en0=\"1\" NETWORK_RX_en0=\"2\" NETWORK_TX_en0=\"1\" "
    );
}

#[test]
fn network_of_the_largest_counts() {
    let readings = [reading("en0", u64::MAX, u64::MAX)];
    assert_eq!(
        network(&readings, None, u32::MAX, true),
        "NETWORK_RX_en0=\"4194304\" NETWORK_TX_en0=\"4194304\" "
    );
}

#[test]
fn system_tokens_follow_the_flags() {
    let info = machine();
    assert_eq!(system(&info, &["arch"]), "ARCH=\"arm64\" ");
    assert_eq!(system(&info, &["distro"]), "DISTRO=\"macos\" ");
    assert_eq!(system(&info, &["host_name"]), "HOST_NAME=\"mini.local\" ");
    assert_eq!(system(&info, &["kernel_version"]), "KERNEL_VERSION=\"23.5.0\" ");
    assert_eq!(system(&info, &["name"]), "SYSTEM_NAME=\"Darwin\" ");
    assert_eq!(system(&info, &["os_version"]), "OS_VERSION=\"14.5\" ");
    assert_eq!(system(&info, &["long_os_version"]), "LONG_OS_VERSION=\"macOS 14.5 Sonoma\" ");
    assert_eq!(
        system(&info, &["os_version", "arch", "arch"]),
        "OS_VERSION=\"14.5\" ARCH=\"arm64\" ARCH=\"arm64\" "
    );
}

#[test]
fn system_unknown_flags_write_nothing() {
    let info = machine();
    assert_eq!(system(&info, &[]), "");
    assert_eq!(system(&info, &["cpu", "", "Arch"]), "");
    assert_eq!(system(&info, &["cpu", "name"]), "SYSTEM_NAME=\"Darwin\" ");
}

#[test]
fn system_value_that_was_not_read_cannot_be_told() {
    let mut info = machine();
    info.host_name = None;
    assert!(!can_tell(&info, &["arch", "host_name"]));
    assert!(can_tell(&info, &["arch", "name", "unknown"]));
    assert!(can_tell(&info, &[]));
    info.long_os_version = None;
    assert!(!can_tell(&info, &["long_os_version"]));
    assert!(can_tell(&info, &["os_version"]));
    assert_eq!(system(&info, &["arch", "os_version"]), "ARCH=\"arm64\" OS_VERSION=\"14.5\" ");
}
