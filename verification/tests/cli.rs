use stats_provider::cli::{
    all_battery_flags, all_cpu_flags, all_disk_flags, all_memory_flags, all_ram_flags,
    all_swp_flags, all_system_flags, all_uptime_flags, validate_cli, Cli, CliError,
    DEFAULT_INTERVAL, DEFAULT_NETWORK_REFRESH_RATE, MAX_INTERVAL, MAX_NETWORK_REFRESH_RATE,
    MIN_INTERVAL, MIN_NETWORK_REFRESH_RATE,
};

fn options(all: bool, interval: u32, network_refresh_rate: u32) -> Cli {
    Cli {
        all,
        battery: None,
        cpu: None,
        disk: None,
        memory: None,
        network: None,
        system: None,
        uptime: None,
        interval,
        network_refresh_rate,
        bar: None,
        verbose: false,
        no_units: false,
    }
}

#[test]
fn test_validate_cli_with_all_flag() {
    let cli = Cli {
        all: true,
        battery: None,
        cpu: None,
        disk: None,
        memory: None,
        network: None,
        system: None,
        uptime: None,
        interval: DEFAULT_INTERVAL,
        network_refresh_rate: DEFAULT_NETWORK_REFRESH_RATE,
        bar: None,
        verbose: false,
        no_units: false,
    };
    assert!(validate_cli(&cli).is_ok());
}

#[test]
fn test_validate_cli_with_cpu_flag() {
    let cli = Cli {
        all: false,
        battery: None,
        cpu: Some(vec!["usage".to_string()]),
        disk: None,
        memory: None,
        network: None,
        system: None,
        uptime: None,
        interval: DEFAULT_INTERVAL,
        network_refresh_rate: DEFAULT_NETWORK_REFRESH_RATE,
        bar: None,
        verbose: false,
        no_units: false,
    };
    assert!(validate_cli(&cli).is_ok());
}

#[test]
fn test_validate_cli_no_flags() {
    let cli = Cli {
        all: false,
        battery: None,
        cpu: None,
        disk: None,
        memory: None,
        network: None,
        system: None,
        uptime: None,
        interval: DEFAULT_INTERVAL,
        network_refresh_rate: DEFAULT_NETWORK_REFRESH_RATE,
        bar: None,
        verbose: false,
        no_units: false,
    };
    assert!(validate_cli(&cli).is_err());
}

#[test]
fn test_validate_cli_interval_too_low() {
    let cli = Cli {
        all: true,
        battery: None,
        cpu: None,
        disk: None,
        memory: None,
        network: None,
        system: None,
        uptime: None,
        interval: 0,
        network_refresh_rate: DEFAULT_NETWORK_REFRESH_RATE,
        bar: None,
        verbose: false,
        no_units: false,
    };
    assert!(validate_cli(&cli).is_err());
}

#[test]
fn test_validate_cli_interval_too_high() {
    let cli = Cli {
        all: true,
        battery: None,
        cpu: None,
        disk: None,
        memory: None,
        network: None,
        system: None,
        uptime: None,
        interval: MAX_INTERVAL + 1,
        network_refresh_rate: DEFAULT_NETWORK_REFRESH_RATE,
        bar: None,
        verbose: false,
        no_units: false,
    };
    assert!(validate_cli(&cli).is_err());
}

#[test]
fn test_validate_cli_network_refresh_rate_too_low() {
    let cli = Cli {
        all: true,
        battery: None,
        cpu: None,
        disk: None,
        memory: None,
        network: None,
        system: None,
        uptime: None,
        interval: DEFAULT_INTERVAL,
        network_refresh_rate: 0,
        bar: None,
        verbose: false,
        no_units: false,
    };
    assert!(validate_cli(&cli).is_err());
}

#[test]
fn test_validate_cli_network_refresh_rate_too_high() {
    let cli = Cli {
        all: true,
        battery: None,
        cpu: None,
        disk: None,
        memory: None,
        network: None,
        system: None,
        uptime: None,
        interval: DEFAULT_INTERVAL,
        network_refresh_rate: MAX_NETWORK_REFRESH_RATE + 1,
        bar: None,
        verbose: false,
        no_units: false,
    };
    assert!(validate_cli(&cli).is_err());
}

#[test]
fn test_all_cpu_flags_returns_correct_flags() {
    let flags = all_cpu_flags();
    assert_eq!(flags, vec!["count", "frequency", "temperature", "usage"]);
}

#[test]
fn test_all_disk_flags_returns_correct_flags() {
    let flags = all_disk_flags();
    assert_eq!(flags, vec!["count", "free", "total", "usage", "used"]);
}

#[test]
fn test_all_memory_flags_contains_ram_and_swap() {
    let flags = all_memory_flags();
    assert!(flags.contains(&"ram_available"));
    assert!(flags.contains(&"swp_total"));
    assert_eq!(flags.len(), 8);
}

#[test]
fn test_all_system_flags_returns_correct_flags() {
    let flags = all_system_flags();
    assert!(flags.contains(&"arch"));
    assert!(flags.contains(&"distro"));
    assert_eq!(flags.len(), 7);
}

#[test]
fn test_all_uptime_flags_returns_correct_flags() {
    let flags = all_uptime_flags();
    assert_eq!(flags, vec!["week", "day", "hour", "min", "sec"]);
}

#[test]
fn interval_bounds_are_inclusive() {
    assert_eq!(validate_cli(&options(true, MIN_INTERVAL, DEFAULT_NETWORK_REFRESH_RATE)), Ok(()));
    assert_eq!(validate_cli(&options(true, MAX_INTERVAL, DEFAULT_NETWORK_REFRESH_RATE)), Ok(()));
    assert_eq!(
        validate_cli(&options(true, MAX_INTERVAL + 1, DEFAULT_NETWORK_REFRESH_RATE)),
        Err(CliError::IntervalOutOfRange { got: 3601 })
    );
    assert_eq!(
        validate_cli(&options(true, 0, DEFAULT_NETWORK_REFRESH_RATE)),
        Err(CliError::IntervalOutOfRange { got: 0 })
    );
}

#[test]
fn network_refresh_rate_bounds_are_inclusive() {
    assert_eq!(validate_cli(&options(true, DEFAULT_INTERVAL, MIN_NETWORK_REFRESH_RATE)), Ok(()));
    assert_eq!(validate_cli(&options(true, DEFAULT_INTERVAL, MAX_NETWORK_REFRESH_RATE)), Ok(()));
    assert_eq!(
        validate_cli(&options(true, DEFAULT_INTERVAL, 101)),
        Err(CliError::NetworkRefreshRateOutOfRange { got: 101 })
    );
    assert_eq!(
        validate_cli(&options(true, DEFAULT_INTERVAL, 0)),
        Err(CliError::NetworkRefreshRateOutOfRange { got: 0 })
    );
}

#[test]
fn the_first_broken_rule_is_reported() {
    assert_eq!(
        validate_cli(&options(false, 0, 0)),
        Err(CliError::IntervalOutOfRange { got: 0 })
    );
    assert_eq!(
        validate_cli(&options(false, 5, 0)),
        Err(CliError::NetworkRefreshRateOutOfRange { got: 0 })
    );
    assert_eq!(validate_cli(&options(false, 5, 5)), Err(CliError::NoStatsRequested));
}

#[test]
fn each_kind_of_stats_is_enough() {
    let names = vec!["x".to_string()];
    let mut cli = options(false, 5, 5);
    cli.battery = Some(names.clone());
    assert_eq!(validate_cli(&cli), Ok(()));
    let mut cli = options(false, 5, 5);
    cli.disk = Some(names.clone());
    assert_eq!(validate_cli(&cli), Ok(()));
    let mut cli = options(false, 5, 5);
    cli.memory = Some(names.clone());
    assert_eq!(validate_cli(&cli), Ok(()));
    let mut cli = options(false, 5, 5);
    cli.network = Some(names.clone());
    assert_eq!(validate_cli(&cli), Ok(()));
    let mut cli = options(false, 5, 5);
    cli.system = Some(names.clone());
    assert_eq!(validate_cli(&cli), Ok(()));
    let mut cli = options(false, 5, 5);
    cli.uptime = Some(names);
    assert_eq!(validate_cli(&cli), Ok(()));
}

#[test]
fn flag_lists_are_exact() {
    assert_eq!(all_battery_flags(), vec!["percentage", "remaining", "state", "time_to_full"]);
    assert_eq!(all_ram_flags(), vec!["ram_available", "ram_total", "ram_usage", "ram_used"]);
    assert_eq!(all_swp_flags(), vec!["swp_free", "swp_total", "swp_usage", "swp_used"]);
    assert_eq!(
        all_memory_flags(),
        vec![
            "ram_available",
            "ram_total",
            "ram_usage",
            "ram_used",
            "swp_free",
            "swp_total",
            "swp_usage",
            "swp_used"
        ]
    );
    assert_eq!(
        all_system_flags(),
        vec![
            "arch",
            "distro",
            "host_name",
            "kernel_version",
            "name",
            "os_version",
            "long_os_version"
        ]
    );
}

#[test]
fn errors_say_which_rule_was_broken() {
    assert_eq!(
        CliError::IntervalOutOfRange { got: 0 }.message(),
        "Interval must be between 1 and 3600 seconds, got 0"
    );
    assert_eq!(
        CliError::IntervalOutOfRange { got: 4000 }.message(),
        "Interval must be between 1 and 3600 seconds, got 4000"
    );
    assert_eq!(
        CliError::NetworkRefreshRateOutOfRange { got: 101 }.message(),
        "Network refresh rate must be between 1 and 100, got 101"
    );
    assert_eq!(
        CliError::NoStatsRequested.message(),
        "At least one stat type must be specified, or use --all"
    );
}

#[test]
fn defaults_pass_the_rules() {
    assert_eq!(DEFAULT_INTERVAL, 5);
    assert_eq!(DEFAULT_NETWORK_REFRESH_RATE, 5);
    assert_eq!(validate_cli(&options(true, DEFAULT_INTERVAL, DEFAULT_NETWORK_REFRESH_RATE)), Ok(()));
}
