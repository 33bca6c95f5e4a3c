use stats_provider::cli::Cli;
use stats_provider::plan::{
    flag_refs, initial_system_flags, missing_interfaces, next_network_tick, plan_stats,
    process_cli_flags, validate_network_interfaces, NetworkPlan, NetworkTick,
    NoNetworkInterfaces,
};

fn names(list: &[&str]) -> Vec<String> {
    list.iter().map(|name| name.to_string()).collect()
}

fn quiet(all: bool) -> Cli {
    Cli {
        all,
        battery: None,
        cpu: None,
        disk: None,
        memory: None,
        network: None,
        system: None,
        uptime: None,
        interval: 5,
        network_refresh_rate: 5,
        bar: None,
        verbose: false,
        no_units: false,
    }
}

#[test]
fn flags_are_borrowed_by_kind() {
    let mut cli = quiet(false);
    cli.cpu = Some(names(&["usage", "count"]));
    cli.network = Some(names(&["en0"]));
    cli.uptime = Some(names(&[]));
    let flags = process_cli_flags(&cli);
    assert_eq!(flags.cpu_flags, Some(&names(&["usage", "count"])[..]));
    assert_eq!(flags.disk_flags, None);
    assert_eq!(flags.memory_flags, None);
    assert_eq!(flags.network_flags, Some(&names(&["en0"])[..]));
    assert_eq!(flags.uptime_flags, Some(&names(&[])[..]));
}

#[test]
fn flag_refs_keep_texts_and_order() {
    let mut cli = quiet(false);
    cli.cpu = Some(names(&["usage", "count"]));
    cli.disk = Some(names(&["free"]));
    cli.memory = Some(names(&["ram_used", "swp_used", "ram_used"]));
    let flags = process_cli_flags(&cli);
    assert_eq!(flags.cpu_flag_refs(), Some(vec!["usage", "count"]));
    assert_eq!(flags.disk_flag_refs(), Some(vec!["free"]));
    assert_eq!(flags.memory_flag_refs(), Some(vec!["ram_used", "swp_used", "ram_used"]));
    assert_eq!(flags.uptime_flag_refs(), None);
    assert_eq!(flag_refs(&names(&["a", "", "b"])), vec!["a", "", "b"]);
    assert!(flag_refs(&[]).is_empty());
}

#[test]
fn missing_interfaces_are_named_by_place() {
    let available = names(&["lo0", "en0"]);
    assert_eq!(missing_interfaces(&available, &names(&["en0", "lo0"])), Vec::<usize>::new());
    assert_eq!(missing_interfaces(&available, &names(&["en1", "en0", "utun3"])), vec![0, 2]);
    assert_eq!(missing_interfaces(&available, &[]), Vec::<usize>::new());
    assert_eq!(missing_interfaces(&[], &names(&["en0", "en0"])), vec![0, 1]);
}

#[test]
fn machine_without_interfaces_cannot_report_on_the_network() {
    assert_eq!(validate_network_interfaces(&[]), Err(NoNetworkInterfaces));
    assert_eq!(validate_network_interfaces(&names(&["lo0"])), Ok(()));
}

#[test]
fn interface_list_is_rebuilt_at_every_nth_tick() {
    assert_eq!(next_network_tick(0, 5), NetworkTick { tick: 1, rebuild: false });
    assert_eq!(next_network_tick(3, 5), NetworkTick { tick: 4, rebuild: false });
    assert_eq!(next_network_tick(4, 5), NetworkTick { tick: 0, rebuild: true });
    assert_eq!(next_network_tick(0, 1), NetworkTick { tick: 0, rebuild: true });
    assert_eq!(next_network_tick(0, 0), NetworkTick { tick: 0, rebuild: true });
    assert_eq!(next_network_tick(9, 5), NetworkTick { tick: 0, rebuild: true });
    assert_eq!(next_network_tick(u32::MAX, u32::MAX), NetworkTick { tick: 0, rebuild: true });
    assert_eq!(
        next_network_tick(u32::MAX - 2, u32::MAX),
        NetworkTick { tick: u32::MAX - 1, rebuild: false }
    );
    let mut tick = 0;
    let mut rebuilds = 0;
    for _ in 0..20 {
        let next = next_network_tick(tick, 5);
        tick = next.tick;
        if next.rebuild {
            rebuilds += 1;
        }
    }
    assert_eq!(rebuilds, 4);
}

#[test]
fn machine_names_are_sent_at_the_start_where_asked_for() {
    assert_eq!(initial_system_flags(&quiet(false)), None);
    assert_eq!(
        initial_system_flags(&quiet(true)),
        Some(vec![
            "arch",
            "distro",
            "host_name",
            "kernel_version",
            "name",
            "os_version",
            "long_os_version"
        ])
    );
    let mut cli = quiet(false);
    cli.system = Some(names(&["name", "arch"]));
    assert_eq!(initial_system_flags(&cli), Some(vec!["name", "arch"]));
    cli.all = true;
    assert_eq!(initial_system_flags(&cli), Some(vec!["name", "arch"]));
}

#[test]
fn everything_asked_for_plans_every_kind() {
    let mut cli = quiet(true);
    cli.cpu = Some(names(&["usage"]));
    cli.network = Some(names(&["en0"]));
    let plan = plan_stats(&cli);
    assert_eq!(plan.cpu, Some(vec!["count", "frequency", "temperature", "usage"]));
    assert_eq!(plan.disk, Some(vec!["count", "free", "total", "usage", "used"]));
    assert_eq!(plan.memory.as_ref().map(|flags| flags.len()), Some(8));
    assert_eq!(plan.uptime, Some(vec!["week", "day", "hour", "min", "sec"]));
    assert!(matches!(plan.network, NetworkPlan::All));
}

#[test]
fn kinds_that_are_not_asked_for_are_not_planned() {
    let mut cli = quiet(false);
    cli.disk = Some(names(&["usage", "free"]));
    cli.network = Some(names(&["en0", "lo0"]));
    let plan = plan_stats(&cli);
    assert_eq!(plan.cpu, None);
    assert_eq!(plan.disk, Some(vec!["usage", "free"]));
    assert_eq!(plan.memory, None);
    assert_eq!(plan.uptime, None);
    match plan.network {
        NetworkPlan::Named(list) => assert_eq!(list, &names(&["en0", "lo0"])[..]),
        _ => panic!("the named interfaces were not planned"),
    }
    let nothing = quiet(false);
    let plan = plan_stats(&nothing);
    assert!(matches!(plan.network, NetworkPlan::Skip));
    assert_eq!(plan.cpu, None);
}
