//! The options of the command line and the rules that they must meet.

use vstd::prelude::*;
use vstd::string::StringExecFns;
use crate::text::{decimal, push_decimal, texts};

verus! {

pub const DEFAULT_INTERVAL: u32 = 5;

pub const DEFAULT_NETWORK_REFRESH_RATE: u32 = 5;

pub const MIN_INTERVAL: u32 = 1;

/// One hour.
pub const MAX_INTERVAL: u32 = 3600;

pub const MIN_NETWORK_REFRESH_RATE: u32 = 1;

pub const MAX_NETWORK_REFRESH_RATE: u32 = 100;

/// The options as parsed from the command line.
#[derive(Debug)]
pub struct Cli {
    /// Get all stats.
    pub all: bool,
    pub battery: Option<Vec<String>>,
    pub cpu: Option<Vec<String>>,
    pub disk: Option<Vec<String>>,
    pub memory: Option<Vec<String>>,
    /// The network interfaces to report on.
    pub network: Option<Vec<String>>,
    pub system: Option<Vec<String>>,
    pub uptime: Option<Vec<String>>,
    /// Refresh interval in seconds.
    pub interval: u32,
    /// How often the list of network interfaces is rebuilt, in intervals.
    pub network_refresh_rate: u32,
    /// The bar's name.
    pub bar: Option<String>,
    pub verbose: bool,
    /// Output values without units.
    pub no_units: bool,
}

/// Why a set of options is refused.
#[derive(Clone, Copy, Debug, PartialEq, Eq, Structural)]
pub enum CliError {
    IntervalOutOfRange { got: u32 },
    NetworkRefreshRateOutOfRange { got: u32 },
    NoStatsRequested,
}

impl CliError {
    /// What the error says to whoever gave the options.
    pub open spec fn message_spec(self) -> Seq<char> {
        match self {
            CliError::IntervalOutOfRange { got } => "Interval must be between "@ + decimal(
                MIN_INTERVAL as nat,
            ) + " and "@ + decimal(MAX_INTERVAL as nat) + " seconds, got "@ + decimal(got as nat),
            CliError::NetworkRefreshRateOutOfRange { got } =>
                "Network refresh rate must be between "@ + decimal(MIN_NETWORK_REFRESH_RATE as nat)
                    + " and "@ + decimal(MAX_NETWORK_REFRESH_RATE as nat) + ", got "@ + decimal(
                    got as nat,
                ),
            CliError::NoStatsRequested => "At least one stat type must be specified, or use --all"@,
        }
    }

    pub fn message(&self) -> (text: String)
        ensures
            text@ == self.message_spec(),
    {
        match *self {
            CliError::IntervalOutOfRange { got } => {
                let mut text = "Interval must be between ".to_owned();
                push_decimal(&mut text, MIN_INTERVAL as u64);
                text.append(" and ");
                push_decimal(&mut text, MAX_INTERVAL as u64);
                text.append(" seconds, got ");
                push_decimal(&mut text, got as u64);
                text
            },
            CliError::NetworkRefreshRateOutOfRange { got } => {
                let mut text = "Network refresh rate must be between ".to_owned();
                push_decimal(&mut text, MIN_NETWORK_REFRESH_RATE as u64);
                text.append(" and ");
                push_decimal(&mut text, MAX_NETWORK_REFRESH_RATE as u64);
                text.append(", got ");
                push_decimal(&mut text, got as u64);
                text
            },
            CliError::NoStatsRequested => {
                "At least one stat type must be specified, or use --all".to_owned()
            },
        }
    }
}

impl Cli {
    pub open spec fn interval_in_range(&self) -> bool {
        MIN_INTERVAL <= self.interval <= MAX_INTERVAL
    }

    pub open spec fn network_refresh_rate_in_range(&self) -> bool {
        MIN_NETWORK_REFRESH_RATE <= self.network_refresh_rate <= MAX_NETWORK_REFRESH_RATE
    }

    /// At least one kind of stats is asked for.
    pub open spec fn requests_stats(&self) -> bool {
        self.all || self.battery is Some || self.cpu is Some || self.disk is Some
            || self.memory is Some || self.network is Some || self.system is Some
            || self.uptime is Some
    }
}

/// Checks the options: the interval, then the network refresh rate, then that
/// any stats are asked for. The first rule that is broken is reported.
pub fn validate_cli(cli: &Cli) -> (result: Result<(), CliError>)
    ensures
        result is Ok <==> cli.interval_in_range() && cli.network_refresh_rate_in_range()
            && cli.requests_stats(),
        !cli.interval_in_range() ==> result == Err::<(), CliError>(
            CliError::IntervalOutOfRange { got: cli.interval },
        ),
        cli.interval_in_range() && !cli.network_refresh_rate_in_range() ==> result == Err::<
            (),
            CliError,
        >(CliError::NetworkRefreshRateOutOfRange { got: cli.network_refresh_rate }),
        cli.interval_in_range() && cli.network_refresh_rate_in_range() && !cli.requests_stats()
            ==> result == Err::<(), CliError>(CliError::NoStatsRequested),
{
    if cli.interval < MIN_INTERVAL || cli.interval > MAX_INTERVAL {
        return Err(CliError::IntervalOutOfRange { got: cli.interval });
    }
    if cli.network_refresh_rate < MIN_NETWORK_REFRESH_RATE || cli.network_refresh_rate
        > MAX_NETWORK_REFRESH_RATE {
        return Err(CliError::NetworkRefreshRateOutOfRange { got: cli.network_refresh_rate });
    }
    if !cli.all && cli.battery.is_none() && cli.cpu.is_none() && cli.disk.is_none()
        && cli.memory.is_none() && cli.network.is_none() && cli.system.is_none()
        && cli.uptime.is_none() {
        return Err(CliError::NoStatsRequested);
    }
    Ok(())
}

pub fn all_battery_flags() -> (flags: Vec<&'static str>)
    ensures
        texts(flags@) == seq!["percentage"@, "remaining"@, "state"@, "time_to_full"@],
{
    let flags = vec!["percentage", "remaining", "state", "time_to_full"];
    flags
}

pub fn all_cpu_flags() -> (flags: Vec<&'static str>)
    ensures
        texts(flags@) == seq!["count"@, "frequency"@, "temperature"@, "usage"@],
{
    let flags = vec!["count", "frequency", "temperature", "usage"];
    flags
}

pub fn all_disk_flags() -> (flags: Vec<&'static str>)
    ensures
        texts(flags@) == seq!["count"@, "free"@, "total"@, "usage"@, "used"@],
{
    let flags = vec!["count", "free", "total", "usage", "used"];
    flags
}

pub fn all_ram_flags() -> (flags: Vec<&'static str>)
    ensures
        texts(flags@) == seq!["ram_available"@, "ram_total"@, "ram_usage"@, "ram_used"@],
{
    let flags = vec!["ram_available", "ram_total", "ram_usage", "ram_used"];
    flags
}

pub fn all_swp_flags() -> (flags: Vec<&'static str>)
    ensures
        texts(flags@) == seq!["swp_free"@, "swp_total"@, "swp_usage"@, "swp_used"@],
{
    let flags = vec!["swp_free", "swp_total", "swp_usage", "swp_used"];
    flags
}

/// The flags of memory: those of RAM, then those of swap.
pub fn all_memory_flags() -> (flags: Vec<&'static str>)
    ensures
        texts(flags@) == seq![
            "ram_available"@,
            "ram_total"@,
            "ram_usage"@,
            "ram_used"@,
            "swp_free"@,
            "swp_total"@,
            "swp_usage"@,
            "swp_used"@,
        ],
{
    let mut flags = all_ram_flags();
    let mut swap = all_swp_flags();
    let ghost ram = flags@;
    let ghost swp = swap@;
    flags.append(&mut swap);
    assert(texts(flags@) =~= texts(ram) + texts(swp));
    flags
}

pub fn all_system_flags() -> (flags: Vec<&'static str>)
    ensures
        texts(flags@) == seq!["arch"@, "distro"@, "host_name"@, "kernel_version"@, "name"@, "os_version"@, "long_os_version"@],
{
    let flags = vec!["arch", "distro", "host_name", "kernel_version", "name", "os_version", "long_os_version"];
    flags
}

pub fn all_uptime_flags() -> (flags: Vec<&'static str>)
    ensures
        texts(flags@) == seq!["week"@, "day"@, "hour"@, "min"@, "sec"@],
{
    let flags = vec!["week", "day", "hour", "min", "sec"];
    flags
}

} // verus!
