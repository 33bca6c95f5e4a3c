//! What the options ask to be gathered, and when the list of network
//! interfaces is rebuilt.

use vstd::prelude::*;
use crate::cli::{
    all_cpu_flags, all_disk_flags, all_memory_flags, all_system_flags, all_uptime_flags, Cli,
};
use crate::text::{contains_owned_text, owned_texts, texts};

verus! {

/// The flags of the options, by kind of stats, borrowed from the options.
pub struct ProcessedFlags<'a> {
    pub cpu_flags: Option<&'a [String]>,
    pub disk_flags: Option<&'a [String]>,
    pub memory_flags: Option<&'a [String]>,
    pub network_flags: Option<&'a [String]>,
    pub uptime_flags: Option<&'a [String]>,
}

/// The texts of a list of flags that may be absent.
pub open spec fn listed(flags: Option<Vec<String>>) -> Option<Seq<Seq<char>>> {
    match flags {
        Some(list) => Some(owned_texts(list@)),
        None => None,
    }
}

/// The texts of a borrowed list of flags that may be absent.
pub open spec fn borrowed(flags: Option<&[String]>) -> Option<Seq<Seq<char>>> {
    match flags {
        Some(list) => Some(owned_texts(list@)),
        None => None,
    }
}

/// The texts of a list of references to flags that may be absent.
pub open spec fn referred<'a>(flags: Option<Vec<&'a str>>) -> Option<Seq<Seq<char>>> {
    match flags {
        Some(list) => Some(texts(list@)),
        None => None,
    }
}

fn as_list<'a>(flags: &'a Option<Vec<String>>) -> (list: Option<&'a [String]>)
    ensures
        borrowed(list) == listed(*flags),
{
    match flags {
        Some(list) => Some(list.as_slice()),
        None => None,
    }
}

/// Every flag of a list as a reference to its text.
pub fn flag_refs<'a>(flags: &'a [String]) -> (refs: Vec<&'a str>)
    ensures
        texts(refs@) == owned_texts(flags@),
{
    let mut refs: Vec<&'a str> = Vec::new();
    let mut i: usize = 0;
    while i < flags.len()
        invariant
            i <= flags.len(),
            refs@.len() == i,
            forall|j: int| 0 <= j < i ==> (#[trigger] refs@[j])@ == flags@[j]@,
        decreases flags.len() - i,
    {
        refs.push(flags[i].as_str());
        i += 1;
    }
    refs
}

fn optional_refs<'a>(flags: Option<&'a [String]>) -> (refs: Option<Vec<&'a str>>)
    ensures
        referred(refs) == borrowed(flags),
{
    match flags {
        Some(list) => Some(flag_refs(list)),
        None => None,
    }
}

impl<'a> ProcessedFlags<'a> {
    pub fn cpu_flag_refs(&self) -> (refs: Option<Vec<&str>>)
        ensures
            referred(refs) == borrowed(self.cpu_flags),
    {
        optional_refs(self.cpu_flags)
    }

    pub fn disk_flag_refs(&self) -> (refs: Option<Vec<&str>>)
        ensures
            referred(refs) == borrowed(self.disk_flags),
    {
        optional_refs(self.disk_flags)
    }

    pub fn memory_flag_refs(&self) -> (refs: Option<Vec<&str>>)
        ensures
            referred(refs) == borrowed(self.memory_flags),
    {
        optional_refs(self.memory_flags)
    }

    pub fn uptime_flag_refs(&self) -> (refs: Option<Vec<&str>>)
        ensures
            referred(refs) == borrowed(self.uptime_flags),
    {
        optional_refs(self.uptime_flags)
    }
}

/// The flags of the kinds of stats that are gathered again and again.
pub fn process_cli_flags(cli: &Cli) -> (flags: ProcessedFlags<'_>)
    ensures
        borrowed(flags.cpu_flags) == listed(cli.cpu),
        borrowed(flags.disk_flags) == listed(cli.disk),
        borrowed(flags.memory_flags) == listed(cli.memory),
        borrowed(flags.network_flags) == listed(cli.network),
        borrowed(flags.uptime_flags) == listed(cli.uptime),
{
    ProcessedFlags {
        cpu_flags: as_list(&cli.cpu),
        disk_flags: as_list(&cli.disk),
        memory_flags: as_list(&cli.memory),
        network_flags: as_list(&cli.network),
        uptime_flags: as_list(&cli.uptime),
    }
}

/// The machine has no network interface at all.
#[derive(Clone, Copy, Debug, PartialEq, Eq, Structural)]
pub struct NoNetworkInterfaces;

/// The places in `requested` of the interfaces that the machine does not
/// have, in rising order.
pub open spec fn missing_spec(available: Seq<Seq<char>>, requested: Seq<Seq<char>>) -> Seq<usize>
    decreases requested.len(),
{
    if requested.len() == 0 {
        Seq::empty()
    } else if available.contains(requested.last()) {
        missing_spec(available, requested.drop_last())
    } else {
        missing_spec(available, requested.drop_last()).push((requested.len() - 1) as usize)
    }
}

/// The interfaces asked for that the machine does not have, as places in
/// `requested`: each is worth a warning, none is an error.
pub fn missing_interfaces(available: &[String], requested: &[String]) -> (missing: Vec<usize>)
    ensures
        missing@ == missing_spec(owned_texts(available@), owned_texts(requested@)),
{
    let ghost have = owned_texts(available@);
    let ghost want = owned_texts(requested@);
    let mut missing: Vec<usize> = Vec::new();
    let mut i: usize = 0;
    while i < requested.len()
        invariant
            i <= requested.len(),
            have == owned_texts(available@),
            want == owned_texts(requested@),
            missing@ == missing_spec(have, want.take(i as int)),
        decreases requested.len() - i,
    {
        proof {
            assert(want.take(i + 1).drop_last() =~= want.take(i as int));
        }
        if !contains_owned_text(available, requested[i].as_str()) {
            missing.push(i);
        }
        i += 1;
    }
    assert(want.take(i as int) =~= want);
    missing
}

/// Stats of the network can be gathered only where the machine has an
/// interface, whichever interfaces are asked for.
pub fn validate_network_interfaces(available: &[String]) -> (result: Result<
    (),
    NoNetworkInterfaces,
>)
    ensures
        result is Ok <==> available@.len() > 0,
{
    if available.len() == 0 {
        Err(NoNetworkInterfaces)
    } else {
        Ok(())
    }
}

/// What to do about the list of network interfaces at a tick.
#[derive(Clone, Copy, Debug, PartialEq, Eq, Structural)]
pub struct NetworkTick {
    /// The count of ticks since the list was rebuilt, after this one.
    pub tick: u32,
    /// Whether the list is rebuilt now; else the interfaces are refreshed.
    pub rebuild: bool,
}

/// The tick after `tick`: the list of interfaces is rebuilt at every
/// `rate`-th tick, and counting starts again from there.
pub open spec fn next_network_tick_spec(tick: u32, rate: u32) -> NetworkTick {
    if tick + 1 >= rate {
        NetworkTick { tick: 0, rebuild: true }
    } else {
        NetworkTick { tick: (tick + 1) as u32, rebuild: false }
    }
}

pub fn next_network_tick(tick: u32, rate: u32) -> (next: NetworkTick)
    ensures
        next == next_network_tick_spec(tick, rate),
{
    if tick >= rate || tick + 1 >= rate {
        NetworkTick { tick: 0, rebuild: true }
    } else {
        NetworkTick { tick: tick + 1, rebuild: false }
    }
}

/// The flags of the machine's names that are sent once, at the start: those
/// given, or all of them where everything is asked for and none are given;
/// nothing where neither is the case.
pub open spec fn initial_system_flags_spec(cli: &Cli) -> Option<Seq<Seq<char>>> {
    match cli.system {
        Some(flags) => Some(owned_texts(flags@)),
        None => if cli.all {
            Some(
                seq![
                    "arch"@,
                    "distro"@,
                    "host_name"@,
                    "kernel_version"@,
                    "name"@,
                    "os_version"@,
                    "long_os_version"@,
                ],
            )
        } else {
            None
        },
    }
}

pub fn initial_system_flags(cli: &Cli) -> (flags: Option<Vec<&str>>)
    ensures
        referred(flags) == initial_system_flags_spec(cli),
{
    match &cli.system {
        Some(flags) => Some(flag_refs(flags.as_slice())),
        None => {
            if cli.all {
                Some(all_system_flags())
            } else {
                None
            }
        },
    }
}

/// Which network interfaces a round reports on.
#[derive(Debug)]
pub enum NetworkPlan<'a> {
    /// None: the network is not asked for.
    Skip,
    /// Every interface that the machine has.
    All,
    /// The interfaces of these names.
    Named(&'a [String]),
}

/// What one round gathers, kind by kind, in the order in which the kinds go
/// into the payload. A kind that is absent is not gathered.
#[derive(Debug)]
pub struct StatsPlan<'a> {
    pub cpu: Option<Vec<&'a str>>,
    pub disk: Option<Vec<&'a str>>,
    pub memory: Option<Vec<&'a str>>,
    pub network: NetworkPlan<'a>,
    pub uptime: Option<Vec<&'a str>>,
}

/// The flags of one kind: all of them where everything is asked for, else
/// those given.
pub open spec fn planned(all: bool, every: Seq<Seq<char>>, given: Option<Vec<String>>) -> Option<
    Seq<Seq<char>>,
> {
    if all {
        Some(every)
    } else {
        listed(given)
    }
}

/// The round that the options ask for.
pub fn plan_stats(cli: &Cli) -> (plan: StatsPlan<'_>)
    ensures
        referred(plan.cpu) == planned(
            cli.all,
            seq!["count"@, "frequency"@, "temperature"@, "usage"@],
            cli.cpu,
        ),
        referred(plan.disk) == planned(
            cli.all,
            seq!["count"@, "free"@, "total"@, "usage"@, "used"@],
            cli.disk,
        ),
        referred(plan.memory) == planned(
            cli.all,
            seq![
                "ram_available"@,
                "ram_total"@,
                "ram_usage"@,
                "ram_used"@,
                "swp_free"@,
                "swp_total"@,
                "swp_usage"@,
                "swp_used"@,
            ],
            cli.memory,
        ),
        referred(plan.uptime) == planned(
            cli.all,
            seq!["week"@, "day"@, "hour"@, "min"@, "sec"@],
            cli.uptime,
        ),
        cli.all ==> plan.network is All,
        !cli.all ==> match cli.network {
            Some(names) => plan.network is Named && plan.network->Named_0@ == names@,
            None => plan.network is Skip,
        },
{
    if cli.all {
        StatsPlan {
            cpu: Some(all_cpu_flags()),
            disk: Some(all_disk_flags()),
            memory: Some(all_memory_flags()),
            network: NetworkPlan::All,
            uptime: Some(all_uptime_flags()),
        }
    } else {
        let flags = process_cli_flags(cli);
        StatsPlan {
            cpu: optional_refs(flags.cpu_flags),
            disk: optional_refs(flags.disk_flags),
            memory: optional_refs(flags.memory_flags),
            network: match &cli.network {
                Some(names) => NetworkPlan::Named(names.as_slice()),
                None => NetworkPlan::Skip,
            },
            uptime: optional_refs(flags.uptime_flags),
        }
    }
}

} // verus!
