//! The options of the command line, the report each output option selects, and the
//! decisions of the sampling loop.
use vstd::prelude::*;

verus! {

/// The report that is printed every interval.
#[derive(Debug, Copy, Clone, PartialEq, Eq, Structural)]
pub enum OutputOptions {
    SarU,
    SarUAll,
    CpuAll,
    MpstatPAll,
    PerCpuAll,
    SarD,
    Sarb,
    SarB,
    SarH,
    SarS,
    Iostat,
    IostatX,
    SarR,
    SarRAll,
    SarNDev,
    SarNEdev,
    SarQLoad,
    SarQ,
    SarQCpu,
    SarQIo,
    SarQMem,
    SarW,
    Sarw,
    Vmstat,
    Ioq,
    Ios,
    Schedstat,
    Free,
}

/// The options of the command line.
#[derive(Debug, Clone)]
pub struct Opts {
    /// Seconds between samples.
    pub interval: u64,
    /// Stop after this many reports.
    pub until: Option<u64>,
    pub output: OutputOptions,
    /// Print the header every this many rows.
    pub header_print: u64,
    /// Records kept per history.
    pub history: usize,
    /// Archive files to read (comma separated) instead of sampling.
    pub read: Option<String>,
    pub webserver: bool,
    pub webserver_port: u64,
    pub archiver: bool,
    pub deamon: bool,
    /// Minutes between archives.
    pub archiver_interval: i64,
    pub graph_width: u32,
    pub graph_height: u32,
}

/// The options when none is given on the command line.
pub open spec fn default_opts() -> Opts {
    Opts {
        interval: 1,
        until: None,
        output: OutputOptions::SarU,
        header_print: 30,
        history: 10800,
        read: None,
        webserver: false,
        webserver_port: 1111,
        archiver: false,
        deamon: false,
        archiver_interval: 10,
        graph_width: 1800,
        graph_height: 1200,
    }
}

impl Opts {
    /// The options when none is given on the command line.
    pub fn defaults() -> (r: Opts)
        ensures
            r == default_opts(),
    {
        Opts {
            interval: 1,
            until: None,
            output: OutputOptions::SarU,
            header_print: 30,
            history: 10800,
            read: None,
            webserver: false,
            webserver_port: 1111,
            archiver: false,
            deamon: false,
            archiver_interval: 10,
            graph_width: 1800,
            graph_height: 1200,
        }
    }
}

/// Which printer produces a report.
#[derive(Debug, Copy, Clone, PartialEq, Eq, Structural)]
pub enum Printer {
    AllCpu,
    PerCpu,
    Vmstat,
    Diskstats,
    Meminfo,
    NetDev,
    Psi,
    Loadavg,
}

/// The printer and the report name for an output option; `Free` has no report.
pub open spec fn report_of(output: OutputOptions) -> Option<(Printer, Seq<char>)> {
    match output {
        OutputOptions::SarU => Some((Printer::AllCpu, "sar-u"@)),
        OutputOptions::SarB => Some((Printer::Vmstat, "sar-B"@)),
        OutputOptions::Sarb => Some((Printer::Diskstats, "sar-b"@)),
        OutputOptions::SarUAll => Some((Printer::AllCpu, "sar-u-ALL"@)),
        OutputOptions::CpuAll => Some((Printer::AllCpu, "cpu-all"@)),
        OutputOptions::Schedstat => Some((Printer::PerCpu, "schedstat"@)),
        OutputOptions::MpstatPAll => Some((Printer::PerCpu, "mpstat-P-ALL"@)),
        OutputOptions::PerCpuAll => Some((Printer::PerCpu, "per-cpu-all"@)),
        OutputOptions::SarD => Some((Printer::Diskstats, "sar-d"@)),
        OutputOptions::Iostat => Some((Printer::Diskstats, "iostat"@)),
        OutputOptions::IostatX => Some((Printer::Diskstats, "iostat-x"@)),
        OutputOptions::Ioq => Some((Printer::Diskstats, "ioq"@)),
        OutputOptions::Ios => Some((Printer::Diskstats, "ios"@)),
        OutputOptions::SarH => Some((Printer::Meminfo, "sar-H"@)),
        OutputOptions::SarR => Some((Printer::Meminfo, "sar-r"@)),
        OutputOptions::SarRAll => Some((Printer::Meminfo, "sar-r-ALL"@)),
        OutputOptions::SarNDev => Some((Printer::NetDev, "sar-n-DEV"@)),
        OutputOptions::SarNEdev => Some((Printer::NetDev, "sar-n-EDEV"@)),
        OutputOptions::SarQCpu => Some((Printer::Psi, "sar-q-CPU"@)),
        OutputOptions::SarQLoad => Some((Printer::Loadavg, "sar-q-LOAD"@)),
        OutputOptions::SarQIo => Some((Printer::Psi, "sar-q-IO"@)),
        OutputOptions::SarQMem => Some((Printer::Psi, "sar-q-MEM"@)),
        OutputOptions::SarQ => Some((Printer::Loadavg, "sar-q-LOAD"@)),
        OutputOptions::SarS => Some((Printer::Meminfo, "sar-S"@)),
        OutputOptions::SarW => Some((Printer::Vmstat, "sar-W"@)),
        OutputOptions::Sarw => Some((Printer::AllCpu, "sar-w"@)),
        OutputOptions::Vmstat => Some((Printer::Vmstat, "vmstat"@)),
        OutputOptions::Free => None,
    }
}

/// The printer and the report name for an output option.
pub fn report(output: OutputOptions) -> (r: Option<(Printer, &'static str)>)
    ensures
        match r {
            Some(p) => report_of(output) == Some((p.0, p.1@)),
            None => report_of(output) is None,
        },
{
    match output {
        OutputOptions::SarU => Some((Printer::AllCpu, "sar-u")),
        OutputOptions::SarB => Some((Printer::Vmstat, "sar-B")),
        OutputOptions::Sarb => Some((Printer::Diskstats, "sar-b")),
        OutputOptions::SarUAll => Some((Printer::AllCpu, "sar-u-ALL")),
        OutputOptions::CpuAll => Some((Printer::AllCpu, "cpu-all")),
        OutputOptions::Schedstat => Some((Printer::PerCpu, "schedstat")),
        OutputOptions::MpstatPAll => Some((Printer::PerCpu, "mpstat-P-ALL")),
        OutputOptions::PerCpuAll => Some((Printer::PerCpu, "per-cpu-all")),
        OutputOptions::SarD => Some((Printer::Diskstats, "sar-d")),
        OutputOptions::Iostat => Some((Printer::Diskstats, "iostat")),
        OutputOptions::IostatX => Some((Printer::Diskstats, "iostat-x")),
        OutputOptions::Ioq => Some((Printer::Diskstats, "ioq")),
        OutputOptions::Ios => Some((Printer::Diskstats, "ios")),
        OutputOptions::SarH => Some((Printer::Meminfo, "sar-H")),
        OutputOptions::SarR => Some((Printer::Meminfo, "sar-r")),
        OutputOptions::SarRAll => Some((Printer::Meminfo, "sar-r-ALL")),
        OutputOptions::SarNDev => Some((Printer::NetDev, "sar-n-DEV")),
        OutputOptions::SarNEdev => Some((Printer::NetDev, "sar-n-EDEV")),
        OutputOptions::SarQCpu => Some((Printer::Psi, "sar-q-CPU")),
        OutputOptions::SarQLoad => Some((Printer::Loadavg, "sar-q-LOAD")),
        OutputOptions::SarQIo => Some((Printer::Psi, "sar-q-IO")),
        OutputOptions::SarQMem => Some((Printer::Psi, "sar-q-MEM")),
        OutputOptions::SarQ => Some((Printer::Loadavg, "sar-q-LOAD")),
        OutputOptions::SarS => Some((Printer::Meminfo, "sar-S")),
        OutputOptions::SarW => Some((Printer::Vmstat, "sar-W")),
        OutputOptions::Sarw => Some((Printer::AllCpu, "sar-w")),
        OutputOptions::Vmstat => Some((Printer::Vmstat, "vmstat")),
        OutputOptions::Free => None,
    }
}

/// What the sampling loop does after the reading numbered `output_counter`: whether
/// the report prints its header first, the next counter, and whether to stop.
pub open spec fn cycle_of(output_counter: u64, header_print: u64, until: Option<u64>) -> (bool, int, bool) {
    let next = output_counter + 1;
    (
        output_counter % header_print == 0,
        next,
        match until {
            Some(u) => u < next,
            None => false,
        },
    )
}

/// The decisions of the sampling loop after the reading numbered `output_counter`.
pub fn cycle(output_counter: u64, header_print: u64, until: Option<u64>) -> (r: (bool, u64, bool))
    requires
        header_print > 0,
        output_counter < u64::MAX,
    ensures
        r.0 == cycle_of(output_counter, header_print, until).0,
        r.1 == cycle_of(output_counter, header_print, until).1,
        r.2 == cycle_of(output_counter, header_print, until).2,
{
    let print_header = output_counter % header_print == 0;
    let next = output_counter + 1;
    let stop = match until {
        Some(u) => u < next,
        None => false,
    };
    (print_header, next, stop)
}

/// Run with `until = Some(u)`, the loop prints reports numbered 0 to `u` and stops
/// after the last: it goes on after every earlier one.
pub proof fn law_until_counts_reports(u: u64, k: u64, header_print: u64)
    requires
        header_print > 0,
        k < u64::MAX,
    ensures
        cycle_of(k, header_print, Some(u)).2 <==> k >= u,
{
}

/// The header is printed on the first report and again every `header_print` reports.
pub proof fn law_header_every(k: u64, header_print: u64)
    requires
        header_print > 0,
        k as int + header_print as int <= u64::MAX,
    ensures
        cycle_of(0, header_print, None).0,
        cycle_of(k, header_print, None).0 == cycle_of((k + header_print) as u64, header_print, None).0,
{
    assert(((k + header_print) as u64) % header_print == k % header_print) by (nonlinear_arith)
        requires
            header_print > 0,
            k as int + header_print as int <= u64::MAX,
    {
        let q = k / header_print;
        let r = k % header_print;
        assert(k == q * header_print + r);
        assert(k + header_print == (q + 1) * header_print + r);
    }
}

} // verus!
