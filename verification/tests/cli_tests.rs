use procstat::cli::{cycle, report, Opts, OutputOptions, Printer};

#[test]
fn default_options() {
    let o = Opts::defaults();
    assert_eq!(o.interval, 1);
    assert_eq!(o.header_print, 30);
    assert_eq!(o.history, 10800);
    assert_eq!(o.webserver_port, 1111);
    assert_eq!(o.archiver_interval, 10);
    assert_eq!(o.graph_width, 1800);
    assert_eq!(o.graph_height, 1200);
    assert_eq!(o.output, OutputOptions::SarU);
    assert!(o.until.is_none() && o.read.is_none());
}

#[test]
fn reports() {
    assert_eq!(report(OutputOptions::SarU), Some((Printer::AllCpu, "sar-u")));
    assert_eq!(report(OutputOptions::SarQ), Some((Printer::Loadavg, "sar-q-LOAD")));
    assert_eq!(report(OutputOptions::Schedstat), Some((Printer::PerCpu, "schedstat")));
    assert_eq!(report(OutputOptions::IostatX), Some((Printer::Diskstats, "iostat-x")));
    assert_eq!(report(OutputOptions::Free), None);
}

#[test]
fn sampling_loop_decisions() {
    assert_eq!(cycle(0, 30, None), (true, 1, false));
    assert_eq!(cycle(29, 30, None), (false, 30, false));
    assert_eq!(cycle(30, 30, None), (true, 31, false));
    // with until = 2, reports 0, 1 and 2 are printed
    assert_eq!(cycle(1, 30, Some(2)).2, false);
    assert_eq!(cycle(2, 30, Some(2)).2, true);
}
