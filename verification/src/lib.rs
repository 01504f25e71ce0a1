//! Statistics bookkeeping for Linux `/proc` and `/sys` counters.
pub mod statistics;
pub mod text;
pub mod devices;
pub mod history;
pub mod archive;
pub mod meminfo;
pub mod vmstat;
pub mod xfs;
pub mod blockdevice;
pub mod net_dev;
pub mod loadavg;
pub mod pressure;
pub mod stat;
pub mod schedstat;
pub mod processor;
pub mod figures;
pub mod cli;
pub mod recording;
