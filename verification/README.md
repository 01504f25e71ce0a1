# procstat

Reads statistics from the Linux `/proc` and `/sys` pseudo-filesystems every interval
and shows them in the layouts of `sar`, `iostat`, `mpstat` and `vmstat`; it can keep
histories of the readings for a small web interface and write them to archive files.

## Layout

- `src/` is the library, verified with Verus:
  - `statistics`: the table of statistics keyed by (category, subcategory, name), with
    the change of each counter between its last two samples;
  - `meminfo`, `vmstat`, `xfs`, `blockdevice`, `net_dev`, `loadavg`, `pressure`, `stat`,
    `schedstat`, `processor`: how one reading of each source enters the table;
  - `devices`, `recording`, `figures`: which CPUs and devices the table holds, when a
    reading calls for a history record, and the integer figures of the reports;
  - `history`: the bounded, oldest-first histories;
  - `archive`: the times of the archive files and the interval they cover;
  - `cli`: the options and the decisions of the sampling loop;
  - `text`: string helpers (prefixes, decimal text, ordering).
- `app/` is the program around it: reading the sources, the floating-point rates and
  reports, the web interface, the archive files and the command line.
- `tests/` runs the library on concrete readings.
