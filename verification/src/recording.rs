//! When the histories get a record after a reading, and for which devices.
//!
//! A source gets a record when its gate statistic was updated by the latest reading;
//! the record carries that statistic's timestamp.
use vstd::prelude::*;
use crate::devices::{is_physical_disk, physical_disk};
use crate::statistics::{map_get, lookup_statistic, sample_map, KeyView, ProcessorError, Statistic, Statistics};
use crate::text::{is_prefix, starts_with, strings_view};

verus! {

/// The time of the record that a gate statistic calls for: none until it was updated.
pub open spec fn due_time(s: Statistic) -> Option<i64> {
    if s.updated_value {
        Some(s.last_timestamp)
    } else {
        None
    }
}

/// The time of the record due for the source whose gate statistic is the key, or the
/// error that names the key when the table does not hold it.
pub fn record_time(statistics: &Statistics, category: &str, subcategory: &str, name: &str) -> (r:
    Result<Option<i64>, ProcessorError>)
    requires
        statistics.wf(),
    ensures
        match r {
            Ok(t) => statistics@.dom().contains((category@, subcategory@, name@)) && t == due_time(
                statistics@[(category@, subcategory@, name@)],
            ),
            Err(ProcessorError::UnableToFindKeyInHashMap { hashmap, key1, key2, key3 }) => {
                &&& !statistics@.dom().contains((category@, subcategory@, name@))
                &&& hashmap@ == "statistics"@
                &&& key1@ == category@
                &&& key2@ == subcategory@
                &&& key3@ == name@
            },
        },
{
    match lookup_statistic(statistics, category, subcategory, name) {
        Ok(s) => Ok(
            if s.updated_value {
                Some(s.last_timestamp)
            } else {
                None
            },
        ),
        Err(e) => Err(e),
    }
}

/// The time of the record due for a source that may be absent: none when the table
/// does not hold its gate statistic.
pub open spec fn optional_due_time(m: Map<KeyView, Statistic>, k: KeyView) -> Option<i64> {
    match map_get(m, k) {
        Some(s) => due_time(s),
        None => None,
    }
}

/// The time of the record due for a source whose gate statistic may be absent.
pub fn record_time_if_present(statistics: &Statistics, category: &str, subcategory: &str, name: &str) -> (r:
    Option<i64>)
    requires
        statistics.wf(),
    ensures
        r == optional_due_time(statistics@, (category@, subcategory@, name@)),
{
    match statistics.get(category, subcategory, name) {
        Some(s) => if s.updated_value {
            Some(s.last_timestamp)
        } else {
            None
        },
        None => None,
    }
}

/// A network interface that gets a record of its own: not a loopback (`lo...`).
pub open spec fn is_counted_interface(name: Seq<char>) -> bool {
    !is_prefix("lo"@, name)
}

/// Whether the network interface named `name` gets a record of its own.
pub fn counted_interface(name: &str) -> (r: bool)
    ensures
        r == is_counted_interface(name@),
{
    !starts_with(name, "lo")
}

/// The names of `devices` that are physical disks, in their order.
pub fn physical_disks(devices: &Vec<String>) -> (r: Vec<String>)
    ensures
        strings_view(r@) == strings_view(devices@).filter(|n: Seq<char>| is_physical_disk(n)),
{
    let ghost p = |n: Seq<char>| is_physical_disk(n);
    let mut out: Vec<String> = Vec::new();
    let mut i: usize = 0;
    while i < devices.len()
        invariant
            i <= devices@.len(),
            p == (|n: Seq<char>| is_physical_disk(n)),
            strings_view(out@) == strings_view(devices@).take(i as int).filter(p),
        decreases devices@.len() - i,
    {
        let keep = physical_disk(devices[i].as_str());
        let ghost before = out@;
        if keep {
            out.push(devices[i].clone());
        }
        proof {
            let sv = strings_view(devices@);
            assert(sv.take(i + 1).drop_last() =~= sv.take(i as int));
            assert(sv.take(i + 1).last() == devices@[i as int]@);
            let t = sv.take(i + 1);
            assert(t.filter(p) == (if p(t.last()) {
                t.drop_last().filter(p).push(t.last())
            } else {
                t.drop_last().filter(p)
            })) by {
                reveal(Seq::filter);
            }
            if keep {
                assert(strings_view(out@) =~= strings_view(before).push(devices@[i as int]@));
            } else {
                assert(strings_view(out@) =~= strings_view(before));
            }
        }
        i = i + 1;
    }
    proof {
        assert(strings_view(devices@).take(devices@.len() as int) =~= strings_view(devices@));
    }
    out
}

/// The names of `devices` that are counted network interfaces, in their order.
pub fn counted_interfaces(devices: &Vec<String>) -> (r: Vec<String>)
    ensures
        strings_view(r@) == strings_view(devices@).filter(|n: Seq<char>| is_counted_interface(n)),
{
    let ghost p = |n: Seq<char>| is_counted_interface(n);
    let mut out: Vec<String> = Vec::new();
    let mut i: usize = 0;
    while i < devices.len()
        invariant
            i <= devices@.len(),
            p == (|n: Seq<char>| is_counted_interface(n)),
            strings_view(out@) == strings_view(devices@).take(i as int).filter(p),
        decreases devices@.len() - i,
    {
        let keep = counted_interface(devices[i].as_str());
        let ghost before = out@;
        if keep {
            out.push(devices[i].clone());
        }
        proof {
            let sv = strings_view(devices@);
            assert(sv.take(i + 1).drop_last() =~= sv.take(i as int));
            assert(sv.take(i + 1).last() == devices@[i as int]@);
            let t = sv.take(i + 1);
            assert(t.filter(p) == (if p(t.last()) {
                t.drop_last().filter(p).push(t.last())
            } else {
                t.drop_last().filter(p)
            })) by {
                reveal(Seq::filter);
            }
            if keep {
                assert(strings_view(out@) =~= strings_view(before).push(devices@[i as int]@));
            } else {
                assert(strings_view(out@) =~= strings_view(before));
            }
        }
        i = i + 1;
    }
    proof {
        assert(strings_view(devices@).take(devices@.len() as int) =~= strings_view(devices@));
    }
    out
}

/// The block-device records due after a reading: their time, and the disks that get a
/// record of their own, in order. `disks` names the block devices in the table; the
/// records are due when the reads counter of the first of them was updated. A system
/// without disks gets none.
pub open spec fn blockdevice_plan(m: Map<KeyView, Statistic>, disks: Seq<Seq<char>>) -> Option<
    (i64, Seq<Seq<char>>),
> {
    if disks.len() == 0 {
        None
    } else {
        match optional_due_time(m, ("blockdevice"@, disks[0], "stat_reads_completed_success"@)) {
            Some(t) => Some((t, disks.filter(|n: Seq<char>| is_physical_disk(n)))),
            None => None,
        }
    }
}

/// The time of the block-device records due after a reading and the disks that get one.
pub fn blockdevices_due(statistics: &Statistics, disks: &Vec<String>) -> (r: Option<(i64, Vec<String>)>)
    requires
        statistics.wf(),
    ensures
        match r {
            Some(p) => blockdevice_plan(statistics@, strings_view(disks@)) == Some(
                (p.0, strings_view(p.1@)),
            ),
            None => blockdevice_plan(statistics@, strings_view(disks@)) is None,
        },
        disks@.len() == 0 ==> r is None,
{
    if disks.len() == 0 {
        return None;
    }
    match record_time_if_present(statistics, "blockdevice", disks[0].as_str(), "stat_reads_completed_success") {
        Some(t) => Some((t, physical_disks(disks))),
        None => None,
    }
}

/// The network-interface records due after a reading: their time, and the interfaces
/// that get a record of their own, in order. The records are due when the received
/// bytes counter of the first interface was updated.
pub open spec fn interface_plan(m: Map<KeyView, Statistic>, nics: Seq<Seq<char>>) -> Option<
    (i64, Seq<Seq<char>>),
> {
    match due_time(m[("net_dev"@, nics[0], "receive_bytes"@)]) {
        Some(t) => Some((t, nics.filter(|n: Seq<char>| is_counted_interface(n)))),
        None => None,
    }
}

/// The time of the network-interface records due after a reading and the interfaces
/// that get one.
pub fn interfaces_due(statistics: &Statistics, nics: &Vec<String>) -> (r: Option<(i64, Vec<String>)>)
    requires
        statistics.wf(),
        nics@.len() > 0,
        statistics@.dom().contains(("net_dev"@, nics@[0]@, "receive_bytes"@)),
    ensures
        match r {
            Some(p) => interface_plan(statistics@, strings_view(nics@)) == Some((p.0, strings_view(p.1@))),
            None => interface_plan(statistics@, strings_view(nics@)) is None,
        },
{
    match statistics.get("net_dev", nics[0].as_str(), "receive_bytes") {
        Some(s) => if s.updated_value {
            Some((s.last_timestamp, counted_interfaces(nics)))
        } else {
            None
        },
        None => None,
    }
}

/// A source's first reading calls for no record; each later reading calls for one,
/// at the time of that reading.
pub proof fn law_record_from_second_reading(
    m: Map<KeyView, Statistic>,
    k: KeyView,
    t1: i64,
    v1: u64,
    t2: i64,
    v2: u64,
)
    requires
        !m.dom().contains(k),
    ensures
        optional_due_time(sample_map(m, k, t1, v1), k) is None,
        optional_due_time(sample_map(sample_map(m, k, t1, v1), k, t2, v2), k) == Some(t2),
{
}

} // verus!
