//! The counters of the network interfaces in `/proc/net/dev`.
use vstd::prelude::*;
use crate::statistics::{ProcessorError, Statistics, apply_samples, samples_view, add_samples_to_statistics};
#[allow(unused_imports)]
use crate::statistics::{
    KeyView, Statistic, holds, lemma_apply_samples_read_back, lemma_apply_samples_frame_all,
    keeps_category, lemma_apply_samples_keeps, lemma_keeps_category_trans,
};

verus! {

/// One reading of the counters of one network interface.
#[derive(Clone, Debug, Default, PartialEq, Eq)]
pub struct InterfaceStats {
    pub name: String,
    pub receive_bytes: u64,
    pub receive_packets: u64,
    pub receive_errors: u64,
    pub receive_drop: u64,
    pub receive_fifo: u64,
    pub receive_frame: u64,
    pub receive_compressed: u64,
    pub receive_multicast: u64,
    pub transmit_bytes: u64,
    pub transmit_packets: u64,
    pub transmit_errors: u64,
    pub transmit_drop: u64,
    pub transmit_fifo: u64,
    pub transmit_collisions: u64,
    pub transmit_carrier: u64,
    pub transmit_compressed: u64,
}

/// One reading of all network interfaces.
#[derive(Clone, Debug, Default)]
pub struct ProcNetDev {
    pub interface: Vec<InterfaceStats>,
}

/// The named counters of a `InterfaceStats`, in the order in which they are recorded;
/// an absent counter counts as 0.
pub open spec fn net_dev_samples(interface: InterfaceStats) -> Seq<(Seq<char>, u64)> {
    seq![
        ("receive_bytes"@, interface.receive_bytes),
        ("receive_packets"@, interface.receive_packets),
        ("receive_errors"@, interface.receive_errors),
        ("receive_drop"@, interface.receive_drop),
        ("receive_fifo"@, interface.receive_fifo),
        ("receive_frame"@, interface.receive_frame),
        ("receive_compressed"@, interface.receive_compressed),
        ("receive_multicast"@, interface.receive_multicast),
        ("transmit_bytes"@, interface.transmit_bytes),
        ("transmit_packets"@, interface.transmit_packets),
        ("transmit_errors"@, interface.transmit_errors),
        ("transmit_drop"@, interface.transmit_drop),
        ("transmit_fifo"@, interface.transmit_fifo),
        ("transmit_collisions"@, interface.transmit_collisions),
        ("transmit_carrier"@, interface.transmit_carrier),
        ("transmit_compressed"@, interface.transmit_compressed),
    ]
}

fn net_dev_samples_exec(interface: &InterfaceStats) -> (r: Vec<(String, u64)>)
    ensures
        samples_view(r@) == net_dev_samples(*interface),
{
    let mut r: Vec<(String, u64)> = Vec::new();
    r.push(("receive_bytes".to_owned(), interface.receive_bytes));
    r.push(("receive_packets".to_owned(), interface.receive_packets));
    r.push(("receive_errors".to_owned(), interface.receive_errors));
    r.push(("receive_drop".to_owned(), interface.receive_drop));
    r.push(("receive_fifo".to_owned(), interface.receive_fifo));
    r.push(("receive_frame".to_owned(), interface.receive_frame));
    r.push(("receive_compressed".to_owned(), interface.receive_compressed));
    r.push(("receive_multicast".to_owned(), interface.receive_multicast));
    r.push(("transmit_bytes".to_owned(), interface.transmit_bytes));
    r.push(("transmit_packets".to_owned(), interface.transmit_packets));
    r.push(("transmit_errors".to_owned(), interface.transmit_errors));
    r.push(("transmit_drop".to_owned(), interface.transmit_drop));
    r.push(("transmit_fifo".to_owned(), interface.transmit_fifo));
    r.push(("transmit_collisions".to_owned(), interface.transmit_collisions));
    r.push(("transmit_carrier".to_owned(), interface.transmit_carrier));
    r.push(("transmit_compressed".to_owned(), interface.transmit_compressed));
    assert(samples_view(r@) =~= net_dev_samples(*interface));
    r
}

/// After a network interface is recorded, each of its counters is held under ("net_dev", its
/// subcategory, the counter's name) with the reading's value and time.
pub open spec fn interface_recorded(m: Map<KeyView, Statistic>, interface: InterfaceStats, timestamp: i64) -> bool {
    let sub = interface.name@;
    &&& holds(m, ("net_dev"@, sub, "receive_bytes"@), interface.receive_bytes, timestamp)
    &&& holds(m, ("net_dev"@, sub, "receive_packets"@), interface.receive_packets, timestamp)
    &&& holds(m, ("net_dev"@, sub, "receive_errors"@), interface.receive_errors, timestamp)
    &&& holds(m, ("net_dev"@, sub, "receive_drop"@), interface.receive_drop, timestamp)
    &&& holds(m, ("net_dev"@, sub, "receive_fifo"@), interface.receive_fifo, timestamp)
    &&& holds(m, ("net_dev"@, sub, "receive_frame"@), interface.receive_frame, timestamp)
    &&& holds(m, ("net_dev"@, sub, "receive_compressed"@), interface.receive_compressed, timestamp)
    &&& holds(m, ("net_dev"@, sub, "receive_multicast"@), interface.receive_multicast, timestamp)
    &&& holds(m, ("net_dev"@, sub, "transmit_bytes"@), interface.transmit_bytes, timestamp)
    &&& holds(m, ("net_dev"@, sub, "transmit_packets"@), interface.transmit_packets, timestamp)
    &&& holds(m, ("net_dev"@, sub, "transmit_errors"@), interface.transmit_errors, timestamp)
    &&& holds(m, ("net_dev"@, sub, "transmit_drop"@), interface.transmit_drop, timestamp)
    &&& holds(m, ("net_dev"@, sub, "transmit_fifo"@), interface.transmit_fifo, timestamp)
    &&& holds(m, ("net_dev"@, sub, "transmit_collisions"@), interface.transmit_collisions, timestamp)
    &&& holds(m, ("net_dev"@, sub, "transmit_carrier"@), interface.transmit_carrier, timestamp)
    &&& holds(m, ("net_dev"@, sub, "transmit_compressed"@), interface.transmit_compressed, timestamp)
}

/// Recording a network interface stores every counter under its own name, with the reading's value
/// and time.
pub proof fn law_interface_read_back(m: Map<KeyView, Statistic>, interface: InterfaceStats, timestamp: i64)
    ensures
        interface_recorded(apply_samples(m, "net_dev"@, interface.name@, timestamp, net_dev_samples(interface)), interface, timestamp),
{
    reveal_strlit("receive_bytes");
    assert("receive_bytes"@.len() == 13);
    reveal_strlit("receive_compressed");
    assert("receive_compressed"@.len() == 18);
    reveal_strlit("receive_drop");
    assert("receive_drop"@.len() == 12);
    reveal_strlit("receive_errors");
    assert("receive_errors"@.len() == 14);
    reveal_strlit("receive_fifo");
    assert("receive_fifo"@.len() == 12);
    reveal_strlit("receive_frame");
    assert("receive_frame"@.len() == 13);
    reveal_strlit("receive_multicast");
    assert("receive_multicast"@.len() == 17);
    reveal_strlit("receive_packets");
    assert("receive_packets"@.len() == 15);
    reveal_strlit("transmit_bytes");
    assert("transmit_bytes"@.len() == 14);
    reveal_strlit("transmit_carrier");
    assert("transmit_carrier"@.len() == 16);
    reveal_strlit("transmit_collisions");
    assert("transmit_collisions"@.len() == 19);
    reveal_strlit("transmit_compressed");
    assert("transmit_compressed"@.len() == 19);
    reveal_strlit("transmit_drop");
    assert("transmit_drop"@.len() == 13);
    reveal_strlit("transmit_errors");
    assert("transmit_errors"@.len() == 15);
    reveal_strlit("transmit_fifo");
    assert("transmit_fifo"@.len() == 13);
    reveal_strlit("transmit_packets");
    assert("transmit_packets"@.len() == 16);
    assert("receive_bytes"@[0] == 'r');
    assert("receive_bytes"@[8] == 'b');
    assert("receive_frame"@[0] == 'r');
    assert("receive_frame"@[8] == 'f');
    assert("transmit_drop"@[0] == 't');
    assert("transmit_drop"@[9] == 'd');
    assert("transmit_fifo"@[0] == 't');
    assert("transmit_fifo"@[9] == 'f');
    assert("receive_drop"@[8] == 'd');
    assert("receive_fifo"@[8] == 'f');
    assert("receive_errors"@[0] == 'r');
    assert("transmit_bytes"@[0] == 't');
    assert("receive_packets"@[0] == 'r');
    assert("transmit_errors"@[0] == 't');
    assert("transmit_carrier"@[9] == 'c');
    assert("transmit_packets"@[9] == 'p');
    assert("transmit_collisions"@[11] == 'l');
    assert("transmit_compressed"@[11] == 'm');
    let s = net_dev_samples(interface);
    lemma_apply_samples_read_back(m, "net_dev"@, interface.name@, timestamp, s, 0);
    lemma_apply_samples_read_back(m, "net_dev"@, interface.name@, timestamp, s, 1);
    lemma_apply_samples_read_back(m, "net_dev"@, interface.name@, timestamp, s, 2);
    lemma_apply_samples_read_back(m, "net_dev"@, interface.name@, timestamp, s, 3);
    lemma_apply_samples_read_back(m, "net_dev"@, interface.name@, timestamp, s, 4);
    lemma_apply_samples_read_back(m, "net_dev"@, interface.name@, timestamp, s, 5);
    lemma_apply_samples_read_back(m, "net_dev"@, interface.name@, timestamp, s, 6);
    lemma_apply_samples_read_back(m, "net_dev"@, interface.name@, timestamp, s, 7);
    lemma_apply_samples_read_back(m, "net_dev"@, interface.name@, timestamp, s, 8);
    lemma_apply_samples_read_back(m, "net_dev"@, interface.name@, timestamp, s, 9);
    lemma_apply_samples_read_back(m, "net_dev"@, interface.name@, timestamp, s, 10);
    lemma_apply_samples_read_back(m, "net_dev"@, interface.name@, timestamp, s, 11);
    lemma_apply_samples_read_back(m, "net_dev"@, interface.name@, timestamp, s, 12);
    lemma_apply_samples_read_back(m, "net_dev"@, interface.name@, timestamp, s, 13);
    lemma_apply_samples_read_back(m, "net_dev"@, interface.name@, timestamp, s, 14);
    lemma_apply_samples_read_back(m, "net_dev"@, interface.name@, timestamp, s, 15);
}

/// The table after the counters of each device, in order, each under its own name.
pub open spec fn apply_interfaces(m: Map<KeyView, Statistic>, devices: Seq<InterfaceStats>, timestamp: i64) -> Map<KeyView, Statistic>
    decreases devices.len(),
{
    if devices.len() == 0 {
        m
    } else {
        apply_samples(
            apply_interfaces(m, devices.drop_last(), timestamp),
            "net_dev"@,
            devices.last().name@,
            timestamp,
            net_dev_samples(devices.last()),
        )
    }
}

/// Recording devices keeps every key of another category.
pub proof fn lemma_apply_interfaces_keeps(m: Map<KeyView, Statistic>, devices: Seq<InterfaceStats>, timestamp: i64, category: Seq<char>)
    requires
        category != "net_dev"@,
    ensures
        keeps_category(m, apply_interfaces(m, devices, timestamp), category),
    decreases devices.len(),
{
    if devices.len() == 0 {
    } else {
        let prev = apply_interfaces(m, devices.drop_last(), timestamp);
        lemma_apply_interfaces_keeps(m, devices.drop_last(), timestamp, category);
        lemma_apply_samples_keeps(prev, "net_dev"@, devices.last().name@, timestamp, net_dev_samples(devices.last()), category);
        lemma_keeps_category_trans(m, prev, apply_interfaces(m, devices, timestamp), category);
    }
}

/// After a list of readings is recorded, each interface that no later interface of the same name
/// follows holds its own counters.
pub proof fn law_interfaces_read_back(m: Map<KeyView, Statistic>, devices: Seq<InterfaceStats>, timestamp: i64, i: int)
    requires
        0 <= i < devices.len(),
        forall|j: int| i < j < devices.len() ==> #[trigger] devices[j].name@ != devices[i].name@,
    ensures
        interface_recorded(apply_interfaces(m, devices, timestamp), devices[i], timestamp),
    decreases devices.len(),
{
    let prev = apply_interfaces(m, devices.drop_last(), timestamp);
    if i == devices.len() - 1 {
        law_interface_read_back(prev, devices[i], timestamp);
    } else {
        assert forall|j: int| i < j < devices.drop_last().len() implies #[trigger] devices.drop_last()[j].name@
            != devices.drop_last()[i].name@ by {
            assert(devices.drop_last()[j] == devices[j]);
        }
        law_interfaces_read_back(m, devices.drop_last(), timestamp, i);
        assert(devices.drop_last()[i] == devices[i]);
        assert(devices[devices.len() - 1].name@ != devices[i].name@);
        lemma_apply_samples_frame_all(prev, "net_dev"@, devices.last().name@, timestamp, net_dev_samples(devices.last()));
    }
}

/// Records the counters of every device under the `net_dev` category and the device's
/// name, taken at `timestamp`.
pub fn process_net_dev_data(data: &ProcNetDev, timestamp: i64, statistics: &mut Statistics) -> (r: Result<(), ProcessorError>)
    requires
        old(statistics).wf(),
    ensures
        r is Ok,
        final(statistics).wf(),
        final(statistics)@ == apply_interfaces(old(statistics)@, data.interface@, timestamp),
        forall|i: int|
            0 <= i < data.interface@.len() && (forall|j: int|
                i < j < data.interface@.len() ==> #[trigger] data.interface@[j].name@ != data.interface@[i].name@)
                ==> interface_recorded(final(statistics)@, #[trigger] data.interface@[i], timestamp),
{
    let n = data.interface.len();
    let ghost start = statistics@;
    let mut i: usize = 0;
    while i < n
        invariant
            n == data.interface@.len(),
            i <= n,
            statistics.wf(),
            statistics@ == apply_interfaces(start, data.interface@.take(i as int), timestamp),
        decreases n - i,
    {
        let interface = &data.interface[i];
        let samples = net_dev_samples_exec(interface);
        add_samples_to_statistics("net_dev", interface.name.as_str(), timestamp, &samples, statistics);
        proof {
            assert(data.interface@.take(i + 1).drop_last() =~= data.interface@.take(i as int));
        }
        i = i + 1;
    }
    proof {
        assert(data.interface@.take(n as int) =~= data.interface@);
    }
    proof {
        assert forall|i: int|
            0 <= i < data.interface@.len() && (forall|j: int|
                i < j < data.interface@.len() ==> #[trigger] data.interface@[j].name@ != data.interface@[i].name@)
                implies interface_recorded(statistics@, #[trigger] data.interface@[i], timestamp) by {
            law_interfaces_read_back(start, data.interface@, timestamp, i);
        }
    }
    Ok(())
}

} // verus!
