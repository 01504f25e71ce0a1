//! Lists of the CPUs and devices that the statistics table holds records for,
//! sorted by name and without duplicates.
use vstd::prelude::*;
use crate::statistics::{KeyView, Statistic, Statistics, lemma_entries_map_dom};
use crate::text::{is_prefix, sorted_strict, strings_view, starts_with, insert_sorted};

verus! {

/// A key of the per-CPU statistics: kept by the stat or schedstat category, named
/// `cpu...`, or the total over all CPUs.
pub open spec fn is_cpu_key(k: KeyView) -> bool {
    &&& (k.0 == "stat"@ || k.0 == "schedstat"@)
    &&& (is_prefix("cpu"@, k.1) || k.1 == "all"@)
}

/// The subcategories of the keys in `m` that are CPU keys.
pub open spec fn cpu_names(m: Map<KeyView, Statistic>) -> Set<Seq<char>> {
    Set::new(|sub: Seq<char>| exists|k: KeyView| m.dom().contains(k) && is_cpu_key(k) && k.1 == sub)
}

/// The subcategories of the keys in `m` under `category`.
pub open spec fn device_names(m: Map<KeyView, Statistic>, category: Seq<char>) -> Set<Seq<char>> {
    Set::new(|sub: Seq<char>| exists|k: KeyView| m.dom().contains(k) && k.0 == category && k.1 == sub)
}

/// The CPU names that the table holds statistics for ("all" and each "cpuN"),
/// sorted and without duplicates.
pub fn cpu_list(statistics: &Statistics) -> (r: Vec<String>)
    requires
        statistics.wf(),
    ensures
        sorted_strict(strings_view(r@)),
        strings_view(r@).to_set() == cpu_names(statistics@),
{
    let stat = "stat".to_owned();
    let schedstat = "schedstat".to_owned();
    let all = "all".to_owned();
    let n = statistics.len();
    let ghost rows = statistics.rows();
    let mut list: Vec<String> = Vec::new();
    let mut i: usize = 0;
    while i < n
        invariant
            n == rows.len(),
            rows == statistics.rows(),
            i <= n,
            stat@ == "stat"@,
            schedstat@ == "schedstat"@,
            all@ == "all"@,
            sorted_strict(strings_view(list@)),
            strings_view(list@).to_set() == Set::new(
                |sub: Seq<char>|
                    exists|j: int| 0 <= j < i && is_cpu_key(rows[j].key()) && rows[j].key().1 == sub,
            ),
        decreases n - i,
    {
        let e = statistics.row(i);
        let ghost before = strings_view(list@).to_set();
        let keep = (e.category == stat || e.category == schedstat) && (starts_with(
            e.subcategory.as_str(),
            "cpu",
        ) || e.subcategory == all);
        if keep {
            insert_sorted(&mut list, e.subcategory.clone());
        }
        proof {
            assert(strings_view(list@).to_set() =~= Set::new(
                |sub: Seq<char>|
                    exists|j: int|
                        0 <= j < i + 1 && is_cpu_key(rows[j].key()) && rows[j].key().1 == sub,
            )) by {
                assert forall|sub: Seq<char>|
                    (exists|j: int|
                        0 <= j < i + 1 && is_cpu_key(rows[j].key()) && rows[j].key().1
                            == sub) implies #[trigger] strings_view(list@).to_set().contains(sub) by {
                    let j = choose|j: int|
                        0 <= j < i + 1 && is_cpu_key(rows[j].key()) && rows[j].key().1 == sub;
                    if j < i {
                        assert(before.contains(sub));
                    }
                }
            }
        }
        i = i + 1;
    }
    proof {
        statistics.lemma_view();
        assert(strings_view(list@).to_set() =~= cpu_names(statistics@)) by {
            assert forall|sub: Seq<char>| cpu_names(statistics@).contains(sub) implies strings_view(
                list@,
            ).to_set().contains(sub) by {
                let k = choose|k: KeyView|
                    statistics@.dom().contains(k) && is_cpu_key(k) && k.1 == sub;
                lemma_entries_map_dom(rows, k);
                let j = choose|j: int| 0 <= j < rows.len() && rows[j].key() == k;
                assert(is_cpu_key(rows[j].key()) && rows[j].key().1 == sub);
            }
            assert forall|sub: Seq<char>| strings_view(list@).to_set().contains(sub) implies cpu_names(
                statistics@,
            ).contains(sub) by {
                let j = choose|j: int|
                    0 <= j < n && is_cpu_key(rows[j].key()) && rows[j].key().1 == sub;
                let k = rows[j].key();
                lemma_entries_map_dom(rows, k);
                assert(statistics@.dom().contains(k));
            }
        }
    }
    list
}

/// The device names that the table holds statistics for under `category`,
/// sorted and without duplicates.
pub fn device_list(statistics: &Statistics, category: &str) -> (r: Vec<String>)
    requires
        statistics.wf(),
    ensures
        sorted_strict(strings_view(r@)),
        strings_view(r@).to_set() == device_names(statistics@, category@),
{
    let cat = category.to_owned();
    let n = statistics.len();
    let ghost rows = statistics.rows();
    let mut list: Vec<String> = Vec::new();
    let mut i: usize = 0;
    while i < n
        invariant
            n == rows.len(),
            rows == statistics.rows(),
            i <= n,
            cat@ == category@,
            sorted_strict(strings_view(list@)),
            strings_view(list@).to_set() == Set::new(
                |sub: Seq<char>|
                    exists|j: int|
                        0 <= j < i && rows[j].key().0 == category@ && rows[j].key().1 == sub,
            ),
        decreases n - i,
    {
        let e = statistics.row(i);
        let ghost before = strings_view(list@).to_set();
        if e.category == cat {
            insert_sorted(&mut list, e.subcategory.clone());
        }
        proof {
            assert(strings_view(list@).to_set() =~= Set::new(
                |sub: Seq<char>|
                    exists|j: int|
                        0 <= j < i + 1 && rows[j].key().0 == category@ && rows[j].key().1 == sub,
            )) by {
                assert forall|sub: Seq<char>|
                    (exists|j: int|
                        0 <= j < i + 1 && rows[j].key().0 == category@ && rows[j].key().1
                            == sub) implies #[trigger] strings_view(list@).to_set().contains(sub) by {
                    let j = choose|j: int|
                        0 <= j < i + 1 && rows[j].key().0 == category@ && rows[j].key().1 == sub;
                    if j < i {
                        assert(before.contains(sub));
                    }
                }
            }
        }
        i = i + 1;
    }
    proof {
        statistics.lemma_view();
        assert(strings_view(list@).to_set() =~= device_names(statistics@, category@)) by {
            assert forall|sub: Seq<char>| device_names(statistics@, category@).contains(
                sub,
            ) implies strings_view(list@).to_set().contains(sub) by {
                let k = choose|k: KeyView|
                    statistics@.dom().contains(k) && k.0 == category@ && k.1 == sub;
                lemma_entries_map_dom(rows, k);
                let j = choose|j: int| 0 <= j < rows.len() && rows[j].key() == k;
                assert(rows[j].key().0 == category@ && rows[j].key().1 == sub);
            }
            assert forall|sub: Seq<char>| strings_view(list@).to_set().contains(
                sub,
            ) implies device_names(statistics@, category@).contains(sub) by {
                let j = choose|j: int|
                    0 <= j < n && rows[j].key().0 == category@ && rows[j].key().1 == sub;
                let k = rows[j].key();
                lemma_entries_map_dom(rows, k);
                assert(statistics@.dom().contains(k));
            }
        }
    }
    list
}

/// A block device that counts toward the totals: not a loop device (`loop...`)
/// and not a read-only optical drive (`sr...`).
pub open spec fn is_physical_disk(name: Seq<char>) -> bool {
    !is_prefix("loop"@, name) && !is_prefix("sr"@, name)
}

/// Whether the block device named `name` counts toward the totals.
pub fn physical_disk(name: &str) -> (r: bool)
    ensures
        r == is_physical_disk(name@),
{
    !starts_with(name, "loop") && !starts_with(name, "sr")
}

} // verus!
