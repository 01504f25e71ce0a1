//! The statistics table: one record per (category, subcategory, name) key,
//! holding the last sample of a counter and its change since the sample before.
use vstd::prelude::*;

verus! {

/// The key of a statistic as mathematical strings.
pub type KeyView = (Seq<char>, Seq<char>, Seq<char>);

/// The last sample of one counter, and what changed since the sample before it.
///
/// Timestamps are nanoseconds since the Unix epoch. `elapsed_ms` is the time between
/// the last two samples in whole milliseconds, truncated toward zero.
#[derive(Clone, Copy, Debug, PartialEq, Eq, Structural)]
pub struct Statistic {
    pub last_timestamp: i64,
    pub last_value: u64,
    pub delta_value: i128,
    pub elapsed_ms: i64,
    pub updated_value: bool,
}

/// Nanoseconds to whole milliseconds, truncated toward zero.
pub open spec fn trunc_millis(delta_ns: int) -> int {
    if delta_ns >= 0 {
        delta_ns / 1_000_000
    } else {
        -((-delta_ns) / 1_000_000)
    }
}

/// The record after a sample `value` taken at `timestamp`, given the record before it.
pub open spec fn next_statistic(prev: Option<Statistic>, timestamp: i64, value: u64) -> Statistic {
    match prev {
        None => Statistic {
            last_timestamp: timestamp,
            last_value: value,
            delta_value: 0,
            elapsed_ms: 0,
            updated_value: false,
        },
        Some(p) => Statistic {
            last_timestamp: timestamp,
            last_value: value,
            delta_value: (value - p.last_value) as i128,
            elapsed_ms: trunc_millis(timestamp - p.last_timestamp) as i64,
            updated_value: true,
        },
    }
}

/// The record stored under `k` in `m`, if any.
pub open spec fn map_get(m: Map<KeyView, Statistic>, k: KeyView) -> Option<Statistic> {
    if m.dom().contains(k) {
        Some(m[k])
    } else {
        None
    }
}

/// The table after a sample `value` of key `k` taken at `timestamp`.
pub open spec fn sample_map(m: Map<KeyView, Statistic>, k: KeyView, timestamp: i64, value: u64) -> Map<
    KeyView,
    Statistic,
> {
    m.insert(k, next_statistic(map_get(m, k), timestamp, value))
}

fn trunc_millis_exec(delta_ns: i128) -> (r: i64)
    requires
        -0x1_0000_0000_0000_0000 < delta_ns < 0x1_0000_0000_0000_0000,
    ensures
        r == trunc_millis(delta_ns as int),
{
    if delta_ns >= 0 {
        (delta_ns / 1_000_000) as i64
    } else {
        let m = (-delta_ns) / 1_000_000;
        -(m as i64)
    }
}

/// Exec version of `next_statistic`.
pub fn next_statistic_exec(prev: Option<Statistic>, timestamp: i64, value: u64) -> (r: Statistic)
    ensures
        r == next_statistic(prev, timestamp, value),
{
    match prev {
        None => Statistic {
            last_timestamp: timestamp,
            last_value: value,
            delta_value: 0,
            elapsed_ms: 0,
            updated_value: false,
        },
        Some(p) => {
            let delta = (value as i128) - (p.last_value as i128);
            let elapsed = trunc_millis_exec((timestamp as i128) - (p.last_timestamp as i128));
            Statistic {
                last_timestamp: timestamp,
                last_value: value,
                delta_value: delta,
                elapsed_ms: elapsed,
                updated_value: true,
            }
        },
    }
}


/// One row of the statistics table.
#[derive(Debug)]
pub struct StatEntry {
    pub category: String,
    pub subcategory: String,
    pub name: String,
    pub statistic: Statistic,
}

impl StatEntry {
    pub open spec fn key(&self) -> KeyView {
        (self.category@, self.subcategory@, self.name@)
    }
}

/// No key occurs twice among the rows.
pub open spec fn keys_distinct(s: Seq<StatEntry>) -> bool {
    forall|i: int, j: int| 0 <= i < s.len() && 0 <= j < s.len() && i != j ==> s[i].key() != s[j].key()
}

/// The rows read as a map from key to record.
pub open spec fn entries_map(s: Seq<StatEntry>) -> Map<KeyView, Statistic>
    decreases s.len(),
{
    if s.len() == 0 {
        Map::empty()
    } else {
        entries_map(s.drop_last()).insert(s.last().key(), s.last().statistic)
    }
}

/// A key is in the map exactly when some row carries it.
pub proof fn lemma_entries_map_dom(s: Seq<StatEntry>, k: KeyView)
    ensures
        entries_map(s).dom().contains(k) <==> exists|i: int| 0 <= i < s.len() && s[i].key() == k,
    decreases s.len(),
{
    if s.len() > 0 {
        lemma_entries_map_dom(s.drop_last(), k);
        if entries_map(s.drop_last()).dom().contains(k) {
            let i = choose|i: int| 0 <= i < s.drop_last().len() && s.drop_last()[i].key() == k;
            assert(s[i].key() == k);
        }
        if exists|i: int| 0 <= i < s.len() && s[i].key() == k {
            let i = choose|i: int| 0 <= i < s.len() && s[i].key() == k;
            if i < s.len() - 1 {
                assert(s.drop_last()[i].key() == k);
            }
        }
    }
}

/// With distinct keys, the map gives each row's record under the row's key.
pub proof fn lemma_entries_map_value(s: Seq<StatEntry>, i: int)
    requires
        keys_distinct(s),
        0 <= i < s.len(),
    ensures
        entries_map(s).dom().contains(s[i].key()),
        entries_map(s)[s[i].key()] == s[i].statistic,
    decreases s.len(),
{
    if i < s.len() - 1 {
        assert(keys_distinct(s.drop_last()));
        assert(s.drop_last()[i] == s[i]);
        lemma_entries_map_value(s.drop_last(), i);
        assert(s.last().key() != s[i].key());
    }
}

/// Replacing the record of an existing row updates the map under that key only.
pub proof fn lemma_entries_map_update(s: Seq<StatEntry>, i: int, e: StatEntry)
    requires
        keys_distinct(s),
        0 <= i < s.len(),
        e.key() == s[i].key(),
    ensures
        entries_map(s.update(i, e)) == entries_map(s).insert(e.key(), e.statistic),
    decreases s.len(),
{
    let t = s.update(i, e);
    if i == s.len() - 1 {
        assert(t.drop_last() =~= s.drop_last());
        assert(entries_map(t) =~= entries_map(s).insert(e.key(), e.statistic));
    } else {
        assert(t.drop_last() =~= s.drop_last().update(i, e));
        assert(keys_distinct(s.drop_last()));
        lemma_entries_map_update(s.drop_last(), i, e);
        assert(s.last().key() != s[i].key());
        lemma_entries_map_dom(s.drop_last(), e.key());
        assert(entries_map(t) =~= entries_map(s).insert(e.key(), e.statistic));
    }
}

/// The table of statistics, keyed by (category, subcategory, name).
pub struct Statistics {
    entries: Vec<StatEntry>,
}

impl View for Statistics {
    type V = Map<KeyView, Statistic>;

    closed spec fn view(&self) -> Map<KeyView, Statistic> {
        entries_map(self.entries@)
    }
}

impl Statistics {
    /// The rows, in the order in which their keys first appeared.
    pub closed spec fn rows(&self) -> Seq<StatEntry> {
        self.entries@
    }

    /// Well-formedness: no key occurs twice.
    pub closed spec fn wf(&self) -> bool {
        keys_distinct(self.entries@)
    }

    /// The view is the rows read as a map; each key has one row.
    pub proof fn lemma_view(&self)
        requires
            self.wf(),
        ensures
            self@ == entries_map(self.rows()),
            keys_distinct(self.rows()),
    {
    }

    /// An empty table.
    pub fn new() -> (r: Statistics)
        ensures
            r.wf(),
            r@ == Map::<KeyView, Statistic>::empty(),
            r.rows().len() == 0,
    {
        Statistics { entries: Vec::new() }
    }

    /// The number of keys in the table.
    pub fn len(&self) -> (n: usize)
        requires
            self.wf(),
        ensures
            n == self.rows().len(),
            n == self@.dom().len(),
    {
        proof { self.lemma_dom_len(); }
        self.entries.len()
    }

    proof fn lemma_dom_len(&self)
        requires
            self.wf(),
        ensures
            self@.dom().len() == self.entries@.len(),
            self@.dom().finite(),
    {
        lemma_distinct_dom_len(self.entries@);
    }

    /// The row at position `i`.
    pub fn row(&self, i: usize) -> (e: &StatEntry)
        requires
            i < self.rows().len(),
        ensures
            *e == self.rows()[i as int],
    {
        &self.entries[i]
    }

    fn find(&self, category: &String, subcategory: &String, name: &String) -> (r: Option<usize>)
        ensures
            match r {
                Some(i) => i < self.entries@.len() && self.entries@[i as int].key() == (
                    category@,
                    subcategory@,
                    name@,
                ),
                None => forall|i: int|
                    0 <= i < self.entries@.len() ==> self.entries@[i].key() != (
                        category@,
                        subcategory@,
                        name@,
                    ),
            },
    {
        let n = self.entries.len();
        let mut i: usize = 0;
        while i < n
            invariant
                n == self.entries@.len(),
                i <= n,
                forall|j: int|
                    0 <= j < i ==> self.entries@[j].key() != (category@, subcategory@, name@),
            decreases n - i,
        {
            let e = &self.entries[i];
            if e.category == *category && e.subcategory == *subcategory && e.name == *name {
                return Some(i);
            }
            i = i + 1;
        }
        None
    }

    /// The record stored under the key, if any.
    pub fn get(&self, category: &str, subcategory: &str, name: &str) -> (r: Option<Statistic>)
        requires
            self.wf(),
        ensures
            r == map_get(self@, (category@, subcategory@, name@)),
    {
        let c = category.to_owned();
        let s = subcategory.to_owned();
        let n = name.to_owned();
        let ghost k: KeyView = (category@, subcategory@, name@);
        proof { lemma_entries_map_dom(self.entries@, k); }
        match self.find(&c, &s, &n) {
            Some(i) => {
                proof { lemma_entries_map_value(self.entries@, i as int); }
                Some(self.entries[i].statistic)
            },
            None => None,
        }
    }

    /// Records a sample `value` of the key, taken at `timestamp`.
    pub fn sample(&mut self, category: &str, subcategory: &str, name: &str, timestamp: i64, value: u64)
        requires
            old(self).wf(),
        ensures
            final(self).wf(),
            final(self)@ == sample_map(old(self)@, (category@, subcategory@, name@), timestamp, value),
            final(self).rows().len() == old(self).rows().len() + if old(self)@.dom().contains(
                (category@, subcategory@, name@),
            ) {
                0int
            } else {
                1int
            },
    {
        let c = category.to_owned();
        let s = subcategory.to_owned();
        let n = name.to_owned();
        let ghost k: KeyView = (category@, subcategory@, name@);
        proof { lemma_entries_map_dom(self.entries@, k); }
        match self.find(&c, &s, &n) {
            Some(i) => {
                proof { lemma_entries_map_value(self.entries@, i as int); }
                let prev = self.entries[i].statistic;
                let next = next_statistic_exec(Some(prev), timestamp, value);
                let e = StatEntry { category: c, subcategory: s, name: n, statistic: next };
                proof { lemma_entries_map_update(self.entries@, i as int, e); }
                self.entries.set(i, e);
                assert(keys_distinct(self.entries@));
            },
            None => {
                let next = next_statistic_exec(None, timestamp, value);
                let e = StatEntry { category: c, subcategory: s, name: n, statistic: next };
                let ghost before = self.entries@;
                self.entries.push(e);
                assert(self.entries@.drop_last() =~= before);
                assert(keys_distinct(self.entries@));
            },
        }
    }
}

/// With distinct keys, the map has one key per row.
pub proof fn lemma_distinct_dom_len(s: Seq<StatEntry>)
    requires
        keys_distinct(s),
    ensures
        entries_map(s).dom().finite(),
        entries_map(s).dom().len() == s.len(),
    decreases s.len(),
{
    if s.len() > 0 {
        let t = s.drop_last();
        assert(keys_distinct(t));
        lemma_distinct_dom_len(t);
        lemma_entries_map_dom(t, s.last().key());
        if entries_map(t).dom().contains(s.last().key()) {
            let i = choose|i: int| 0 <= i < t.len() && t[i].key() == s.last().key();
            assert(s[i].key() == s[s.len() - 1].key());
        }
    }
}


/// The error of a lookup of a key that the table does not hold.
#[derive(Debug)]
pub enum ProcessorError {
    UnableToFindKeyInHashMap { hashmap: String, key1: String, key2: String, key3: String },
}

/// Records a sample of a counter under (category, subcategory, name).
///
/// The first sample of a key stores the value with no change; every later sample
/// stores the value, the change since the previous one and the time between them,
/// and marks the record as updated.
pub fn single_statistic_u64(
    category: &str,
    subcategory: &str,
    name: &str,
    timestamp: i64,
    value: u64,
    statistics: &mut Statistics,
)
    requires
        old(statistics).wf(),
    ensures
        final(statistics).wf(),
        final(statistics)@ == sample_map(
            old(statistics)@,
            (category@, subcategory@, name@),
            timestamp,
            value,
        ),
{
    statistics.sample(category, subcategory, name, timestamp, value);
}

/// Records a sample of a counter that may be absent; an absent counter counts as 0.
pub fn single_statistic_option_u64(
    category: &str,
    subcategory: &str,
    name: &str,
    timestamp: i64,
    value: Option<u64>,
    statistics: &mut Statistics,
)
    requires
        old(statistics).wf(),
    ensures
        final(statistics).wf(),
        final(statistics)@ == sample_map(
            old(statistics)@,
            (category@, subcategory@, name@),
            timestamp,
            value.unwrap_or(0),
        ),
{
    let v = match value {
        Some(v) => v,
        None => 0,
    };
    statistics.sample(category, subcategory, name, timestamp, v);
}

/// The record under the key, or the error that names the missing key.
pub fn lookup_statistic(statistics: &Statistics, category: &str, subcategory: &str, name: &str) -> (r:
    Result<Statistic, ProcessorError>)
    requires
        statistics.wf(),
    ensures
        match r {
            Ok(s) => statistics@.dom().contains((category@, subcategory@, name@)) && s
                == statistics@[(category@, subcategory@, name@)],
            Err(ProcessorError::UnableToFindKeyInHashMap { hashmap, key1, key2, key3 }) => {
                &&& !statistics@.dom().contains((category@, subcategory@, name@))
                &&& hashmap@ == "statistics"@
                &&& key1@ == category@
                &&& key2@ == subcategory@
                &&& key3@ == name@
            },
        },
{
    match statistics.get(category, subcategory, name) {
        Some(s) => Ok(s),
        None => Err(
            ProcessorError::UnableToFindKeyInHashMap {
                hashmap: "statistics".to_owned(),
                key1: category.to_owned(),
                key2: subcategory.to_owned(),
                key3: name.to_owned(),
            },
        ),
    }
}

/// The records under each of `names` in one category and subcategory, in the order of
/// the names; or the error that names the first key that the table does not hold.
pub fn lookup_statistics(
    statistics: &Statistics,
    category: &str,
    subcategory: &str,
    names: &Vec<String>,
) -> (r: Result<Vec<Statistic>, ProcessorError>)
    requires
        statistics.wf(),
    ensures
        match r {
            Ok(v) => {
                &&& v@.len() == names@.len()
                &&& forall|i: int|
                    0 <= i < names@.len() ==> {
                        &&& statistics@.dom().contains((category@, subcategory@, #[trigger] names@[i]@))
                        &&& v@[i] == statistics@[(category@, subcategory@, names@[i]@)]
                    }
            },
            Err(ProcessorError::UnableToFindKeyInHashMap { hashmap, key1, key2, key3 }) => exists|j: int|
                {
                    &&& 0 <= j < names@.len()
                    &&& !statistics@.dom().contains((category@, subcategory@, #[trigger] names@[j]@))
                    &&& forall|i: int|
                        0 <= i < j ==> statistics@.dom().contains(
                            (category@, subcategory@, #[trigger] names@[i]@),
                        )
                    &&& hashmap@ == "statistics"@
                    &&& key1@ == category@
                    &&& key2@ == subcategory@
                    &&& key3@ == names@[j]@
                },
        },
{
    let n = names.len();
    let mut out: Vec<Statistic> = Vec::new();
    let mut i: usize = 0;
    while i < n
        invariant
            n == names@.len(),
            i <= n,
            statistics.wf(),
            out@.len() == i,
            forall|j: int|
                0 <= j < i ==> {
                    &&& statistics@.dom().contains((category@, subcategory@, #[trigger] names@[j]@))
                    &&& out@[j] == statistics@[(category@, subcategory@, names@[j]@)]
                },
        decreases n - i,
    {
        match lookup_statistic(statistics, category, subcategory, names[i].as_str()) {
            Ok(s) => {
                out.push(s);
            },
            Err(e) => {
                return Err(e);
            },
        }
        i = i + 1;
    }
    Ok(out)
}

/// Named samples read as (name, value) pairs of mathematical strings.
pub open spec fn samples_view(samples: Seq<(String, u64)>) -> Seq<(Seq<char>, u64)> {
    samples.map_values(|p: (String, u64)| (p.0@, p.1))
}

/// The table after the samples, in order, all under one category and subcategory.
pub open spec fn apply_samples(
    m: Map<KeyView, Statistic>,
    category: Seq<char>,
    subcategory: Seq<char>,
    timestamp: i64,
    samples: Seq<(Seq<char>, u64)>,
) -> Map<KeyView, Statistic>
    decreases samples.len(),
{
    if samples.len() == 0 {
        m
    } else {
        sample_map(
            apply_samples(m, category, subcategory, timestamp, samples.drop_last()),
            (category, subcategory, samples.last().0),
            timestamp,
            samples.last().1,
        )
    }
}

/// Records each named sample, in order, under one category and subcategory.
pub fn add_samples_to_statistics(
    category: &str,
    subcategory: &str,
    timestamp: i64,
    samples: &Vec<(String, u64)>,
    statistics: &mut Statistics,
)
    requires
        old(statistics).wf(),
    ensures
        final(statistics).wf(),
        final(statistics)@ == apply_samples(
            old(statistics)@,
            category@,
            subcategory@,
            timestamp,
            samples_view(samples@),
        ),
{
    let n = samples.len();
    let ghost start = statistics@;
    let mut i: usize = 0;
    while i < n
        invariant
            n == samples@.len(),
            i <= n,
            statistics.wf(),
            statistics@ == apply_samples(
                start,
                category@,
                subcategory@,
                timestamp,
                samples_view(samples@).take(i as int),
            ),
        decreases n - i,
    {
        let (name, value) = (&samples[i].0, samples[i].1);
        single_statistic_u64(category, subcategory, name.as_str(), timestamp, value, statistics);
        proof {
            let sv = samples_view(samples@);
            assert(sv.take(i + 1).drop_last() =~= sv.take(i as int));
            assert(sv.take(i + 1).last() == sv[i as int]);
        }
        i = i + 1;
    }
    proof {
        assert(samples_view(samples@).take(n as int) =~= samples_view(samples@));
    }
}

/// A sample is read back: the key is present and holds the value and time of the sample.
pub proof fn law_sample_read_back(m: Map<KeyView, Statistic>, k: KeyView, timestamp: i64, value: u64)
    ensures
        sample_map(m, k, timestamp, value).dom().contains(k),
        sample_map(m, k, timestamp, value)[k].last_value == value,
        sample_map(m, k, timestamp, value)[k].last_timestamp == timestamp,
{
}

/// A sample leaves every other key as it was, and removes no key.
pub proof fn law_sample_frame(
    m: Map<KeyView, Statistic>,
    k: KeyView,
    other: KeyView,
    timestamp: i64,
    value: u64,
)
    requires
        other != k,
    ensures
        map_get(sample_map(m, k, timestamp, value), other) == map_get(m, other),
        sample_map(m, k, timestamp, value).dom() == m.dom().insert(k),
{
}

/// The first sample of a key records the value, with no change, not marked as updated.
pub proof fn law_first_sample(m: Map<KeyView, Statistic>, k: KeyView, timestamp: i64, value: u64)
    requires
        !m.dom().contains(k),
    ensures
        sample_map(m, k, timestamp, value)[k] == (Statistic {
            last_timestamp: timestamp,
            last_value: value,
            delta_value: 0,
            elapsed_ms: 0,
            updated_value: false,
        }),
{
}

/// Of two samples of one key, the second records the change between the two values
/// and the time between them in milliseconds, and is marked as updated.
pub proof fn law_second_sample(
    m: Map<KeyView, Statistic>,
    k: KeyView,
    t1: i64,
    v1: u64,
    t2: i64,
    v2: u64,
)
    ensures
        ({
            let s = sample_map(sample_map(m, k, t1, v1), k, t2, v2)[k];
            &&& s.updated_value
            &&& s.last_value == v2
            &&& s.last_timestamp == t2
            &&& s.delta_value == v2 - v1
            &&& s.elapsed_ms == trunc_millis(t2 - t1)
        }),
{
}

/// The table holds `value`, sampled at `timestamp`, under `k`.
pub open spec fn holds(m: Map<KeyView, Statistic>, k: KeyView, value: u64, timestamp: i64) -> bool {
    &&& m.dom().contains(k)
    &&& m[k].last_value == value
    &&& m[k].last_timestamp == timestamp
}

/// Samples under one category and subcategory leave every key of another category or
/// subcategory as it was.
pub proof fn lemma_apply_samples_frame(
    m: Map<KeyView, Statistic>,
    category: Seq<char>,
    subcategory: Seq<char>,
    timestamp: i64,
    samples: Seq<(Seq<char>, u64)>,
    k: KeyView,
)
    requires
        k.0 != category || k.1 != subcategory,
    ensures
        map_get(apply_samples(m, category, subcategory, timestamp, samples), k) == map_get(m, k),
    decreases samples.len(),
{
    if samples.len() > 0 {
        lemma_apply_samples_frame(m, category, subcategory, timestamp, samples.drop_last(), k);
    }
}

/// Applying two runs of samples one after the other is applying them joined.
pub proof fn lemma_apply_samples_add(
    m: Map<KeyView, Statistic>,
    category: Seq<char>,
    subcategory: Seq<char>,
    timestamp: i64,
    a: Seq<(Seq<char>, u64)>,
    b: Seq<(Seq<char>, u64)>,
)
    ensures
        apply_samples(m, category, subcategory, timestamp, a + b) == apply_samples(
            apply_samples(m, category, subcategory, timestamp, a),
            category,
            subcategory,
            timestamp,
            b,
        ),
    decreases b.len(),
{
    if b.len() == 0 {
        assert(a + b =~= a);
    } else {
        assert((a + b).drop_last() =~= a + b.drop_last());
        lemma_apply_samples_add(m, category, subcategory, timestamp, a, b.drop_last());
    }
}

/// Applying samples none of which is named `name` leaves the key of `name` as it was.
pub proof fn lemma_apply_samples_other_names(
    m: Map<KeyView, Statistic>,
    category: Seq<char>,
    subcategory: Seq<char>,
    timestamp: i64,
    samples: Seq<(Seq<char>, u64)>,
    name: Seq<char>,
)
    requires
        forall|j: int| 0 <= j < samples.len() ==> #[trigger] samples[j].0 != name,
    ensures
        map_get(apply_samples(m, category, subcategory, timestamp, samples), (category, subcategory, name))
            == map_get(m, (category, subcategory, name)),
    decreases samples.len(),
{
    if samples.len() > 0 {
        assert(samples[samples.len() - 1].0 != name);
        lemma_apply_samples_other_names(m, category, subcategory, timestamp, samples.drop_last(), name);
    }
}

/// A sample that no later sample of the same name follows is read back: its key holds
/// its value and the time of the samples.
pub proof fn lemma_apply_samples_read_back(
    m: Map<KeyView, Statistic>,
    category: Seq<char>,
    subcategory: Seq<char>,
    timestamp: i64,
    samples: Seq<(Seq<char>, u64)>,
    i: int,
)
    requires
        0 <= i < samples.len(),
        forall|j: int| i < j < samples.len() ==> #[trigger] samples[j].0 != samples[i].0,
    ensures
        holds(
            apply_samples(m, category, subcategory, timestamp, samples),
            (category, subcategory, samples[i].0),
            samples[i].1,
            timestamp,
        ),
{
    let a = samples.take(i + 1);
    let b = samples.skip(i + 1);
    assert(samples =~= a + b);
    lemma_apply_samples_add(m, category, subcategory, timestamp, a, b);
    assert(a.drop_last() =~= samples.take(i));
    assert forall|j: int| 0 <= j < b.len() implies #[trigger] b[j].0 != samples[i].0 by {
        assert(b[j] == samples[i + 1 + j]);
    }
    lemma_apply_samples_other_names(
        apply_samples(m, category, subcategory, timestamp, a),
        category,
        subcategory,
        timestamp,
        b,
        samples[i].0,
    );
}

/// The value of the last sample named `name`, if any.
pub open spec fn last_sample(samples: Seq<(Seq<char>, u64)>, name: Seq<char>) -> Option<u64>
    decreases samples.len(),
{
    if samples.len() == 0 {
        None
    } else if samples.last().0 == name {
        Some(samples.last().1)
    } else {
        last_sample(samples.drop_last(), name)
    }
}

/// Each name among the samples is read back with the value of its last sample.
pub proof fn lemma_apply_samples_last(
    m: Map<KeyView, Statistic>,
    category: Seq<char>,
    subcategory: Seq<char>,
    timestamp: i64,
    samples: Seq<(Seq<char>, u64)>,
    name: Seq<char>,
)
    requires
        last_sample(samples, name) is Some,
    ensures
        holds(
            apply_samples(m, category, subcategory, timestamp, samples),
            (category, subcategory, name),
            last_sample(samples, name)->Some_0,
            timestamp,
        ),
    decreases samples.len(),
{
    if samples.last().0 != name {
        lemma_apply_samples_last(m, category, subcategory, timestamp, samples.drop_last(), name);
    }
}

/// Samples under one category and subcategory leave every key of another category or
/// subcategory as it was, for all such keys at once.
pub proof fn lemma_apply_samples_frame_all(
    m: Map<KeyView, Statistic>,
    category: Seq<char>,
    subcategory: Seq<char>,
    timestamp: i64,
    samples: Seq<(Seq<char>, u64)>,
)
    ensures
        forall|k: KeyView|
            (k.0 != category || k.1 != subcategory) ==> (#[trigger] apply_samples(
                m,
                category,
                subcategory,
                timestamp,
                samples,
            ).dom().contains(k) <==> m.dom().contains(k)),
        forall|k: KeyView|
            (k.0 != category || k.1 != subcategory) && m.dom().contains(k) ==> #[trigger] apply_samples(
                m,
                category,
                subcategory,
                timestamp,
                samples,
            )[k] == m[k],
{
    assert forall|k: KeyView| (k.0 != category || k.1 != subcategory) implies (#[trigger] apply_samples(
        m,
        category,
        subcategory,
        timestamp,
        samples,
    ).dom().contains(k) <==> m.dom().contains(k)) by {
        lemma_apply_samples_frame(m, category, subcategory, timestamp, samples, k);
    }
    assert forall|k: KeyView| (k.0 != category || k.1 != subcategory) && m.dom().contains(k) implies #[trigger] apply_samples(
        m,
        category,
        subcategory,
        timestamp,
        samples,
    )[k] == m[k] by {
        lemma_apply_samples_frame(m, category, subcategory, timestamp, samples, k);
    }
}

/// Every key of category `category` is in `m2` exactly when it is in `m1`, with the same
/// record.
pub open spec fn keeps_category(m1: Map<KeyView, Statistic>, m2: Map<KeyView, Statistic>, category: Seq<char>) -> bool {
    &&& forall|k: KeyView| k.0 == category ==> (#[trigger] m2.dom().contains(k) <==> m1.dom().contains(k))
    &&& forall|k: KeyView| k.0 == category && m1.dom().contains(k) ==> #[trigger] m2[k] == m1[k]
}

/// Keeping a category is transitive.
pub proof fn lemma_keeps_category_trans(
    m1: Map<KeyView, Statistic>,
    m2: Map<KeyView, Statistic>,
    m3: Map<KeyView, Statistic>,
    category: Seq<char>,
)
    requires
        keeps_category(m1, m2, category),
        keeps_category(m2, m3, category),
    ensures
        keeps_category(m1, m3, category),
{
    assert forall|k: KeyView| k.0 == category && m1.dom().contains(k) implies #[trigger] m3[k] == m1[k] by {
        assert(m2.dom().contains(k));
        assert(m2[k] == m1[k]);
    }
}

/// Samples of another category keep every key of `category`.
pub proof fn lemma_apply_samples_keeps(
    m: Map<KeyView, Statistic>,
    other: Seq<char>,
    subcategory: Seq<char>,
    timestamp: i64,
    samples: Seq<(Seq<char>, u64)>,
    category: Seq<char>,
)
    requires
        other != category,
    ensures
        keeps_category(m, apply_samples(m, other, subcategory, timestamp, samples), category),
{
    lemma_apply_samples_frame_all(m, other, subcategory, timestamp, samples);
}

} // verus!
