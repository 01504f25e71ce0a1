//! Time arithmetic of the archiver: which stretch of history an archive file
//! covers, when the next archive is due, and the list of archive files to read.
use vstd::prelude::*;

verus! {

/// Nanoseconds in one minute.
pub const NANOS_PER_MINUTE: i128 = 60_000_000_000i128;

/// The error of a truncation that cannot be carried out.
#[derive(Debug, Clone, Copy, PartialEq, Eq, Structural)]
pub enum RoundingError {
    /// The span is not positive, or does not fit in nanoseconds.
    DurationExceedsLimit,
    /// The timestamp, or the truncated one, does not fit in nanoseconds.
    TimestampExceedsLimit,
}

/// `timestamp` (nanoseconds since the epoch, in UTC) rounded down to a whole
/// multiple of `span` nanoseconds of local time, where local time is UTC plus
/// `offset` nanoseconds.
pub open spec fn truncated(timestamp: int, offset: int, span: int) -> Result<int, RoundingError> {
    if span <= 0 || span > i64::MAX {
        Err(RoundingError::DurationExceedsLimit)
    } else if timestamp + offset < i64::MIN || timestamp + offset > i64::MAX {
        Err(RoundingError::TimestampExceedsLimit)
    } else if timestamp - (timestamp + offset) % span < i64::MIN || timestamp - (timestamp
        + offset) % span > i64::MAX {
        Err(RoundingError::TimestampExceedsLimit)
    } else {
        Ok(timestamp - (timestamp + offset) % span)
    }
}

/// Rounds `timestamp` down to a whole multiple of `span` nanoseconds of local time.
pub fn duration_trunc(timestamp: i128, offset: i64, span: i128) -> (r: Result<i64, RoundingError>)
    requires
        (i64::MIN as int) * 2 <= timestamp <= (i64::MAX as int) * 2,
    ensures
        match r {
            Ok(t) => truncated(timestamp as int, offset as int, span as int) == Ok::<int, RoundingError>(
                t as int,
            ),
            Err(e) => truncated(timestamp as int, offset as int, span as int) == Err::<int, RoundingError>(e),
        },
{
    if span <= 0 || span > i64::MAX as i128 {
        return Err(RoundingError::DurationExceedsLimit);
    }
    let local = timestamp + offset as i128;
    if local < i64::MIN as i128 || local > i64::MAX as i128 {
        return Err(RoundingError::TimestampExceedsLimit);
    }
    let rem = if local >= 0 {
        local % span
    } else {
        let m = (-local) % span;
        if m == 0 {
            0
        } else {
            span - m
        }
    };
    proof {
        if local < 0 {
            let l = local as int;
            let sp = span as int;
            let m = (-l) % sp;
            assert(l % sp == if m == 0 { 0 } else { sp - m }) by (nonlinear_arith)
                requires
                    l < 0,
                    sp > 0,
                    m == (-l) % sp,
            {
                let q = (-l) / sp;
                assert(-l == q * sp + m);
                if m == 0 {
                    assert(l == (-q) * sp);
                } else {
                    assert(l == (-q - 1) * sp + (sp - m));
                }
            }
        }
    }
    let result = timestamp - rem;
    if result < i64::MIN as i128 || result > i64::MAX as i128 {
        return Err(RoundingError::TimestampExceedsLimit);
    }
    Ok(result as i64)
}

/// The span of `minutes` minutes, in nanoseconds.
pub open spec fn minutes_span(minutes: int) -> int {
    minutes * 60_000_000_000
}

/// The low end of the stretch of history that the archive ending at `high_time`
/// covers, for archives every `interval_minutes` minutes.
///
/// When the interval has completed, the stretch starts one interval before
/// `high_time`, rounded down to the interval; otherwise it starts at `high_time`
/// rounded down to the interval.
pub open spec fn archive_low_time(
    high_time: i64,
    offset: i64,
    interval_minutes: i64,
    interval_completed: bool,
) -> Result<int, RoundingError> {
    let span = minutes_span(interval_minutes as int);
    if interval_completed {
        if span > i64::MAX || span <= 0 {
            Err(RoundingError::DurationExceedsLimit)
        } else {
            truncated(high_time - span, offset as int, span)
        }
    } else {
        truncated(high_time as int, offset as int, span)
    }
}

/// The low end of the stretch of history that the archive ending at `high_time`
/// covers (see `archive_low_time`).
///
/// `interval_minutes` must be a span that chrono can build (at most `i64::MAX`
/// milliseconds) and that can be taken from a date, which the bound below ensures.
pub fn archive_window_start(
    high_time: i64,
    offset: i64,
    interval_minutes: i64,
    interval_completed: bool,
) -> (r: Result<i64, RoundingError>)
    requires
        -8_000_000_000_000 <= interval_minutes * 60 <= 8_000_000_000_000,
    ensures
        match r {
            Ok(t) => archive_low_time(high_time, offset, interval_minutes, interval_completed)
                == Ok::<int, RoundingError>(t as int),
            Err(e) => archive_low_time(high_time, offset, interval_minutes, interval_completed)
                == Err::<int, RoundingError>(e),
        },
{
    let span = (interval_minutes as i128) * NANOS_PER_MINUTE;
    if interval_completed {
        if span > i64::MAX as i128 || span <= 0 {
            return Err(RoundingError::DurationExceedsLimit);
        }
        duration_trunc(high_time as i128 - span, offset, span)
    } else {
        duration_trunc(high_time as i128, offset, span)
    }
}

/// The decision of the archiver at a tick: whether the archive ending at `high_time`
/// is due at `now`, and the high time that follows.
pub open spec fn archiver_tick(now: i64, high_time: i64, span: i64) -> (bool, int) {
    if now > high_time {
        (true, high_time + span)
    } else {
        (false, high_time as int)
    }
}

/// At a tick at `now`: the archive ending at `high_time` is due once `now` has
/// passed it, and then the next one ends one interval later.
pub fn archiver_step(now: i64, high_time: i64, span: i64) -> (r: (bool, i64))
    requires
        i64::MIN <= high_time + span <= i64::MAX,
    ensures
        r.0 == archiver_tick(now, high_time, span).0,
        r.1 == archiver_tick(now, high_time, span).1,
{
    if now > high_time {
        (true, high_time + span)
    } else {
        (false, high_time)
    }
}

/// When `high_time` lies on the interval, the archive of a completed interval covers
/// exactly that interval: it starts one interval before `high_time`. So archives
/// made at successive aligned high times cover adjoining stretches.
pub proof fn law_archive_covers_one_interval(high_time: i64, offset: i64, interval_minutes: i64)
    requires
        0 < minutes_span(interval_minutes as int) <= i64::MAX,
        i64::MIN <= high_time + offset <= i64::MAX,
        i64::MIN <= high_time - minutes_span(interval_minutes as int) + offset,
        i64::MIN <= high_time - minutes_span(interval_minutes as int),
        (high_time + offset) % minutes_span(interval_minutes as int) == 0,
    ensures
        archive_low_time(high_time, offset, interval_minutes, true) == Ok::<int, RoundingError>(
            high_time - minutes_span(interval_minutes as int),
        ),
{
    let span = minutes_span(interval_minutes as int);
    let t = high_time - span;
    assert((t + offset) % span == 0) by (nonlinear_arith)
        requires
            span > 0,
            (high_time + offset) % span == 0,
            t == high_time - span,
    {
        let q = (high_time + offset) / span;
        assert(high_time + offset == q * span);
        assert(t + offset == (q - 1) * span);
    }
}

/// A truncated time is never later than the time, and less than one span earlier;
/// it lies on the span in local time.
pub proof fn law_truncated_bounds(timestamp: int, offset: int, span: int)
    requires
        truncated(timestamp, offset, span) is Ok,
    ensures
        ({
            let t = truncated(timestamp, offset, span)->Ok_0;
            &&& t <= timestamp
            &&& timestamp - t < span
            &&& (t + offset) % span == 0
        }),
{
    let r = (timestamp + offset) % span;
    let t = timestamp - r;
    assert((t + offset) % span == 0) by (nonlinear_arith)
        requires
            span > 0,
            r == (timestamp + offset) % span,
            t == timestamp - r,
    {
        let q = (timestamp + offset) / span;
        assert(timestamp + offset == q * span + r);
        assert(t + offset == q * span);
    }
}

/// `s` split at every `sep`, as Rust's `str::split` does: one piece more than there
/// are separators, pieces possibly empty.
pub open spec fn split_on(s: Seq<char>, sep: char) -> Seq<Seq<char>>
    decreases s.len(),
{
    if s.len() == 0 {
        seq![Seq::empty()]
    } else {
        let r = split_on(s.drop_last(), sep);
        if s.last() == sep {
            r.push(Seq::empty())
        } else {
            r.update(r.len() - 1, r.last().push(s.last()))
        }
    }
}

/// The pieces joined again with `sep` between them.
pub open spec fn join_with(pieces: Seq<Seq<char>>, sep: char) -> Seq<char>
    decreases pieces.len(),
{
    if pieces.len() == 0 {
        Seq::empty()
    } else if pieces.len() == 1 {
        pieces[0]
    } else {
        join_with(pieces.drop_last(), sep).push(sep) + pieces.last()
    }
}

proof fn lemma_split_nonempty(s: Seq<char>, sep: char)
    ensures
        split_on(s, sep).len() >= 1,
    decreases s.len(),
{
    if s.len() > 0 {
        lemma_split_nonempty(s.drop_last(), sep);
    }
}

/// Splitting and joining again gives back the text, and no piece holds the separator.
pub proof fn law_split_join(s: Seq<char>, sep: char)
    ensures
        join_with(split_on(s, sep), sep) == s,
        forall|i: int| 0 <= i < split_on(s, sep).len() ==> !(#[trigger] split_on(s, sep)[i]).contains(sep),
    decreases s.len(),
{
    if s.len() > 0 {
        let t = s.drop_last();
        law_split_join(t, sep);
        lemma_split_nonempty(t, sep);
        let r = split_on(t, sep);
        let p = split_on(s, sep);
        if s.last() == sep {
            assert(p.drop_last() =~= r);
            assert(s =~= t.push(sep) + Seq::<char>::empty());
            assert forall|i: int| 0 <= i < p.len() implies !(#[trigger] p[i]).contains(sep) by {
                if i < r.len() {
                    assert(p[i] == r[i]);
                } else {
                    assert(p[i] =~= Seq::<char>::empty());
                }
            }
        } else {
            let last = r.last().push(s.last());
            assert forall|i: int| 0 <= i < p.len() implies !(#[trigger] p[i]).contains(sep) by {
                if i < r.len() - 1 {
                    assert(p[i] == r[i]);
                } else {
                    assert(p[i] == last);
                    assert(!r[r.len() - 1].contains(sep));
                    if last.contains(sep) {
                        let j = choose|j: int| 0 <= j < last.len() && last[j] == sep;
                        assert(r.last()[j] == sep);
                    }
                }
            }
            if r.len() == 1 {
                assert(r[0] =~= t);
                assert(p[0] =~= s);
            } else {
                assert(p.drop_last() =~= r.drop_last());
                let jj = join_with(r.drop_last(), sep);
                assert(join_with(r, sep) == jj.push(sep) + r.last());
                assert(t == jj.push(sep) + r.last());
                assert(s =~= t.push(s.last()));
                assert(s =~= jj.push(sep) + last);
                assert(p.last() == last);
                assert(join_with(p, sep) == join_with(p.drop_last(), sep).push(sep) + p.last());
            }
        }
    }
}

/// The names in a comma-separated list of archive files, in order.
pub fn split_filenames(filenames: &str) -> (r: Vec<String>)
    ensures
        r@.map_values(|x: String| x@) == split_on(filenames@, ','),
{
    let n = filenames.unicode_len();
    let mut pieces: Vec<String> = Vec::new();
    let mut start: usize = 0;
    let mut i: usize = 0;
    assert(filenames@.take(0) =~= Seq::<char>::empty());
    assert(pieces@.map_values(|x: String| x@).push(filenames@.subrange(0, 0)) =~= seq![
        Seq::<char>::empty(),
    ]);
    while i < n
        invariant
            n == filenames@.len(),
            start <= i <= n,
            split_on(filenames@.take(i as int), ',') == pieces@.map_values(|x: String| x@).push(
                filenames@.subrange(start as int, i as int),
            ),
        decreases n - i,
    {
        let c = filenames.get_char(i);
        let ghost prev = pieces@.map_values(|x: String| x@);
        assert(filenames@.take(i + 1).drop_last() =~= filenames@.take(i as int));
        if c == ',' {
            let piece = filenames.substring_char(start, i).to_owned();
            pieces.push(piece);
            assert(pieces@.map_values(|x: String| x@) =~= prev.push(
                filenames@.subrange(start as int, i as int),
            ));
            start = i + 1;
            assert(filenames@.subrange(start as int, i + 1) =~= Seq::<char>::empty());
        } else {
            assert(filenames@.subrange(start as int, i + 1) =~= filenames@.subrange(
                start as int,
                i as int,
            ).push(c));
        }
        i = i + 1;
    }
    let piece = filenames.substring_char(start, n).to_owned();
    let ghost prev = pieces@.map_values(|x: String| x@);
    pieces.push(piece);
    assert(filenames@.take(n as int) =~= filenames@);
    assert(pieces@.map_values(|x: String| x@) =~= prev.push(filenames@.subrange(start as int, n as int)));
    pieces
}

} // verus!
