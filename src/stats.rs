use vstd::prelude::*;
use vstd::string::*;

verus! {

/// The value of one reported statistic.
pub enum StatValue {
    Count(u64),
    Size(u64),
    Text(String),
}

/// One named entry of a statistics report.
pub struct CacheStatistic {
    pub name: String,
    pub value: StatValue,
}

/// The mathematical value of a reported statistic.
pub enum StatValueView {
    Count(u64),
    Size(u64),
    Text(Seq<char>),
}

pub struct CacheStatisticView {
    pub name: Seq<char>,
    pub value: StatValueView,
}

impl View for CacheStatistic {
    type V = CacheStatisticView;

    open spec fn view(&self) -> CacheStatisticView {
        CacheStatisticView {
            name: self.name@,
            value: match self.value {
                StatValue::Count(n) => StatValueView::Count(n),
                StatValue::Size(n) => StatValueView::Size(n),
                StatValue::Text(s) => StatValueView::Text(s@),
            },
        }
    }
}

pub open spec fn view_all(v: Seq<CacheStatistic>) -> Seq<CacheStatisticView> {
    v.map_values(|c: CacheStatistic| c@)
}

pub open spec fn count_stat(name: Seq<char>, n: u64) -> CacheStatisticView {
    CacheStatisticView { name, value: StatValueView::Count(n) }
}

pub open spec fn size_stat(name: Seq<char>, n: u64) -> CacheStatisticView {
    CacheStatisticView { name, value: StatValueView::Size(n) }
}

pub open spec fn text_stat(name: Seq<char>, s: Seq<char>) -> CacheStatisticView {
    CacheStatisticView { name, value: StatValueView::Text(s) }
}

/// Nanoseconds in one second and in one millisecond.
pub const NANOS_PER_SEC: u64 = 1_000_000_000;
pub const NANOS_PER_MILLI: u64 = 1_000_000;

/// Statistics about the cache: counters plus cumulative durations, the
/// durations held in nanoseconds. Every update saturates at `u64::MAX`.
pub struct ServerStats {
    /// The count of client compile requests.
    pub compile_requests: u64,
    /// The count of client requests that used an unsupported compiler.
    pub requests_unsupported_compiler: u64,
    /// The count of client requests that were not compilation.
    pub requests_not_compile: u64,
    /// The count of client requests that were not cacheable.
    pub requests_not_cacheable: u64,
    /// The count of client requests that were executed.
    pub requests_executed: u64,
    /// The count of errors handling compile requests.
    pub cache_errors: u64,
    /// The count of cache hits for handled compile requests.
    pub cache_hits: u64,
    /// The count of cache misses for handled compile requests.
    pub cache_misses: u64,
    /// The count of compilations which were successful but couldn't be cached.
    pub non_cacheable_compilations: u64,
    /// The count of compilations which forcibly ignored the cache.
    pub forced_recaches: u64,
    /// The count of errors reading from cache.
    pub cache_read_errors: u64,
    /// The count of errors writing to cache.
    pub cache_write_errors: u64,
    /// The number of successful cache writes.
    pub cache_writes: u64,
    /// The total time spent writing cache entries.
    pub cache_write_duration: u64,
    /// The total time spent reading cache hits.
    pub cache_read_hit_duration: u64,
    /// The total time spent reading cache misses.
    pub cache_read_miss_duration: u64,
    /// The count of compilation failures.
    pub compile_fails: u64,
}

/// A counter after one more event.
pub open spec fn bump(x: u64) -> u64 {
    x.saturating_add(1)
}

pub fn incr(x: u64) -> (r: u64)
    ensures
        r == bump(x),
{
    x.saturating_add(1)
}

pub open spec fn is_zero(s: ServerStats) -> bool {
    &&& s.compile_requests == 0
    &&& s.requests_unsupported_compiler == 0
    &&& s.requests_not_compile == 0
    &&& s.requests_not_cacheable == 0
    &&& s.requests_executed == 0
    &&& s.cache_errors == 0
    &&& s.cache_hits == 0
    &&& s.cache_misses == 0
    &&& s.non_cacheable_compilations == 0
    &&& s.forced_recaches == 0
    &&& s.cache_read_errors == 0
    &&& s.cache_write_errors == 0
    &&& s.cache_writes == 0
    &&& s.cache_write_duration == 0
    &&& s.cache_read_hit_duration == 0
    &&& s.cache_read_miss_duration == 0
    &&& s.compile_fails == 0
}

impl Default for ServerStats {
    fn default() -> (r: ServerStats)
        ensures
            is_zero(r),
    {
        ServerStats {
            compile_requests: 0,
            requests_unsupported_compiler: 0,
            requests_not_compile: 0,
            requests_not_cacheable: 0,
            requests_executed: 0,
            cache_errors: 0,
            cache_hits: 0,
            cache_misses: 0,
            non_cacheable_compilations: 0,
            forced_recaches: 0,
            cache_read_errors: 0,
            cache_write_errors: 0,
            cache_writes: 0,
            cache_write_duration: 0,
            cache_read_hit_duration: 0,
            cache_read_miss_duration: 0,
            compile_fails: 0,
        }
    }
}

pub open spec fn digit_char(d: nat) -> char {
    if d == 0 { '0' }
    else if d == 1 { '1' }
    else if d == 2 { '2' }
    else if d == 3 { '3' }
    else if d == 4 { '4' }
    else if d == 5 { '5' }
    else if d == 6 { '6' }
    else if d == 7 { '7' }
    else if d == 8 { '8' }
    else { '9' }
}

/// The decimal digits of `n`, without leading zeros.
pub open spec fn decimal(n: nat) -> Seq<char>
    decreases n,
{
    if n < 10 {
        seq![digit_char(n)]
    } else {
        decimal(n / 10).push(digit_char(n % 10))
    }
}

/// `n` below 1000 written with exactly three digits.
pub open spec fn three_digits(n: nat) -> Seq<char> {
    seq![digit_char(n / 100), digit_char((n / 10) % 10), digit_char(n % 10)]
}

/// The text of an average duration: `total` nanoseconds spread over `count`
/// events, as seconds with three decimals and a unit, or `0.000 s`
/// when nothing was counted.
pub open spec fn average_text(total: u64, count: u64) -> Seq<char> {
    if count == 0 {
        "0.000 s"@
    } else {
        let avg = total / count;
        decimal((avg / NANOS_PER_SEC) as nat) + "."@ + three_digits(
            ((avg % NANOS_PER_SEC) / NANOS_PER_MILLI) as nat,
        ) + " s"@
    }
}

fn digit_str(d: u64) -> (r: &'static str)
    requires
        d < 10,
    ensures
        r@ == seq![digit_char(d as nat)],
{
    if d == 0 {
        proof { reveal_strlit("0"); }
        "0"
    } else if d == 1 {
        proof { reveal_strlit("1"); }
        "1"
    } else if d == 2 {
        proof { reveal_strlit("2"); }
        "2"
    } else if d == 3 {
        proof { reveal_strlit("3"); }
        "3"
    } else if d == 4 {
        proof { reveal_strlit("4"); }
        "4"
    } else if d == 5 {
        proof { reveal_strlit("5"); }
        "5"
    } else if d == 6 {
        proof { reveal_strlit("6"); }
        "6"
    } else if d == 7 {
        proof { reveal_strlit("7"); }
        "7"
    } else if d == 8 {
        proof { reveal_strlit("8"); }
        "8"
    } else {
        proof { reveal_strlit("9"); }
        "9"
    }
}

/// Appends the decimal digits of `n` to `s`.
pub fn push_decimal(s: &mut String, n: u64)
    ensures
        final(s)@ == old(s)@ + decimal(n as nat),
    decreases n,
{
    if n >= 10 {
        push_decimal(s, n / 10);
        s.append(digit_str(n % 10));
        proof {
            assert(final(s)@ =~= old(s)@ + decimal(n as nat));
        }
    } else {
        s.append(digit_str(n));
    }
}

/// The text reported for an average duration.
pub fn average_duration_text(total: u64, count: u64) -> (r: String)
    ensures
        r@ == average_text(total, count),
{
    if count == 0 {
        "0.000 s".to_owned()
    } else {
        let avg = total / count;
        let mut s = String::new();
        push_decimal(&mut s, avg / NANOS_PER_SEC);
        s.append(".");
        let ms = (avg % NANOS_PER_SEC) / NANOS_PER_MILLI;
        s.append(digit_str(ms / 100));
        s.append(digit_str((ms / 10) % 10));
        s.append(digit_str(ms % 10));
        s.append(" s");
        proof {
            assert(s@ =~= average_text(total, count));
        }
        s
    }
}

fn count_entry(name: &str, n: u64) -> (r: CacheStatistic)
    ensures
        r@ == count_stat(name@, n),
{
    CacheStatistic { name: name.to_owned(), value: StatValue::Count(n) }
}

fn average_entry(name: &str, total: u64, count: u64) -> (r: CacheStatistic)
    ensures
        r@ == text_stat(name@, average_text(total, count)),
{
    CacheStatistic { name: name.to_owned(), value: StatValue::Text(average_duration_text(total, count)) }
}

impl ServerStats {
    /// The counters and average durations, in the order in which they are
    /// reported.
    pub open spec fn report(&self) -> Seq<CacheStatisticView> {
        seq![
            count_stat("Compile requests"@, self.compile_requests),
            count_stat("Compile requests executed"@, self.requests_executed),
            count_stat("Cache hits"@, self.cache_hits),
            count_stat("Cache misses"@, self.cache_misses),
            count_stat("Forced recaches"@, self.forced_recaches),
            count_stat("Cache read errors"@, self.cache_read_errors),
            count_stat("Cache write errors"@, self.cache_write_errors),
            count_stat("Compilation failures"@, self.compile_fails),
            count_stat("Cache errors"@, self.cache_errors),
            count_stat(
                "Successful compilations which could not be cached"@,
                self.non_cacheable_compilations,
            ),
            count_stat("Non-cacheable calls"@, self.requests_not_cacheable),
            count_stat("Non-compilation calls"@, self.requests_not_compile),
            count_stat("Unsupported compiler calls"@, self.requests_unsupported_compiler),
            text_stat(
                "Average cache write"@,
                average_text(self.cache_write_duration, self.cache_writes),
            ),
            text_stat(
                "Average cache read miss"@,
                average_text(self.cache_read_miss_duration, self.cache_misses),
            ),
            text_stat(
                "Average cache read hit"@,
                average_text(self.cache_read_hit_duration, self.cache_hits),
            ),
        ]
    }

    /// The statistics as a list of named entries.
    pub fn to_cache_statistics(&self) -> (r: Vec<CacheStatistic>)
        ensures
            view_all(r@) == self.report(),
    {
        let mut v: Vec<CacheStatistic> = Vec::new();
        v.push(count_entry("Compile requests", self.compile_requests));
        v.push(count_entry("Compile requests executed", self.requests_executed));
        v.push(count_entry("Cache hits", self.cache_hits));
        v.push(count_entry("Cache misses", self.cache_misses));
        v.push(count_entry("Forced recaches", self.forced_recaches));
        v.push(count_entry("Cache read errors", self.cache_read_errors));
        v.push(count_entry("Cache write errors", self.cache_write_errors));
        v.push(count_entry("Compilation failures", self.compile_fails));
        v.push(count_entry("Cache errors", self.cache_errors));
        v.push(
            count_entry(
                "Successful compilations which could not be cached",
                self.non_cacheable_compilations,
            ),
        );
        v.push(count_entry("Non-cacheable calls", self.requests_not_cacheable));
        v.push(count_entry("Non-compilation calls", self.requests_not_compile));
        v.push(count_entry("Unsupported compiler calls", self.requests_unsupported_compiler));
        v.push(average_entry("Average cache write", self.cache_write_duration, self.cache_writes));
        v.push(
            average_entry(
                "Average cache read miss",
                self.cache_read_miss_duration,
                self.cache_misses,
            ),
        );
        v.push(
            average_entry("Average cache read hit", self.cache_read_hit_duration, self.cache_hits),
        );
        proof {
            assert(view_all(v@) =~= self.report());
        }
        v
    }
}

} // verus!
