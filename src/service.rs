use vstd::prelude::*;
use crate::ServerMessage;
use crate::compilers::{
    CompilerInfo,
    CompilerInfoCache,
    ModTime,
    after_lookup,
    info_view,
    lookup_result,
};
use crate::pipeline::{
    CacheControl,
    CompileResult,
    MissType,
    ProbeStep,
    spec_compiled,
    spec_probe_step,
    writes_back,
};
use crate::storage::{LookupKind, after_writes, lemma_read_returns_written, lookup_kind};
use crate::protocol::{ClientRequest, Compile, CompileFinished, ServerResponse, ResponseView};
use crate::stats::{
    CacheStatistic,
    CacheStatisticView,
    ServerStats,
    StatValue,
    bump,
    incr,
    is_zero,
    size_stat,
    text_stat,
    view_all,
};

verus! {

/// The return code reported when a compile failed in an unexpected way.
pub const INTERNAL_ERROR_RETCODE: i32 = -2;

/// What the storage backend reports about itself.
pub struct StorageStatus {
    pub location: String,
    pub current_size: Option<u64>,
    pub max_size: Option<u64>,
}

/// The storage entries that open a statistics report: the maximum size and
/// the current size where known, then the location.
pub open spec fn storage_report(s: &StorageStatus) -> Seq<CacheStatisticView> {
    let base = seq![text_stat("Cache location"@, s.location@)];
    let with_size = match s.current_size {
        Some(n) => seq![size_stat("Cache size"@, n)] + base,
        None => base,
    };
    match s.max_size {
        Some(n) => seq![size_stat("Max cache size"@, n)] + with_size,
        None => with_size,
    }
}

/// How the compiler-specific argument parser classified a command line.
#[derive(Clone, Copy, PartialEq, Eq, Structural, Debug)]
pub enum ArgumentsClass {
    /// A compilation that can be cached.
    Cacheable,
    /// A compilation that cannot be cached.
    CannotCache,
    /// Not a compilation.
    NotCompilation,
}

/// What the dispatcher does with a request.
pub enum Dispatch {
    /// Send this single frame.
    Reply(ServerResponse),
    /// Tell the supervisor to shut down, then send this single frame.
    ShutdownThenReply(ServerResponse),
    /// Hand the request to the compile pipeline.
    Compile(Compile),
}

impl Dispatch {
    /// The messages for the supervisor: every request is reported, and a
    /// shutdown is asked for after it.
    pub fn server_messages(&self) -> (r: Vec<ServerMessage>)
        ensures
            r@ == if self is ShutdownThenReply {
                seq![ServerMessage::Request, ServerMessage::Shutdown]
            } else {
                seq![ServerMessage::Request]
            },
    {
        let mut v: Vec<ServerMessage> = Vec::new();
        v.push(ServerMessage::Request);
        match self {
            Dispatch::ShutdownThenReply(_) => v.push(ServerMessage::Shutdown),
            _ => {},
        }
        proof {
            assert(v@ =~= if self is ShutdownThenReply {
                seq![ServerMessage::Request, ServerMessage::Shutdown]
            } else {
                seq![ServerMessage::Request]
            });
        }
        v
    }
}

/// What the compile pipeline decided for an accepted or refused compile.
#[derive(Clone, Copy, PartialEq, Eq, Structural, Debug)]
pub enum CompileDecision {
    /// Reply `CompileStarted` and run the pipeline under this control.
    Start(CacheControl),
    /// Reply `UnhandledCompile`: the client runs the compiler itself.
    Unhandled,
}

/// How a compile subprocess ended.
pub struct ProcessOutput {
    pub code: Option<i32>,
    pub signal: Option<i32>,
    pub stdout: Vec<u8>,
    pub stderr: Vec<u8>,
}

/// The end of the compile pipeline.
pub enum CompileOutcome {
    /// The pipeline ran to its end.
    Done { result: CompileResult, output: ProcessOutput },
    /// It failed in an unexpected way.
    Failed,
}

/// What is left to do once a compile ended.
pub struct FinishPlan {
    /// The terminal frame, when the client is still there to take it.
    pub frame: Option<ServerResponse>,
    /// Whether the write-back to the cache is awaited.
    pub write_back: bool,
}

/// How a write-back to the cache ended, with its duration in nanoseconds.
#[derive(Clone, Copy, PartialEq, Eq, Structural, Debug)]
pub enum WriteOutcome {
    Written(u64),
    Skipped,
    Failed,
}

/// The statistics after a compile ended with `r`.
pub open spec fn stats_after_result(s: ServerStats, r: CompileResult) -> ServerStats {
    match r {
        CompileResult::Error => ServerStats { cache_errors: bump(s.cache_errors), ..s },
        CompileResult::CacheHit(d) => ServerStats {
            cache_hits: bump(s.cache_hits),
            cache_read_hit_duration: s.cache_read_hit_duration.saturating_add(d),
            ..s
        },
        CompileResult::CacheMiss(MissType::Normal, d) => ServerStats {
            cache_misses: bump(s.cache_misses),
            cache_read_miss_duration: s.cache_read_miss_duration.saturating_add(d),
            ..s
        },
        CompileResult::CacheMiss(MissType::CacheReadError, d) => ServerStats {
            cache_read_errors: bump(s.cache_read_errors),
            cache_read_miss_duration: s.cache_read_miss_duration.saturating_add(d),
            ..s
        },
        CompileResult::CacheMiss(MissType::ForcedRecache, d) => ServerStats {
            cache_misses: bump(s.cache_misses),
            forced_recaches: bump(s.forced_recaches),
            cache_read_miss_duration: s.cache_read_miss_duration.saturating_add(d),
            ..s
        },
        CompileResult::NotCacheable => ServerStats {
            cache_misses: bump(s.cache_misses),
            non_cacheable_compilations: bump(s.non_cacheable_compilations),
            ..s
        },
        CompileResult::CompileFailed => ServerStats { compile_fails: bump(s.compile_fails), ..s },
    }
}

/// The statistics after a compile was accepted or refused.
pub open spec fn stats_after_check(
    s: ServerStats,
    supported: bool,
    args: ArgumentsClass,
) -> ServerStats {
    if !supported {
        ServerStats { requests_unsupported_compiler: bump(s.requests_unsupported_compiler), ..s }
    } else {
        match args {
            ArgumentsClass::Cacheable => ServerStats { requests_executed: bump(s.requests_executed), ..s },
            ArgumentsClass::CannotCache => ServerStats {
                requests_not_cacheable: bump(s.requests_not_cacheable),
                ..s
            },
            ArgumentsClass::NotCompilation => ServerStats {
                requests_not_compile: bump(s.requests_not_compile),
                ..s
            },
        }
    }
}

/// The statistics after a write-back ended.
pub open spec fn stats_after_write(s: ServerStats, w: WriteOutcome) -> ServerStats {
    match w {
        WriteOutcome::Written(d) => ServerStats {
            cache_writes: bump(s.cache_writes),
            cache_write_duration: s.cache_write_duration.saturating_add(d),
            ..s
        },
        WriteOutcome::Skipped => s,
        WriteOutcome::Failed => ServerStats { cache_write_errors: bump(s.cache_write_errors), ..s },
    }
}

/// The terminal frame for a compile outcome.
pub open spec fn finished_view(o: &CompileOutcome) -> ResponseView {
    match o {
        CompileOutcome::Done { result: _, output } => ResponseView::CompileFinished(
            crate::protocol::CompileFinishedView {
                retcode: output.code,
                signal: output.signal,
                stdout: output.stdout@,
                stderr: output.stderr@,
            },
        ),
        CompileOutcome::Failed => ResponseView::CompileFinished(
            crate::protocol::CompileFinishedView {
                retcode: Some(INTERNAL_ERROR_RETCODE),
                signal: None,
                stdout: Seq::empty(),
                stderr: Seq::empty(),
            },
        ),
    }
}

pub open spec fn outcome_writes_back(o: &CompileOutcome) -> bool {
    match o {
        CompileOutcome::Done { result, output: _ } => writes_back(*result),
        CompileOutcome::Failed => false,
    }
}

pub open spec fn outcome_stats(s: ServerStats, o: &CompileOutcome) -> ServerStats {
    match o {
        CompileOutcome::Done { result, output: _ } => stats_after_result(s, *result),
        CompileOutcome::Failed => ServerStats { cache_errors: bump(s.cache_errors), ..s },
    }
}

fn size_entry(name: &str, n: u64) -> (r: CacheStatistic)
    ensures
        r@ == size_stat(name@, n),
{
    CacheStatistic { name: name.to_owned(), value: StatValue::Size(n) }
}

/// The state the request handlers share: statistics, the compiler-info
/// cache and the recache setting.
pub struct SccacheService {
    pub stats: ServerStats,
    pub compilers: CompilerInfoCache,
    /// True if all compiles skip reading the cache.
    pub force_recache: bool,
}

impl SccacheService {
    pub open spec fn wf(&self) -> bool {
        self.compilers.wf()
    }

    pub fn new(force_recache: bool) -> (r: SccacheService)
        ensures
            r.wf(),
            is_zero(r.stats),
            r.compilers@ == Map::<Seq<char>, crate::compilers::CachedCompiler>::empty(),
            r.force_recache == force_recache,
    {
        SccacheService {
            stats: ServerStats::default(),
            compilers: CompilerInfoCache::new(),
            force_recache,
        }
    }

    /// Looks up the compiler at `path` in the compiler-info cache, given the
    /// executable's modification time now; `None` means detection must run.
    pub fn compiler_info_cached(&mut self, path: &String, current: Option<ModTime>) -> (r: Option<
        Option<CompilerInfo>,
    >)
        requires
            old(self).wf(),
        ensures
            final(self).wf(),
            match r {
                Some(i) => lookup_result(old(self).compilers@, path@, current) == Some(info_view(i)),
                None => lookup_result(old(self).compilers@, path@, current) is None,
            },
            final(self).compilers@ == after_lookup(old(self).compilers@, path@, current),
            final(self).stats == old(self).stats,
            final(self).force_recache == old(self).force_recache,
    {
        self.compilers.lookup(path, current)
    }

    /// Records what detection found at `path`.
    pub fn cache_compiler_info(&mut self, path: String, mtime: ModTime, info: Option<CompilerInfo>)
        requires
            old(self).wf(),
        ensures
            final(self).wf(),
            final(self).compilers@ == old(self).compilers@.insert(path@, (mtime, info_view(info))),
            final(self).stats == old(self).stats,
            final(self).force_recache == old(self).force_recache,
    {
        self.compilers.insert(path, mtime, info);
    }

    /// Sets whether compiles skip reading the cache.
    pub fn set_force_recache(&mut self, force_recache: bool)
        ensures
            final(self).force_recache == force_recache,
            final(self).stats == old(self).stats,
            final(self).compilers == old(self).compilers,
    {
        self.force_recache = force_recache;
    }

    /// The cache control that compiles run under.
    pub fn cache_control(&self) -> (r: CacheControl)
        ensures
            r == (if self.force_recache {
                CacheControl::ForceRecache
            } else {
                CacheControl::Default
            }),
    {
        if self.force_recache {
            CacheControl::ForceRecache
        } else {
            CacheControl::Default
        }
    }

    /// The statistics report: storage entries first, then the counters.
    pub fn get_stats(&self, storage: &StorageStatus) -> (r: Vec<CacheStatistic>)
        ensures
            view_all(r@) == storage_report(storage) + self.stats.report(),
    {
        let mut v = self.stats.to_cache_statistics();
        let ghost counters = view_all(v@);
        v.insert(
            0,
            CacheStatistic {
                name: "Cache location".to_owned(),
                value: StatValue::Text(storage.location.clone()),
            },
        );
        proof {
            assert(view_all(v@) =~= seq![text_stat("Cache location"@, storage.location@)]
                + counters);
        }
        match storage.current_size {
            Some(n) => {
                let ghost before = view_all(v@);
                v.insert(0, size_entry("Cache size", n));
                proof {
                    assert(view_all(v@) =~= seq![size_stat("Cache size"@, n)] + before);
                }
            },
            None => {},
        }
        let ghost with_size = view_all(v@);
        match storage.max_size {
            Some(n) => {
                v.insert(0, size_entry("Max cache size", n));
                proof {
                    assert(view_all(v@) =~= seq![size_stat("Max cache size"@, n)] + with_size);
                }
            },
            None => {},
        }
        proof {
            assert(view_all(v@) =~= storage_report(storage) + self.stats.report());
        }
        v
    }

    /// Resets every counter and returns the report of the zeroed statistics.
    pub fn zero_stats(&mut self, storage: &StorageStatus) -> (r: Vec<CacheStatistic>)
        ensures
            is_zero(final(self).stats),
            final(self).compilers == old(self).compilers,
            final(self).force_recache == old(self).force_recache,
            view_all(r@) == storage_report(storage) + final(self).stats.report(),
    {
        self.stats = ServerStats::default();
        self.get_stats(storage)
    }

    /// Dispatches one decoded request. A compile is counted and handed on;
    /// a statistics request is answered at once; a shutdown is answered with
    /// a final report after the supervisor is told; anything else gets
    /// `UnknownCommand`.
    pub fn handle_request(&mut self, req: ClientRequest, storage: &StorageStatus) -> (r: Dispatch)
        ensures
            final(self).compilers == old(self).compilers,
            final(self).force_recache == old(self).force_recache,
            match req {
                ClientRequest::Compile(c) => r == Dispatch::Compile(c) && final(self).stats == (
                ServerStats { compile_requests: bump(old(self).stats.compile_requests), ..old(self).stats }),
                ClientRequest::GetStats => final(self).stats == old(self).stats && match r {
                    Dispatch::Reply(resp) => resp@ == ResponseView::CacheStats(
                        storage_report(storage) + old(self).stats.report(),
                    ),
                    _ => false,
                },
                ClientRequest::ZeroStats => is_zero(final(self).stats) && match r {
                    Dispatch::Reply(resp) => resp@ == ResponseView::CacheStats(
                        storage_report(storage) + final(self).stats.report(),
                    ),
                    _ => false,
                },
                ClientRequest::Shutdown => final(self).stats == old(self).stats && match r {
                    Dispatch::ShutdownThenReply(resp) => resp@ == ResponseView::ShuttingDown(
                        storage_report(storage) + old(self).stats.report(),
                    ),
                    _ => false,
                },
                ClientRequest::Unrecognized => final(self).stats == old(self).stats && match r {
                    Dispatch::Reply(resp) => resp@ == ResponseView::UnknownCommand,
                    _ => false,
                },
            },
    {
        match req {
            ClientRequest::Compile(c) => {
                self.stats.compile_requests = incr(self.stats.compile_requests);
                Dispatch::Compile(c)
            },
            ClientRequest::GetStats => Dispatch::Reply(ServerResponse::CacheStats(self.get_stats(storage))),
            ClientRequest::ZeroStats => Dispatch::Reply(ServerResponse::CacheStats(self.zero_stats(storage))),
            ClientRequest::Shutdown => Dispatch::ShutdownThenReply(
                ServerResponse::ShuttingDown(self.get_stats(storage)),
            ),
            ClientRequest::Unrecognized => Dispatch::Reply(ServerResponse::UnknownCommand),
        }
    }

    /// Accepts or refuses a compile, given the detected compiler (`None`: the
    /// executable is not a known compiler) and how its parser classified the
    /// command line.
    pub fn check_compiler(&mut self, compiler: &Option<CompilerInfo>, args: ArgumentsClass) -> (r:
        CompileDecision)
        ensures
            final(self).compilers == old(self).compilers,
            final(self).force_recache == old(self).force_recache,
            final(self).stats == stats_after_check(old(self).stats, compiler.is_some(), args),
            r == (if compiler.is_some() && args == ArgumentsClass::Cacheable {
                CompileDecision::Start(
                    if old(self).force_recache {
                        CacheControl::ForceRecache
                    } else {
                        CacheControl::Default
                    },
                )
            } else {
                CompileDecision::Unhandled
            }),
    {
        match compiler {
            None => {
                self.stats.requests_unsupported_compiler = incr(
                    self.stats.requests_unsupported_compiler,
                );
                CompileDecision::Unhandled
            },
            Some(_) => match args {
                ArgumentsClass::Cacheable => {
                    self.stats.requests_executed = incr(self.stats.requests_executed);
                    CompileDecision::Start(self.cache_control())
                },
                ArgumentsClass::CannotCache => {
                    self.stats.requests_not_cacheable = incr(self.stats.requests_not_cacheable);
                    CompileDecision::Unhandled
                },
                ArgumentsClass::NotCompilation => {
                    self.stats.requests_not_compile = incr(self.stats.requests_not_compile);
                    CompileDecision::Unhandled
                },
            },
        }
    }

    fn count_result(&mut self, r: CompileResult)
        ensures
            final(self).stats == stats_after_result(old(self).stats, r),
            final(self).compilers == old(self).compilers,
            final(self).force_recache == old(self).force_recache,
    {
        match r {
            CompileResult::Error => {
                self.stats.cache_errors = incr(self.stats.cache_errors);
            },
            CompileResult::CacheHit(d) => {
                self.stats.cache_hits = incr(self.stats.cache_hits);
                self.stats.cache_read_hit_duration = self.stats.cache_read_hit_duration.saturating_add(d);
            },
            CompileResult::CacheMiss(miss, d) => {
                match miss {
                    MissType::Normal => {
                        self.stats.cache_misses = incr(self.stats.cache_misses);
                    },
                    MissType::CacheReadError => {
                        self.stats.cache_read_errors = incr(self.stats.cache_read_errors);
                    },
                    MissType::ForcedRecache => {
                        self.stats.cache_misses = incr(self.stats.cache_misses);
                        self.stats.forced_recaches = incr(self.stats.forced_recaches);
                    },
                }
                self.stats.cache_read_miss_duration = self.stats.cache_read_miss_duration.saturating_add(d);
            },
            CompileResult::NotCacheable => {
                self.stats.cache_misses = incr(self.stats.cache_misses);
                self.stats.non_cacheable_compilations = incr(self.stats.non_cacheable_compilations);
            },
            CompileResult::CompileFailed => {
                self.stats.compile_fails = incr(self.stats.compile_fails);
            },
        }
    }

    /// Counts how a compile ended and builds its terminal frame. The frame
    /// is dropped when the client has gone; the write-back is awaited either
    /// way.
    pub fn finish_compile(&mut self, outcome: CompileOutcome, client_connected: bool) -> (r:
        FinishPlan)
        ensures
            final(self).compilers == old(self).compilers,
            final(self).force_recache == old(self).force_recache,
            final(self).stats == outcome_stats(old(self).stats, &outcome),
            r.write_back == outcome_writes_back(&outcome),
            match r.frame {
                Some(f) => client_connected && f@ == finished_view(&outcome),
                None => !client_connected,
            },
    {
        let ghost o = outcome;
        let (finished, write_back) = match outcome {
            CompileOutcome::Done { result, output } => {
                self.count_result(result);
                let ProcessOutput { code, signal, stdout, stderr } = output;
                (CompileFinished { retcode: code, signal, stdout, stderr }, writes_back_exec(result))
            },
            CompileOutcome::Failed => {
                self.stats.cache_errors = incr(self.stats.cache_errors);
                (
                    CompileFinished {
                        retcode: Some(INTERNAL_ERROR_RETCODE),
                        signal: None,
                        stdout: Vec::new(),
                        stderr: Vec::new(),
                    },
                    false,
                )
            },
        };
        let frame = if client_connected {
            Some(ServerResponse::CompileFinished(finished))
        } else {
            None
        };
        FinishPlan { frame, write_back }
    }

    /// Counts how a write-back to the cache ended.
    pub fn record_cache_write(&mut self, w: WriteOutcome)
        ensures
            final(self).stats == stats_after_write(old(self).stats, w),
            final(self).compilers == old(self).compilers,
            final(self).force_recache == old(self).force_recache,
    {
        match w {
            WriteOutcome::Written(d) => {
                self.stats.cache_writes = incr(self.stats.cache_writes);
                self.stats.cache_write_duration = self.stats.cache_write_duration.saturating_add(d);
            },
            WriteOutcome::Skipped => {},
            WriteOutcome::Failed => {
                self.stats.cache_write_errors = incr(self.stats.cache_write_errors);
            },
        }
    }
}

fn writes_back_exec(r: CompileResult) -> (b: bool)
    ensures
        b == writes_back(r),
{
    match r {
        CompileResult::CacheMiss(_, _) => true,
        _ => false,
    }
}

/// Two identical compile requests in a row, under the default cache
/// control: the first misses and writes its output back under the
/// fingerprint, the second finds it and is served from the cache. One miss
/// and one hit are counted.
pub proof fn lemma_second_identical_compile_hits(
    s: ServerStats,
    cache: Map<Seq<char>, Seq<u8>>,
    fingerprint: Seq<char>,
    output: Seq<u8>,
    miss_duration: u64,
    hit_duration: u64,
)
    requires
        !cache.contains_key(fingerprint),
        s.cache_misses < u64::MAX,
        s.cache_hits < u64::MAX,
    ensures
        spec_probe_step(CacheControl::Default, lookup_kind(cache, fingerprint)) == ProbeStep::Compile(
            MissType::Normal,
        ),
        writes_back(spec_compiled(MissType::Normal, true, true, miss_duration)),
        spec_probe_step(
            CacheControl::Default,
            lookup_kind(cache.insert(fingerprint, output), fingerprint),
        ) == ProbeStep::ServeHit,
        ({
            let after = stats_after_result(
                stats_after_result(s, spec_compiled(MissType::Normal, true, true, miss_duration)),
                CompileResult::CacheHit(hit_duration),
            );
            after.cache_misses == s.cache_misses + 1 && after.cache_hits == s.cache_hits + 1
        }),
{
}

/// A cacheable compile whose client has gone still has its write-back
/// awaited: `finish_compile` reports it whatever `client_connected` was. Once
/// the write-back ends, the store holds the written bytes under the
/// fingerprint and the statistics count it, as a write or as a write error.
pub proof fn lemma_write_back_after_disconnect(
    s: ServerStats,
    miss: MissType,
    read_duration: u64,
    output: ProcessOutput,
    cache: Map<Seq<char>, Seq<u8>>,
    fingerprint: Seq<char>,
    archive: Seq<u8>,
    write_duration: u64,
)
    requires
        s.cache_writes < u64::MAX,
        s.cache_write_errors < u64::MAX,
    ensures
        ({
            let o = CompileOutcome::Done {
                result: CompileResult::CacheMiss(miss, read_duration),
                output,
            };
            let after = outcome_stats(s, &o);
            &&& outcome_writes_back(&o)
            &&& cache.insert(fingerprint, archive)[fingerprint] == archive
            &&& stats_after_write(after, WriteOutcome::Written(write_duration)).cache_writes
                == after.cache_writes + 1
            &&& stats_after_write(after, WriteOutcome::Failed).cache_write_errors
                == after.cache_write_errors + 1
        }),
{
}

/// Once a compile's write-back stored archive `a` under fingerprint `f`, and
/// every write under `f` carries `a`, a later request with `f` is served
/// from the cache with exactly `a`, and one more hit is counted.
pub proof fn lemma_hit_serves_written_archive(
    s: ServerStats,
    cache: Map<Seq<char>, Seq<u8>>,
    writes: Seq<(Seq<char>, Seq<u8>)>,
    f: Seq<char>,
    a: Seq<u8>,
    hit_duration: u64,
)
    requires
        forall|i: int| 0 <= i < writes.len() && #[trigger] writes[i].0 == f ==> writes[i].1 == a,
        exists|i: int| 0 <= i < writes.len() && #[trigger] writes[i].0 == f,
        s.cache_hits < u64::MAX,
    ensures
        lookup_kind(after_writes(cache, writes), f) == LookupKind::Hit,
        after_writes(cache, writes)[f] == a,
        spec_probe_step(CacheControl::Default, lookup_kind(after_writes(cache, writes), f))
            == ProbeStep::ServeHit,
        stats_after_result(s, CompileResult::CacheHit(hit_duration)).cache_hits == s.cache_hits + 1,
{
    lemma_read_returns_written(cache, writes, f, a);
}

} // verus!
