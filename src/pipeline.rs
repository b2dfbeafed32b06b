use vstd::prelude::*;
use crate::storage::LookupKind;

verus! {

/// Whether a compile may be served from the cache.
#[derive(Clone, Copy, PartialEq, Eq, Structural, Debug)]
pub enum CacheControl {
    /// Read the cache, and write it after a miss.
    Default,
    /// Skip the read, but still write the result.
    ForceRecache,
}

/// Why a compile was not served from the cache.
#[derive(Clone, Copy, PartialEq, Eq, Structural, Debug)]
pub enum MissType {
    /// The cache had no entry.
    Normal,
    /// Reading the cache failed; served as a miss.
    CacheReadError,
    /// The read was skipped on purpose.
    ForcedRecache,
}

/// How a compile request ended, with the time spent reading the cache, in
/// nanoseconds, where there was a read.
#[derive(Clone, Copy, PartialEq, Eq, Structural, Debug)]
pub enum CompileResult {
    /// An unexpected failure.
    Error,
    /// Served from the cache.
    CacheHit(u64),
    /// Compiled; the result is written back to the cache.
    CacheMiss(MissType, u64),
    /// Compiled successfully, but the outputs cannot be cached.
    NotCacheable,
    /// The compiler failed; nothing is cached.
    CompileFailed,
}

/// What follows the cache probe.
#[derive(Clone, Copy, PartialEq, Eq, Structural, Debug)]
pub enum ProbeStep {
    /// Materialize the cached outputs.
    ServeHit,
    /// Run the compiler.
    Compile(MissType),
}

/// Whether the cache is read before compiling.
pub fn reads_cache(control: CacheControl) -> (r: bool)
    ensures
        r == (control == CacheControl::Default),
{
    match control {
        CacheControl::Default => true,
        CacheControl::ForceRecache => false,
    }
}

pub open spec fn spec_probe_step(control: CacheControl, lookup: LookupKind) -> ProbeStep {
    match control {
        CacheControl::ForceRecache => ProbeStep::Compile(MissType::ForcedRecache),
        CacheControl::Default => match lookup {
            LookupKind::Hit => ProbeStep::ServeHit,
            LookupKind::Miss => ProbeStep::Compile(MissType::Normal),
            LookupKind::Error => ProbeStep::Compile(MissType::CacheReadError),
        },
    }
}

/// Decides between serving a hit and compiling. Under `ForceRecache` the
/// read was skipped, and `lookup` is not consulted; a read error is served
/// as a miss and counted apart.
pub fn probe_step(control: CacheControl, lookup: LookupKind) -> (r: ProbeStep)
    ensures
        r == spec_probe_step(control, lookup),
{
    match control {
        CacheControl::ForceRecache => ProbeStep::Compile(MissType::ForcedRecache),
        CacheControl::Default => match lookup {
            LookupKind::Hit => ProbeStep::ServeHit,
            LookupKind::Miss => ProbeStep::Compile(MissType::Normal),
            LookupKind::Error => ProbeStep::Compile(MissType::CacheReadError),
        },
    }
}

pub open spec fn spec_compiled(
    miss: MissType,
    succeeded: bool,
    cacheable: bool,
    read_duration: u64,
) -> CompileResult {
    if !succeeded {
        CompileResult::CompileFailed
    } else if !cacheable {
        CompileResult::NotCacheable
    } else {
        CompileResult::CacheMiss(miss, read_duration)
    }
}

/// How a compile that ran ends: a failed compiler caches nothing; a
/// successful one is written back when its outputs can be cached.
pub fn compiled(miss: MissType, succeeded: bool, cacheable: bool, read_duration: u64) -> (r:
    CompileResult)
    ensures
        r == spec_compiled(miss, succeeded, cacheable, read_duration),
{
    if !succeeded {
        CompileResult::CompileFailed
    } else if !cacheable {
        CompileResult::NotCacheable
    } else {
        CompileResult::CacheMiss(miss, read_duration)
    }
}

/// Whether a result is followed by a write to the cache.
pub open spec fn writes_back(r: CompileResult) -> bool {
    r is CacheMiss
}

/// A forced recache never serves a hit, yet a successful cacheable compile
/// under it is still written back.
pub proof fn lemma_recache_skips_read_but_writes(lookup: LookupKind, read_duration: u64)
    ensures
        spec_probe_step(CacheControl::ForceRecache, lookup) == ProbeStep::Compile(
            MissType::ForcedRecache,
        ),
        writes_back(spec_compiled(MissType::ForcedRecache, true, true, read_duration)),
{
}

/// A failed compile is never written to the cache.
pub proof fn lemma_failed_compile_not_cached(miss: MissType, cacheable: bool, read_duration: u64)
    ensures
        !writes_back(spec_compiled(miss, false, cacheable, read_duration)),
{
}

} // verus!
