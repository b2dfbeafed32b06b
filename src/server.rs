use vstd::prelude::*;
use crate::lifecycle::{DEFAULT_GRACE, DEFAULT_IDLE_TIMEOUT, Supervisor};
use crate::service::SccacheService;
use crate::storage::MemoryStorage;
use crate::stats::is_zero;

verus! {

/// The byte written to the startup notification endpoint: `0` when the
/// server started, `1` when it failed to.
pub open spec fn startup_byte(success: bool) -> u8 {
    if success {
        0
    } else {
        1
    }
}

/// Writes the startup notification to `w`.
pub fn notify_server_startup_internal(w: &mut Vec<u8>, success: bool)
    ensures
        final(w)@ == old(w)@.push(startup_byte(success)),
{
    w.push(if success {
        0u8
    } else {
        1u8
    });
}

/// A server's state: the shared service state and the supervisor that
/// decides when it stops, for the port it listens on.
pub struct SccacheServer {
    pub service: SccacheService,
    pub supervisor: Supervisor,
    pub storage: MemoryStorage,
    pub port: u16,
}

impl SccacheServer {
    pub open spec fn wf(&self) -> bool {
        self.service.wf() && self.storage.wf()
    }

    /// A server bound to `port` at time `now`, in milliseconds, with the
    /// default idle timeout and grace window.
    pub fn new(port: u16, force_recache: bool, now: u64) -> (r: SccacheServer)
        ensures
            r.wf(),
            r.port == port,
            r.supervisor == Supervisor::spec_new(DEFAULT_IDLE_TIMEOUT, DEFAULT_GRACE, now),
            is_zero(r.service.stats),
            r.service.force_recache == force_recache,
            r.service.compilers@ == Map::<Seq<char>, crate::compilers::CachedCompiler>::empty(),
            r.storage@ == Map::<Seq<char>, Seq<u8>>::empty(),
    {
        SccacheServer {
            service: SccacheService::new(force_recache),
            supervisor: Supervisor::with_defaults(now),
            storage: MemoryStorage::new(),
            port,
        }
    }

    /// Configures how long, in milliseconds, this server will be idle before
    /// shutting down, counted from the last request or, before any, from
    /// the start.
    pub fn set_idle_timeout(&mut self, timeout: u64)
        ensures
            final(self).supervisor == (Supervisor {
                idle_timeout: timeout,
                deadline: old(self).supervisor.last_request.saturating_add(timeout),
                ..old(self).supervisor
            }),
            final(self).service == old(self).service,
            final(self).storage == old(self).storage,
            final(self).port == old(self).port,
    {
        self.supervisor.set_idle_timeout(timeout);
    }

    /// Sets whether compiles skip reading the cache.
    pub fn set_force_recache(&mut self, force_recache: bool)
        ensures
            final(self).service.force_recache == force_recache,
            final(self).service.stats == old(self).service.stats,
            final(self).service.compilers == old(self).service.compilers,
            final(self).supervisor == old(self).supervisor,
            final(self).storage == old(self).storage,
            final(self).port == old(self).port,
    {
        self.service.set_force_recache(force_recache);
    }

    /// Replaces the cache storage.
    pub fn set_storage(&mut self, storage: MemoryStorage)
        requires
            storage.wf(),
            old(self).wf(),
        ensures
            final(self).wf(),
            final(self).storage == storage,
            final(self).service == old(self).service,
            final(self).supervisor == old(self).supervisor,
            final(self).port == old(self).port,
    {
        self.storage = storage;
    }

    /// The port this server is bound to.
    pub fn port(&self) -> (r: u16)
        ensures
            r == self.port,
    {
        self.port
    }
}

} // verus!
