//! The multi-threaded server's sizing.

use vstd::prelude::*;
use crate::settings::Settings;

verus! {

/// Relies on `num_cpus::get`, which is documented to return at least 1.
#[verifier::external_body]
fn cpu_count() -> (r: usize)
    ensures
        r >= 1,
{
    num_cpus::get()
}

/// The number of worker threads for a thread multiplier on a machine with
/// `cpus` processors: one for a multiplier of 0 or 1, else their product,
/// saturated at the largest `usize`.
pub open spec fn worker_threads(multiplier: usize, cpus: usize) -> usize {
    if multiplier <= 1 {
        1
    } else if multiplier * cpus > usize::MAX {
        usize::MAX
    } else {
        (multiplier * cpus) as usize
    }
}

/// A multi-threaded HTTP server, sized by the settings.
pub struct Server {
    threads: usize,
}

impl View for Server {
    type V = usize;

    closed spec fn view(&self) -> usize {
        self.threads
    }
}

impl Server {
    /// A server for `threads_multiplier` on a machine with `cpus` processors.
    pub fn with_cpus(threads_multiplier: usize, cpus: usize) -> (r: Server)
        ensures
            r@ == worker_threads(threads_multiplier, cpus),
    {
        if threads_multiplier <= 1 {
            Server { threads: 1 }
        } else {
            match threads_multiplier.checked_mul(cpus) {
                Some(t) => Server { threads: t },
                None => Server { threads: usize::MAX },
            }
        }
    }

    /// A server sized by the settings' thread multiplier and the number of
    /// processors available to this process.
    pub fn new(settings: &Settings) -> (r: Server)
        ensures
            exists|cpus: usize| cpus >= 1 && r@ == worker_threads(settings.general.threads_multiplier, cpus),
            settings.general.threads_multiplier <= 1 ==> r@ == 1,
    {
        let cpus = cpu_count();
        Server::with_cpus(settings.general.threads_multiplier, cpus)
    }

    /// The number of worker threads.
    pub fn threads(&self) -> (r: usize)
        ensures
            r == self@,
    {
        self.threads
    }
}

} // verus!
