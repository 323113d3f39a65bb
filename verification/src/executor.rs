//! The worker pool behind the relay tasks: how many workers it has, what
//! they are called, and that it is made once.
//!
//! Starting the threads and running tasks on them is done outside this
//! crate, which asks [`spawn`] before each submission which workers are
//! still to be started.

use vstd::prelude::*;
use vstd::string::StringExecFns;
use crate::text::decimal;
use crate::text::decimal_text;

verus! {

/// The pool's state: the number of its workers once it has been made.
#[derive(Debug, PartialEq, Eq)]
pub struct Pool {
    workers: Option<usize>,
}

impl View for Pool {
    type V = Option<nat>;

    closed spec fn view(&self) -> Option<nat> {
        match self.workers {
            Some(n) => Some(n as nat),
            None => None,
        }
    }
}

/// The name of the `n`-th worker, counted from 1.
pub open spec fn worker_name(n: nat) -> Seq<char> {
    "ftlt-"@ + decimal(n)
}

/// The names of the workers of a pool of `count`, first to last.
pub open spec fn worker_names(count: nat) -> Seq<Seq<char>> {
    Seq::new(count, |i: int| worker_name((i + 1) as nat))
}

/// One submission to a pool in state `pool` on a machine that reports
/// `cores` cores: the pool afterwards, and the workers to start for it.
/// Only the first submission makes the pool; the machine is not asked
/// again, and no worker is started twice.
pub open spec fn pool_step(pool: Option<nat>, cores: nat) -> (Option<nat>, Seq<Seq<char>>) {
    match pool {
        Some(_) => (pool, Seq::empty()),
        None => (Some(cores), worker_names(cores)),
    }
}

/// `num_cpus::get`: the number of cores available to this process, which is
/// at least 1. It differs between machines and runs.
#[verifier::external_body]
fn available_cores() -> (n: usize)
    ensures
        n >= 1,
{
    num_cpus::get()
}

impl Pool {
    /// A pool that has not been made yet.
    pub fn new() -> (r: Pool)
        ensures
            r@ is None,
    {
        Pool { workers: None }
    }

    /// The number of workers, once the pool has been made.
    pub fn workers(&self) -> (r: Option<usize>)
        ensures
            match r {
                Some(n) => self@ == Some(n as nat),
                None => self@ is None,
            },
    {
        self.workers
    }
}

/// Writes the name of the `n`-th worker.
pub fn worker_label(n: usize) -> (r: String)
    ensures
        r@ == worker_name(n as nat),
{
    let mut name = String::from_str("ftlt-");
    let digits = decimal_text(n as u64);
    name.append(digits.as_str());
    name
}

/// The texts of `names`.
pub open spec fn names_of(names: Seq<String>) -> Seq<Seq<char>> {
    names.map_values(|name: String| name@)
}

/// One submission on a machine with `cores` cores: makes the pool if it has
/// not been made, and returns the names of the workers to start now.
pub fn start_workers(pool: &mut Pool, cores: usize) -> (names: Vec<String>)
    ensures
        (final(pool)@, names_of(names@)) == pool_step(old(pool)@, cores as nat),
        names@.len() == pool_step(old(pool)@, cores as nat).1.len(),
{
    if pool.workers.is_some() {
        assert(names_of(Seq::<String>::empty()) =~= Seq::<Seq<char>>::empty());
        return Vec::new();
    }
    let mut names: Vec<String> = Vec::new();
    let mut i: usize = 0;
    while i < cores
        invariant
            i <= cores,
            names@.len() == i,
            forall|k: int| 0 <= k < i ==> (#[trigger] names@[k])@ == worker_name((k + 1) as nat),
        decreases cores - i,
    {
        i = i + 1;
        names.push(worker_label(i));
    }
    pool.workers = Some(cores);
    assert(names_of(names@) =~= worker_names(cores as nat));
    names
}

/// One submission: makes the pool with one worker per available core if it
/// has not been made, and returns the names of the workers to start now. On
/// a pool that has been made nothing changes and no worker is started.
pub fn spawn(pool: &mut Pool) -> (names: Vec<String>)
    ensures
        old(pool)@ is Some ==> final(pool)@ == old(pool)@ && names@.len() == 0,
        old(pool)@ is None ==> final(pool)@ is Some && final(pool)@->0 >= 1 && names_of(names@)
            == worker_names(final(pool)@->0),
{
    if pool.workers.is_some() {
        Vec::new()
    } else {
        let cores = available_cores();
        start_workers(pool, cores)
    }
}

/// The pool after the submissions that met `cores` cores each, in order, and
/// the workers that each of them started.
pub open spec fn pool_run(pool: Option<nat>, cores: Seq<nat>) -> (Option<nat>, Seq<Seq<Seq<char>>>)
    decreases cores.len(),
{
    if cores.len() == 0 {
        (pool, Seq::empty())
    } else {
        let first = pool_step(pool, cores[0]);
        let rest = pool_run(first.0, cores.drop_first());
        (rest.0, seq![first.1] + rest.1)
    }
}

/// Pool creation happens once: over any number of submissions, one after
/// the other, to a pool that was not made, the first makes the pool with
/// one worker per core it found and names them in order; every later one
/// starts no worker, and the pool keeps its size.
pub proof fn law_pool_created_once(cores: Seq<nat>)
    requires
        cores.len() > 0,
    ensures
        pool_run(None, cores).0 == Some(cores[0]),
        pool_run(None, cores).1.len() == cores.len(),
        pool_run(None, cores).1[0] == worker_names(cores[0]),
        forall|k: int| 1 <= k < cores.len() ==> (#[trigger] pool_run(None, cores).1[k]).len() == 0,
{
    lemma_made_pool_stays(cores[0], cores.drop_first());
}

/// A pool that has been made stays as it is, and starts nothing.
proof fn lemma_made_pool_stays(size: nat, cores: Seq<nat>)
    ensures
        pool_run(Some(size), cores).0 == Some(size),
        pool_run(Some(size), cores).1.len() == cores.len(),
        forall|k: int| 0 <= k < cores.len() ==> (#[trigger] pool_run(Some(size), cores).1[k]).len()
            == 0,
    decreases cores.len(),
{
    if cores.len() > 0 {
        lemma_made_pool_stays(size, cores.drop_first());
    }
}

} // verus!
