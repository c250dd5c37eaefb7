//! The executor boundary: the unit that turns one argument vector into one
//! invocation of the underlying firewall binary, and the fail-fast runner
//! that drives a whole batch through an executor.

use vstd::prelude::*;

verus! {

/// Failure of one command execution: the process could not be started, or
/// it exited with a non-zero status (the code is absent when the process
/// was terminated by a signal).
#[derive(Clone, Copy, Debug, PartialEq, Eq)]
pub enum ExecutionError {
    SpawnFailed,
    NonZeroExit(Option<i32>),
}

/// The boundary over which rule commands take effect. An executor receives
/// fully-formed argument vectors as discrete tokens; callers treat every
/// execution as non-idempotent and never assume batching or caching.
///
/// `issued` is the ordered log of every argument vector the executor has
/// received; each call appends exactly one entry, whatever its outcome. An
/// implementor outside the verified world keeps the default `issued`, under
/// which `execute`'s contract is not satisfiable: no proof can lean on such
/// an executor's behaviour.
pub trait Executor {
    open spec fn issued(&self) -> Seq<Seq<Seq<char>>> {
        Seq::empty()
    }

    fn execute(&mut self, args: &Vec<String>) -> (r: Result<(), ExecutionError>)
        ensures
            final(self).issued() == old(self).issued().push(args.deep_view()),
    ;
}

/// A recording executor for verification: it performs no OS work, logs every
/// argument vector it receives, and answers each call from a prepared script
/// of outcomes (success once the script is exhausted).
pub struct ScriptedExecutor {
    log: Vec<Vec<String>>,
    script: Vec<Option<ExecutionError>>,
    position: usize,
}

impl ScriptedExecutor {
    /// An executor that reports success on every command.
    pub fn new() -> (e: ScriptedExecutor)
        ensures
            e.issued() == Seq::<Seq<Seq<char>>>::empty(),
    {
        let e = ScriptedExecutor { log: Vec::new(), script: Vec::new(), position: 0 };
        proof {
            assert(e.issued() =~= Seq::<Seq<Seq<char>>>::empty());
        }
        e
    }

    /// An executor whose n-th command receives the n-th scripted outcome,
    /// `None` meaning success; commands beyond the script succeed.
    pub fn with_script(script: Vec<Option<ExecutionError>>) -> (e: ScriptedExecutor)
        ensures
            e.issued() == Seq::<Seq<Seq<char>>>::empty(),
    {
        let e = ScriptedExecutor { log: Vec::new(), script, position: 0 };
        proof {
            assert(e.issued() =~= Seq::<Seq<Seq<char>>>::empty());
        }
        e
    }

    /// The argument vectors received so far, oldest first.
    pub fn issued_commands(&self) -> (log: &Vec<Vec<String>>)
        ensures
            log.deep_view() == self.issued(),
    {
        &self.log
    }
}

impl Executor for ScriptedExecutor {
    closed spec fn issued(&self) -> Seq<Seq<Seq<char>>> {
        self.log.deep_view()
    }

    fn execute(&mut self, args: &Vec<String>) -> (r: Result<(), ExecutionError>) {
        let entry = args.clone();
        proof {
            assert(entry@.len() == args@.len());
            assert forall|i: int| 0 <= i < entry@.len() implies entry@[i]@ == args@[i]@ by {
                assert(cloned::<String>(args@[i], entry@[i]));
            }
            assert(entry.deep_view() =~= args.deep_view());
        }
        let ghost prev = self.log.deep_view();
        self.log.push(entry);
        proof {
            assert(self.log.deep_view() =~= prev.push(args.deep_view()));
        }
        let outcome: Option<ExecutionError> = if self.position < self.script.len() {
            let o = self.script[self.position];
            self.position = self.position + 1;
            o
        } else {
            None
        };
        match outcome {
            None => Ok(()),
            Some(e) => Err(e),
        }
    }
}

/// Runs a batch against one executor, fail-fast: commands are executed in
/// order; at the first failure the error and the index of the failing
/// command are returned and no later command is issued.
#[verifier::loop_isolation(false)]
pub fn run_batch<E: Executor>(executor: &mut E, batch: &Vec<Vec<String>>) -> (r: Result<
    (),
    (usize, ExecutionError),
>)
    ensures
        r is Ok ==> final(executor).issued() == old(executor).issued() + batch.deep_view(),
        r matches Err((n, e)) ==> n < batch@.len() && final(executor).issued() == old(
            executor,
        ).issued() + batch.deep_view().take(n + 1),
{
    let ghost base = executor.issued();
    let mut i: usize = 0;
    while i < batch.len()
        invariant
            i <= batch.len(),
            executor.issued() == base + batch.deep_view().take(i as int),
        decreases batch.len() - i,
    {
        let ghost prev = executor.issued();
        let r = executor.execute(&batch[i]);
        proof {
            assert(batch.deep_view()[i as int] == batch@[i as int].deep_view());
            assert(prev.push(batch.deep_view()[i as int]) =~= base + batch.deep_view().take(i + 1));
        }
        match r {
            Ok(()) => {},
            Err(e) => {
                return Err((i, e));
            },
        }
        i += 1;
    }
    proof {
        assert(batch.deep_view().take(batch@.len() as int) =~= batch.deep_view());
    }
    Ok(())
}

} // verus!
