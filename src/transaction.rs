//! A unit of work bracketed by `BEGIN` and `COMMIT` or `ROLLBACK`, as a state
//! machine: Starting, Running, Finishing, Done. The caller sends the batches
//! that it hands out and reports back how they and the work resolved.
use vstd::prelude::*;
use crate::connection::BatchExecute;
use crate::error::Error;
use crate::request::Response;

verus! {

/// Where a transaction stands.
pub enum TransactionState<T, E> {
    /// `BEGIN` is on its way.
    Starting,
    /// The work runs.
    Running,
    /// `COMMIT` (after the work succeeded) or `ROLLBACK` (after it failed) is
    /// on its way; the work's result is kept.
    Finishing { commit: bool, outcome: Result<T, E> },
    Done,
}

/// How a transaction ends.
pub enum TransactionOutcome<T, E> {
    /// The work succeeded and was committed.
    Committed(T),
    /// The work failed with this error and was rolled back.
    WorkFailed(E),
    /// `BEGIN` or `COMMIT` failed; the caller converts this into its own error.
    Failed(Error),
}

/// The statement that ends a transaction whose work resolved with `work`.
pub open spec fn closing_sql<T, E>(work: Result<T, E>) -> Seq<char> {
    if work is Ok { "COMMIT"@ } else { "ROLLBACK"@ }
}

/// How a transaction ends, given the work's result and how the closing
/// statement resolved.
pub open spec fn final_outcome<T, E>(work: Result<T, E>, closing: Result<Response, Error>) -> TransactionOutcome<T, E> {
    match work {
        Ok(v) => match closing {
            Ok(_) => TransactionOutcome::Committed(v),
            Err(e) => TransactionOutcome::Failed(e),
        },
        Err(w) => TransactionOutcome::WorkFailed(w),
    }
}

/// A successful unit of work is committed and its value returned once the
/// commit succeeds; a failed one is rolled back and its own error returned,
/// whatever the rollback did.
pub proof fn lemma_transaction_outcome<T, E>(work: Result<T, E>, closing: Result<Response, Error>)
    ensures
        work matches Ok(v) ==> closing_sql(work) == "COMMIT"@
            && (closing is Ok ==> final_outcome(work, closing) == TransactionOutcome::<T, E>::Committed(v)),
        work matches Err(e) ==> closing_sql(work) == "ROLLBACK"@
            && final_outcome(work, closing) == TransactionOutcome::<T, E>::WorkFailed(e),
{
}

pub struct Transaction<T, E> {
    state: TransactionState<T, E>,
}

fn batch(text: &str) -> (r: BatchExecute)
    ensures
        r.query@ == text@,
{
    BatchExecute { query: String::from_str(text) }
}

impl<T, E> Transaction<T, E> {
    pub closed spec fn state(&self) -> TransactionState<T, E> {
        self.state
    }

    pub open spec fn is_starting(&self) -> bool {
        self.state() is Starting
    }

    pub fn new() -> (r: Transaction<T, E>)
        ensures
            r.is_starting(),
    {
        Transaction { state: TransactionState::Starting }
    }

    /// The batch that opens the transaction.
    pub fn begin(&self) -> (r: BatchExecute)
        ensures
            r.query@ == "BEGIN"@,
    {
        batch("BEGIN")
    }

    /// `BEGIN` resolved: on success the work may run; on failure the
    /// transaction ends with that failure.
    pub fn on_begin(&mut self, result: Result<Response, Error>) -> (r: Option<TransactionOutcome<T, E>>)
        requires
            old(self).state() is Starting,
        ensures
            match result {
                Ok(_) => r is None && final(self).state() is Running,
                Err(e) => r == Some(TransactionOutcome::<T, E>::Failed(e)) && final(self).state() is Done,
            },
    {
        match result {
            Ok(_) => {
                self.state = TransactionState::Running;
                None
            },
            Err(e) => {
                self.state = TransactionState::Done;
                Some(TransactionOutcome::Failed(e))
            },
        }
    }

    /// The work resolved: a success is committed, a failure rolled back. The
    /// result is kept for the end.
    pub fn on_work(&mut self, result: Result<T, E>) -> (r: BatchExecute)
        requires
            old(self).state() is Running,
        ensures
            final(self).state() == (TransactionState::Finishing { commit: result is Ok, outcome: result }),
            r.query@ == closing_sql(result),
    {
        let commit = result.is_ok();
        let r = if commit { batch("COMMIT") } else { batch("ROLLBACK") };
        self.state = TransactionState::Finishing { commit, outcome: result };
        r
    }

    /// `COMMIT` or `ROLLBACK` resolved. After a commit the transaction ends
    /// with the work's value, or with the commit's failure. After a rollback
    /// it ends with the work's own error, whatever the rollback did.
    pub fn on_finish(&mut self, result: Result<Response, Error>) -> (r: TransactionOutcome<T, E>)
        requires
            old(self).state() is Finishing,
        ensures
            final(self).state() is Done,
            r == final_outcome(old(self).state()->Finishing_outcome, result),
    {
        let mut state = TransactionState::Done;
        std::mem::swap(&mut state, &mut self.state);
        match state {
            TransactionState::Finishing { commit: _, outcome: Ok(v) } => match result {
                Ok(_) => TransactionOutcome::Committed(v),
                Err(e) => TransactionOutcome::Failed(e),
            },
            TransactionState::Finishing { commit: _, outcome: Err(w) } => TransactionOutcome::WorkFailed(w),
            _ => TransactionOutcome::Failed(Error::UnexpectedMessage),
        }
    }
}

} // verus!
