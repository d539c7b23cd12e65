use crate::errors::Error;
use vstd::prelude::*;

verus! {

/// What every operation context can do, whatever the operation: judge its
/// input against its staged ledger, and write the staged ledger back.
///
/// A context stages; it never touches the ledger before `commit`, and
/// `commit` writes everything it writes in one step.
pub trait Context: Sized {
    /// The ledger that the operation works on.
    type Ledger;

    /// What a committed operation hands to the layers around it.
    type Output;

    /// The input is well formed in itself and against the staged ledger.
    spec fn input_valid(&self) -> bool;

    /// The error with which the operation is rejected before anything is
    /// computed, if it is.
    spec fn rejection(&self) -> Option<Error>;

    /// The ledger as a commit of this context leaves it.
    spec fn committed(&self, ledger: Self::Ledger) -> Self::Ledger;

    /// What a commit of this context hands out.
    spec fn staged_output(&self) -> Self::Output;

    /// Whether the input is valid.
    fn validate(&self) -> (r: bool)
        ensures
            r == self.input_valid(),
    ;

    /// The typed error for an input or a contract state that forbids the
    /// operation.
    fn check(&self) -> (r: Result<(), Error>)
        ensures
            match self.rejection() {
                Some(e) => r == Err::<(), Error>(e),
                None => r is Ok,
            },
    ;

    /// Writes the staged fields to the ledger and hands out the staged
    /// output.
    fn commit(self, ledger: &mut Self::Ledger) -> (output: Self::Output)
        ensures
            *final(ledger) == self.committed(*old(ledger)),
            output == self.staged_output(),
    ;
}

} // verus!
