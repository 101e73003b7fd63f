//! Outcomes of the four writes of a cycle, and their reduction to one result.

use crate::metric::Quantity;
use vstd::prelude::*;

verus! {

/// Why a single write failed, as the database client reports it.
#[derive(Debug, Clone, Copy, PartialEq, Eq, Structural)]
pub enum WriteError {
    /// The server understood the request but could not complete it.
    CouldNotComplete,
    /// The request did not reach the server, or no response came back.
    Communication,
    /// The server refused the request as malformed.
    Syntax,
    /// The server answered with a status the client does not know.
    Unexpected,
    /// The client could not tell what went wrong.
    Unknown,
}

/// The broad classes of write failures.
#[derive(Debug, Clone, Copy, PartialEq, Eq, Structural)]
pub enum FailureClass {
    /// The transport failed.
    Transport,
    /// The server rejected the write.
    Rejection,
    /// The write neither succeeded nor was rejected, as after a timeout.
    Timeout,
}

impl WriteError {
    /// The class a write error falls into.
    pub open spec fn class_of(self) -> FailureClass {
        match self {
            WriteError::Communication => FailureClass::Transport,
            WriteError::Syntax => FailureClass::Rejection,
            WriteError::Unexpected => FailureClass::Rejection,
            WriteError::CouldNotComplete => FailureClass::Timeout,
            WriteError::Unknown => FailureClass::Timeout,
        }
    }

    /// Classifies the error.
    pub fn class(self) -> (class: FailureClass)
        ensures
            class == self.class_of(),
    {
        match self {
            WriteError::Communication => FailureClass::Transport,
            WriteError::Syntax | WriteError::Unexpected => FailureClass::Rejection,
            WriteError::CouldNotComplete | WriteError::Unknown => FailureClass::Timeout,
        }
    }
}

/// How one write ended.
pub type WriteOutcome = Result<(), WriteError>;

/// The failure of a cycle's dispatch as a whole: the first of its writes, in
/// the order of the quantities, that failed.
#[derive(Debug, Clone, Copy, PartialEq, Eq, Structural)]
pub struct AggregateError {
    /// The quantity whose write failed.
    pub quantity: Quantity,
    /// The error of that write.
    pub error: WriteError,
}

impl AggregateError {
    /// The class of the failure: that of the first write that failed.
    pub fn class(&self) -> (class: FailureClass)
        ensures
            class == self.error.class_of(),
    {
        self.error.class()
    }
}

/// All four writes succeeded.
pub open spec fn all_written(outcomes: [WriteOutcome; 4]) -> bool {
    forall|i: int| 0 <= i < 4 ==> (#[trigger] outcomes[i]) is Ok
}

/// The write of quantity `q` failed with `error`, and every write before it
/// succeeded.
pub open spec fn first_failure(
    outcomes: [WriteOutcome; 4],
    q: Quantity,
    error: WriteError,
) -> bool {
    &&& outcomes[q.position()] == Err::<(), WriteError>(error)
    &&& forall|i: int| 0 <= i < q.position() ==> (#[trigger] outcomes[i]) is Ok
}

/// The result of a dispatch whose four writes ended as given: success if all
/// four succeeded, else the first failure.
pub open spec fn aggregated(outcomes: [WriteOutcome; 4]) -> Result<(), AggregateError> {
    if outcomes[0] is Err {
        Err(AggregateError { quantity: Quantity::Temperature, error: outcomes[0]->Err_0 })
    } else if outcomes[1] is Err {
        Err(AggregateError { quantity: Quantity::Pressure, error: outcomes[1]->Err_0 })
    } else if outcomes[2] is Err {
        Err(AggregateError { quantity: Quantity::Humidity, error: outcomes[2]->Err_0 })
    } else if outcomes[3] is Err {
        Err(AggregateError { quantity: Quantity::GasResistance, error: outcomes[3]->Err_0 })
    } else {
        Ok(())
    }
}

/// Reduces the outcomes of the four writes of a cycle to one result.
///
/// All four outcomes are in hand before anything is decided. The dispatch
/// succeeded if every write did; otherwise it failed with the first failure
/// in the order of the quantities.
pub fn aggregate(outcomes: &[WriteOutcome; 4]) -> (result: Result<(), AggregateError>)
    ensures
        result == aggregated(*outcomes),
        result is Ok <==> all_written(*outcomes),
        result matches Err(e) ==> first_failure(*outcomes, e.quantity, e.error),
{
    match outcomes[0] {
        Err(error) => {
            return Err(AggregateError { quantity: Quantity::Temperature, error });
        },
        Ok(()) => {},
    }
    match outcomes[1] {
        Err(error) => {
            return Err(AggregateError { quantity: Quantity::Pressure, error });
        },
        Ok(()) => {},
    }
    match outcomes[2] {
        Err(error) => {
            return Err(AggregateError { quantity: Quantity::Humidity, error });
        },
        Ok(()) => {},
    }
    match outcomes[3] {
        Err(error) => {
            return Err(AggregateError { quantity: Quantity::GasResistance, error });
        },
        Ok(()) => {},
    }
    Ok(())
}

/// The dispatch fails exactly if one of its writes did, however the other
/// three ended, and it then reports the first write that failed, with that
/// write's own error.
pub proof fn lemma_aggregate_failure(outcomes: [WriteOutcome; 4])
    ensures
        aggregated(outcomes) is Err <==> exists|i: int|
            0 <= i < 4 && (#[trigger] outcomes[i]) is Err,
        aggregated(outcomes) is Ok <==> all_written(outcomes),
        aggregated(outcomes) matches Err(e) ==> first_failure(outcomes, e.quantity, e.error),
{
}

/// The first failure is unique: two descriptions of it agree.
pub proof fn lemma_first_failure_unique(
    outcomes: [WriteOutcome; 4],
    q1: Quantity,
    e1: WriteError,
    q2: Quantity,
    e2: WriteError,
)
    requires
        first_failure(outcomes, q1, e1),
        first_failure(outcomes, q2, e2),
    ensures
        q1 == q2,
        e1 == e2,
{
}

} // verus!
