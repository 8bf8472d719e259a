//! Deployments as the store of the deployer holds them.

use crate::id::{parse_ulid, ulid_from_string, DecodeError};
use crate::timestamp::Timestamp;
use vstd::prelude::*;

verus! {

/// Why a row could not be read.
#[derive(Debug, Clone, Copy, PartialEq, Eq)]
pub enum RowError<E> {
    /// A column is missing or holds something else.
    Column(E),
    /// A column holds an identifier that is none.
    Decode(DecodeError),
}

/// A deployment, where `S` stands for its state.
#[derive(Debug, Clone, PartialEq, Eq)]
pub struct Deployment<S> {
    pub id: u128,
    pub service_id: u128,
    pub state: S,
    pub last_update: Timestamp,
    pub is_next: bool,
    pub git_commit_hash: Option<String>,
    pub git_commit_message: Option<String>,
    pub git_branch: Option<String>,
    pub git_dirty: Option<bool>,
}

/// The columns of a deployment, each as the store gave it. `I` stands for a column that holds an
/// identifier, as text or read.
#[derive(Debug)]
pub struct DeploymentRow<I, S, E> {
    pub id: I,
    pub service_id: I,
    pub state: Result<S, E>,
    pub last_update: Result<Timestamp, E>,
    pub is_next: Result<bool, E>,
    pub git_commit_hash: Result<Option<String>, E>,
    pub git_commit_message: Result<Option<String>, E>,
    pub git_branch: Result<Option<String>, E>,
    pub git_dirty: Result<Option<bool>, E>,
}

/// A deployment as far as its state is concerned.
#[derive(Debug, PartialEq, Eq)]
pub struct DeploymentState<S> {
    pub id: u128,
    pub state: S,
    pub last_update: Timestamp,
}

/// A deployment that can be run.
#[derive(Debug, PartialEq, Eq)]
pub struct DeploymentRunnable {
    pub id: u128,
    pub service_name: String,
    pub service_id: u128,
    pub is_next: bool,
}

/// The columns of a deployment that can be run, each as the store gave it.
#[derive(Debug)]
pub struct RunnableRow<I, E> {
    pub id: I,
    pub service_name: Result<String, E>,
    pub service_id: I,
    pub is_next: Result<bool, E>,
}

/// What is wrong with a column.
pub open spec fn fault<T, E>(column: Result<T, E>) -> Option<RowError<E>> {
    match column {
        Ok(_) => None,
        Err(e) => Some(RowError::Column(e)),
    }
}

/// What a column that holds an identifier stands for.
pub open spec fn identifier<E>(column: Result<String, E>) -> Result<u128, RowError<E>> {
    match column {
        Ok(text) => match ulid_from_string(text@) {
            Ok(id) => Ok(id),
            Err(e) => Err(RowError::Decode(e)),
        },
        Err(e) => Err(RowError::Column(e)),
    }
}

/// What is wrong with a column that holds an identifier, which was read.
pub open spec fn id_fault<E>(column: Result<u128, RowError<E>>) -> Option<RowError<E>> {
    match column {
        Ok(_) => None,
        Err(e) => Some(e),
    }
}

/// The first of `faults` that is one.
pub open spec fn first_fault<E>(faults: Seq<Option<RowError<E>>>) -> Option<RowError<E>>
    decreases faults.len(),
{
    if faults.len() == 0 {
        None
    } else if faults[0] is Some {
        faults[0]
    } else {
        first_fault(faults.drop_first())
    }
}

/// Reads a column that holds an identifier.
pub fn read_identifier<E>(column: Result<String, E>) -> (r: Result<u128, RowError<E>>)
    ensures
        r == identifier(column),
        match (column, r) {
            (Ok(text), Ok(id)) => ulid_from_string(text@) == Ok::<u128, DecodeError>(id),
            (Ok(text), Err(RowError::Decode(e))) => ulid_from_string(text@) == Err::<
                u128,
                DecodeError,
            >(e),
            (Err(e), Err(RowError::Column(f))) => e == f,
            _ => false,
        },
{
    match column {
        Ok(text) => match parse_ulid(text.as_str()) {
            Ok(id) => Ok(id),
            Err(e) => Err(RowError::Decode(e)),
        },
        Err(e) => Err(RowError::Column(e)),
    }
}

fn read<T, E>(column: Result<T, E>) -> (r: Result<T, RowError<E>>)
    ensures
        match (column, r) {
            (Ok(x), Ok(y)) => x == y,
            (Err(e), Err(f)) => f == RowError::Column(e),
            _ => false,
        },
{
    match column {
        Ok(x) => Ok(x),
        Err(e) => Err(RowError::Column(e)),
    }
}

proof fn lemma_first_fault<E>(faults: Seq<Option<RowError<E>>>, i: int)
    requires
        0 <= i < faults.len(),
        forall|j: int| 0 <= j < i ==> (#[trigger] faults[j]) is None,
        faults[i] is Some,
    ensures
        first_fault(faults) == faults[i],
    decreases i,
{
    if i > 0 {
        let rest = faults.drop_first();
        assert forall|j: int| 0 <= j < i - 1 implies (#[trigger] rest[j]) is None by {
            assert(rest[j] == faults[j + 1]);
        }
        assert(rest[i - 1] == faults[i]);
        assert(faults[0] is None);
        lemma_first_fault(rest, i - 1);
    }
}

proof fn lemma_no_fault<E>(faults: Seq<Option<RowError<E>>>)
    requires
        forall|j: int| 0 <= j < faults.len() ==> (#[trigger] faults[j]) is None,
    ensures
        first_fault(faults) is None,
    decreases faults.len(),
{
    if faults.len() > 0 {
        let rest = faults.drop_first();
        assert forall|j: int| 0 <= j < rest.len() implies (#[trigger] rest[j]) is None by {
            assert(rest[j] == faults[j + 1]);
        }
        assert(faults[0] is None);
        lemma_no_fault(rest);
    }
}

/// The columns of a deployment with its identifiers read.
pub open spec fn decoded<S, E>(row: DeploymentRow<Result<String, E>, S, E>) -> DeploymentRow<
    Result<u128, RowError<E>>,
    S,
    E,
> {
    DeploymentRow {
        id: identifier(row.id),
        service_id: identifier(row.service_id),
        state: row.state,
        last_update: row.last_update,
        is_next: row.is_next,
        git_commit_hash: row.git_commit_hash,
        git_commit_message: row.git_commit_message,
        git_branch: row.git_branch,
        git_dirty: row.git_dirty,
    }
}

/// What is wrong with the columns of a deployment, in their order.
pub open spec fn row_faults<S, E>(row: DeploymentRow<Result<u128, RowError<E>>, S, E>) -> Seq<
    Option<RowError<E>>,
> {
    seq![
        id_fault(row.id),
        id_fault(row.service_id),
        fault(row.state),
        fault(row.last_update),
        fault(row.is_next),
        fault(row.git_commit_hash),
        fault(row.git_commit_message),
        fault(row.git_branch),
        fault(row.git_dirty),
    ]
}

/// Whether `r` is what the columns of a deployment stand for: the deployment, or the first thing
/// that is wrong with them.
pub open spec fn reads_as<S, E>(
    row: DeploymentRow<Result<u128, RowError<E>>, S, E>,
    r: Result<Deployment<S>, RowError<E>>,
) -> bool {
    match (first_fault(row_faults(row)), r) {
        (None, Ok(d)) => {
            &&& Ok::<u128, RowError<E>>(d.id) == row.id
            &&& Ok::<u128, RowError<E>>(d.service_id) == row.service_id
            &&& Ok::<S, E>(d.state) == row.state
            &&& Ok::<Timestamp, E>(d.last_update) == row.last_update
            &&& Ok::<bool, E>(d.is_next) == row.is_next
            &&& Ok::<Option<String>, E>(d.git_commit_hash) == row.git_commit_hash
            &&& Ok::<Option<String>, E>(d.git_commit_message) == row.git_commit_message
            &&& Ok::<Option<String>, E>(d.git_branch) == row.git_branch
            &&& Ok::<Option<bool>, E>(d.git_dirty) == row.git_dirty
        },
        (Some(e), Err(f)) => e == f,
        _ => false,
    }
}

impl<S> Deployment<S> {
    /// Reads a deployment from its columns. The first column with something wrong tells why that
    /// fails.
    pub fn from_row<E>(row: DeploymentRow<Result<String, E>, S, E>) -> (r: Result<
        Self,
        RowError<E>,
    >)
        ensures
            reads_as(decoded(row), r),
            r matches Ok(d) ==> {
                &&& row.state == Ok::<S, E>(d.state)
                &&& row.last_update == Ok::<Timestamp, E>(d.last_update)
                &&& row.is_next == Ok::<bool, E>(d.is_next)
                &&& row.git_commit_hash == Ok::<Option<String>, E>(d.git_commit_hash)
                &&& row.git_commit_message == Ok::<Option<String>, E>(d.git_commit_message)
                &&& row.git_branch == Ok::<Option<String>, E>(d.git_branch)
                &&& row.git_dirty == Ok::<Option<bool>, E>(d.git_dirty)
            },
    {
        Deployment::from_decoded(
            DeploymentRow {
                id: read_identifier(row.id),
                service_id: read_identifier(row.service_id),
                state: row.state,
                last_update: row.last_update,
                is_next: row.is_next,
                git_commit_hash: row.git_commit_hash,
                git_commit_message: row.git_commit_message,
                git_branch: row.git_branch,
                git_dirty: row.git_dirty,
            },
        )
    }

    /// Reads a deployment from its columns, with its identifiers read.
    pub fn from_decoded<E>(row: DeploymentRow<Result<u128, RowError<E>>, S, E>) -> (r: Result<
        Self,
        RowError<E>,
    >)
        ensures
            reads_as(row, r),
    {
        let ghost faults = row_faults(row);
        let id = match row.id {
            Ok(x) => x,
            Err(e) => {
                proof {
                    lemma_first_fault(faults, 0);
                }
                return Err(e);
            },
        };
        let service_id = match row.service_id {
            Ok(x) => x,
            Err(e) => {
                proof {
                    lemma_first_fault(faults, 1);
                }
                return Err(e);
            },
        };
        let state = match read(row.state) {
            Ok(x) => x,
            Err(e) => {
                proof {
                    lemma_first_fault(faults, 2);
                }
                return Err(e);
            },
        };
        let last_update = match read(row.last_update) {
            Ok(x) => x,
            Err(e) => {
                proof {
                    lemma_first_fault(faults, 3);
                }
                return Err(e);
            },
        };
        let is_next = match read(row.is_next) {
            Ok(x) => x,
            Err(e) => {
                proof {
                    lemma_first_fault(faults, 4);
                }
                return Err(e);
            },
        };
        let git_commit_hash = match read(row.git_commit_hash) {
            Ok(x) => x,
            Err(e) => {
                proof {
                    lemma_first_fault(faults, 5);
                }
                return Err(e);
            },
        };
        let git_commit_message = match read(row.git_commit_message) {
            Ok(x) => x,
            Err(e) => {
                proof {
                    lemma_first_fault(faults, 6);
                }
                return Err(e);
            },
        };
        let git_branch = match read(row.git_branch) {
            Ok(x) => x,
            Err(e) => {
                proof {
                    lemma_first_fault(faults, 7);
                }
                return Err(e);
            },
        };
        let git_dirty = match read(row.git_dirty) {
            Ok(x) => x,
            Err(e) => {
                proof {
                    lemma_first_fault(faults, 8);
                }
                return Err(e);
            },
        };
        proof {
            lemma_no_fault(faults);
        }
        Ok(
            Deployment {
                id,
                service_id,
                state,
                last_update,
                is_next,
                git_commit_hash,
                git_commit_message,
                git_branch,
                git_dirty,
            },
        )
    }
}

/// The columns of a deployment that can be run with its identifiers read.
pub open spec fn decoded_runnable<E>(row: RunnableRow<Result<String, E>, E>) -> RunnableRow<
    Result<u128, RowError<E>>,
    E,
> {
    RunnableRow {
        id: identifier(row.id),
        service_name: row.service_name,
        service_id: identifier(row.service_id),
        is_next: row.is_next,
    }
}

/// What is wrong with the columns of a deployment that can be run, in their order.
pub open spec fn runnable_faults<E>(row: RunnableRow<Result<u128, RowError<E>>, E>) -> Seq<
    Option<RowError<E>>,
> {
    seq![
        id_fault(row.id),
        fault(row.service_name),
        id_fault(row.service_id),
        fault(row.is_next),
    ]
}

/// Whether `r` is what the columns of a deployment that can be run stand for: the deployment, or
/// the first thing that is wrong with them.
pub open spec fn runs_as<E>(
    row: RunnableRow<Result<u128, RowError<E>>, E>,
    r: Result<DeploymentRunnable, RowError<E>>,
) -> bool {
    match (first_fault(runnable_faults(row)), r) {
        (None, Ok(d)) => {
            &&& Ok::<u128, RowError<E>>(d.id) == row.id
            &&& Ok::<String, E>(d.service_name) == row.service_name
            &&& Ok::<u128, RowError<E>>(d.service_id) == row.service_id
            &&& Ok::<bool, E>(d.is_next) == row.is_next
        },
        (Some(e), Err(f)) => e == f,
        _ => false,
    }
}

impl DeploymentRunnable {
    /// Reads a deployment that can be run from its columns. The first column with something wrong
    /// tells why that fails.
    pub fn from_row<E>(row: RunnableRow<Result<String, E>, E>) -> (r: Result<Self, RowError<E>>)
        ensures
            runs_as(decoded_runnable(row), r),
            r matches Ok(d) ==> {
                &&& row.service_name == Ok::<String, E>(d.service_name)
                &&& row.is_next == Ok::<bool, E>(d.is_next)
            },
    {
        DeploymentRunnable::from_decoded(
            RunnableRow {
                id: read_identifier(row.id),
                service_name: row.service_name,
                service_id: read_identifier(row.service_id),
                is_next: row.is_next,
            },
        )
    }

    /// Reads a deployment that can be run from its columns, with its identifiers read.
    pub fn from_decoded<E>(row: RunnableRow<Result<u128, RowError<E>>, E>) -> (r: Result<
        Self,
        RowError<E>,
    >)
        ensures
            runs_as(row, r),
    {
        let ghost faults = runnable_faults(row);
        let id = match row.id {
            Ok(x) => x,
            Err(e) => {
                proof {
                    lemma_first_fault(faults, 0);
                }
                return Err(e);
            },
        };
        let service_name = match read(row.service_name) {
            Ok(x) => x,
            Err(e) => {
                proof {
                    lemma_first_fault(faults, 1);
                }
                return Err(e);
            },
        };
        let service_id = match row.service_id {
            Ok(x) => x,
            Err(e) => {
                proof {
                    lemma_first_fault(faults, 2);
                }
                return Err(e);
            },
        };
        let is_next = match read(row.is_next) {
            Ok(x) => x,
            Err(e) => {
                proof {
                    lemma_first_fault(faults, 3);
                }
                return Err(e);
            },
        };
        proof {
            lemma_no_fault(faults);
        }
        Ok(DeploymentRunnable { id, service_name, service_id, is_next })
    }
}

/// A row can be read exactly if nothing is wrong with any of its columns.
pub proof fn law_row_is_read_iff_faultless<E>(faults: Seq<Option<RowError<E>>>)
    ensures
        first_fault(faults) is None <==> forall|j: int|
            0 <= j < faults.len() ==> (#[trigger] faults[j]) is None,
    decreases faults.len(),
{
    if faults.len() > 0 {
        let rest = faults.drop_first();
        law_row_is_read_iff_faultless(rest);
        if faults[0] is None {
            assert forall|j: int| 0 < j < faults.len() implies (#[trigger] faults[j]) == rest[j
                - 1] by {}
            assert forall|j: int| 0 <= j < rest.len() implies (#[trigger] rest[j]) == faults[j
                + 1] by {}
        }
    }
}

/// The error that comes out is that of the first column with something wrong, and no column before
/// it has anything wrong.
pub proof fn law_first_fault_comes_out<E>(faults: Seq<Option<RowError<E>>>, e: RowError<E>)
    ensures
        first_fault(faults) == Some(e) <==> exists|i: int|
            0 <= i < faults.len() && #[trigger] faults[i] == Some(e) && forall|j: int|
                0 <= j < i ==> (#[trigger] faults[j]) is None,
    decreases faults.len(),
{
    if first_fault(faults) == Some(e) {
        lemma_place_of_first_fault(faults);
    }
    if exists|i: int|
        0 <= i < faults.len() && #[trigger] faults[i] == Some(e) && forall|j: int|
            0 <= j < i ==> (#[trigger] faults[j]) is None {
        let i = choose|i: int|
            0 <= i < faults.len() && #[trigger] faults[i] == Some(e) && forall|j: int|
                0 <= j < i ==> (#[trigger] faults[j]) is None;
        lemma_first_fault(faults, i);
    }
}

proof fn lemma_place_of_first_fault<E>(faults: Seq<Option<RowError<E>>>)
    requires
        first_fault(faults) is Some,
    ensures
        exists|i: int|
            0 <= i < faults.len() && #[trigger] faults[i] == first_fault(faults) && forall|j: int|
                0 <= j < i ==> (#[trigger] faults[j]) is None,
    decreases faults.len(),
{
    if faults[0] is Some {
        assert(faults[0] == first_fault(faults));
    } else {
        let rest = faults.drop_first();
        lemma_place_of_first_fault(rest);
        let i = choose|i: int|
            0 <= i < rest.len() && #[trigger] rest[i] == first_fault(rest) && forall|j: int|
                0 <= j < i ==> (#[trigger] rest[j]) is None;
        assert(faults[i + 1] == first_fault(faults));
        assert forall|j: int| 0 <= j < i + 1 implies (#[trigger] faults[j]) is None by {
            if j > 0 {
                assert(faults[j] == rest[j - 1]);
            }
        }
    }
}

/// A deployment is what the columns of its row hold, each under its own name, and its identifiers
/// are those that the text of their columns stands for. Where one cannot be read, the error is that
/// of the first such column, in the order of the columns.
pub proof fn law_deployment_is_what_its_row_holds<S, E>(
    row: DeploymentRow<Result<String, E>, S, E>,
    r: Result<Deployment<S>, RowError<E>>,
)
    requires
        reads_as(decoded(row), r),
    ensures
        match r {
            Ok(d) => {
                &&& row.id is Ok
                &&& ulid_from_string(row.id->Ok_0@) == Ok::<u128, DecodeError>(d.id)
                &&& row.service_id is Ok
                &&& ulid_from_string(row.service_id->Ok_0@) == Ok::<u128, DecodeError>(d.service_id)
                &&& row.state == Ok::<S, E>(d.state)
                &&& row.last_update == Ok::<Timestamp, E>(d.last_update)
                &&& row.is_next == Ok::<bool, E>(d.is_next)
                &&& row.git_commit_hash == Ok::<Option<String>, E>(d.git_commit_hash)
                &&& row.git_commit_message == Ok::<Option<String>, E>(d.git_commit_message)
                &&& row.git_branch == Ok::<Option<String>, E>(d.git_branch)
                &&& row.git_dirty == Ok::<Option<bool>, E>(d.git_dirty)
            },
            Err(e) => if row.id is Err {
                e == RowError::<E>::Column(row.id->Err_0)
            } else if ulid_from_string(row.id->Ok_0@) is Err {
                e == RowError::<E>::Decode(ulid_from_string(row.id->Ok_0@)->Err_0)
            } else if row.service_id is Err {
                e == RowError::<E>::Column(row.service_id->Err_0)
            } else if ulid_from_string(row.service_id->Ok_0@) is Err {
                e == RowError::<E>::Decode(ulid_from_string(row.service_id->Ok_0@)->Err_0)
            } else if row.state is Err {
                e == RowError::<E>::Column(row.state->Err_0)
            } else if row.last_update is Err {
                e == RowError::<E>::Column(row.last_update->Err_0)
            } else if row.is_next is Err {
                e == RowError::<E>::Column(row.is_next->Err_0)
            } else if row.git_commit_hash is Err {
                e == RowError::<E>::Column(row.git_commit_hash->Err_0)
            } else if row.git_commit_message is Err {
                e == RowError::<E>::Column(row.git_commit_message->Err_0)
            } else if row.git_branch is Err {
                e == RowError::<E>::Column(row.git_branch->Err_0)
            } else {
                row.git_dirty is Err && e == RowError::<E>::Column(row.git_dirty->Err_0)
            },
        },
{
    law_decoded_deployment_is_what_its_row_holds(decoded(row), r);
}

/// A deployment is what the columns of its row hold, each under its own name, where the identifiers
/// were read before.
pub proof fn law_decoded_deployment_is_what_its_row_holds<S, E>(
    row: DeploymentRow<Result<u128, RowError<E>>, S, E>,
    r: Result<Deployment<S>, RowError<E>>,
)
    requires
        reads_as(row, r),
    ensures
        match r {
            Ok(d) => {
                &&& row.id == Ok::<u128, RowError<E>>(d.id)
                &&& row.service_id == Ok::<u128, RowError<E>>(d.service_id)
                &&& row.state == Ok::<S, E>(d.state)
                &&& row.last_update == Ok::<Timestamp, E>(d.last_update)
                &&& row.is_next == Ok::<bool, E>(d.is_next)
                &&& row.git_commit_hash == Ok::<Option<String>, E>(d.git_commit_hash)
                &&& row.git_commit_message == Ok::<Option<String>, E>(d.git_commit_message)
                &&& row.git_branch == Ok::<Option<String>, E>(d.git_branch)
                &&& row.git_dirty == Ok::<Option<bool>, E>(d.git_dirty)
            },
            Err(e) => if row.id is Err {
                e == row.id->Err_0
            } else if row.service_id is Err {
                e == row.service_id->Err_0
            } else if row.state is Err {
                e == RowError::<E>::Column(row.state->Err_0)
            } else if row.last_update is Err {
                e == RowError::<E>::Column(row.last_update->Err_0)
            } else if row.is_next is Err {
                e == RowError::<E>::Column(row.is_next->Err_0)
            } else if row.git_commit_hash is Err {
                e == RowError::<E>::Column(row.git_commit_hash->Err_0)
            } else if row.git_commit_message is Err {
                e == RowError::<E>::Column(row.git_commit_message->Err_0)
            } else if row.git_branch is Err {
                e == RowError::<E>::Column(row.git_branch->Err_0)
            } else {
                row.git_dirty is Err && e == RowError::<E>::Column(row.git_dirty->Err_0)
            },
        },
{
    let faults = row_faults(row);
    law_row_is_read_iff_faultless(faults);
    if let Err(e) = r {
        lemma_place_of_first_fault(faults);
    } else {
        assert(faults[0] is None);
    }
}

/// A deployment that can be run is what the columns of its row hold, each under its own name, and
/// its identifiers are those that the text of their columns stands for. Where one cannot be read,
/// the error is that of the first such column, in the order of the columns.
pub proof fn law_runnable_is_what_its_row_holds<E>(
    row: RunnableRow<Result<String, E>, E>,
    r: Result<DeploymentRunnable, RowError<E>>,
)
    requires
        runs_as(decoded_runnable(row), r),
    ensures
        match r {
            Ok(d) => {
                &&& row.id is Ok
                &&& ulid_from_string(row.id->Ok_0@) == Ok::<u128, DecodeError>(d.id)
                &&& row.service_name == Ok::<String, E>(d.service_name)
                &&& row.service_id is Ok
                &&& ulid_from_string(row.service_id->Ok_0@) == Ok::<u128, DecodeError>(d.service_id)
                &&& row.is_next == Ok::<bool, E>(d.is_next)
            },
            Err(e) => if row.id is Err {
                e == RowError::<E>::Column(row.id->Err_0)
            } else if ulid_from_string(row.id->Ok_0@) is Err {
                e == RowError::<E>::Decode(ulid_from_string(row.id->Ok_0@)->Err_0)
            } else if row.service_name is Err {
                e == RowError::<E>::Column(row.service_name->Err_0)
            } else if row.service_id is Err {
                e == RowError::<E>::Column(row.service_id->Err_0)
            } else if ulid_from_string(row.service_id->Ok_0@) is Err {
                e == RowError::<E>::Decode(ulid_from_string(row.service_id->Ok_0@)->Err_0)
            } else {
                row.is_next is Err && e == RowError::<E>::Column(row.is_next->Err_0)
            },
        },
{
    law_decoded_runnable_is_what_its_row_holds(decoded_runnable(row), r);
}

/// A deployment that can be run is what the columns of its row hold, each under its own name, where
/// the identifiers were read before.
pub proof fn law_decoded_runnable_is_what_its_row_holds<E>(
    row: RunnableRow<Result<u128, RowError<E>>, E>,
    r: Result<DeploymentRunnable, RowError<E>>,
)
    requires
        runs_as(row, r),
    ensures
        match r {
            Ok(d) => {
                &&& row.id == Ok::<u128, RowError<E>>(d.id)
                &&& row.service_name == Ok::<String, E>(d.service_name)
                &&& row.service_id == Ok::<u128, RowError<E>>(d.service_id)
                &&& row.is_next == Ok::<bool, E>(d.is_next)
            },
            Err(e) => if row.id is Err {
                e == row.id->Err_0
            } else if row.service_name is Err {
                e == RowError::<E>::Column(row.service_name->Err_0)
            } else if row.service_id is Err {
                e == row.service_id->Err_0
            } else {
                row.is_next is Err && e == RowError::<E>::Column(row.is_next->Err_0)
            },
        },
{
    let faults = runnable_faults(row);
    law_row_is_read_iff_faultless(faults);
    if let Err(e) = r {
        lemma_place_of_first_fault(faults);
    } else {
        assert(faults[0] is None);
    }
}

} // verus!
