//! Making a pod for a project.

use crate::orchestrator::pod::same_name;
use vstd::prelude::*;

verus! {

/// Why a pod was not made, where `K` stands for the errors of the cluster.
#[derive(Debug)]
pub enum Error<K> {
    Kube(K),
}

/// What came of making a pod.
#[derive(Debug)]
pub enum Creation<K> {
    /// The pod was made.
    Created,
    /// The cluster refused.
    Failed(Error<K>),
    /// The cluster made another pod than the one that was asked for.
    Aborted,
}

/// What came of making a pod of this name, given the name of the pod that the cluster made.
pub fn create_pod<K>(name: &str, made: Result<String, K>) -> (r: Creation<K>)
    ensures
        match made {
            Ok(other) => if other@ == name@ {
                r is Created
            } else {
                r is Aborted
            },
            Err(err) => r == Creation::Failed(Error::Kube(err)),
        },
{
    match made {
        Ok(other) => if same_name(other.as_str(), name) {
            Creation::Created
        } else {
            Creation::Aborted
        },
        Err(err) => Creation::Failed(Error::Kube(err)),
    }
}

} // verus!
