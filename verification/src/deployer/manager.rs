//! What takes built deployments and runs them.

use vstd::prelude::*;

verus! {

/// The built deployments that may wait to be run.
pub const RUN_BUFFER_SIZE: usize = 100;

/// Puts together a deployment manager.
///
/// The types stand for a recorder of build logs, an access to the store, a path, what keeps the
/// runtimes, and the rights of the project.
pub struct DeploymentManagerBuilder<LR, D, P, R, C> {
    pub build_log_recorder: Option<LR>,
    pub artifacts_path: Option<P>,
    pub runtime_manager: Option<R>,
    pub dal: Option<D>,
    pub claim: Option<C>,
}

/// What a deployment manager and the task that runs deployments are made from. A channel between
/// the two takes the built deployments.
pub struct Pipeline<D, P, R, C> {
    /// The built deployments that fit into the channel.
    pub run_buffer_size: usize,
    /// Where artifacts are stored.
    pub artifacts_path: P,
    pub runtime_manager: R,
    pub dal: D,
    /// The rights with which deployments run, if they were given.
    pub claim: Option<C>,
}

impl<LR, D, P, R, C> DeploymentManagerBuilder<LR, D, P, R, C> {
    /// Whether nothing was set.
    pub open spec fn is_new(self) -> bool {
        &&& self.build_log_recorder is None
        &&& self.artifacts_path is None
        &&& self.runtime_manager is None
        &&& self.dal is None
        &&& self.claim is None
    }

    /// Whether a deployment manager can be made.
    pub open spec fn complete(self) -> bool {
        self.artifacts_path is Some && self.runtime_manager is Some && self.dal is Some
    }

    /// Sets the recorder of build logs.
    pub fn build_log_recorder(self, build_log_recorder: LR) -> (r: Self)
        ensures
            r == (DeploymentManagerBuilder {
                build_log_recorder: Some(build_log_recorder),
                ..self
            }),
    {
        DeploymentManagerBuilder { build_log_recorder: Some(build_log_recorder), ..self }
    }

    /// Sets the access to the store.
    pub fn dal(self, dal: D) -> (r: Self)
        ensures
            r == (DeploymentManagerBuilder { dal: Some(dal), ..self }),
    {
        DeploymentManagerBuilder { dal: Some(dal), ..self }
    }

    /// Sets where artifacts are stored.
    pub fn artifacts_path(self, artifacts_path: P) -> (r: Self)
        ensures
            r == (DeploymentManagerBuilder { artifacts_path: Some(artifacts_path), ..self }),
    {
        DeploymentManagerBuilder { artifacts_path: Some(artifacts_path), ..self }
    }

    /// Sets the rights with which deployments run.
    pub fn claim(self, claim: C) -> (r: Self)
        ensures
            r == (DeploymentManagerBuilder { claim: Some(claim), ..self }),
    {
        DeploymentManagerBuilder { claim: Some(claim), ..self }
    }

    /// Sets what keeps the runtimes.
    pub fn runtime(self, runtime_manager: R) -> (r: Self)
        ensures
            r == (DeploymentManagerBuilder { runtime_manager: Some(runtime_manager), ..self }),
    {
        DeploymentManagerBuilder { runtime_manager: Some(runtime_manager), ..self }
    }

    /// What the deployment manager and its task are made from. The path of the artifacts, what
    /// keeps the runtimes and the access to the store have to be set.
    pub fn build(self) -> (r: Pipeline<D, P, R, C>)
        requires
            self.complete(),
        ensures
            r == (Pipeline {
                run_buffer_size: RUN_BUFFER_SIZE,
                artifacts_path: self.artifacts_path->0,
                runtime_manager: self.runtime_manager->0,
                dal: self.dal->0,
                claim: self.claim,
            }),
            r.run_buffer_size == 100,
    {
        Pipeline {
            run_buffer_size: RUN_BUFFER_SIZE,
            artifacts_path: self.artifacts_path.unwrap(),
            runtime_manager: self.runtime_manager.unwrap(),
            dal: self.dal.unwrap(),
            claim: self.claim,
        }
    }
}

/// Takes built deployments and has them run.
///
/// The types stand for the sender of built deployments, what keeps the runtimes, and the storage
/// of artifacts.
#[derive(Clone)]
pub struct DeploymentManager<Q, R, S> {
    pub run_send: Q,
    pub runtime_manager: R,
    pub storage_manager: S,
}

impl<Q, R, S> DeploymentManager<Q, R, S> {
    /// A deployment manager with nothing set.
    pub fn builder<LR, D, P, C>() -> (r: DeploymentManagerBuilder<LR, D, P, R, C>)
        ensures
            r.is_new(),
            r.build_log_recorder is None && r.artifacts_path is None && r.runtime_manager is None,
            r.dal is None && r.claim is None,
    {
        DeploymentManagerBuilder {
            build_log_recorder: None,
            artifacts_path: None,
            runtime_manager: None,
            dal: None,
            claim: None,
        }
    }
}

impl<Q, R, S: Clone> DeploymentManager<Q, R, S> {
    /// The storage of artifacts.
    pub fn storage_manager(&self) -> (r: S)
        ensures
            cloned(self.storage_manager, r),
    {
        self.storage_manager.clone()
    }
}

} // verus!
