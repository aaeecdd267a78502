//! The service registry: static configuration, the computation graph, and the
//! resources that are invalidated ahead of a process fork.

use std::sync::Arc;
use tokio::runtime::Runtime;
use vstd::prelude::*;
use crate::gateway::{Backend, BackendModel, BoundedCommandRunner, GatewayModel};
use crate::graph::{Graph, GraphModel};
use crate::resettable::{Fetch, Holder, Resettable};

verus! {

/// `tokio::runtime::Runtime`, carried through as it is: the embedding program
/// starts it, and nothing here looks inside it or lets go of it.
#[verifier::external_type_specification]
#[verifier::external_body]
pub struct ExRuntime(tokio::runtime::Runtime);

/// The limits that the registry's services are built with.
#[derive(Clone, Copy, Debug, PartialEq, Eq, Structural)]
pub struct Policy {
    /// The number of process executions admitted at a time.
    pub process_concurrency: usize,
    /// The calls in flight per replica of a remote execution service.
    pub execution_replicas: usize,
    /// The replicas of a remote store.
    pub store_replicas: usize,
    /// The largest chunk sent to a remote store, in bytes.
    pub store_chunk_bytes: usize,
    /// The time allowed for one request to a remote store, in seconds.
    pub store_timeout_secs: u64,
}

impl Policy {
    /// The limits used where the embedding program names none.
    pub open spec fn standard() -> Policy {
        Policy {
            process_concurrency: 16,
            execution_replicas: 1,
            store_replicas: 1,
            store_chunk_bytes: 1048576,
            store_timeout_secs: 60,
        }
    }
}

impl Default for Policy {
    fn default() -> (p: Policy)
        ensures
            p == Policy::standard(),
    {
        Policy {
            process_concurrency: 16,
            execution_replicas: 1,
            store_replicas: 1,
            store_chunk_bytes: 1048576,
            store_timeout_secs: 60,
        }
    }
}

/// The pool of workers for blocking I/O, as a resettable resource.
#[derive(Clone)]
pub struct ResettablePool {
    /// What the names of the pool's worker threads begin with.
    pub name_prefix: String,
    /// The pool that is live, if any.
    pub workers: Resettable,
}

impl ResettablePool {
    /// The pool after `reset`: no pool is live, under the same name.
    pub open spec fn after_reset(self) -> ResettablePool {
        ResettablePool { workers: self.workers.after_reset(), ..self }
    }

    /// A pool that has never been built, whose workers are named with
    /// `name_prefix`.
    pub fn new(name_prefix: String) -> (p: ResettablePool)
        ensures
            p.name_prefix == name_prefix,
            p.workers == Resettable::fresh(),
    {
        ResettablePool { name_prefix, workers: Resettable::new() }
    }

    /// Discards the live pool; the next use builds another.
    pub fn reset(&mut self)
        ensures
            *final(self) == old(self).after_reset(),
    {
        self.workers.reset();
    }
}

/// Which tiers a content store has.
#[derive(Clone, Debug, PartialEq, Eq)]
pub enum StoreMode {
    /// Content lives on this host only.
    LocalOnly,
    /// Local storage is a cache in front of a remote tier at `address`.
    Remote { address: String, replicas: usize, chunk_bytes: usize, timeout_secs: u64 },
}

/// A store's tiers as contracts see them.
pub enum StoreModeModel {
    LocalOnly,
    Remote { address: Seq<char>, replicas: nat, chunk_bytes: nat, timeout_secs: nat },
}

impl View for StoreMode {
    type V = StoreModeModel;

    open spec fn view(&self) -> StoreModeModel {
        match self {
            StoreMode::LocalOnly => StoreModeModel::LocalOnly,
            StoreMode::Remote { address, replicas, chunk_bytes, timeout_secs } => {
                StoreModeModel::Remote {
                    address: address@,
                    replicas: *replicas as nat,
                    chunk_bytes: *chunk_bytes as nat,
                    timeout_secs: *timeout_secs as nat,
                }
            },
        }
    }
}

/// The content-addressed store: where it lives, its tiers, and its pooled
/// connections and handles.
#[derive(Clone)]
pub struct Store {
    /// The store's directory, as the home directory followed by the names of the
    /// directories below it.
    pub path: Vec<String>,
    pub mode: StoreMode,
    pub connections: Resettable,
}

impl Store {
    /// The store after `reset_prefork`: nothing is pooled, and the store is
    /// where and what it was.
    pub open spec fn after_reset_prefork(self) -> Store {
        Store { connections: self.connections.after_reset(), ..self }
    }

    /// Drops the pooled connections and handles ahead of a fork.
    pub fn reset_prefork(&mut self)
        ensures
            *final(self) == old(self).after_reset_prefork(),
    {
        self.connections.reset();
    }
}

/// The view of the filesystem below the build root.
#[derive(Clone, Debug)]
pub struct PosixFS {
    pub root: String,
    pub ignore_patterns: Vec<String>,
}

/// What the embedding program found when it prepared the ground for a registry.
#[derive(Debug)]
pub struct Environment {
    /// The user's home directory, if there is one.
    pub home_dir: Option<String>,
    /// Whether the store's directory could be made, or why not.
    pub store_dir: Result<(), String>,
    /// Whether the store could be opened, or why not.
    pub store: Result<(), String>,
    /// Whether the build root is accessible, or why not.
    pub vfs: Result<(), String>,
}

/// Why no registry could be built.
#[derive(Clone, Debug, PartialEq, Eq)]
pub enum InitError {
    /// There is no home directory to keep the store under.
    HomeDir,
    /// The store's directory could not be made.
    StoreDirectory(String),
    /// The store could not be opened.
    Store(String),
    /// The filesystem view could not be set up on the build root.
    Vfs(String),
}

impl Environment {
    /// The first thing that went wrong, in the order in which a registry is put
    /// together; nothing if all went well.
    pub open spec fn failure(self) -> Option<InitError> {
        if self.home_dir is None {
            Some(InitError::HomeDir)
        } else if let Err(reason) = self.store_dir {
            Some(InitError::StoreDirectory(reason))
        } else if let Err(reason) = self.store {
            Some(InitError::Store(reason))
        } else if let Err(reason) = self.vfs {
            Some(InitError::Vfs(reason))
        } else {
            None
        }
    }
}

/// Whether `path` names the store's directory below `home`.
pub open spec fn is_store_path(path: Seq<String>, home: String) -> bool {
    &&& path.len() == 4
    &&& path[0] == home
    &&& path[1]@ == ".cache"@
    &&& path[2]@ == "pants"@
    &&& path[3]@ == "lmdb_store"@
}

/// The store's tiers for a given remote address, if any.
pub open spec fn store_mode_for(remote: Option<String>, policy: Policy) -> StoreModeModel {
    match remote {
        Some(address) => StoreModeModel::Remote {
            address: address@,
            replicas: policy.store_replicas as nat,
            chunk_bytes: policy.store_chunk_bytes as nat,
            timeout_secs: policy.store_timeout_secs as nat,
        },
        None => StoreModeModel::LocalOnly,
    }
}

/// The execution backend for a given remote address, if any.
pub open spec fn backend_for(remote: Option<String>, policy: Policy) -> BackendModel {
    match remote {
        Some(address) => BackendModel::Remote {
            address: address@,
            replicas: policy.execution_replicas as nat,
        },
        None => BackendModel::Local,
    }
}

/// Chooses the store's tiers: local storage in front of the remote store at
/// `remote` if one is named, with the policy's limits, and local storage only
/// if none is.
pub fn select_store_mode(remote: Option<String>, policy: Policy) -> (mode: StoreMode)
    ensures
        mode@ == store_mode_for(remote, policy),
{
    match remote {
        Some(address) => StoreMode::Remote {
            address,
            replicas: policy.store_replicas,
            chunk_bytes: policy.store_chunk_bytes,
            timeout_secs: policy.store_timeout_secs,
        },
        None => StoreMode::LocalOnly,
    }
}

/// Chooses the execution backend: the execution service at `remote` if one is
/// named, with the policy's replica limit, and this host if none is.
pub fn select_backend(remote: Option<String>, policy: Policy) -> (backend: Backend)
    ensures
        backend@ == backend_for(remote, policy),
{
    match remote {
        Some(address) => Backend::Remote { address, replicas: policy.execution_replicas },
        None => Backend::Local,
    }
}

/// The store's directory below `home`.
pub fn store_path(home: String) -> (path: Vec<String>)
    ensures
        is_store_path(path@, home),
{
    let mut path: Vec<String> = Vec::new();
    path.push(home);
    path.push(".cache".to_owned());
    path.push("pants".to_owned());
    path.push("lmdb_store".to_owned());
    path
}

/// Invalidates what a fork would leave unusable: the blocking-I/O pool, the
/// store's pooled connections, the async runtime and the execution backend's
/// pooled state. Each is rebuilt on its next use. The handle to the runtime
/// that was live comes back, for the caller to let go of outside async code.
pub fn reset_for_fork(
    fs_pool: &mut ResettablePool,
    store: &mut Store,
    runtime: &mut Holder<Runtime>,
    command_runner: &mut BoundedCommandRunner,
) -> (discarded: Option<Arc<Runtime>>)
    ensures
        *final(fs_pool) == old(fs_pool).after_reset(),
        *final(store) == old(store).after_reset_prefork(),
        *final(runtime) == old(runtime).after_reset(),
        *final(command_runner) == old(command_runner).after_reset_prefork(),
        discarded == old(runtime).instance,
{
    fs_pool.reset();
    store.reset_prefork();
    command_runner.reset_prefork();
    runtime.reset()
}

/// The registry shared by the scheduler and by the contexts of all running
/// nodes. The task definitions `T`, the type registry `Y` and the rule graph
/// `G` are carried as they are given: nothing here looks inside them.
pub struct Core<T, Y, G> {
    pub graph: Graph,
    pub tasks: T,
    pub rule_graph: G,
    pub types: Y,
    pub root_subject_types: Vec<u64>,
    pub work_dir: String,
    pub fs_pool: ResettablePool,
    pub runtime: Holder<Runtime>,
    pub store: Store,
    pub vfs: PosixFS,
    pub command_runner: BoundedCommandRunner,
}

impl<T, Y, G> Core<T, Y, G> {
    /// The runtime's holder and the execution gateway are in a valid state.
    pub open spec fn wf(self) -> bool {
        &&& self.runtime.wf()
        &&& self.command_runner.wf()
    }

    /// Whether the runtime's holder and the execution gateway are in a valid
    /// state.
    pub fn is_valid(&self) -> (b: bool)
        ensures
            b == self.wf(),
    {
        self.runtime.is_valid() && self.command_runner.is_valid()
    }

    /// Whether no resource of the registry has ever been built.
    pub open spec fn untouched(self) -> bool {
        let fresh = Resettable::fresh();
        &&& self.graph@ == GraphModel::empty()
        &&& self.fs_pool.workers == fresh
        &&& self.runtime.state == fresh
        &&& self.runtime.instance is None
        &&& self.store.connections == fresh
        &&& self.command_runner.connections == fresh
    }

    /// The registry after `pre_fork`: the four fork-sensitive resources are
    /// invalidated, and everything else is as it was.
    pub open spec fn after_pre_fork(self) -> Core<T, Y, G> {
        Core {
            fs_pool: self.fs_pool.after_reset(),
            runtime: self.runtime.after_reset(),
            store: self.store.after_reset_prefork(),
            command_runner: self.command_runner.after_reset_prefork(),
            ..self
        }
    }

    /// Builds the registry from its configuration and from what the embedding
    /// program found in the environment. A failure found there is returned, the
    /// earliest first, and then no registry is built. The task definitions, the
    /// type registry and the rule graph made from them are kept as they are
    /// given. The store is local only
    /// unless a remote store is named; executions run locally unless a remote
    /// execution service is named; and the gateway admits
    /// `policy.process_concurrency` executions at a time.
    pub fn new(
        root_subject_types: Vec<u64>,
        tasks: T,
        types: Y,
        rule_graph: G,
        build_root: String,
        ignore_patterns: Vec<String>,
        work_dir: String,
        remote_store_server: Option<String>,
        remote_execution_server: Option<String>,
        policy: Policy,
        env: Environment,
    ) -> (result: Result<Core<T, Y, G>, InitError>)
        ensures
            result is Err <==> env.failure() is Some,
            result matches Err(e) ==> env.failure() == Some(e),
            result matches Ok(core) ==> {
                &&& core.wf()
                &&& core.untouched()
                &&& core.fs_pool.name_prefix@ == "io-"@
                &&& core.tasks == tasks
                &&& core.types == types
                &&& core.rule_graph == rule_graph
                &&& core.root_subject_types == root_subject_types
                &&& core.work_dir == work_dir
                &&& core.vfs.root == build_root
                &&& core.vfs.ignore_patterns == ignore_patterns
                &&& env.home_dir matches Some(home) && is_store_path(core.store.path@, home)
                &&& core.store.mode@ == store_mode_for(remote_store_server, policy)
                &&& core.command_runner.backend@ == backend_for(remote_execution_server, policy)
                &&& core.command_runner@ == GatewayModel::idle(policy.process_concurrency as nat)
            },
    {
        let Environment { home_dir, store_dir, store, vfs } = env;
        let home = match home_dir {
            Some(home) => home,
            None => {
                return Err(InitError::HomeDir);
            },
        };
        match store_dir {
            Ok(_) => {},
            Err(reason) => {
                return Err(InitError::StoreDirectory(reason));
            },
        }
        match store {
            Ok(_) => {},
            Err(reason) => {
                return Err(InitError::Store(reason));
            },
        }
        match vfs {
            Ok(_) => {},
            Err(reason) => {
                return Err(InitError::Vfs(reason));
            },
        }
        let mode = select_store_mode(remote_store_server, policy);
        let backend = select_backend(remote_execution_server, policy);
        Ok(
            Core {
                graph: Graph::new(),
                tasks,
                rule_graph,
                types,
                root_subject_types,
                work_dir,
                fs_pool: ResettablePool::new("io-".to_owned()),
                runtime: Holder::new(),
                store: Store { path: store_path(home), mode, connections: Resettable::new() },
                vfs: PosixFS { root: build_root, ignore_patterns },
                command_runner: BoundedCommandRunner::new(backend, policy.process_concurrency),
            },
        )
    }

    /// Invalidates what a fork would leave unusable: the blocking-I/O pool, the
    /// store's pooled connections, the async runtime and the execution
    /// backend's pooled state. Each is rebuilt on its next use. The
    /// configuration, the graph with its memoized results, and the gateway's
    /// limit, executions in flight and queue stay as they are. The handle to
    /// the runtime that was live comes back, for the caller to let go of
    /// outside async code.
    pub fn pre_fork(&mut self) -> (discarded: Option<Arc<Runtime>>)
        ensures
            *final(self) == old(self).after_pre_fork(),
            discarded == old(self).runtime.instance,
            final(self).runtime.wf(),
            old(self).wf() ==> final(self).wf(),
    {
        reset_for_fork(
            &mut self.fs_pool,
            &mut self.store,
            &mut self.runtime,
            &mut self.command_runner,
        )
    }
}

/// Calling `pre_fork` twice in a row leaves the registry as one call does.
pub proof fn lemma_pre_fork_idempotent<T, Y, G>(core: Core<T, Y, G>)
    ensures
        core.after_pre_fork().after_pre_fork() == core.after_pre_fork(),
{
}

/// Whether no instance of `after` is live, and the next `get` on it builds one
/// that is newer than every instance that `before` has seen, and leaves it
/// live.
pub open spec fn rebuilds(before: Resettable, after: Resettable) -> bool {
    &&& !after.live
    &&& after.fetched() == Fetch::Built
    &&& after.after_get().live
    &&& after.after_get().newest() == before.newest() + 1
    &&& after.after_get().fetched() == Fetch::Existing
}

/// After `pre_fork` the next `get` on each resettable resource builds an
/// instance that is newer than any that existed before, and further calls of
/// `get` share that instance.
pub proof fn lemma_pre_fork_then_get_rebuilds<T, Y, G>(core: Core<T, Y, G>)
    ensures
        rebuilds(core.fs_pool.workers, core.after_pre_fork().fs_pool.workers),
        rebuilds(core.runtime.state, core.after_pre_fork().runtime.state),
        rebuilds(core.store.connections, core.after_pre_fork().store.connections),
        rebuilds(
            core.command_runner.connections,
            core.after_pre_fork().command_runner.connections,
        ),
        core.after_pre_fork().runtime.instance is None,
        core.after_pre_fork().runtime.wf(),
        core.wf() ==> core.after_pre_fork().wf(),
{
}

/// After `pre_fork` was called twice in a row, the next `get` on each
/// resettable resource still builds an instance, newer than any that existed
/// before, and leaves the resource live.
pub proof fn lemma_pre_fork_twice_then_get_rebuilds<T, Y, G>(core: Core<T, Y, G>)
    ensures
        rebuilds(core.fs_pool.workers, core.after_pre_fork().after_pre_fork().fs_pool.workers),
        rebuilds(core.runtime.state, core.after_pre_fork().after_pre_fork().runtime.state),
        rebuilds(core.store.connections, core.after_pre_fork().after_pre_fork().store.connections),
        rebuilds(
            core.command_runner.connections,
            core.after_pre_fork().after_pre_fork().command_runner.connections,
        ),
        core.after_pre_fork().after_pre_fork().runtime.instance is None,
        core.after_pre_fork().after_pre_fork().runtime.wf(),
        core.wf() ==> core.after_pre_fork().after_pre_fork().wf(),
{
}

/// `pre_fork` changes nothing but the four fork-sensitive resources: the
/// configuration, the graph and the gateway's admission state are as before.
pub proof fn lemma_pre_fork_keeps_configuration<T, Y, G>(core: Core<T, Y, G>)
    ensures
        core.after_pre_fork().graph == core.graph,
        core.after_pre_fork().tasks == core.tasks,
        core.after_pre_fork().types == core.types,
        core.after_pre_fork().rule_graph == core.rule_graph,
        core.after_pre_fork().fs_pool.name_prefix == core.fs_pool.name_prefix,
        core.after_pre_fork().root_subject_types == core.root_subject_types,
        core.after_pre_fork().work_dir == core.work_dir,
        core.after_pre_fork().vfs == core.vfs,
        core.after_pre_fork().store.path == core.store.path,
        core.after_pre_fork().store.mode == core.store.mode,
        core.after_pre_fork().command_runner.backend == core.command_runner.backend,
        core.after_pre_fork().command_runner@ == core.command_runner@,
{
}

} // verus!
