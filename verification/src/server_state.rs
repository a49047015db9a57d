//! The context or environment in which the language server functions.
use crate::compilation::{
    CompilationContext, CompilationStatus, LastCompilationState, TaskMessage,
};
use crate::config::Config;
use crate::diagnostics::{diagnostics_for, to_publish, Findings};
use crate::error::{DirectoryError, DocumentError, LanguageServerError};
use crate::path::{
    components_of, law_parent_of_child, parent_of, PathView, ProjectPath,
};
use crate::session_cache::{CacheView, LruSessionCache, SessionId};
use crate::task_queue::TaskQueue;
use crate::uri::DocumentUri;
use crate::worker::{
    going_on, is_compiling_during, law_compilation_status, law_status_when_notifying,
    law_terminate_ends_worker, next_step, steps_for, Outcomes, WorkerAction, WorkerEvent,
    WorkerStage,
};
use lsp_types::Diagnostic;
use vstd::prelude::*;

verus! {

pub const DEFAULT_SESSION_CACHE_CAPACITY: usize = 4;

/// `ServerState` is the primary mutable state of the language server.
pub struct ServerState<C> {
    /// Where diagnostics are published, once there is a client.
    pub client: Option<C>,
    pub config: Config,
    /// A Least Recently Used (LRU) cache of sessions, each representing a project opened in the
    /// user's workspace. This cache limits memory usage by maintaining a fixed number of active
    /// sessions, automatically evicting the least recently used sessions when the capacity is
    /// reached.
    pub sessions: LruSessionCache,
    /// The messages that wait for the compilation worker.
    pub tasks: TaskQueue,
    /// What the compilation worker and the rest of the server tell each other.
    pub status: CompilationStatus,
}

/// What to do next about a wait for compilations to finish.
#[derive(Clone, Copy, Debug, PartialEq, Eq, Structural)]
pub enum WaitAction {
    /// Nothing is left to wait for.
    Proceed,
    /// Wait to be notified, then ask again.
    AwaitNotification,
}

/// Diagnostics on their way to the client. They replace those that were published before.
#[derive(Debug)]
pub struct Publication {
    /// The document that they are published for.
    pub uri: DocumentUri,
    pub diagnostics: Vec<Diagnostic>,
}

/// What was found for a document.
#[derive(Debug)]
pub enum SessionLookup {
    /// The session of the document's project.
    Cached(SessionId),
    /// The project has no session yet. Its directory is this one.
    NeedsInit(ProjectPath),
}

/// The status of a server that has not compiled anything.
pub open spec fn initial_status() -> CompilationStatus {
    CompilationStatus {
        is_compiling: false,
        retrigger_compilation: false,
        last_compilation_state: LastCompilationState::Uninitialized,
    }
}

/// All compilations have finished: one has, none is under way and no message waits.
pub open spec fn settled(status: CompilationStatus, queue_empty: bool) -> bool {
    &&& !status.is_compiling
    &&& status.last_compilation_state != LastCompilationState::Uninitialized
    &&& queue_empty
}

/// The directory of a project, by its manifest.
pub open spec fn manifest_dir(manifest: Option<ProjectPath>) -> Option<PathView> {
    match manifest {
        Some(path) => parent_of(path@),
        None => None,
    }
}

impl<C> ServerState<C> {
    pub open spec fn wf(&self) -> bool {
        &&& self.sessions.wf()
        &&& self.tasks.wf()
    }

    /// The state of a server that has no client.
    pub fn with_config(config: Config) -> (state: ServerState<C>)
        ensures
            state.wf(),
            state.client is None,
            state.config == config,
            state.sessions@ == CacheView::empty(DEFAULT_SESSION_CACHE_CAPACITY as nat),
            state.sessions@.sessions == Map::<PathView, SessionId>::empty(),
            state.sessions@.usage_order == Seq::<PathView>::empty(),
            state.sessions@.capacity == 4,
            state.tasks@ == Seq::<TaskMessage>::empty(),
            state.status == initial_status(),
            !state.status.is_compiling,
            !state.status.retrigger_compilation,
            state.status.last_compilation_state == LastCompilationState::Uninitialized,
    {
        ServerState {
            client: None,
            config,
            sessions: LruSessionCache::new(DEFAULT_SESSION_CACHE_CAPACITY),
            tasks: TaskQueue::new(),
            status: CompilationStatus {
                is_compiling: false,
                retrigger_compilation: false,
                last_compilation_state: LastCompilationState::Uninitialized,
            },
        }
    }

    /// The state of a server for `client`.
    pub fn new(client: C, config: Config) -> (state: ServerState<C>)
        ensures
            state.wf(),
            state.client == Some(client),
            state.config == config,
            state.sessions@ == CacheView::empty(DEFAULT_SESSION_CACHE_CAPACITY as nat),
            state.sessions@.sessions == Map::<PathView, SessionId>::empty(),
            state.sessions@.usage_order == Seq::<PathView>::empty(),
            state.sessions@.capacity == 4,
            state.tasks@ == Seq::<TaskMessage>::empty(),
            state.status == initial_status(),
            !state.status.is_compiling,
            !state.status.retrigger_compilation,
            state.status.last_compilation_state == LastCompilationState::Uninitialized,
    {
        let mut state = ServerState::with_config(config);
        state.client = Some(client);
        state
    }

    /// Waits for compilations to finish: says whether to go on waiting.
    pub fn wait_for_parsing(&self) -> (action: WaitAction)
        requires
            self.wf(),
        ensures
            action == if settled(self.status, self.tasks@.len() == 0) {
                WaitAction::Proceed
            } else {
                WaitAction::AwaitNotification
            },
            self.tasks@.len() > 0 ==> action == WaitAction::AwaitNotification,
            self.status.is_compiling ==> action == WaitAction::AwaitNotification,
            self.status.last_compilation_state == LastCompilationState::Uninitialized ==> action
                == WaitAction::AwaitNotification,
            self.tasks@.len() == 0 && !self.status.is_compiling
                && self.status.last_compilation_state != LastCompilationState::Uninitialized
                ==> action == WaitAction::Proceed,
    {
        if !self.status.is_compiling && self.status.last_compilation_state
            != LastCompilationState::Uninitialized {
            // Compilation is finished; there may be pending compilation requests.
            if self.tasks.is_empty() {
                return WaitAction::Proceed;
            }
        }
        WaitAction::AwaitNotification
    }

    /// Shuts the server down: takes the messages that wait away, tells the compilation under way
    /// to give up, and leaves the compilation worker the message that ends it.
    pub fn shutdown_server(&mut self)
        requires
            old(self).wf(),
        ensures
            final(self).wf(),
            final(self).client == old(self).client,
            final(self).config == old(self).config,
            final(self).sessions == old(self).sessions,
            final(self).tasks@ == seq![TaskMessage::Terminate],
            final(self).status == (CompilationStatus {
                retrigger_compilation: true,
                ..old(self).status
            }),
    {
        // Drain pending compilation requests.
        loop
            invariant
                self.wf(),
                self.client == old(self).client,
                self.config == old(self).config,
                self.sessions == old(self).sessions,
                self.status == old(self).status,
            ensures
                self.tasks@.len() == 0,
            decreases self.tasks@.len(),
        {
            if self.tasks.try_recv().is_none() {
                break;
            }
        }
        // The compilation exits early.
        self.status.retrigger_compilation = true;
        self.tasks.send(TaskMessage::Terminate);
        assert(self.tasks@ =~= seq![TaskMessage::Terminate]);
    }

    /// The diagnostics to publish for a document.
    pub fn diagnostics(&self, uri: &DocumentUri, findings: &Findings) -> (diagnostics: Vec<
        Diagnostic,
    >)
        ensures
            diagnostics@ == to_publish(*findings, components_of(uri.path_view()), self.config),
    {
        let path = ProjectPath::parse(uri.path());
        diagnostics_for(findings, &path, &self.config)
    }

    /// What to send to the client for a document: nothing without a client. Even where there is
    /// no diagnostic to publish, the empty list is sent, which clears former diagnostics.
    pub fn publish_diagnostics(
        &self,
        uri: &DocumentUri,
        workspace_uri: &DocumentUri,
        findings: &Findings,
    ) -> (publication: Option<Publication>)
        ensures
            publication is Some <==> self.client is Some,
            publication matches Some(sent) ==> sent.uri == *workspace_uri && sent.diagnostics@
                == to_publish(*findings, components_of(uri.path_view()), self.config),
    {
        let diagnostics = self.diagnostics(uri, findings);
        if self.client.is_some() {
            Some(Publication { uri: workspace_uri.clone(), diagnostics })
        } else {
            None
        }
    }

    /// Looks for the session of the project that a document belongs to. `manifest` is the path of
    /// the project's manifest, where one was found for the document.
    pub fn url_to_session(&mut self, uri: &DocumentUri, manifest: Option<ProjectPath>) -> (found:
        Result<SessionLookup, LanguageServerError>)
        requires
            old(self).wf(),
        ensures
            final(self).wf(),
            final(self).client == old(self).client,
            final(self).config == old(self).config,
            final(self).tasks@ == old(self).tasks@,
            final(self).status == old(self).status,
            match manifest_dir(manifest) {
                Some(dir) => {
                    &&& final(self).sessions@ == old(self).sessions@.after_get(dir)
                    &&& match old(self).sessions@.sessions.get(dir) {
                        Some(session) => found == Ok::<_, LanguageServerError>(
                            SessionLookup::Cached(session),
                        ),
                        None => found matches Ok(SessionLookup::NeedsInit(missing)) && missing@
                            == dir,
                    }
                },
                None => {
                    &&& final(self).sessions@ == old(self).sessions@
                    &&& if manifest is Some {
                        found == Err::<SessionLookup, _>(
                            LanguageServerError::DirectoryError(
                                DirectoryError::ManifestDirNotFound,
                            ),
                        )
                    } else {
                        found matches Err(LanguageServerError::DocumentError(
                            DocumentError::ManifestFileNotFound { dir },
                        )) && dir@ == uri.path_view()
                    }
                },
            },
            manifest matches Some(path) ==> if path@.len() > 0 && path@.last() != seq!['/'] {
                match old(self).sessions@.sessions.get(path@.drop_last()) {
                    Some(session) => found == Ok::<_, LanguageServerError>(
                        SessionLookup::Cached(session),
                    ),
                    None => found matches Ok(SessionLookup::NeedsInit(dir)) && dir@
                        == path@.drop_last(),
                }
            } else {
                found matches Err(LanguageServerError::DirectoryError(_))
            },
    {
        match manifest {
            Some(path) => match path.parent() {
                // Without the name of the manifest the path is that of its directory.
                Some(manifest_dir) => match self.sessions.get(&manifest_dir) {
                    Some(session) => Ok(SessionLookup::Cached(session)),
                    None => Ok(SessionLookup::NeedsInit(manifest_dir)),
                },
                None => Err(
                    LanguageServerError::DirectoryError(DirectoryError::ManifestDirNotFound),
                ),
            },
            None => Err(
                LanguageServerError::DocumentError(
                    DocumentError::ManifestFileNotFound { dir: uri.path().to_owned() },
                ),
            ),
        }
    }

    /// Caches a new session. `init` is what its initialization gave: the name of the project, or
    /// why there is none.
    pub fn init_session<E>(
        &mut self,
        init: Result<ProjectPath, E>,
        session: SessionId,
    ) -> (cached: Result<(), E>)
        requires
            old(self).wf(),
        ensures
            final(self).wf(),
            final(self).client == old(self).client,
            final(self).config == old(self).config,
            final(self).tasks@ == old(self).tasks@,
            final(self).status == old(self).status,
            match init {
                Ok(project_name) => {
                    &&& cached is Ok
                    &&& final(self).sessions@ == old(self).sessions@.after_insert(
                        project_name@,
                        session,
                    )
                },
                Err(error) => {
                    &&& cached == Err::<(), E>(error)
                    &&& final(self).sessions@ == old(self).sessions@
                },
            },
    {
        match init {
            Ok(project_name) => {
                self.sessions.insert(project_name, session);
                Ok(())
            },
            Err(error) => Err(error),
        }
    }

    /// Caches a new session for the project in `manifest_dir`, which had none, and looks for the
    /// session of that project again. There is none where the session was initialized for a
    /// project of another name, nor in a cache without capacity.
    pub fn session_after_init<E>(
        &mut self,
        manifest_dir: &ProjectPath,
        init: Result<ProjectPath, E>,
        session: SessionId,
    ) -> (found: Result<Option<SessionId>, E>)
        requires
            old(self).wf(),
        ensures
            final(self).wf(),
            final(self).client == old(self).client,
            final(self).config == old(self).config,
            final(self).tasks@ == old(self).tasks@,
            final(self).status == old(self).status,
            match init {
                Ok(project_name) => {
                    let cache = old(self).sessions@.after_insert(project_name@, session);
                    &&& found == Ok::<_, E>(cache.sessions.get(manifest_dir@))
                    &&& final(self).sessions@ == cache.after_get(manifest_dir@)
                },
                Err(error) => {
                    &&& found == Err::<Option<SessionId>, E>(error)
                    &&& final(self).sessions@ == old(self).sessions@
                },
            },
    {
        match self.init_session(init, session) {
            Ok(()) => Ok(self.sessions.get(manifest_dir)),
            Err(error) => Err(error),
        }
    }
}

/// The directory of a project is the path of its manifest without its last component, and with all
/// others. A manifest that is the root, or has an empty path, has none.
pub proof fn law_manifest_dir_drops_one_component(manifest: ProjectPath)
    ensures
        manifest@.len() > 0 && manifest@.last() != seq!['/'] ==> manifest_dir(Some(manifest))
            == Some(manifest@.drop_last()),
        manifest@.len() == 0 || manifest@.last() == seq!['/'] ==> manifest_dir(
            Some(manifest),
        ) is None,
        manifest_dir(None) is None,
{
}

/// The directory of a project whose manifest is written as a directory, a slash and a name is the
/// directory that is written there.
pub proof fn law_manifest_dir_is_as_written(
    manifest: ProjectPath,
    directory: Seq<char>,
    name: Seq<char>,
)
    requires
        directory.len() > 0,
        name.len() > 0,
        name != seq!['.'],
        !name.contains('/'),
        manifest@ == components_of(directory.push('/') + name),
    ensures
        manifest_dir(Some(manifest)) == Some(components_of(directory)),
{
    law_parent_of_child(directory, name);
}

/// Nothing goes on while a message waits, while a compilation is under way or before one has
/// ended, whatever else holds. Where none of these holds, nothing is waited for, however the last
/// compilation ended and whether it was told to give up or not.
pub proof fn law_what_is_waited_for(status: CompilationStatus, queue_empty: bool)
    ensures
        !settled(status, false),
        status.is_compiling ==> !settled(status, queue_empty),
        status.last_compilation_state == LastCompilationState::Uninitialized ==> !settled(
            status,
            queue_empty,
        ),
        !status.is_compiling && status.last_compilation_state
            != LastCompilationState::Uninitialized ==> settled(status, true),
{
}

/// A project whose session was just initialized has a session in a cache with capacity, it is the
/// new one unless the project had one already, and the next lookup finds the same one.
pub proof fn law_initialized_session_is_found(
    cache: CacheView,
    manifest_dir: PathView,
    session: SessionId,
)
    requires
        cache.capacity >= 1 || cache.sessions.contains_key(manifest_dir),
    ensures
        ({
            let initialized = cache.after_insert(manifest_dir, session);
            let found = initialized.sessions.get(manifest_dir);
            &&& found == Some(
                match cache.sessions.get(manifest_dir) {
                    Some(cached) => cached,
                    None => session,
                },
            )
            &&& initialized.after_get(manifest_dir).sessions.get(manifest_dir) == found
        }),
{
}

/// Nothing that waits for compilations to finish goes on before one has finished, nor while one
/// is under way. What is woken after a compilation, with no message left, goes on.
pub proof fn law_waiting(
    context: CompilationContext,
    status: CompilationStatus,
    outcomes: Outcomes,
    i: int,
    queue_empty: bool,
)
    requires
        context.complete(),
        !status.is_compiling,
        0 <= i < steps_for(context, status, outcomes).len(),
    ensures
        !settled(initial_status(), queue_empty),
        ({
            let step = steps_for(context, status, outcomes)[i];
            &&& is_compiling_during(step.action) ==> !settled(step.status, queue_empty)
            &&& step.action is NotifyWaiters ==> settled(step.status, true)
        }),
        settled(steps_for(context, status, outcomes).last().status, true),
{
    law_compilation_status(context, status, outcomes, i);
    if steps_for(context, status, outcomes)[i].action is NotifyWaiters {
        law_status_when_notifying(context, status, outcomes, i);
    }
}

/// After a shutdown the next message that the compilation worker gets is the one that ends it.
pub proof fn law_shutdown_ends_worker(tasks: Seq<TaskMessage>, status: CompilationStatus)
    requires
        tasks == seq![TaskMessage::Terminate],
    ensures
        next_step(
            WorkerStage::Receiving,
            status,
            tasks.skip(1).len() == 0,
            WorkerEvent::Received(tasks[0]),
        ) == going_on(WorkerStage::Stopped, status, WorkerAction::Exit),
{
    law_terminate_ends_worker(status, true);
}

} // verus!
