use lsp_types::{Diagnostic, Position, Range};
use sway_lsp_server::compilation::{CompilationContext, LastCompilationState, TaskMessage};
use sway_lsp_server::config::{
    Config, DebugConfig, DiagnosticConfig, GarbageCollectionConfig, Warnings,
};
use sway_lsp_server::diagnostics::{diagnostics_for, Diagnostics, Findings};
use sway_lsp_server::error::{DirectoryError, DocumentError, LanguageServerError};
use sway_lsp_server::heartbeat::{client_heartbeat, HeartbeatAction};
use sway_lsp_server::path::ProjectPath;
use sway_lsp_server::server_state::{ServerState, SessionLookup, WaitAction};
use sway_lsp_server::uri::DocumentUri;
use sway_lsp_server::worker::{CompilationWorker, WorkerAction, WorkerEvent};

fn config(tokens: Warnings, show_warnings: bool, show_errors: bool) -> Config {
    Config {
        debug: DebugConfig { show_collected_tokens_as_warnings: tokens },
        diagnostic: DiagnosticConfig { show_warnings, show_errors },
    }
}

fn server() -> ServerState<&'static str> {
    ServerState::new("client", config(Warnings::Default, true, true))
}

fn uri(text: &str) -> DocumentUri {
    DocumentUri::parse(text).unwrap()
}

fn diagnostic(message: &str) -> Diagnostic {
    let range = Range::new(Position::new(1, 2), Position::new(3, 4));
    Diagnostic::new_simple(range, message.to_string())
}

fn messages(diagnostics: &[Diagnostic]) -> Vec<&str> {
    diagnostics.iter().map(|diagnostic| diagnostic.message.as_str()).collect()
}

fn findings() -> Findings {
    let report = |name: &str| Diagnostics {
        warnings: vec![diagnostic(&format!("{name} w1")), diagnostic(&format!("{name} w2"))],
        errors: vec![diagnostic(&format!("{name} e1"))],
    };
    Findings {
        parsed_tokens: vec![diagnostic("parsed")],
        typed_tokens: vec![diagnostic("typed 1"), diagnostic("typed 2")],
        reports: vec![
            (ProjectPath::parse("/project/src/lib.sw"), report("lib")),
            (ProjectPath::parse("/project/src/main.sw"), report("main")),
        ],
    }
}

#[test]
fn a_new_server_has_done_nothing() {
    let state = server();
    assert_eq!(state.client, Some("client"));
    assert!(state.sessions.iter().is_empty());
    assert!(state.tasks.is_empty());
    assert!(!state.status.is_compiling);
    assert!(!state.status.retrigger_compilation);
    assert_eq!(state.status.last_compilation_state, LastCompilationState::Uninitialized);
    let detached: ServerState<u8> = ServerState::with_config(state.config);
    assert_eq!(detached.client, None);
    assert_eq!(detached.config, state.config);
}

#[test]
fn the_session_cache_holds_four() {
    let mut state = server();
    for number in 0..5u64 {
        state.sessions.insert(ProjectPath::parse(&format!("/project/{number}")), number);
    }
    assert_eq!(state.sessions.iter().len(), 4);
    assert_eq!(state.sessions.get(&ProjectPath::parse("/project/0")), None);
}

#[test]
fn waiting_lasts_until_all_compilations_have_finished() {
    let mut state = server();
    assert_eq!(state.wait_for_parsing(), WaitAction::AwaitNotification);
    state.status.last_compilation_state = LastCompilationState::Failed;
    assert_eq!(state.wait_for_parsing(), WaitAction::Proceed);
    state.status.last_compilation_state = LastCompilationState::Success;
    assert_eq!(state.wait_for_parsing(), WaitAction::Proceed);
    state.status.is_compiling = true;
    assert_eq!(state.wait_for_parsing(), WaitAction::AwaitNotification);
    state.status.is_compiling = false;
    assert!(state.tasks.send(TaskMessage::Terminate).is_none());
    assert_eq!(state.wait_for_parsing(), WaitAction::AwaitNotification);
}

#[test]
fn woken_waiters_go_on() {
    let mut state = server();
    let gc = GarbageCollectionConfig { gc_enabled: true, gc_frequency: 2 };
    let mut context = CompilationContext::new(gc);
    context.session = Some(3);
    context.uri = Some(uri("file:///project/src/main.sw"));
    context.version = Some(6);
    assert!(state.tasks.send(TaskMessage::CompilationContext(context)).is_none());
    assert_eq!(state.wait_for_parsing(), WaitAction::AwaitNotification);

    let mut worker = CompilationWorker::new();
    let mut event = WorkerEvent::Received(state.tasks.try_recv().unwrap());
    loop {
        let (next, action) = worker.step(&mut state.status, &state.tasks, event);
        worker = next;
        event = match action {
            WorkerAction::CloneEngines { .. } => WorkerEvent::EnginesCloned,
            WorkerAction::CollectGarbage { .. } => WorkerEvent::GarbageCollected,
            WorkerAction::Parse { .. } => WorkerEvent::Parsed(true),
            WorkerAction::ResolveProgram { .. } => WorkerEvent::ProgramResolved(true),
            WorkerAction::ReadMetrics { .. } => WorkerEvent::MetricsRead(Some(0)),
            WorkerAction::SwapEngines { .. } => WorkerEvent::EnginesSwapped,
            WorkerAction::NotifyWaiters => break,
            WorkerAction::Receive | WorkerAction::Exit => panic!("nobody was woken"),
        };
        assert_eq!(state.wait_for_parsing(), WaitAction::AwaitNotification);
    }
    assert_eq!(state.wait_for_parsing(), WaitAction::Proceed);
}

#[test]
fn the_worker_ends_after_shutdown() {
    let mut state = server();
    state.shutdown_server();
    let message = state.tasks.try_recv().unwrap();
    let before = state.status;
    let (_, action) = CompilationWorker::new().step(
        &mut state.status,
        &state.tasks,
        WorkerEvent::Received(message),
    );
    assert!(matches!(action, WorkerAction::Exit));
    assert_eq!(state.status, before);
}

#[test]
fn shutdown_drains_the_queue_and_ends_the_worker() {
    let mut state = server();
    let gc = GarbageCollectionConfig { gc_enabled: false, gc_frequency: 1 };
    let pending = TaskMessage::CompilationContext(CompilationContext::new(gc));
    assert!(state.tasks.send(pending).is_none());
    state.status.is_compiling = true;
    state.shutdown_server();
    assert!(state.status.retrigger_compilation);
    assert!(state.status.is_compiling);
    assert!(matches!(state.tasks.try_recv(), Some(TaskMessage::Terminate)));
    assert!(state.tasks.try_recv().is_none());
}

#[test]
fn shutdown_keeps_the_sessions() {
    let mut state = server();
    state.sessions.insert(ProjectPath::parse("/project"), 5);
    state.shutdown_server();
    assert_eq!(state.sessions.get(&ProjectPath::parse("/project")), Some(5));
}

#[test]
fn diagnostics_of_the_file_are_shown() {
    let state = server();
    let document = uri("file:///project/src/main.sw");
    let shown = state.diagnostics(&document, &findings());
    assert_eq!(messages(&shown), vec!["main w1", "main w2", "main e1"]);
    assert_eq!(shown[0], diagnostic("main w1"));
}

#[test]
fn warnings_and_errors_can_be_switched_off() {
    let path = ProjectPath::parse("/project/src/main.sw");
    let shown = |warnings, errors| {
        let config = config(Warnings::Default, warnings, errors);
        let diagnostics = diagnostics_for(&findings(), &path, &config);
        messages(&diagnostics).join(",")
    };
    assert_eq!(shown(true, false), "main w1,main w2");
    assert_eq!(shown(false, true), "main e1");
    assert_eq!(shown(false, false), "");
}

#[test]
fn tokens_take_over_the_display() {
    let path = ProjectPath::parse("/project/src/main.sw");
    let parsed = diagnostics_for(&findings(), &path, &config(Warnings::Parsed, true, true));
    assert_eq!(messages(&parsed), vec!["parsed"]);
    let typed = diagnostics_for(&findings(), &path, &config(Warnings::Typed, false, false));
    assert_eq!(messages(&typed), vec!["typed 1", "typed 2"]);
}

#[test]
fn a_file_without_report_has_no_diagnostics() {
    let state = server();
    assert!(state.diagnostics(&uri("file:///project/src/other.sw"), &findings()).is_empty());
}

#[test]
fn the_path_of_a_report_is_the_encoded_path_of_the_url() {
    let state = server();
    let mut found = findings();
    found.reports[0].0 = ProjectPath::parse("/my%20project/lib.sw");
    let shown = state.diagnostics(&uri("file:///my project/lib.sw"), &found);
    assert_eq!(messages(&shown), vec!["lib w1", "lib w2", "lib e1"]);
}

#[test]
fn publication_goes_to_the_workspace_document() {
    let state = server();
    let publication = state
        .publish_diagnostics(
            &uri("file:///project/src/lib.sw"),
            &uri("file:///workspace/src/lib.sw"),
            &findings(),
        )
        .unwrap();
    assert_eq!(publication.uri.text(), "file:///workspace/src/lib.sw");
    assert_eq!(messages(&publication.diagnostics), vec!["lib w1", "lib w2", "lib e1"]);
}

#[test]
fn an_empty_list_is_published_too() {
    let state = server();
    let document = uri("file:///project/src/other.sw");
    let publication = state.publish_diagnostics(&document, &document, &findings()).unwrap();
    assert!(publication.diagnostics.is_empty());
}

#[test]
fn nothing_is_published_without_client() {
    let state: ServerState<u8> = ServerState::with_config(config(Warnings::Default, true, true));
    let document = uri("file:///project/src/lib.sw");
    assert!(state.publish_diagnostics(&document, &document, &findings()).is_none());
}

#[test]
fn lookup_without_manifest_names_the_directory() {
    let mut state = server();
    match state.url_to_session(&uri("file:///project/src/main.sw"), None) {
        Err(LanguageServerError::DocumentError(DocumentError::ManifestFileNotFound { dir })) => {
            assert_eq!(dir, "/project/src/main.sw")
        }
        other => panic!("unexpected {other:?}"),
    }
}

#[test]
fn lookup_without_manifest_directory_fails() {
    let mut state = server();
    let found = state.url_to_session(&uri("file:///main.sw"), Some(ProjectPath::parse("/")));
    assert!(matches!(
        found,
        Err(LanguageServerError::DirectoryError(DirectoryError::ManifestDirNotFound))
    ));
}

#[test]
fn a_project_is_initialized_once() {
    let mut state = server();
    let document = uri("file:///project/src/main.sw");
    let manifest = ProjectPath::parse("/project/Forc.toml");
    let dir = match state.url_to_session(&document, Some(manifest.clone())) {
        Ok(SessionLookup::NeedsInit(dir)) => dir,
        other => panic!("unexpected {other:?}"),
    };
    assert!(dir.same(&ProjectPath::parse("/project")));
    let found = state.session_after_init::<String>(&dir, Ok(dir.clone()), 77);
    assert_eq!(found, Ok(Some(77)));
    match state.url_to_session(&document, Some(manifest)) {
        Ok(SessionLookup::Cached(session)) => assert_eq!(session, 77),
        other => panic!("unexpected {other:?}"),
    }
}

#[test]
fn failed_initialization_is_handed_on() {
    let mut state = server();
    let dir = ProjectPath::parse("/project");
    let found = state.session_after_init(&dir, Err("no project".to_string()), 77);
    assert_eq!(found, Err("no project".to_string()));
    assert_eq!(state.init_session(Err("no name"), 78), Err("no name"));
    assert!(state.sessions.iter().is_empty());
}

#[test]
fn a_project_of_another_name_is_not_found() {
    let mut state = server();
    let dir = ProjectPath::parse("/project");
    let other = ProjectPath::parse("/other");
    assert_eq!(state.session_after_init::<String>(&dir, Ok(other.clone()), 77), Ok(None));
    assert_eq!(state.sessions.get(&other), Some(77));
}

#[test]
fn a_session_cached_meanwhile_is_kept() {
    let mut state = server();
    let dir = ProjectPath::parse("/project");
    assert_eq!(state.init_session::<String>(Ok(dir.clone()), 1), Ok(()));
    assert_eq!(state.session_after_init::<String>(&dir, Ok(dir.clone()), 2), Ok(Some(1)));
}

#[test]
fn a_listed_client_keeps_the_server_running() {
    let listing = b"    PID TTY          TIME CMD\n   4321 pts/0    00:00:07 code\n";
    assert_eq!(client_heartbeat(listing, 4321), HeartbeatAction::LookAgainAfter(60));
    assert_eq!(client_heartbeat(listing, 321), HeartbeatAction::LookAgainAfter(60));
    assert_eq!(client_heartbeat(listing, 432), HeartbeatAction::Exit);
    assert_eq!(client_heartbeat(listing, 43210), HeartbeatAction::Exit);
}

#[test]
fn an_unlisted_client_ends_the_server() {
    let header = b"    PID TTY          TIME CMD\n";
    assert_eq!(client_heartbeat(header, 4321), HeartbeatAction::Exit);
    assert_eq!(client_heartbeat(b"", 0), HeartbeatAction::Exit);
    assert_eq!(client_heartbeat(b"0", 0), HeartbeatAction::Exit);
    assert_eq!(client_heartbeat(b"0 ", 0), HeartbeatAction::LookAgainAfter(60));
    assert_eq!(client_heartbeat(b"10 20 30 ", 20), HeartbeatAction::LookAgainAfter(60));
}

#[test]
fn the_heartbeat_reads_any_bytes() {
    let listing = [0xff, 0xfe, b'1', b'8', b'4', b'4', b'6', b'7', b'4', b' ', 0xc3];
    assert_eq!(client_heartbeat(&listing, 1844674), HeartbeatAction::LookAgainAfter(60));
    assert_eq!(client_heartbeat(&listing, usize::MAX), HeartbeatAction::Exit);
    let text = String::from_utf8_lossy(&listing);
    assert!(text.contains("1844674 "));
}
