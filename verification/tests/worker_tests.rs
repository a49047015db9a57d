use std::collections::BTreeMap;
use std::path::{Path, PathBuf};
use sway_lsp_server::compilation::{
    CompilationContext, CompilationStatus, LastCompilationState, TaskMessage,
};
use sway_lsp_server::config::GarbageCollectionConfig;
use sway_lsp_server::task_queue::TaskQueue;
use sway_lsp_server::uri::DocumentUri;
use sway_lsp_server::worker::{CompilationWorker, WorkerAction, WorkerEvent};

fn gc(gc_enabled: bool, gc_frequency: i32) -> GarbageCollectionConfig {
    GarbageCollectionConfig { gc_enabled, gc_frequency }
}

fn context(version: Option<i32>, gc_options: GarbageCollectionConfig) -> CompilationContext {
    let mut file_versions = BTreeMap::new();
    file_versions.insert(PathBuf::from("/main.sw"), Some(7));
    CompilationContext {
        session: Some(42),
        uri: DocumentUri::parse("file:///main.sw"),
        version,
        optimized_build: true,
        gc_options,
        file_versions,
    }
}

fn idle() -> CompilationStatus {
    CompilationStatus {
        is_compiling: false,
        retrigger_compilation: true,
        last_compilation_state: LastCompilationState::Uninitialized,
    }
}

/// Runs one compilation and lists its actions, each with whether a compilation was under way.
fn run(
    context: CompilationContext,
    parsed: bool,
    resolved: bool,
    reused: Option<u64>,
    queue: &TaskQueue,
) -> (Vec<(String, bool)>, CompilationStatus) {
    assert!(context.is_complete());
    let mut status = idle();
    let mut actions = vec![];
    let message = WorkerEvent::Received(TaskMessage::CompilationContext(context));
    let (mut worker, mut action) = CompilationWorker::new().step(&mut status, queue, message);
    loop {
        let (name, event) = match &action {
            WorkerAction::CloneEngines { session } => {
                (format!("clone {session}"), WorkerEvent::EnginesCloned)
            }
            WorkerAction::CollectGarbage { session } => {
                (format!("collect {session}"), WorkerEvent::GarbageCollected)
            }
            WorkerAction::Parse { uri, session, lsp_mode, experimental } => {
                assert!(lsp_mode.optimized_build);
                assert_eq!(lsp_mode.file_versions.len(), 1);
                assert_eq!(lsp_mode.file_versions.get(Path::new("/main.sw")), Some(&Some(7)));
                assert!(!experimental.new_encoding);
                (format!("parse {} {session}", uri.text()), WorkerEvent::Parsed(parsed))
            }
            WorkerAction::ResolveProgram { path } => {
                (format!("resolve {}", path.display()), WorkerEvent::ProgramResolved(resolved))
            }
            WorkerAction::ReadMetrics { session } => {
                (format!("metrics {session}"), WorkerEvent::MetricsRead(reused))
            }
            WorkerAction::SwapEngines { session } => {
                (format!("swap {session}"), WorkerEvent::EnginesSwapped)
            }
            WorkerAction::NotifyWaiters => ("notify".to_string(), WorkerEvent::WaitersNotified),
            WorkerAction::Receive | WorkerAction::Exit => break,
        };
        actions.push((name, status.is_compiling));
        (worker, action) = worker.step(&mut status, queue, event);
    }
    assert!(matches!(action, WorkerAction::Receive));
    (actions, status)
}

fn names(actions: &[(String, bool)]) -> Vec<&str> {
    actions.iter().map(|(name, _)| name.as_str()).collect()
}

#[test]
fn fresh_compilation_swaps_engines() {
    let queue = TaskQueue::new();
    let (actions, status) = run(context(Some(3), gc(true, 2)), true, true, Some(0), &queue);
    assert_eq!(
        actions,
        vec![
            ("clone 42".to_string(), false),
            ("parse file:///main.sw 42".to_string(), true),
            ("resolve /main.sw".to_string(), true),
            ("metrics 42".to_string(), true),
            ("swap 42".to_string(), true),
            ("notify".to_string(), false),
        ]
    );
    assert!(!status.is_compiling);
    assert!(!status.retrigger_compilation);
    assert_eq!(status.last_compilation_state, LastCompilationState::Success);
}

#[test]
fn garbage_is_collected_before_parsing() {
    let queue = TaskQueue::new();
    let (actions, _) = run(context(Some(4), gc(true, 2)), true, true, Some(0), &queue);
    assert_eq!(
        names(&actions)[..3],
        ["clone 42", "collect 42", "parse file:///main.sw 42"]
    );
    assert!(!actions[1].1);
}

#[test]
fn reused_programs_keep_the_engines() {
    let queue = TaskQueue::new();
    for reused in [Some(1), Some(u64::MAX), None] {
        let (actions, status) = run(context(None, gc(false, 0)), true, true, reused, &queue);
        assert!(!names(&actions).contains(&"swap 42"));
        assert_eq!(status.last_compilation_state, LastCompilationState::Success);
    }
}

#[test]
fn failed_parse_ends_the_compilation() {
    let queue = TaskQueue::new();
    let (actions, status) = run(context(None, gc(false, 0)), false, true, Some(0), &queue);
    assert_eq!(names(&actions), vec!["clone 42", "parse file:///main.sw 42", "notify"]);
    assert_eq!(status.last_compilation_state, LastCompilationState::Failed);
    assert!(!status.is_compiling);
    assert!(!status.retrigger_compilation);
}

#[test]
fn missing_program_fails_the_compilation() {
    let queue = TaskQueue::new();
    let (actions, status) = run(context(None, gc(false, 0)), true, false, Some(0), &queue);
    assert_eq!(
        names(&actions),
        vec!["clone 42", "parse file:///main.sw 42", "resolve /main.sw", "notify"]
    );
    assert_eq!(status.last_compilation_state, LastCompilationState::Failed);
}

#[test]
fn waiters_sleep_while_a_message_waits() {
    let mut queue = TaskQueue::new();
    assert!(queue.send(TaskMessage::Terminate).is_none());
    let (actions, _) = run(context(None, gc(false, 0)), false, false, None, &queue);
    assert_eq!(names(&actions), vec!["clone 42", "parse file:///main.sw 42"]);
}

#[test]
fn terminate_and_disconnection_end_the_worker() {
    let queue = TaskQueue::new();
    let mut status = idle();
    let terminate = WorkerEvent::Received(TaskMessage::Terminate);
    let (_, action) = CompilationWorker::new().step(&mut status, &queue, terminate);
    assert!(matches!(action, WorkerAction::Exit));
    let (_, action) = CompilationWorker::new().step(&mut status, &queue, WorkerEvent::Disconnected);
    assert!(matches!(action, WorkerAction::Exit));
    assert_eq!(status, idle());
}

#[test]
fn garbage_collection_goes_by_version_and_frequency() {
    let due = |version, options| context(version, options).should_collect_garbage();
    assert!(due(Some(0), gc(true, 20)));
    assert!(due(Some(40), gc(true, 20)));
    assert!(!due(Some(41), gc(true, 20)));
    assert!(due(Some(-40), gc(true, 20)));
    assert!(!due(Some(-41), gc(true, 20)));
    assert!(due(Some(40), gc(true, -20)));
    assert!(due(Some(5), gc(true, 1)));
    assert!(!due(Some(40), gc(false, 20)));
    assert!(!due(Some(40), gc(false, 0)));
    assert!(!due(None, gc(true, 20)));
    assert!(!due(None, gc(true, 0)));
}

#[test]
fn garbage_collections_are_one_interval_apart() {
    for frequency in [3, -3] {
        let due: Vec<i32> = (-7..8)
            .filter(|version| context(Some(*version), gc(true, frequency)).should_collect_garbage())
            .collect();
        assert_eq!(due, vec![-6, -3, 0, 3, 6]);
    }
}

#[test]
fn the_file_of_the_document_is_resolved() {
    let queue = TaskQueue::new();
    let mut spaced = context(None, gc(false, 0));
    spaced.uri = DocumentUri::parse("file:///my%20project/main.sw");
    let (actions, _) = run(spaced, true, false, None, &queue);
    assert_eq!(
        names(&actions)[1..3],
        ["parse file:///my%20project/main.sw 42", "resolve /my project/main.sw"]
    );
}

#[test]
fn incomplete_contexts_are_told_apart() {
    assert!(context(Some(1), gc(true, 1)).is_complete());
    assert!(context(Some(1), gc(false, 0)).is_complete());
    assert!(context(None, gc(true, 0)).is_complete());
    assert!(!context(Some(1), gc(true, 0)).is_complete());
    assert!(!context(Some(i32::MIN), gc(true, -1)).is_complete());
    assert!(context(Some(i32::MIN), gc(true, 1)).is_complete());
    let mut without_uri = context(None, gc(false, 0));
    without_uri.uri = None;
    assert!(!without_uri.is_complete());
    let mut without_session = context(None, gc(false, 0));
    without_session.session = None;
    assert!(!without_session.is_complete());
}

#[test]
fn a_new_context_is_empty() {
    let context = CompilationContext::new(gc(true, 20));
    assert!(context.session.is_none());
    assert!(context.uri.is_none());
    assert!(context.version.is_none());
    assert!(!context.optimized_build);
    assert_eq!(context.gc_options, gc(true, 20));
    assert!(context.file_versions.is_empty());
    assert!(!context.is_complete());
}

#[test]
fn the_queue_has_room_for_one_message() {
    let mut queue = TaskQueue::new();
    assert!(queue.is_empty());
    assert!(queue.try_recv().is_none());
    let first = TaskMessage::CompilationContext(context(Some(8), gc(false, 0)));
    assert!(queue.send(first).is_none());
    assert!(!queue.is_empty());
    assert!(matches!(queue.send(TaskMessage::Terminate), Some(TaskMessage::Terminate)));
    match queue.try_recv() {
        Some(TaskMessage::CompilationContext(received)) => assert_eq!(received.version, Some(8)),
        _ => panic!("the first message was expected"),
    }
    assert!(queue.is_empty());
    assert!(queue.send(TaskMessage::Terminate).is_none());
}
