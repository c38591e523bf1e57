use windowing::{
    end_application, AppState, Instruction, InstructionQueue, NativeEnv, Outcome, Phase, Window,
    WindowError, WindowMode, WindowRegistry,
};

fn env_ok() -> NativeEnv {
    NativeEnv { monitor_available: true, window_creation_succeeds: true }
}

fn running_app() -> AppState {
    let mut app = AppState::new();
    app.start();
    app
}

#[test]
fn resolve_mode_table() {
    assert_eq!(windowing::resolve_mode(false, false), WindowMode::Windowed);
    assert_eq!(windowing::resolve_mode(false, true), WindowMode::Windowed);
    assert_eq!(windowing::resolve_mode(true, false), WindowMode::Windowed);
    assert_eq!(windowing::resolve_mode(true, true), WindowMode::FullScreen);
}

#[test]
fn fullscreen_without_monitor_falls_back() {
    let mut app = running_app();
    let env = NativeEnv { monitor_available: false, window_creation_succeeds: true };
    let id = app.create_window(640, 480, "fallback", true, env).unwrap();
    assert_eq!(id, 0);
    let record = app.window(id).unwrap();
    assert_eq!(record.mode, WindowMode::Windowed);
    assert_eq!(record.width, 640);
    assert_eq!(record.height, 480);
}

#[test]
fn fullscreen_with_monitor_is_honoured() {
    let mut app = running_app();
    let id = app.create_window(640, 480, "full", true, env_ok()).unwrap();
    assert_eq!(app.window(id).unwrap().mode, WindowMode::FullScreen);
}

#[test]
fn hello_world_lifecycle() {
    let mut app = running_app();
    let window = Window::new(&mut app, 500, 500, "Hello World", false, env_ok()).unwrap();
    assert_eq!(window.id(), 0);
    assert_eq!(app.window_count(), 1);
    let record = app.window(window.id()).unwrap();
    assert_eq!(record.width, 500);
    assert_eq!(record.height, 500);
    assert_eq!(record.title, "Hello World");
    assert_eq!(record.mode, WindowMode::Windowed);
    window.kill(&mut app);
    assert_eq!(app.queue_len(), 1);
    let (running, outcomes) = app.loop_cycle(env_ok());
    assert!(running);
    assert_eq!(outcomes, vec![Outcome::Destroyed { id: 0 }]);
    end_application(&mut app);
    assert_eq!(app.phase(), Phase::Stopping);
    let (running, outcomes) = app.loop_cycle(env_ok());
    assert!(!running);
    assert!(outcomes.is_empty());
    assert_eq!(app.phase(), Phase::Terminated);
    assert_eq!(app.window_count(), 0);
}

#[test]
fn two_windows_distinct_ids() {
    let mut app = running_app();
    let first = app.create_window(100, 100, "first", false, env_ok()).unwrap();
    let second = app.create_window(200, 200, "second", false, env_ok()).unwrap();
    assert_eq!(first, 0);
    assert_eq!(second, 1);
    assert_ne!(first, second);
    assert!(app.has_window(first));
    assert!(app.has_window(second));
    assert_eq!(app.window_count(), 2);
}

#[test]
fn destroy_twice_is_noop() {
    let mut app = running_app();
    let id = app.create_window(10, 10, "gone", false, env_ok()).unwrap();
    app.destroy_window(id);
    app.destroy_window(id);
    let (_, outcomes) = app.loop_cycle(env_ok());
    assert_eq!(
        outcomes,
        vec![Outcome::Destroyed { id }, Outcome::Destroyed { id }],
    );
    assert_eq!(app.window_count(), 0);
    app.destroy_window(id);
    let (_, outcomes) = app.loop_cycle(env_ok());
    assert_eq!(outcomes, vec![Outcome::Destroyed { id }]);
    assert_eq!(app.window_count(), 0);
}

#[test]
fn single_thread_order_is_preserved() {
    let mut app = running_app();
    let id = app.create_window(10, 10, "target", false, env_ok()).unwrap();
    app.use_window(id, 1);
    app.use_window(id, 2);
    app.use_window(id, 3);
    let (_, outcomes) = app.loop_cycle(env_ok());
    assert_eq!(
        outcomes,
        vec![
            Outcome::Used { id, action: 1 },
            Outcome::Used { id, action: 2 },
            Outcome::Used { id, action: 3 },
        ],
    );
}

#[test]
fn live_count_settles() {
    let mut app = running_app();
    let a = app.create_window(1, 1, "a", false, env_ok()).unwrap();
    let b = app.create_window(2, 2, "b", false, env_ok()).unwrap();
    let c = app.create_window(3, 3, "c", false, env_ok()).unwrap();
    assert_eq!((a, b, c), (0, 1, 2));
    app.destroy_window(b);
    app.destroy_window(77);
    app.loop_cycle(env_ok());
    // three creates, one destroy of an existing id: 3 - 1 live entries
    assert_eq!(app.window_count(), 2);
    assert!(app.has_window(a));
    assert!(!app.has_window(b));
    assert!(app.has_window(c));
}

#[test]
fn creation_failure_is_returned() {
    let mut app = running_app();
    let env = NativeEnv { monitor_available: true, window_creation_succeeds: false };
    let result = app.create_window(10, 10, "nope", false, env);
    assert_eq!(result, Err(WindowError::NativeWindowCreationFailure));
    assert_eq!(app.window_count(), 0);
    // the counter did not move: the next successful creation takes id 0
    let id = app.create_window(10, 10, "yes", false, env_ok()).unwrap();
    assert_eq!(id, 0);
}

#[test]
fn unknown_window_surfaces_on_lookup() {
    let app = running_app();
    assert_eq!(app.window(99).err(), Some(WindowError::UnknownWindow));
}

#[test]
fn stale_identifier_is_reported_missing() {
    let mut app = running_app();
    let id = app.create_window(10, 10, "brief", false, env_ok()).unwrap();
    app.destroy_window(id);
    app.use_window(id, 9);
    let (_, outcomes) = app.loop_cycle(env_ok());
    assert_eq!(
        outcomes,
        vec![Outcome::Destroyed { id }, Outcome::Missing { id, action: 9 }],
    );
}

#[test]
fn queue_is_fifo() {
    let mut queue = InstructionQueue::new();
    assert!(queue.is_empty());
    queue.enqueue(Instruction::DestroyWindow { id: 1 });
    queue.enqueue(Instruction::UseWindow { id: 2, action: 5 });
    queue.enqueue(Instruction::DestroyWindow { id: 3 });
    assert_eq!(queue.len(), 3);
    assert!(matches!(queue.dequeue(), Some(Instruction::DestroyWindow { id: 1 })));
    assert!(matches!(
        queue.dequeue(),
        Some(Instruction::UseWindow { id: 2, action: 5 })
    ));
    assert!(matches!(queue.dequeue(), Some(Instruction::DestroyWindow { id: 3 })));
    assert!(queue.dequeue().is_none());
    assert!(queue.is_empty());
}

#[test]
fn registry_allocates_monotone_ids() {
    let mut registry = WindowRegistry::new();
    assert_eq!(registry.next_id(), 0);
    let a = registry.insert(windowing::WindowRecord {
        width: 1,
        height: 2,
        title: String::from("a"),
        mode: WindowMode::Windowed,
    });
    let b = registry.insert(windowing::WindowRecord {
        width: 3,
        height: 4,
        title: String::from("b"),
        mode: WindowMode::FullScreen,
    });
    assert_eq!((a, b), (0, 1));
    assert_eq!(registry.len(), 2);
    assert!(registry.contains(a));
    assert_eq!(registry.get(a).unwrap().title, "a");
    registry.remove(a);
    assert!(!registry.contains(a));
    assert_eq!(registry.get(a).err(), Some(WindowError::UnknownWindow));
    // removal never recycles identifiers
    assert_eq!(registry.next_id(), 2);
    registry.remove(a);
    assert_eq!(registry.len(), 1);
    registry.clear();
    assert_eq!(registry.len(), 0);
    assert_eq!(registry.next_id(), 2);
}

#[test]
fn shutdown_is_cooperative() {
    let mut app = AppState::new();
    assert_eq!(app.phase(), Phase::NotStarted);
    assert!(app.is_running());
    app.start();
    assert_eq!(app.phase(), Phase::Running);
    end_application(&mut app);
    assert!(!app.is_running());
    assert_eq!(app.phase(), Phase::Stopping);
    // requests issued after shutdown stay queued and never execute
    app.destroy_window(0);
    let (running, outcomes) = app.loop_cycle(env_ok());
    assert!(!running);
    assert!(outcomes.is_empty());
    assert_eq!(app.queue_len(), 1);
    assert_eq!(app.phase(), Phase::Terminated);
}

#[test]
fn shutdown_before_start_keeps_phase() {
    let mut app = AppState::new();
    end_application(&mut app);
    assert!(!app.is_running());
    assert_eq!(app.phase(), Phase::NotStarted);
}

#[test]
fn teardown_destroys_remaining_windows() {
    let mut app = running_app();
    app.create_window(5, 5, "left over", false, env_ok()).unwrap();
    assert_eq!(app.window_count(), 1);
    end_application(&mut app);
    app.loop_cycle(env_ok());
    assert_eq!(app.phase(), Phase::Terminated);
    assert_eq!(app.window_count(), 0);
}

#[test]
fn window_handle_names_its_entry() {
    let mut app = running_app();
    let window = Window::new(&mut app, 30, 40, "mine", false, env_ok()).unwrap();
    assert!(app.has_window(window.id()));
    let copy = window;
    assert_eq!(copy.id(), window.id());
    window.kill(&mut app);
    assert_eq!(app.queue_len(), 1);
    app.loop_cycle(env_ok());
    assert!(!app.has_window(copy.id()));
}
