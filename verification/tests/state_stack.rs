use state_stack::manager::EmptyStackError;
use state_stack::manager::StateManager;
use state_stack::state::GameState;
use state_stack::state::MainState;
use state_stack::state::State;

#[test]
fn it_works() {
    assert_eq!(2 + 2, 4);
}

#[test]
fn lifo_activation() {
    let mut m = StateManager::new();
    m.add_state(State::Game(GameState::new()));
    m.add_state(State::Main(MainState::new()));
    assert_eq!(m.stack_len(), 2);
    assert!(m.change_state().is_ok());
    // The most recently pushed state becomes active.
    assert_eq!(m.active_name(), Some("Main"));
    assert_eq!(m.stack_len(), 1);
}

#[test]
fn empty_stack_error_on_fresh_manager() {
    let mut m = StateManager::new();
    assert!(!m.has_active());
    assert_eq!(m.change_state(), Err(EmptyStackError));
    // The active slot is unchanged: still nothing active.
    assert!(!m.has_active());
    assert_eq!(m.active_name(), None);
}

#[test]
fn empty_stack_error_keeps_active_state() {
    let mut m = StateManager::new();
    m.add_state(State::Game(GameState::new()));
    assert!(m.change_state().is_ok());
    assert_eq!(m.active_name(), Some("Game"));
    assert_eq!(m.change_state(), Err(EmptyStackError));
    assert_eq!(m.active_name(), Some("Game"));
}

#[test]
fn wants_transition_is_edge_triggered() {
    let mut s = State::Main(MainState::with_policy(1, 0));
    s.update();
    // The policy raised the flag on the first tick; the first call consumes it.
    assert!(s.wants_transition());
    // An immediate second call, with no re-arm in between, sees it down.
    assert!(!s.wants_transition());
}

#[test]
fn update_without_active_state_is_a_successful_noop() {
    let mut m = StateManager::new();
    m.add_state(State::Game(GameState::new()));
    assert!(m.update().is_ok());
    assert!(!m.has_active());
    assert_eq!(m.stack_len(), 1);
    assert!(m.draw().is_none());
}

#[test]
fn advancing_walks_the_stack_in_reverse_push_order() {
    let mut m = StateManager::new();
    m.add_state(State::Game(GameState::new()));
    m.add_state(State::Main(MainState::new()));
    assert!(m.change_state().is_ok());
    assert_eq!(m.active_name(), Some("Main"));
    assert!(m.change_state().is_ok());
    assert_eq!(m.active_name(), Some("Game"));
    assert_eq!(m.change_state(), Err(EmptyStackError));
    assert_eq!(m.active_name(), Some("Game"));
}

#[test]
fn transition_after_exactly_one_thousand_updates() {
    let mut m = StateManager::new();
    m.add_state(State::Game(GameState::new()));
    m.add_state(State::Main(MainState::with_policy(1000, 0)));
    assert!(m.change_state().is_ok());
    for _ in 0..999 {
        assert!(m.update().is_ok());
        assert_eq!(m.active_name(), Some("Main"));
    }
    assert!(m.update().is_ok());
    assert_eq!(m.active_name(), Some("Game"));
    assert_eq!(m.stack_len(), 0);
}

#[test]
fn transition_with_empty_stack_surfaces_the_error() {
    let mut m = StateManager::new();
    m.add_state(State::Main(MainState::with_policy(1000, 0)));
    assert!(m.change_state().is_ok());
    for _ in 0..999 {
        assert!(m.update().is_ok());
    }
    assert_eq!(m.update(), Err(EmptyStackError));
    // The updated state, its request consumed, stays active.
    assert_eq!(m.active_name(), Some("Main"));
    // The next tick does not re-raise the consumed request.
    assert!(m.update().is_ok());
    assert_eq!(m.active_name(), Some("Main"));
}

#[test]
fn default_policy_triggers_on_the_eleven_hundredth_update() {
    // Default policy: the secondary counter grows every 100 ticks and the
    // flag rises once it exceeds 10, i.e. on tick 1100.
    let mut m = StateManager::new();
    m.add_state(State::Game(GameState::new()));
    m.add_state(State::Main(MainState::new()));
    assert!(m.change_state().is_ok());
    for _ in 0..1099 {
        assert!(m.update().is_ok());
        assert_eq!(m.active_name(), Some("Main"));
    }
    assert!(m.update().is_ok());
    assert_eq!(m.active_name(), Some("Game"));
}

#[test]
fn draw_never_triggers_a_transition() {
    let mut m = StateManager::new();
    m.add_state(State::Game(GameState::new()));
    m.add_state(State::Main(MainState::with_policy(1, 0)));
    assert!(m.change_state().is_ok());
    for _ in 0..50 {
        assert!(m.draw().is_some());
        assert_eq!(m.active_name(), Some("Main"));
        assert_eq!(m.stack_len(), 1);
    }
    // Only an update can raise and act on the transition request.
    assert!(m.update().is_ok());
    assert_eq!(m.active_name(), Some("Game"));
}

#[test]
fn draw_reports_text_and_frame_index() {
    let mut m = StateManager::new();
    m.add_state(State::Main(MainState::new()));
    assert!(m.change_state().is_ok());
    let c0 = m.draw().unwrap();
    assert_eq!(c0.text, "Hello world!");
    assert_eq!(c0.frame, 0);
    let c1 = m.draw().unwrap();
    assert_eq!(c1.frame, 1);

    let mut g = StateManager::new();
    g.add_state(State::Game(GameState::new()));
    assert!(g.change_state().is_ok());
    let d0 = g.draw().unwrap();
    assert_eq!(d0.text, "Game State!");
    assert_eq!(d0.frame, 0);
}

#[test]
fn game_state_is_terminal() {
    let mut s = State::Game(GameState::new());
    for _ in 0..500 {
        s.update();
        assert!(!s.wants_transition());
    }
    assert_eq!(s.get_name(), "Game");
}

#[test]
fn state_names_are_stable() {
    let m = State::Main(MainState::new());
    assert_eq!(m.get_name(), "Main");
    let g = State::Game(GameState::new());
    assert_eq!(g.get_name(), "Game");
}
