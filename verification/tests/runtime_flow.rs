use simple_terminal_app::io_actor::{io_step, IoAction};
use simple_terminal_app::key::Key;
use simple_terminal_app::message::Command;
use simple_terminal_app::runtime::{Outcome, Runtime};
use simple_terminal_app::scene::Scene;
use simple_terminal_app::state::State;
use simple_terminal_app::Point;

/// A two-scene application: the main scene writes markers for each hook,
/// stops on escape, and hands over to the quit scene on 'q'.
enum Flow {
    Main,
    Quit,
}

impl Scene for Flow {
    fn init(&mut self, state: &mut State<Flow>) {
        let marker = match self {
            Flow::Main => "main-init",
            Flow::Quit => "quit-init",
        };
        let b = state.command();
        let b = b.append(&marker.to_string());
        b.execute(state);
    }

    fn process_input(&mut self, state: &mut State<Flow>, key: Key) {
        match self {
            Flow::Main => match key {
                Key::Esc => state.stop(),
                Key::Char('q') => state.change_scene(Flow::Quit),
                _ => {
                    let b = state.command();
                    let b = b.append(&"main-input".to_string());
                    b.execute(state);
                }
            },
            Flow::Quit => state.stop(),
        }
    }

    fn update(&mut self, state: &mut State<Flow>) {
        let b = state.command();
        let b = b.append(&"tick".to_string());
        b.execute(state);
    }
}

fn written(queue: &[Command]) -> Vec<String> {
    queue
        .iter()
        .filter_map(|c| match c {
            Command::Write(payload) => Some(payload.clone()),
            _ => None,
        })
        .collect()
}

fn fresh_runtime() -> Runtime<Flow> {
    let state = State::new(Point::new(0, 0), Point::new(80, 24));
    Runtime::new(Flow::Main, state).0
}

#[test]
fn init_runs_once_before_any_input() {
    let mut rt = fresh_runtime();
    assert_eq!(written(&rt.state.take_outbox()), vec!["main-init"]);
    assert_eq!(rt.step_input(Key::Char('x')).0, Outcome::Continue);
    assert_eq!(rt.step_input(Key::Char('y')).0, Outcome::Continue);
    // init ran exactly once, before the inputs, and never again
    assert_eq!(
        written(&rt.state.take_outbox()),
        vec!["main-input", "main-input"]
    );
}

#[test]
fn change_scene_runs_the_next_init_immediately() {
    let mut rt = fresh_runtime();
    rt.state.take_outbox();
    let outcome = rt.step_input(Key::Char('q')).0;
    assert_eq!(outcome, Outcome::Transitioned);
    assert!(!rt.has_stopped());
    // the very next hook after the transition request was the new scene's
    // init: its marker is the only write the step produced
    assert_eq!(written(&rt.state.take_outbox()), vec!["quit-init"]);
}

#[test]
fn no_hook_of_the_old_scene_after_transition() {
    let mut rt = fresh_runtime();
    rt.state.take_outbox();
    rt.step_input(Key::Char('q'));
    rt.state.take_outbox();
    // any further key reaches the quit scene, which stops: the main scene
    // never writes again
    let outcome = rt.step_input(Key::Char('x')).0;
    assert_eq!(outcome, Outcome::Stopped);
    let queue = rt.state.take_outbox();
    assert_eq!(written(&queue), Vec::<String>::new());
}

#[test]
fn stop_without_transition_shuts_down() {
    let mut rt = fresh_runtime();
    rt.state.take_outbox();
    let outcome = rt.step_input(Key::Esc).0;
    assert_eq!(outcome, Outcome::Stopped);
    assert!(rt.has_stopped());
    let queue = rt.state.take_outbox();
    assert!(matches!(queue.last(), Some(Command::Shutdown)));
}

#[test]
fn update_never_runs_when_not_driven() {
    // without an update interval the hosting application never spawns the
    // update actor, so only input steps are driven and no tick is written
    let mut rt = fresh_runtime();
    rt.state.take_outbox();
    rt.step_input(Key::Char('a'));
    rt.step_input(Key::Char('b'));
    let writes = written(&rt.state.take_outbox());
    assert!(writes.iter().all(|w| w != "tick"));
}

#[test]
fn update_step_drives_the_update_hook() {
    let mut rt = fresh_runtime();
    rt.state.take_outbox();
    assert_eq!(rt.step_update().0, Outcome::Continue);
    assert_eq!(written(&rt.state.take_outbox()), vec!["tick"]);
}

/// A flow driven purely by the update actor: the first scene hands over on
/// its first tick, the second stops on its first tick.
enum TickFlow {
    First,
    Second,
}

impl Scene for TickFlow {
    fn init(&mut self, state: &mut State<TickFlow>) {
        let marker = match self {
            TickFlow::First => "first-init",
            TickFlow::Second => "second-init",
        };
        let b = state.command();
        let b = b.append(&marker.to_string());
        b.execute(state);
    }

    fn process_input(&mut self, _state: &mut State<TickFlow>, _key: Key) {}

    fn update(&mut self, state: &mut State<TickFlow>) {
        match self {
            TickFlow::First => state.change_scene(TickFlow::Second),
            TickFlow::Second => state.stop(),
        }
    }
}

#[test]
fn update_can_drive_a_transition() {
    let state = State::new(Point::new(0, 0), Point::new(80, 24));
    let mut rt = Runtime::new(TickFlow::First, state).0;
    assert_eq!(written(&rt.state.take_outbox()), vec!["first-init"]);
    assert_eq!(rt.step_update().0, Outcome::Transitioned);
    assert_eq!(written(&rt.state.take_outbox()), vec!["second-init"]);
    assert_eq!(rt.step_update().0, Outcome::Stopped);
    assert!(rt.has_stopped());
}

/// A scene that hands over from `init` itself: the runtime settles the
/// transition before any input is processed.
enum ChainFlow {
    Opening,
    Settled,
}

impl Scene for ChainFlow {
    fn init(&mut self, state: &mut State<ChainFlow>) {
        match self {
            ChainFlow::Opening => state.change_scene(ChainFlow::Settled),
            ChainFlow::Settled => {
                let b = state.command();
                let b = b.append(&"settled-init".to_string());
                b.execute(state);
            }
        }
    }

    fn process_input(&mut self, _state: &mut State<ChainFlow>, _key: Key) {}

    fn update(&mut self, _state: &mut State<ChainFlow>) {}
}

#[test]
fn transition_requested_in_init_settles_immediately() {
    let state = State::new(Point::new(0, 0), Point::new(80, 24));
    let mut rt = Runtime::new(ChainFlow::Opening, state).0;
    assert!(!rt.has_stopped());
    assert_eq!(written(&rt.state.take_outbox()), vec!["settled-init"]);
}

#[test]
fn io_step_maps_each_message_to_its_action() {
    assert!(matches!(
        io_step(Command::Write("abc".to_string())),
        IoAction::PutText(p) if p == "abc"
    ));
    assert!(matches!(io_step(Command::Flush), IoAction::FlushOutput));
    assert!(matches!(
        io_step(Command::RequestPos),
        IoAction::ReplyPosition
    ));
    assert!(matches!(io_step(Command::Shutdown), IoAction::Exit));
}

#[test]
fn one_reply_action_per_position_request() {
    let batch = vec![
        Command::Write("a".to_string()),
        Command::RequestPos,
        Command::Flush,
        Command::RequestPos,
    ];
    let mut requests = 0;
    let mut replies = 0;
    for cmd in batch {
        if matches!(cmd, Command::RequestPos) {
            requests += 1;
        }
        if matches!(io_step(cmd), IoAction::ReplyPosition) {
            replies += 1;
        }
    }
    assert_eq!(requests, 2);
    assert_eq!(replies, 2);
}
