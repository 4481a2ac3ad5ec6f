use simple_terminal_app::commands::{ClearAll, Goto};
use simple_terminal_app::key::Key;
use simple_terminal_app::message::Command;
use simple_terminal_app::scene::{helper, Scene};
use simple_terminal_app::state::State;
use simple_terminal_app::Point;

struct NoScene;

impl Scene for NoScene {
    fn init(&mut self, _state: &mut State<NoScene>) {}

    fn process_input(&mut self, _state: &mut State<NoScene>, _key: Key) {}

    fn update(&mut self, _state: &mut State<NoScene>) {}
}

fn fresh_state() -> State<NoScene> {
    State::new(Point::new(0, 0), Point::new(80, 24))
}

fn written_payloads(queue: &[Command]) -> Vec<Vec<u8>> {
    queue
        .iter()
        .filter_map(|c| match c {
            Command::Write(payload) => Some(payload.as_bytes().to_vec()),
            _ => None,
        })
        .collect()
}

#[test]
fn hello_reaches_io_actor_as_six_bytes() {
    let mut state = fresh_state();
    let b = state.command();
    let b = b.append(&"Hello!".to_string());
    b.execute(&mut state);
    let queue = state.take_outbox();
    assert_eq!(queue.len(), 1);
    let writes = written_payloads(&queue);
    assert_eq!(writes, vec![b"Hello!".to_vec()]);
    assert_eq!(writes[0].len(), 6);
}

#[test]
fn execute_concatenates_fragments_in_append_order() {
    let mut state = fresh_state();
    let b = state.command();
    let b = b.append(&"ab".to_string());
    let b = b.append(&"".to_string());
    let b = b.append(&"cd".to_string());
    let b = b.append(&Point::new(1, 2));
    b.execute(&mut state);
    let writes = written_payloads(&state.take_outbox());
    assert_eq!(writes, vec![b"abcd1, 2".to_vec()]);
}

#[test]
fn each_execute_is_one_write() {
    let mut state = fresh_state();
    let b = state.command();
    let b = b.append(&"first".to_string());
    b.execute(&mut state);
    let b = state.command();
    let b = b.append(&"second".to_string());
    b.execute(&mut state);
    let writes = written_payloads(&state.take_outbox());
    assert_eq!(writes, vec![b"first".to_vec(), b"second".to_vec()]);
}

#[test]
fn directives_render_inside_the_batch() {
    let mut state = fresh_state();
    let b = state.command();
    let b = b.append(&ClearAll);
    let b = b.append(&Goto(Point::new(0, 0)));
    b.execute(&mut state);
    let writes = written_payloads(&state.take_outbox());
    assert_eq!(writes, vec![b"\x1b[2J\x1b[1;1H".to_vec()]);
}

#[test]
fn helper_clear_homes_the_cursor() {
    let mut state = fresh_state();
    helper::clear(&mut state);
    let writes = written_payloads(&state.take_outbox());
    assert_eq!(writes, vec![b"\x1b[2J\x1b[1;1H".to_vec()]);
}

#[test]
fn flush_follows_writes_in_the_queue() {
    let mut state = fresh_state();
    let b = state.command();
    let b = b.append(&"x".to_string());
    b.execute(&mut state);
    state.flush();
    let queue = state.take_outbox();
    assert_eq!(queue.len(), 2);
    assert!(matches!(&queue[0], Command::Write(p) if p == "x"));
    assert!(matches!(&queue[1], Command::Flush));
}

#[test]
fn take_outbox_empties_the_queue() {
    let mut state = fresh_state();
    state.flush();
    assert_eq!(state.take_outbox().len(), 1);
    assert_eq!(state.take_outbox().len(), 0);
}

#[test]
fn request_position_round_trip() {
    let mut state = fresh_state();
    state.request_position();
    let queue = state.take_outbox();
    assert_eq!(queue.len(), 1);
    assert!(matches!(&queue[0], Command::RequestPos));
    // the driver answers one-based; the state stores zero-based
    state.apply_position_reply(5, 3);
    assert_eq!(state.position(), Point::new(4, 2));
}

#[test]
fn size_is_the_recorded_terminal_size() {
    let state = fresh_state();
    assert_eq!(state.size(), Point::new(80, 24));
}
