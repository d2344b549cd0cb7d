use tasktrack::render::render_tasks;
use tasktrack::types::{State, Task};

fn task(id: u32, description: &str, state: State) -> Task {
    Task { id, description: description.to_string(), state }
}

#[test]
fn print_is_id_space_description() {
    assert_eq!(task(42, "buy milk", State::Pending).print(), "42 buy milk");
    assert_eq!(task(1, "write spec", State::Done).print(), "1 write spec");
}

#[test]
fn print_handles_edge_ids_and_texts() {
    assert_eq!(task(0, "zero", State::Pending).print(), "0 zero");
    assert_eq!(task(10, "ten", State::Pending).print(), "10 ten");
    assert_eq!(task(u32::MAX, "big", State::Pending).print(), "4294967295 big");
    assert_eq!(task(7, "", State::Pending).print(), "7 ");
}

#[test]
fn render_tasks_keeps_order() {
    let tasks = vec![
        task(1, "one", State::Pending),
        task(2, "two", State::Done),
    ];
    assert_eq!(render_tasks(&tasks), vec!["1 one".to_string(), "2 two".to_string()]);
}
