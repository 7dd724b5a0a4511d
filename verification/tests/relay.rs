use worker_relay::controller::UiController;
use worker_relay::protocol::format_from_main;
use worker_relay::protocol::format_from_worker;
use worker_relay::worker::WorkerContext;

#[test]
fn new_controller_is_empty() {
    let c = UiController::new();
    assert_eq!(c.input_text(), "");
    assert!(c.entries().is_empty());
    assert!(!c.worker_ready());
}

#[test]
fn outbound_text_is_payload_behind_main_prefix() {
    assert_eq!(format_from_main("hello"), "Message from main: hello");
    assert_eq!(format_from_main(""), "Message from main: ");
}

#[test]
fn log_entry_is_payload_behind_worker_prefix() {
    assert_eq!(format_from_worker("pong"), "Message from worker: pong");
    assert_eq!(format_from_worker(""), "Message from worker: ");
}

#[test]
fn send_uses_current_input_verbatim() {
    let mut ui = UiController::new();
    ui.ensure_worker();
    ui.set_input("hello".to_string());
    let outbound = ui.send_message();
    assert_eq!(outbound, "Message from main: hello");
    // sending neither clears nor alters the input
    assert_eq!(ui.input_text(), "hello");
}

#[test]
fn send_with_empty_input_sends_bare_prefix() {
    let mut ui = UiController::new();
    ui.ensure_worker();
    let outbound = ui.send_message();
    assert_eq!(outbound, "Message from main: ");
}

#[test]
fn set_input_replaces_earlier_text() {
    let mut ui = UiController::new();
    ui.set_input("first".to_string());
    ui.set_input("second".to_string());
    assert_eq!(ui.input_text(), "second");
    assert!(ui.entries().is_empty());
}

#[test]
fn worker_constructed_exactly_once() {
    let mut ui = UiController::new();
    assert!(ui.ensure_worker());
    assert!(!ui.ensure_worker());
    assert!(!ui.ensure_worker());
    assert!(ui.worker_ready());
}

#[test]
fn received_payload_appends_exactly_one_entry() {
    let mut ui = UiController::new();
    ui.ensure_worker();
    ui.receive_from_worker("ping");
    assert_eq!(ui.entries().len(), 1);
    assert_eq!(ui.entries()[0], "Message from worker: ping");
    ui.receive_from_worker("pong");
    assert_eq!(ui.entries().len(), 2);
    assert_eq!(ui.entries()[0], "Message from worker: ping");
    assert_eq!(ui.entries()[1], "Message from worker: pong");
}

#[test]
fn replies_stay_in_send_order() {
    let mut ui = UiController::new();
    ui.ensure_worker();
    let mut worker = WorkerContext::start();
    worker.register();
    // two sends queued before any reply arrives
    ui.set_input("one".to_string());
    let first_out = ui.send_message();
    ui.set_input("two".to_string());
    let second_out = ui.send_message();
    // per-direction FIFO delivery: replies come back in send order
    let first_reply = worker.handle_message(&first_out);
    let second_reply = worker.handle_message(&second_out);
    ui.receive_from_worker(&first_reply);
    ui.receive_from_worker(&second_reply);
    assert_eq!(ui.entries().len(), 2);
    assert_eq!(ui.entries()[0], "Message from worker: Message from main: Message from main: one");
    assert_eq!(ui.entries()[1], "Message from worker: Message from main: Message from main: two");
}

#[test]
fn worker_starts_unregistered_then_listens() {
    let mut worker = WorkerContext::start();
    assert!(!worker.listening());
    worker.register();
    assert!(worker.listening());
}

#[test]
fn worker_echoes_payload_behind_main_prefix() {
    let mut worker = WorkerContext::start();
    worker.register();
    assert_eq!(worker.handle_message("ping"), "Message from main: ping");
}

#[test]
fn round_trip_hello() {
    let mut ui = UiController::new();
    assert!(ui.ensure_worker());
    ui.set_input("hello".to_string());
    let outbound = ui.send_message();
    assert_eq!(outbound, "Message from main: hello");

    // the host hands each delivered message over as its quoted representation
    let mut worker = WorkerContext::start();
    worker.register();
    let delivered = format!("{:?}", outbound);
    let reply = worker.handle_message(&delivered);
    assert_eq!(reply, "Message from main: \"Message from main: hello\"");

    let delivered_back = format!("{:?}", reply);
    ui.receive_from_worker(&delivered_back);
    assert_eq!(ui.entries().len(), 1);
    let entry = &ui.entries()[0];
    assert_eq!(
        entry,
        "Message from worker: \"Message from main: \\\"Message from main: hello\\\"\""
    );
    assert!(entry.contains("hello"));
}
