use safeflight::tasker::Tasker;
use std::sync::mpsc::channel;

#[test]
fn messages_reach_the_connection_queue() {
    let (tx, queue) = channel();
    let (_, rx) = channel();
    let tasker = Tasker::new(tx, rx);
    tasker.send_message(vec![1, 2, 3]);
    tasker.send_message(vec![4]);
    assert_eq!(queue.recv().unwrap(), vec![1, 2, 3]);
    assert_eq!(queue.recv().unwrap(), vec![4]);
}

#[test]
fn closed_connection_drops_messages() {
    let (tx, queue) = channel::<Vec<u8>>();
    drop(queue);
    let (_, rx) = channel();
    let tasker = Tasker::new(tx, rx);
    tasker.send_message(vec![1]);
}

#[test]
fn updater_hooks_do_nothing() {
    safeflight::updater::update();
    safeflight::updater::start_flight_controller();
    safeflight::updater::stop_flight_controller();
}
