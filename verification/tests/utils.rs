use std::cell::RefCell;
use std::rc::Rc;

use monopoly::server::{BackendServer, FrontendServer};
use monopoly::utils::callable_option::CallableOption;
use monopoly::utils::oneshot_event_emitter::OneShotEventEmitter;

#[test]
fn a_new_emitter_has_nobody_waiting() {
    let mut emitter: OneShotEventEmitter<u32> = OneShotEventEmitter::new();
    assert_eq!(emitter.pending(), 0);
    assert!(emitter.trigger().is_empty());
}

#[test]
fn trigger_hands_out_the_callbacks_in_the_order_in_which_they_came() {
    let mut emitter = OneShotEventEmitter::new();
    emitter.listen("first");
    emitter.listen("second");
    emitter.listen("third");
    assert_eq!(emitter.pending(), 3);
    assert_eq!(emitter.trigger(), vec!["first", "second", "third"]);
}

#[test]
fn a_callback_is_handed_out_once() {
    let mut emitter = OneShotEventEmitter::new();
    emitter.listen(1);
    assert_eq!(emitter.trigger(), vec![1]);
    assert_eq!(emitter.pending(), 0);
    assert_eq!(emitter.trigger(), Vec::<i32>::new());
}

#[test]
fn a_callback_that_comes_in_during_a_firing_waits_for_the_next() {
    let mut emitter: OneShotEventEmitter<Box<dyn FnOnce(&mut OneShotEventEmitter<u8>)>> =
        OneShotEventEmitter::new();
    let mut inner: OneShotEventEmitter<u8> = OneShotEventEmitter::new();
    emitter.listen(Box::new(|late| late.listen(7)));
    emitter.listen(Box::new(|late| late.listen(8)));
    let fired = emitter.trigger();
    assert_eq!(fired.len(), 2);
    for callback in fired {
        callback(&mut inner);
    }
    assert_eq!(emitter.pending(), 0);
    assert_eq!(inner.trigger(), vec![7, 8]);
}

#[test]
fn callbacks_run_once_each_when_the_caller_runs_them() {
    let mut emitter: OneShotEventEmitter<Box<dyn FnOnce(&mut Vec<u8>)>> = OneShotEventEmitter::new();
    emitter.listen(Box::new(|log| log.push(1)));
    emitter.listen(Box::new(|log| log.push(2)));
    let mut log = Vec::new();
    for callback in emitter.trigger() {
        callback(&mut log);
    }
    for callback in emitter.trigger() {
        callback(&mut log);
    }
    assert_eq!(log, vec![1, 2]);
}

#[test]
fn a_missing_callback_gives_nothing() {
    let missing: Option<fn(u32) -> u32> = None;
    assert_eq!(missing.call(3), None);
}

#[test]
fn a_callback_that_is_there_is_called() {
    let double = Some(|x: u32| x * 2);
    assert_eq!(double.call(21), Some(42));
    let mut seen = Vec::new();
    let record = Some(|x: &str| seen.push(x.len()));
    assert_eq!(record.call("four"), Some(()));
    assert_eq!(seen, vec![4]);
}

#[test]
fn the_backend_server_keeps_its_client() {
    let server = BackendServer::new(String::from("client of player 3"));
    assert_eq!(server.player_client(), "client of player 3");
    let copy = server.clone();
    assert_eq!(copy.player_client(), server.player_client());
}

#[test]
fn frontend_servers_are_all_alike() {
    assert_eq!(FrontendServer::new(), FrontendServer::new());
    assert_eq!(FrontendServer::new(), FrontendServer {});
}

#[test]
fn run_runs_the_callbacks_in_their_order() {
    let log = Rc::new(RefCell::new(Vec::new()));
    let mut emitter: OneShotEventEmitter<Box<dyn FnOnce()>> = OneShotEventEmitter::new();
    for number in 1..=4 {
        let log = Rc::clone(&log);
        emitter.listen(Box::new(move || log.borrow_mut().push(number)));
    }
    OneShotEventEmitter::run(emitter.trigger());
    assert_eq!(*log.borrow(), vec![1, 2, 3, 4]);
    OneShotEventEmitter::run(emitter.trigger());
    assert_eq!(*log.borrow(), vec![1, 2, 3, 4]);
}

#[test]
fn a_callback_can_register_another_while_it_runs() {
    let log = Rc::new(RefCell::new(Vec::new()));
    let emitter: Rc<RefCell<OneShotEventEmitter<Box<dyn FnOnce()>>>> =
        Rc::new(RefCell::new(OneShotEventEmitter::new()));
    {
        let log = Rc::clone(&log);
        let again = Rc::clone(&emitter);
        emitter.borrow_mut().listen(Box::new(move || {
            log.borrow_mut().push("first");
            let log = Rc::clone(&log);
            again.borrow_mut().listen(Box::new(move || log.borrow_mut().push("second")));
        }));
    }
    let fired = emitter.borrow_mut().trigger();
    OneShotEventEmitter::run(fired);
    assert_eq!(*log.borrow(), vec!["first"]);
    assert_eq!(emitter.borrow().pending(), 1);
    let fired = emitter.borrow_mut().trigger();
    OneShotEventEmitter::run(fired);
    assert_eq!(*log.borrow(), vec!["first", "second"]);
}
