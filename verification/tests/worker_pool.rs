use gotham::bootstrap::{pick_addr, BindError, Pool, ServerConfig};
use gotham::worker::{Action, Event, Exchange, WorkerState};

#[test]
fn worker_starts_then_accepts() {
    let worker = WorkerState::new();
    assert_eq!(worker, WorkerState::Starting);
    let (worker, action) = worker.step(Event::<u32>::ContextCreated);
    assert_eq!(worker, WorkerState::Accepting);
    assert_eq!(action, Action::AwaitConnection);
}

#[test]
fn worker_without_a_context_aborts() {
    let (worker, action) = WorkerState::Starting.step(Event::<u32>::ContextFailed);
    assert_eq!(worker, WorkerState::Terminated);
    assert_eq!(action, Action::Abort);
}

#[test]
fn accepted_connection_is_dispatched_to_its_own_address() {
    let (worker, action) = WorkerState::Accepting.step(Event::Accepted(9001u32));
    assert_eq!(worker, WorkerState::Dispatching);
    assert_eq!(action, Action::Dispatch(9001u32));
    let (worker, action) = worker.step(Event::<u32>::Dispatched);
    assert_eq!(worker, WorkerState::Accepting);
    assert_eq!(action, Action::AwaitConnection);
}

#[test]
fn failed_exchange_does_not_stop_the_worker() {
    let (worker, action) = WorkerState::Accepting.step(Event::<u32>::ExchangeEnded(Exchange::Failed));
    assert_eq!(worker, WorkerState::Accepting);
    assert_eq!(action, Action::ReleaseConnection);
    let (worker, action) = worker.step(Event::Accepted(5u32));
    assert_eq!(worker, WorkerState::Dispatching);
    assert_eq!(action, Action::Dispatch(5u32));
    let (worker, action) = worker.step(Event::<u32>::ExchangeEnded(Exchange::Failed));
    assert_eq!(worker, WorkerState::Dispatching);
    assert_eq!(action, Action::ReleaseConnection);
    let (worker, _) = worker.step(Event::<u32>::Dispatched);
    let (worker, action) = worker.step(Event::<u32>::ExchangeEnded(Exchange::Completed));
    assert_eq!(worker, WorkerState::Accepting);
    assert_eq!(action, Action::ReleaseConnection);
}

#[test]
fn end_of_the_accept_sequence_terminates() {
    let (worker, action) = WorkerState::Accepting.step(Event::<u32>::AcceptFailed);
    assert_eq!(worker, WorkerState::Terminated);
    assert_eq!(action, Action::Exit);
    let (worker, action) = WorkerState::Accepting.step(Event::<u32>::SequenceEnded);
    assert_eq!(worker, WorkerState::Terminated);
    assert_eq!(action, Action::Exit);
}

#[test]
fn terminated_worker_ignores_everything() {
    let events = vec![
        Event::ContextCreated,
        Event::ContextFailed,
        Event::Accepted(1u32),
        Event::Dispatched,
        Event::ExchangeEnded(Exchange::Completed),
        Event::ExchangeEnded(Exchange::Failed),
        Event::AcceptFailed,
        Event::SequenceEnded,
    ];
    for event in events {
        let (worker, action) = WorkerState::Terminated.step(event);
        assert_eq!(worker, WorkerState::Terminated);
        assert_eq!(action, Action::Ignore);
    }
}

#[test]
fn events_out_of_turn_are_ignored() {
    let (worker, action) = WorkerState::Starting.step(Event::Accepted(1u32));
    assert_eq!((worker, action), (WorkerState::Starting, Action::Ignore));
    let (worker, action) = WorkerState::Starting.step(Event::<u32>::ExchangeEnded(Exchange::Failed));
    assert_eq!((worker, action), (WorkerState::Starting, Action::Ignore));
    let (worker, action) = WorkerState::Accepting.step(Event::<u32>::ContextFailed);
    assert_eq!((worker, action), (WorkerState::Accepting, Action::Ignore));
    let (worker, action) = WorkerState::Dispatching.step(Event::Accepted(2u32));
    assert_eq!((worker, action), (WorkerState::Dispatching, Action::Ignore));
    let (worker, action) = WorkerState::Dispatching.step(Event::<u32>::AcceptFailed);
    assert_eq!((worker, action), (WorkerState::Dispatching, Action::Ignore));
}

#[test]
fn pick_addr_takes_the_first_resolved_address() {
    let resolved: Result<Option<&str>, ()> = Ok(Some("127.0.0.1:7878"));
    assert_eq!(pick_addr(resolved), Ok("127.0.0.1:7878"));
}

#[test]
fn pick_addr_tells_unresolved_from_unparsable() {
    let none: Result<Option<u32>, ()> = Ok(None);
    assert_eq!(pick_addr(none), Err(BindError::Unresolved));
    let bad: Result<Option<u32>, String> = Err(String::from("invalid socket address"));
    assert_eq!(pick_addr(bad), Err(BindError::Unparsable));
    assert_eq!(BindError::Unresolved.message(), "unable to resolve listener address");
    assert_eq!(BindError::Unparsable.message(), "unable to parse listener address");
}

#[test]
fn unresolved_bind_target_stops_before_any_worker() {
    let resolved: Result<Option<u32>, ()> = Ok(None);
    let config = ServerConfig::new(resolved, 4usize, "factory");
    match config {
        Ok(_) => panic!("a configuration without an address"),
        Err(error) => assert_eq!(error, BindError::Unresolved),
    }
}

#[test]
fn config_keeps_what_it_was_made_with() {
    let resolved: Result<Option<u32>, ()> = Ok(Some(7878u32));
    let config = ServerConfig::new(resolved, 4usize, "factory").unwrap();
    assert_eq!(*config.addr(), 7878u32);
    assert_eq!(config.threads(), 4usize);
    assert_eq!(*config.new_handler(), "factory");
    assert_eq!(config.additional_threads(), 3usize);
    let single: Result<Option<u32>, ()> = Ok(Some(1u32));
    assert_eq!(ServerConfig::new(single, 1usize, ()).unwrap().additional_threads(), 0usize);
}

#[test]
fn default_thread_count_is_the_number_of_processors() {
    let resolved: Result<Option<u32>, ()> = Ok(Some(7878u32));
    let config = ServerConfig::with_default_threads(resolved, "factory").unwrap();
    assert!(config.threads() >= 1usize);
    assert_eq!(config.threads(), num_cpus::get());
    assert_eq!(config.additional_threads(), num_cpus::get() - 1usize);
    assert_eq!(*config.addr(), 7878u32);
    let pool = Pool::launch(config.threads());
    assert_eq!(pool.len(), num_cpus::get());
}

#[test]
fn default_thread_count_does_not_rescue_a_bad_address() {
    let bad: Result<Option<u32>, String> = Err(String::from("invalid socket address"));
    match ServerConfig::with_default_threads(bad, ()) {
        Ok(_) => panic!("a configuration without an address"),
        Err(error) => assert_eq!(error, BindError::Unparsable),
    }
}

#[test]
fn pool_has_as_many_workers_as_threads() {
    let mut pool = Pool::launch(4usize);
    assert_eq!(pool.len(), 4usize);
    assert_eq!(pool.serving(), 0usize);
    for worker in 0usize..4usize {
        assert_eq!(pool.state(worker), WorkerState::Starting);
        assert_eq!(pool.deliver(worker, Event::<u32>::ContextCreated), Action::AwaitConnection);
    }
    assert_eq!(pool.serving(), 4usize);
    for worker in 0usize..4usize {
        assert_eq!(pool.state(worker), WorkerState::Accepting);
    }
}

#[test]
fn fatal_failure_of_one_worker_leaves_the_others() {
    let mut pool = Pool::launch(3usize);
    for worker in 0usize..3usize {
        pool.deliver(worker, Event::<u32>::ContextCreated);
    }
    assert_eq!(pool.deliver(1usize, Event::<u32>::AcceptFailed), Action::Exit);
    assert_eq!(pool.state(0usize), WorkerState::Accepting);
    assert_eq!(pool.state(1usize), WorkerState::Terminated);
    assert_eq!(pool.state(2usize), WorkerState::Accepting);
    assert_eq!(pool.serving(), 2usize);
    assert_eq!(pool.deliver(2usize, Event::Accepted(77u32)), Action::Dispatch(77u32));
    assert_eq!(pool.deliver(1usize, Event::Accepted(78u32)), Action::Ignore);
    assert_eq!(pool.len(), 3usize);
}

#[test]
fn hundred_connections_on_four_workers() {
    let mut pool = Pool::launch(4usize);
    for worker in 0usize..4usize {
        pool.deliver(worker, Event::<u32>::ContextCreated);
    }
    let mut dispatched: u32 = 0;
    let mut released: u32 = 0;
    for connection in 0u32..100u32 {
        let worker: usize = (connection % 4) as usize;
        if pool.deliver(worker, Event::Accepted(connection)) == Action::Dispatch(connection) {
            dispatched += 1;
        }
        assert_eq!(pool.deliver(worker, Event::<u32>::Dispatched), Action::AwaitConnection);
        if pool.deliver(worker, Event::<u32>::ExchangeEnded(Exchange::Completed))
            == Action::ReleaseConnection
        {
            released += 1;
        }
    }
    assert_eq!(dispatched, 100u32);
    assert_eq!(released, 100u32);
    assert_eq!(pool.serving(), 4usize);
}
