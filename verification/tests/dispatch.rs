use zenoh_backend_s3::dispatch::Dispatch;
use zenoh_backend_s3::dispatch::ExecutionDispatcher;
use zenoh_backend_s3::dispatch::STORAGE_WORKER_THREADS;
use zenoh_backend_s3::store::StoreFault;

#[test]
fn dispatch_runs_inline_where_the_host_has_a_scheduler() {
    let mut dispatcher = ExecutionDispatcher::new();
    assert_eq!(dispatcher.dispatch(true), Dispatch::Inline);
    assert_eq!(dispatcher.dispatch(true), Dispatch::Inline);
    assert!(!dispatcher.owned_is_started);
}

#[test]
fn dispatch_starts_the_owned_scheduler_once() {
    let mut dispatcher = ExecutionDispatcher::new();
    assert_eq!(dispatcher.dispatch(false), Dispatch::StartOwned);
    assert!(dispatcher.owned_is_started);
    assert_eq!(dispatcher.dispatch(false), Dispatch::Owned);
    assert_eq!(dispatcher.dispatch(true), Dispatch::Inline);
    assert_eq!(dispatcher.dispatch(false), Dispatch::Owned);
    assert_eq!(STORAGE_WORKER_THREADS, 2);
}

#[test]
fn settle_tells_the_scheduler_from_the_store() {
    assert_eq!(ExecutionDispatcher::settle(Ok(Ok(5u8))), Ok(5u8));
    assert_eq!(
        ExecutionDispatcher::settle::<u8>(Ok(Err("access denied".to_string()))),
        Err(StoreFault::Service { message: "access denied".to_string() })
    );
    assert_eq!(
        ExecutionDispatcher::settle::<u8>(Err("task was cancelled".to_string())),
        Err(StoreFault::Dispatch { cause: "task was cancelled".to_string() })
    );
}
