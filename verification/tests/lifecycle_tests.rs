use browser_tasks::CancellableTask;
use browser_tasks::FetchRequest;
use browser_tasks::FetchResponse;
use browser_tasks::FetchTask;
use browser_tasks::RouteInfo;
use browser_tasks::RouterTask;

// The shared lifecycle contract, exercised through the trait alone: after a
// cancel the task reports inactive, and a second cancel is a harmless no-op.
fn cancel_twice<T: CancellableTask>(task: &mut T) {
    assert!(task.is_active());
    task.cancel();
    assert!(!task.is_active());
    task.cancel();
    assert!(!task.is_active());
}

#[test]
fn both_task_kinds_share_the_cancellation_contract() {
    let mut router: RouterTask<u32, _> = RouterTask::new(|_info: RouteInfo| 0u32);
    cancel_twice(&mut router);

    let request = FetchRequest {
        method: String::from("GET"),
        url: String::from("https://my.api/v1/resource"),
        headers: Vec::new(),
        body: String::new(),
    };
    match FetchTask::<u32, _>::new(request, |_response: FetchResponse| 0u32) {
        Ok(mut fetch) => cancel_twice(&mut fetch),
        Err(_) => panic!("a request without headers must be accepted"),
    }
}
