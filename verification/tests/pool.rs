use tokio::sync::oneshot;
use vk_executive::client::message::ResultSender;
use vk_executive::pool::{Event, ExecuteError, ExecuteManager, InstancePool, Route, TaskObserver};
use vk_executive::{Method, Params, SubmitError, Value};

fn users_get(id: usize) -> Method {
    let mut params = Params::new();
    params.push("user_id", Value::Number(id.to_string()));
    Method::new("users.get", params)
}

fn sink() -> ResultSender {
    oneshot::channel().0
}

#[test]
fn task_observer_got_work_two_times() {
    let mut observer = TaskObserver::new();
    observer.observe(Event::GotWork);
    observer.observe(Event::GotWork);
    assert_eq!(observer.running_task(), 2);
}

#[test]
fn task_observer_one_of_two_done_work() {
    let mut observer = TaskObserver::new();
    observer.observe(Event::GotWork);
    observer.observe(Event::GotWork);
    observer.observe(Event::DoneWork);
    assert_eq!(observer.running_task(), 1);
}

#[test]
fn task_observer_two_done_work() {
    let mut observer = TaskObserver::new();
    observer.observe(Event::GotWork);
    observer.observe(Event::GotWork);
    observer.observe(Event::DoneWork);
    observer.observe(Event::DoneWork);
    assert_eq!(observer.running_task(), 0);
}

#[test]
fn task_observer_starts_at_nothing() {
    assert_eq!(TaskObserver::new().running_task(), 0);
}

#[test]
fn push_execute_of_an_empty_line_fails() {
    let mut manager = ExecuteManager::new();
    assert_eq!(manager.push_execute().err(), Some(ExecuteError::EmptyQueue));
}

#[test]
fn push_execute_takes_the_whole_of_a_short_line() {
    let mut manager = ExecuteManager::new();
    for id in 1..=3 {
        assert!(manager.push(users_get(id), sink()).is_none());
    }
    let (methods, senders) = manager.push_execute().unwrap();
    assert_eq!(methods, vec![users_get(1), users_get(2), users_get(3)]);
    assert_eq!(senders.len(), 3);
    assert_eq!(manager.push_execute().err(), Some(ExecuteError::EmptyQueue));
}

#[test]
fn push_hands_a_full_batch_on() {
    let mut manager = ExecuteManager::new();
    for id in 1..=24 {
        assert!(manager.push(users_get(id), sink()).is_none());
    }
    let (methods, senders) = manager.push(users_get(25), sink()).unwrap();
    assert_eq!(methods, (1..=25).map(users_get).collect::<Vec<Method>>());
    assert_eq!(senders.len(), 25);
    assert_eq!(manager.push_execute().err(), Some(ExecuteError::EmptyQueue));
    assert!(manager.push(users_get(26), sink()).is_none());
    let (methods, _) = manager.push_execute().unwrap();
    assert_eq!(methods, vec![users_get(26)]);
}

#[test]
fn run_goes_direct_while_a_worker_is_free() {
    let method = users_get(1);
    assert_eq!(InstancePool::run(&method, 0, 3), Ok(Route::Direct));
    assert_eq!(InstancePool::run(&method, 2, 3), Ok(Route::Direct));
    assert_eq!(InstancePool::run(&method, 3, 3), Ok(Route::Line));
    assert_eq!(InstancePool::run(&method, 4, 3), Ok(Route::Line));
    assert_eq!(InstancePool::run(&method, 0, 0), Ok(Route::Line));
}

#[test]
fn run_refuses_a_reserved_name_wherever_it_would_go() {
    let execute = Method::new("execute", Params::new());
    assert_eq!(InstancePool::run(&execute, 0, 3), Err(SubmitError::Reserved));
    assert_eq!(InstancePool::run(&execute, 3, 3), Err(SubmitError::Reserved));
    let longer = Method::new("execute.getFriends", Params::new());
    assert_eq!(InstancePool::run(&longer, 0, 1), Err(SubmitError::Reserved));
    let other = Method::new("utils.execute", Params::new());
    assert_eq!(InstancePool::run(&other, 0, 1), Ok(Route::Direct));
}
