use std::sync::{Arc, Mutex};

use service_host::{ScriptedWait, ServiceControl, ServiceHost};
use tokio_threadpool::ThreadPool;

struct Config {
    name: String,
    log: Arc<Mutex<Vec<String>>>,
}

/// A service that records every lifecycle call in the log shared
/// through its configuration.
struct RecordingService {
    log: Arc<Mutex<Vec<String>>>,
}

impl ServiceControl<Config> for RecordingService {
    fn create_and_start(config: &'static Config, _pool: &'static ThreadPool) -> Self {
        config.log.lock().unwrap().push(String::from("started"));
        RecordingService { log: config.log.clone() }
    }

    fn shutdown(self) {
        self.log.lock().unwrap().push(String::from("shutdown"));
    }
}

fn fresh_host(name: &str) -> (Arc<Mutex<Vec<String>>>, ServiceHost<Config, RecordingService>) {
    let log = Arc::new(Mutex::new(Vec::new()));
    let config: &'static Config = Box::leak(Box::new(Config {
        name: String::from(name),
        log: log.clone(),
    }));
    let pool: &'static ThreadPool = Box::leak(Box::new(ThreadPool::new()));
    assert_eq!(config.name, name);
    let host = ServiceHost::create_and_start(config, pool);
    (log, host)
}

#[test]
fn scenario_interrupt_shuts_down_once() {
    let (log, host) = fresh_host("svc-a");
    assert_eq!(*log.lock().unwrap(), vec![String::from("started")]);
    let outcome = host.wait_for_signal_scripted(true, &vec![2]);
    assert!(matches!(outcome, ScriptedWait::Completed));
    assert_eq!(
        *log.lock().unwrap(),
        vec![String::from("started"), String::from("shutdown")]
    );
}

#[test]
fn scenario_terminate_is_equivalent() {
    let (interrupt_log, interrupt_host) = fresh_host("svc-a");
    let interrupt_outcome = interrupt_host.wait_for_signal_scripted(true, &vec![2]);
    assert!(matches!(interrupt_outcome, ScriptedWait::Completed));

    let (terminate_log, terminate_host) = fresh_host("svc-a");
    let terminate_outcome = terminate_host.wait_for_signal_scripted(true, &vec![15]);
    assert!(matches!(terminate_outcome, ScriptedWait::Completed));

    assert_eq!(*interrupt_log.lock().unwrap(), *terminate_log.lock().unwrap());
    assert_eq!(
        *terminate_log.lock().unwrap(),
        vec![String::from("started"), String::from("shutdown")]
    );
}

#[test]
fn non_monitored_signals_do_not_resolve_the_wait() {
    let (log, host) = fresh_host("svc-a");
    // SIGHUP (1) and SIGUSR1 (10) are outside the monitored set.
    let outcome = host.wait_for_signal_scripted(true, &vec![1, 10]);
    let waiting_host = match outcome {
        ScriptedWait::StillWaiting(h) => h,
        _ => panic!("a non-monitored signal resolved the wait"),
    };
    assert_eq!(*log.lock().unwrap(), vec![String::from("started")]);

    // The host is still usable; a monitored signal then completes it.
    let outcome = waiting_host.wait_for_signal_scripted(true, &vec![15]);
    assert!(matches!(outcome, ScriptedWait::Completed));
    assert_eq!(
        *log.lock().unwrap(),
        vec![String::from("started"), String::from("shutdown")]
    );
}

#[test]
fn registration_failure_skips_wait_and_shutdown() {
    let (log, host) = fresh_host("svc-a");
    let outcome = host.wait_for_signal_scripted(false, &vec![2, 15]);
    assert!(matches!(outcome, ScriptedWait::SetupFailed));
    assert_eq!(*log.lock().unwrap(), vec![String::from("started")]);
}

#[test]
fn several_exit_signals_still_one_shutdown() {
    let (log, host) = fresh_host("svc-a");
    let outcome = host.wait_for_signal_scripted(true, &vec![1, 2, 15, 2]);
    assert!(matches!(outcome, ScriptedWait::Completed));
    let entries = log.lock().unwrap();
    assert_eq!(
        *entries,
        vec![String::from("started"), String::from("shutdown")]
    );
    assert_eq!(entries.iter().filter(|e| *e == "shutdown").count(), 1);
}
