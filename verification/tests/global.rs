//! Registration with the `log` facade touches process-global state, so it
//! gets a file, and a process, of its own.

use std::sync::Mutex;

use log_reroute::AlreadyInitializedError;

struct Recorder {
    records: Mutex<Vec<String>>,
}

impl Recorder {
    fn new() -> Recorder {
        Recorder { records: Mutex::new(Vec::new()) }
    }

    fn records(&self) -> Vec<String> {
        self.records.lock().unwrap().clone()
    }
}

impl log::Log for Recorder {
    fn enabled(&self, _metadata: &log::Metadata) -> bool {
        true
    }

    fn log(&self, record: &log::Record) {
        self.records.lock().unwrap().push(record.target().to_string());
    }

    fn flush(&self) {}
}

#[test]
fn second_registration_fails_and_changes_nothing() {
    let first: &'static Recorder = Box::leak(Box::new(Recorder::new()));
    let second: &'static Recorder = Box::leak(Box::new(Recorder::new()));
    assert_eq!(log_reroute::init(first), Ok(()));
    assert_eq!(log_reroute::init(second), Err(AlreadyInitializedError));
    let record = log::Record::builder().target("kept").build();
    log::logger().log(&record);
    assert_eq!(first.records(), vec!["kept".to_string()]);
    assert_eq!(second.records(), Vec::<String>::new());
}
