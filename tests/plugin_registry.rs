use std::sync::{Arc, Mutex};

use monokkai::loader::{LoadEvent, LoadStage, LoadStep};
use monokkai::plugin::{Extension, Plugin, PluginError};
use monokkai::registry::PluginManager;

type Log = Arc<Mutex<Vec<String>>>;

/// Stands for an opened module; records when it is closed.
struct FakeModule {
    path: String,
    log: Log,
}

impl Drop for FakeModule {
    fn drop(&mut self) {
        self.log.lock().unwrap().push(format!("close {}", self.path));
    }
}

/// An extension that records each call and returns a fixed outcome.
struct Recorder {
    name: String,
    calls: Arc<Mutex<Vec<Vec<String>>>>,
    outcome: Result<(), String>,
    log: Log,
}

impl Plugin for Recorder {
    fn name(&self) -> &str {
        &self.name
    }

    fn execute(&self, args: Vec<String>) -> Result<(), String> {
        self.calls.lock().unwrap().push(args);
        self.outcome.clone()
    }
}

impl Drop for Recorder {
    fn drop(&mut self) {
        self.log.lock().unwrap().push(format!("release {}", self.name));
    }
}

struct Fixture {
    log: Log,
    calls: Arc<Mutex<Vec<Vec<String>>>>,
}

impl Fixture {
    fn new() -> Fixture {
        Fixture { log: Arc::new(Mutex::new(Vec::new())), calls: Arc::new(Mutex::new(Vec::new())) }
    }

    fn module(&self, path: &str) -> FakeModule {
        FakeModule { path: path.to_string(), log: self.log.clone() }
    }

    fn extension(&self, name: &str, outcome: Result<(), String>) -> Recorder {
        Recorder { name: name.to_string(), calls: self.calls.clone(), outcome, log: self.log.clone() }
    }

    fn log(&self) -> Vec<String> {
        self.log.lock().unwrap().clone()
    }

    fn calls(&self) -> Vec<Vec<String>> {
        self.calls.lock().unwrap().clone()
    }
}

type Manager = PluginManager<FakeModule, Recorder>;

/// Drives one load attempt the way a host drives the OS loader.
fn load_with(manager: &mut Manager, events: Vec<LoadEvent<FakeModule, Extension<Recorder>>>) -> Result<(), PluginError> {
    let mut stage = LoadStage::new();
    for event in events {
        stage = stage.advance(event);
    }
    manager.load(stage)
}

fn conforming(f: &Fixture, path: &str, name: &str) -> Vec<LoadEvent<FakeModule, Extension<Recorder>>> {
    vec![
        LoadEvent::Opened(f.module(path)),
        LoadEvent::EntryFound,
        LoadEvent::EntryReturned(Some(Extension::new(f.extension(name, Ok(()))))),
    ]
}

#[test]
fn greet_loads_and_executes() {
    let f = Fixture::new();
    let mut manager: Manager = PluginManager::new();
    assert_eq!(load_with(&mut manager, conforming(&f, "greet.module", "greet")), Ok(()));
    assert_eq!(manager.len(), 1);
    assert_eq!(manager.execute("greet", vec!["--loud".to_string()]), Ok(()));
    assert_eq!(f.calls(), vec![vec!["--loud".to_string()]]);
}

#[test]
fn registered_extension_is_found_under_its_name() {
    let f = Fixture::new();
    let mut manager: Manager = PluginManager::new();
    assert_eq!(load_with(&mut manager, conforming(&f, "greet.module", "greet")), Ok(()));
    let found = manager.get_plugin("greet").expect("registered");
    assert_eq!(found.name(), "greet");
}

#[test]
fn missing_path_is_load_error() {
    let f = Fixture::new();
    let mut manager: Manager = PluginManager::new();
    let events = vec![LoadEvent::OpenFailed("/does/not/exist: no such file".to_string())];
    assert_eq!(
        load_with(&mut manager, events),
        Err(PluginError::LoadError("/does/not/exist: no such file".to_string()))
    );
    assert_eq!(manager.len(), 0);
    assert!(f.log().is_empty());
}

#[test]
fn missing_entry_symbol_is_symbol_error() {
    let f = Fixture::new();
    let mut manager: Manager = PluginManager::new();
    let events = vec![
        LoadEvent::Opened(f.module("broken.module")),
        LoadEvent::EntryMissing("undefined symbol: init".to_string()),
    ];
    assert_eq!(
        load_with(&mut manager, events),
        Err(PluginError::SymbolError("undefined symbol: init".to_string()))
    );
    assert_eq!(manager.len(), 0);
    assert_eq!(f.log(), vec!["close broken.module".to_string()]);
}

#[test]
fn null_entry_result_is_init_error() {
    let f = Fixture::new();
    let mut manager: Manager = PluginManager::new();
    let events = vec![
        LoadEvent::Opened(f.module("null.module")),
        LoadEvent::EntryFound,
        LoadEvent::EntryReturned(None),
    ];
    assert_eq!(load_with(&mut manager, events), Err(PluginError::InitError));
    assert_eq!(manager.len(), 0);
    assert_eq!(f.log(), vec!["close null.module".to_string()]);
}

#[test]
fn failed_load_keeps_earlier_entries() {
    let f = Fixture::new();
    let mut manager: Manager = PluginManager::new();
    assert_eq!(load_with(&mut manager, conforming(&f, "greet.module", "greet")), Ok(()));
    let events = vec![LoadEvent::OpenFailed("bad".to_string())];
    assert_eq!(load_with(&mut manager, events), Err(PluginError::LoadError("bad".to_string())));
    assert_eq!(manager.len(), 1);
    assert!(manager.get_plugin("greet").is_some());
}

#[test]
fn same_name_twice_is_duplicate_error() {
    let f = Fixture::new();
    let mut manager: Manager = PluginManager::new();
    assert_eq!(load_with(&mut manager, conforming(&f, "greet.module", "greet")), Ok(()));
    assert_eq!(
        load_with(&mut manager, conforming(&f, "greet.module", "greet")),
        Err(PluginError::DuplicateNameError("greet".to_string()))
    );
    assert_eq!(manager.len(), 1);
    assert_eq!(f.log(), vec!["release greet".to_string(), "close greet.module".to_string()]);
}

#[test]
fn distinct_modules_with_same_name_load_once() {
    let f = Fixture::new();
    let mut manager: Manager = PluginManager::new();
    assert_eq!(load_with(&mut manager, conforming(&f, "a.module", "tool")), Ok(()));
    assert_eq!(
        load_with(&mut manager, conforming(&f, "b.module", "tool")),
        Err(PluginError::DuplicateNameError("tool".to_string()))
    );
    assert_eq!(manager.len(), 1);
    assert_eq!(f.log(), vec!["release tool".to_string(), "close b.module".to_string()]);
}

#[test]
fn unregistered_name_is_not_found() {
    let f = Fixture::new();
    let mut manager: Manager = PluginManager::new();
    assert!(manager.get_plugin("greet").is_none());
    assert_eq!(load_with(&mut manager, conforming(&f, "greet.module", "greet")), Ok(()));
    assert!(manager.get_plugin("gree").is_none());
    assert!(manager.get_plugin("greeting").is_none());
}

#[test]
fn execute_missing_is_not_found() {
    let manager: Manager = PluginManager::new();
    assert_eq!(
        manager.execute("missing", vec![]),
        Err(PluginError::PluginNotFoundError("missing".to_string()))
    );
}

#[test]
fn execute_passes_arguments_once_in_order() {
    let f = Fixture::new();
    let mut manager: Manager = PluginManager::new();
    assert_eq!(load_with(&mut manager, conforming(&f, "a.module", "a")), Ok(()));
    assert_eq!(load_with(&mut manager, conforming(&f, "b.module", "b")), Ok(()));
    let args = vec!["x".to_string(), "--flag".to_string(), "".to_string(), "y".to_string()];
    assert_eq!(manager.execute("b", args.clone()), Ok(()));
    assert_eq!(f.calls(), vec![args]);
}

#[test]
fn execution_error_is_passed_through() {
    let f = Fixture::new();
    let mut manager: Manager = PluginManager::new();
    let events = vec![
        LoadEvent::Opened(f.module("fail.module")),
        LoadEvent::EntryFound,
        LoadEvent::EntryReturned(Some(Extension::new(f.extension("fail", Err("disk full".to_string()))))),
    ];
    assert_eq!(load_with(&mut manager, events), Ok(()));
    assert_eq!(
        manager.execute("fail", vec!["go".to_string()]),
        Err(PluginError::ExecutionError("disk full".to_string()))
    );
    assert_eq!(f.calls().len(), 1);
}

#[test]
fn teardown_releases_extension_before_module() {
    let f = Fixture::new();
    let mut manager: Manager = PluginManager::new();
    assert_eq!(load_with(&mut manager, conforming(&f, "greet.module", "greet")), Ok(()));
    assert!(f.log().is_empty());
    drop(manager);
    assert_eq!(f.log(), vec!["release greet".to_string(), "close greet.module".to_string()]);
}

#[test]
fn loader_asks_for_each_step_in_order() {
    let f = Fixture::new();
    let mut stage: LoadStage<FakeModule, Extension<Recorder>> = LoadStage::new();
    assert_eq!(stage.next_step(), LoadStep::OpenModule);
    stage = stage.advance(LoadEvent::Opened(f.module("greet.module")));
    assert_eq!(stage.next_step(), LoadStep::ResolveEntry);
    stage = stage.advance(LoadEvent::EntryFound);
    assert_eq!(stage.next_step(), LoadStep::InvokeEntry);
    stage = stage.advance(LoadEvent::EntryReturned(Some(Extension::new(f.extension("greet", Ok(()))))));
    assert_eq!(stage.next_step(), LoadStep::Finished);
    assert!(matches!(stage, LoadStage::Initialized(_, _)));
}

#[test]
fn out_of_order_event_fails_attempt() {
    let f = Fixture::new();
    let stage: LoadStage<FakeModule, Extension<Recorder>> = LoadStage::new();
    let stage = stage.advance(LoadEvent::EntryFound);
    assert!(matches!(stage, LoadStage::Failed(PluginError::InitError)));
    let stage = stage.advance(LoadEvent::Opened(f.module("late.module")));
    assert!(matches!(stage, LoadStage::Failed(PluginError::InitError)));
    assert_eq!(f.log(), vec!["close late.module".to_string()]);
}

#[test]
fn unfinished_attempt_is_init_error() {
    let f = Fixture::new();
    let mut manager: Manager = PluginManager::new();
    let events = vec![LoadEvent::Opened(f.module("half.module")), LoadEvent::EntryFound];
    assert_eq!(load_with(&mut manager, events), Err(PluginError::InitError));
    assert_eq!(manager.len(), 0);
    assert_eq!(f.log(), vec!["close half.module".to_string()]);
}

#[test]
fn failed_attempt_stays_failed() {
    let f = Fixture::new();
    let stage: LoadStage<FakeModule, Extension<Recorder>> = LoadStage::new();
    let stage = stage.advance(LoadEvent::OpenFailed("nope".to_string()));
    let stage = stage.advance(LoadEvent::Opened(f.module("x.module")));
    let stage = stage.advance(LoadEvent::EntryFound);
    assert!(matches!(stage, LoadStage::Failed(PluginError::LoadError(ref d)) if d == "nope"));
    assert_eq!(stage.next_step(), LoadStep::Finished);
}

#[test]
fn extension_keeps_the_name_it_reported() {
    let f = Fixture::new();
    let extension = Extension::new(f.extension("greet", Ok(())));
    assert_eq!(extension.name(), "greet");
    assert_eq!(extension.object().name(), "greet");
    assert!(extension.is_named(&"greet".to_string()));
    assert!(!extension.is_named(&"gree".to_string()));
    assert_eq!(extension.execute(vec!["a".to_string()]), Ok(()));
    assert_eq!(f.calls(), vec![vec!["a".to_string()]]);
}

#[test]
fn later_extension_under_new_name_loads() {
    let f = Fixture::new();
    let mut manager: Manager = PluginManager::new();
    assert_eq!(load_with(&mut manager, conforming(&f, "greet.module", "greet")), Ok(()));
    assert_eq!(load_with(&mut manager, conforming(&f, "bye.module", "bye")), Ok(()));
    assert_eq!(manager.len(), 2);
    assert_eq!(manager.get_plugin("bye").map(|e| e.name()), Some("bye"));
    assert_eq!(manager.get_plugin("greet").map(|e| e.name()), Some("greet"));
}
