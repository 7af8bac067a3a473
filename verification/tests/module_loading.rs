use worker_unit::channel::WorkerChannels;
use worker_unit::errors::LoadError;
use worker_unit::loader::load_graph;
use worker_unit::specifier::ModuleSpecifier;
use worker_unit::worker::EngineAction;
use worker_unit::worker::SessionState;
use worker_unit::worker::Worker;

fn create_test_worker() -> Worker {
    let channels = WorkerChannels::new();
    let state = SessionState::new(
        vec![String::from("./deno"), String::from("hello.js")],
        None,
    );
    Worker::new(String::from("TEST"), Some(Vec::new()), state, channels)
}

#[test]
fn execute_mod_resolve_error() {
    // "does-not-exist" is not a valid module specifier so this should return
    // an error.
    let result = ModuleSpecifier::resolve("does-not-exist");
    assert!(result.is_err());
}

#[test]
fn specifier_is_normalized_by_parsing() {
    let m = ModuleSpecifier::resolve("HTTPS://Example.COM/a/../mod.ts").unwrap();
    assert_eq!(m.as_str(), "https://example.com/mod.ts");
    let n = ModuleSpecifier::resolve("https://example.com/mod.ts").unwrap();
    assert!(m.same_as(&n));
}

#[test]
fn acyclic_graph_resolves_each_specifier_once() {
    let worker = create_test_worker();
    let entry = ModuleSpecifier::resolve("file:///tests/esm_imports_a.js").unwrap();
    let mut load = worker.execute_mod_async(&entry, None, false);

    assert!(!load.is_complete());
    assert_eq!(
        load.next_request().unwrap().as_str(),
        "file:///tests/esm_imports_a.js"
    );
    let r = load.supply(&vec![String::from("file:///tests/esm_imports_b.js")]);
    assert!(r.is_ok());

    assert_eq!(
        load.next_request().unwrap().as_str(),
        "file:///tests/esm_imports_b.js"
    );
    let r = load.supply(&Vec::new());
    assert!(r.is_ok());

    assert!(load.is_complete());
    // two distinct modules in the graph: exactly two resolutions
    assert_eq!(load.resolve_count(), 2);
    assert_eq!(load.loaded_count(), 2);
}

#[test]
fn cyclic_graph_completes_without_reloading() {
    let worker = create_test_worker();
    let entry = ModuleSpecifier::resolve("file:///tests/circular1.ts").unwrap();
    let mut load = worker.execute_mod_async(&entry, None, false);

    // circular1 imports circular2, which imports circular1 right back
    let r = load.supply(&vec![String::from("file:///tests/circular2.ts")]);
    assert!(r.is_ok());
    let r = load.supply(&vec![String::from("file:///tests/circular1.ts")]);
    assert!(r.is_ok());

    // the cycle neither deadlocks the loader nor loads anything twice
    assert!(load.is_complete());
    assert_eq!(load.loaded_count(), 2);
    assert_eq!(load.resolve_count(), 2);
}

#[test]
fn invalid_import_registers_nothing() {
    let worker = create_test_worker();
    let entry = ModuleSpecifier::resolve("file:///main.ts").unwrap();
    let mut load = worker.execute_mod_async(&entry, None, false);

    let r = load.supply(&vec![
        String::from("file:///ok.ts"),
        String::from("not a specifier"),
    ]);
    assert_eq!(r, Err(LoadError::InvalidSpecifier));

    // the module was not partially registered: the loader is as it was
    assert_eq!(load.loaded_count(), 0);
    assert_eq!(load.resolve_count(), 1);
    assert_eq!(load.next_request().unwrap().as_str(), "file:///main.ts");

    // the same module with only valid imports is accepted afterwards
    let r = load.supply(&vec![String::from("file:///ok.ts")]);
    assert!(r.is_ok());
    assert_eq!(load.next_request().unwrap().as_str(), "file:///ok.ts");
}

#[test]
fn prefetch_loads_but_never_evaluates() {
    let mut worker = create_test_worker();
    let entry = ModuleSpecifier::resolve("file:///main.ts").unwrap();
    let mut load = worker.execute_mod_async(&entry, None, true);

    assert!(load.supply(&Vec::new()).is_ok());
    assert!(load.is_complete());

    let action = worker.finish_mod_load(&load);
    assert!(action.is_none());
    assert!(worker.state.progress_done);
    assert_eq!(worker.state.resolve_count, 1);
}

#[test]
fn completed_load_evaluates_the_entry_module() {
    let mut worker = create_test_worker();
    let entry = ModuleSpecifier::resolve("file:///main.ts").unwrap();
    let mut load = worker.execute_mod_async(&entry, None, false);

    assert!(load.supply(&Vec::new()).is_ok());
    assert!(load.is_complete());

    match worker.finish_mod_load(&load) {
        Some(EngineAction::EvaluateModule { specifier }) => {
            assert_eq!(specifier.as_str(), "file:///main.ts");
        }
        other => panic!("expected an evaluation of the entry, got {:?}", other),
    }
    assert!(worker.state.progress_done);
}

#[test]
fn inline_source_replaces_the_entry_fetch() {
    let worker = create_test_worker();
    let entry = ModuleSpecifier::resolve("file:///main.ts").unwrap();
    let mut load = worker.execute_mod_async(
        &entry,
        Some(String::from("export default 1;")),
        false,
    );
    assert_eq!(load.inline_source.as_deref(), Some("export default 1;"));
    assert!(!load.is_prefetch);

    // the first request is the entry, served from the inline source
    assert_eq!(
        load.inline_for_next().map(String::as_str),
        Some("export default 1;")
    );
    assert!(load.supply(&vec![String::from("file:///dep.ts")]).is_ok());

    // every later request must be fetched
    assert!(load.inline_for_next().is_none());
    assert_eq!(load.next_request().unwrap().as_str(), "file:///dep.ts");
}

#[test]
fn dynamic_import_resolves_against_the_referrer() {
    let worker = create_test_worker();

    // an absolute specifier stands alone
    let r = worker.dyn_import(7, "file:///dyn.ts", "file:///main.ts");
    let load = r.unwrap();
    assert_eq!(load.import_id, Some(7));
    assert_eq!(load.referrer.as_deref(), Some("file:///main.ts"));
    assert_eq!(load.entry.as_str(), "file:///dyn.ts");
    assert!(!load.is_prefetch);

    // a relative specifier is joined to the requesting module
    let r = worker.dyn_import(9, "./b.ts", "https://example.com/a/main.ts");
    let load = r.unwrap();
    assert_eq!(load.entry.as_str(), "https://example.com/a/b.ts");
    assert_eq!(load.import_id, Some(9));

    // a pair that does not resolve to a URL is rejected
    let bad = worker.dyn_import(8, "./x.ts", "not a url");
    assert_eq!(bad.unwrap_err(), LoadError::InvalidSpecifier);
}

#[test]
fn load_graph_completes_on_a_cyclic_table() {
    let worker = create_test_worker();
    let entry = ModuleSpecifier::resolve("file:///a.ts").unwrap();
    let mut load = worker.execute_mod_async(&entry, None, false);
    let table = vec![
        (
            ModuleSpecifier::resolve("file:///a.ts").unwrap(),
            vec![String::from("file:///b.ts")],
        ),
        (
            ModuleSpecifier::resolve("file:///b.ts").unwrap(),
            vec![String::from("file:///a.ts"), String::from("file:///c.ts")],
        ),
        (ModuleSpecifier::resolve("file:///c.ts").unwrap(), Vec::new()),
    ];
    assert!(load_graph(&mut load, &table).is_ok());
    assert!(load.is_complete());
    assert_eq!(load.loaded_count(), 3);
    assert_eq!(load.resolve_count(), 3);
}

#[test]
fn load_graph_reports_a_missing_module() {
    let worker = create_test_worker();
    let entry = ModuleSpecifier::resolve("file:///a.ts").unwrap();
    let mut load = worker.execute_mod_async(&entry, None, false);
    let table = vec![(
        ModuleSpecifier::resolve("file:///a.ts").unwrap(),
        vec![String::from("file:///missing.ts")],
    )];
    assert_eq!(load_graph(&mut load, &table), Err(LoadError::FetchFailed));
    assert!(!load.is_complete());
}

#[test]
fn load_graph_rejects_an_invalid_import() {
    let worker = create_test_worker();
    let entry = ModuleSpecifier::resolve("file:///a.ts").unwrap();
    let mut load = worker.execute_mod_async(&entry, None, false);
    let table = vec![(
        ModuleSpecifier::resolve("file:///a.ts").unwrap(),
        vec![String::from("not a specifier")],
    )];
    assert_eq!(load_graph(&mut load, &table), Err(LoadError::InvalidSpecifier));
    assert_eq!(load.loaded_count(), 0);
}
