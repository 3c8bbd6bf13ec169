use plugin_host::errors::PluginLoadError;
use plugin_host::hello_plugin;
use plugin_host::loader::LoadEvent;
use plugin_host::loader::LoadState;
use plugin_host::loader::Plugin;
use plugin_host::manager::PluginManager;

fn make_plugin(name: &str, version: &str) -> Plugin {
    let events = vec![
        LoadEvent::Opened,
        LoadEvent::Bound,
        LoadEvent::TextRead(String::from(name)),
        LoadEvent::Bound,
        LoadEvent::TextRead(String::from(version)),
        LoadEvent::Bound,
        LoadEvent::Bound,
    ];
    let mut state = LoadState::init();
    for ev in events {
        assert!(state.accepts(&ev));
        state = state.step(ev).unwrap();
    }
    Plugin::new(state).unwrap()
}

fn open_failure(report: &str) -> PluginLoadError {
    PluginLoadError::LibraryLoadFailed(String::from(report))
}

#[test]
fn load_all_keeps_successes_and_failures_apart_in_order() {
    let outcomes = vec![
        (String::from("first"), Ok(make_plugin("alpha", "1.0.0"))),
        (String::from("broken"), Err(open_failure("no such file"))),
        (String::from("second"), Ok(make_plugin("beta", "2.0.0"))),
        (String::from("cracked"), Err(open_failure("bad format"))),
    ];
    let (manager, errors) = PluginManager::new(outcomes);
    assert_eq!(manager.len(), 2);
    assert_eq!(manager.plugin_at(0).get_name(), "alpha");
    assert_eq!(manager.plugin_at(1).get_name(), "beta");
    assert_eq!(errors.len(), 2);
    assert_eq!(errors[0].0, "broken");
    assert_eq!(errors[0].1, open_failure("no such file"));
    assert_eq!(errors[1].0, "cracked");
    assert_eq!(errors[1].1, open_failure("bad format"));
}

#[test]
fn load_all_of_no_outcomes_is_empty() {
    let (manager, errors) = PluginManager::new(Vec::new());
    assert_eq!(manager.len(), 0);
    assert!(errors.is_empty());
}

#[test]
fn start_all_reports_hello_world_plugin() {
    let hello = make_plugin(&hello_plugin::name(), &hello_plugin::version());
    let (manager, errors) = PluginManager::new(vec![(String::from("hello-world"), Ok(hello))]);
    assert!(errors.is_empty());
    let report = manager.start_all(vec![Ok(hello_plugin::start())]);
    assert_eq!(report, vec![(String::from("hello-world-plugin v0.1.0"), 0)]);
}

#[test]
fn stop_all_reports_hello_world_plugin() {
    let hello = make_plugin(&hello_plugin::name(), &hello_plugin::version());
    let (manager, _errors) = PluginManager::new(vec![(String::from("hello-world"), Ok(hello))]);
    let report = manager.stop_all(vec![Ok(hello_plugin::stop())]);
    assert_eq!(report, vec![(String::from("hello-world-plugin v0.1.0"), 0)]);
}

#[test]
fn batch_report_skips_failing_plugins() {
    let outcomes = vec![
        (String::from("first"), Ok(make_plugin("alpha", "1.0.0"))),
        (String::from("second"), Ok(make_plugin("beta", "2.0.0"))),
        (String::from("third"), Ok(make_plugin("gamma", "3.0.0"))),
    ];
    let (manager, _errors) = PluginManager::new(outcomes);
    let statuses = vec![
        Ok(17),
        Err(PluginLoadError::SymbolResolutionFailed(
            plugin_host::loader::SymbolKind::Start,
            String::from("undefined symbol"),
        )),
        Ok(-1),
    ];
    let report = manager.start_all(statuses);
    assert_eq!(report.len(), 2);
    assert_eq!(report[0], (String::from("alpha v1.0.0"), 17));
    assert_eq!(report[1], (String::from("gamma v3.0.0"), -1));
}

#[test]
fn batch_report_of_empty_manager_is_empty() {
    let (manager, _errors) = PluginManager::new(Vec::new());
    let report = manager.start_all(Vec::new());
    assert!(report.is_empty());
}
