use plugin_host::errors::PluginLoadError;
use plugin_host::loader::LoadAction;
use plugin_host::loader::LoadEvent;
use plugin_host::loader::LoadState;
use plugin_host::loader::Plugin;
use plugin_host::loader::SymbolKind;

fn run(events: Vec<LoadEvent>) -> Result<LoadState, PluginLoadError> {
    let mut state = LoadState::init();
    for ev in events {
        assert!(state.accepts(&ev));
        state = state.step(ev)?;
    }
    Ok(state)
}

fn success_events(name: &str, version: &str) -> Vec<LoadEvent> {
    vec![
        LoadEvent::Opened,
        LoadEvent::Bound,
        LoadEvent::TextRead(String::from(name)),
        LoadEvent::Bound,
        LoadEvent::TextRead(String::from(version)),
        LoadEvent::Bound,
        LoadEvent::Bound,
    ]
}

#[test]
fn valid_library_yields_plugin_with_its_texts() {
    let state = run(success_events("alpha", "1.2.3")).unwrap();
    assert!(state.is_ready());
    let plugin = Plugin::new(state).unwrap();
    assert_eq!(plugin.get_name(), "alpha");
    assert_eq!(plugin.get_version(), "1.2.3");
}

#[test]
fn missing_file_fails_with_library_load_failed() {
    let result = run(vec![LoadEvent::OpenFailed(String::from("no such file"))]);
    assert_eq!(
        result,
        Err(PluginLoadError::LibraryLoadFailed(String::from(
            "no such file"
        )))
    );
}

#[test]
fn missing_symbol_fails_naming_that_symbol() {
    let cases = [
        (SymbolKind::Name, 1),
        (SymbolKind::Version, 3),
        (SymbolKind::Start, 5),
        (SymbolKind::Stop, 6),
    ];
    for (kind, successes) in cases {
        let mut events = success_events("alpha", "1.2.3");
        events.truncate(successes);
        events.push(LoadEvent::BindFailed(String::from("undefined symbol")));
        let result = run(events);
        assert_eq!(
            result,
            Err(PluginLoadError::SymbolResolutionFailed(
                kind,
                String::from("undefined symbol")
            ))
        );
    }
}

#[test]
fn undecodable_text_fails_with_text_decode_failed() {
    let events = vec![
        LoadEvent::Opened,
        LoadEvent::Bound,
        LoadEvent::TextFailed(String::from("invalid utf-8")),
    ];
    assert_eq!(
        run(events),
        Err(PluginLoadError::TextDecodeFailed(String::from(
            "invalid utf-8"
        )))
    );
}

#[test]
fn protocol_asks_for_the_seven_steps_in_order() {
    let mut state = LoadState::init();
    let expected = [
        LoadAction::OpenLibrary,
        LoadAction::BindSymbol(SymbolKind::Name),
        LoadAction::ReadText(SymbolKind::Name),
        LoadAction::BindSymbol(SymbolKind::Version),
        LoadAction::ReadText(SymbolKind::Version),
        LoadAction::BindSymbol(SymbolKind::Start),
        LoadAction::BindSymbol(SymbolKind::Stop),
    ];
    for (action, ev) in expected.into_iter().zip(success_events("alpha", "1.2.3")) {
        assert_eq!(state.next_action(), action);
        state = state.step(ev).unwrap();
    }
    assert_eq!(state.next_action(), LoadAction::Done);
    assert!(state.is_ready());
}

#[test]
fn unfinished_state_yields_no_plugin() {
    assert!(Plugin::new(LoadState::init()).is_none());
    let halfway = run(vec![LoadEvent::Opened, LoadEvent::Bound]).unwrap();
    assert!(!halfway.is_ready());
    assert!(Plugin::new(halfway).is_none());
}

#[test]
fn mismatched_event_is_not_accepted() {
    let state = LoadState::init();
    assert!(!state.accepts(&LoadEvent::Bound));
    assert!(state.accepts(&LoadEvent::Opened));
    assert!(state.accepts(&LoadEvent::OpenFailed(String::from("denied"))));
}

#[test]
fn accessors_return_the_same_value_on_every_call() {
    let plugin = Plugin::new(run(success_events("alpha", "1.2.3")).unwrap()).unwrap();
    let first_name = plugin.get_name().clone();
    let second_name = plugin.get_name().clone();
    assert_eq!(first_name, second_name);
    let first_version = plugin.get_version().clone();
    let second_version = plugin.get_version().clone();
    assert_eq!(first_version, second_version);
}

#[test]
fn display_id_is_name_space_v_version() {
    let plugin = Plugin::new(run(success_events("alpha", "1.2.3")).unwrap()).unwrap();
    assert_eq!(plugin.display_id(), "alpha v1.2.3");
}
