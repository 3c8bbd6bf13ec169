use plugin_host::errors::PluginLoadError;
use plugin_host::loader::symbol_str;
use plugin_host::loader::SymbolKind;

#[test]
fn message_of_library_load_failure() {
    let err = PluginLoadError::LibraryLoadFailed(String::from("no such file"));
    assert_eq!(err.message(), "error occurred while loading no such file");
}

#[test]
fn message_of_symbol_resolution_failure() {
    let err = PluginLoadError::SymbolResolutionFailed(
        SymbolKind::Start,
        String::from("undefined symbol"),
    );
    assert_eq!(
        err.message(),
        "error occurred while loading a symbol: start: undefined symbol"
    );
}

#[test]
fn message_of_text_decode_failure() {
    let err = PluginLoadError::TextDecodeFailed(String::from("invalid utf-8"));
    assert_eq!(
        err.message(),
        "error occurred while decoding plugin text: invalid utf-8"
    );
}

#[test]
fn symbol_names_are_the_four_exports() {
    assert_eq!(symbol_str(SymbolKind::Name), "name");
    assert_eq!(symbol_str(SymbolKind::Version), "version");
    assert_eq!(symbol_str(SymbolKind::Start), "start");
    assert_eq!(symbol_str(SymbolKind::Stop), "stop");
}
