use plugin_host::naming::get_lib_name;
use plugin_host::naming::Platform;

#[test]
fn lib_name_unix_plain_identifier() {
    assert_eq!(get_lib_name("plugin", Platform::Unix), "plugin.so");
}

#[test]
fn lib_name_windows_plain_identifier() {
    assert_eq!(get_lib_name("plugin", Platform::Windows), "plugin.dll");
}

#[test]
fn lib_name_keeps_final_segment_only() {
    assert_eq!(get_lib_name("bundle.plugin", Platform::Unix), "plugin.so");
    assert_eq!(get_lib_name("a.b.c", Platform::Unix), "c.so");
    assert_eq!(get_lib_name("a.b.c", Platform::Windows), "c.dll");
}

#[test]
fn lib_name_trailing_dot_leaves_empty_segment() {
    assert_eq!(get_lib_name("plugin.", Platform::Unix), ".so");
}

#[test]
fn lib_name_is_deterministic() {
    let first = get_lib_name("hello-world", Platform::Unix);
    let second = get_lib_name("hello-world", Platform::Unix);
    assert_eq!(first, second);
    assert_eq!(first, "hello-world.so");
}
