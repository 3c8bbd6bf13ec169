use plugin_host::hello_plugin;

#[test]
fn hello_plugin_name_and_version() {
    assert_eq!(hello_plugin::name(), "hello-world-plugin");
    assert_eq!(hello_plugin::version(), "0.1.0");
}

#[test]
fn hello_plugin_lifecycle_codes_mean_success() {
    assert_eq!(hello_plugin::start(), 0);
    assert_eq!(hello_plugin::stop(), 0);
}
