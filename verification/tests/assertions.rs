use plugin_assert::App;
use plugin_assert::AssertPluginAppExt;
use plugin_assert::FrameCountPlugin;
use plugin_assert::MyPlugin;
use plugin_assert::PbrPlugin;
use plugin_assert::TaskPoolPlugin;
use plugin_assert::TimePlugin;
use plugin_assert::TypeRegistrationPlugin;

#[test]
fn test_minimal_plugins() {
    let mut app = App::new();
    app.add_minimal_plugins();
    app.assert_plugin::<TaskPoolPlugin>();
    app.assert_plugin::<TypeRegistrationPlugin>();
    app.assert_plugin::<FrameCountPlugin>();
    app.assert_plugin::<TimePlugin>();
}

#[test]
fn test_assert_else_fallback() {
    let mut app = App::new();
    app.assert_plugin_else(|| MyPlugin);
    app.assert_plugin::<MyPlugin>();
}

#[test]
fn test_assert_else_default() {
    let mut app = App::new();
    app.assert_plugin_else_default::<MyPlugin>();
    app.assert_plugin::<MyPlugin>();
}

#[test]
fn new_app_has_no_plugins() {
    let app = App::new();
    assert!(!app.has_plugin::<TaskPoolPlugin>());
    assert!(!app.has_plugin::<MyPlugin>());
}

#[test]
fn minimal_plugins_leave_render_out() {
    let mut app = App::new();
    app.add_minimal_plugins();
    assert!(app.has_plugin::<TaskPoolPlugin>());
    assert!(!app.has_plugin::<PbrPlugin>());
}

#[test]
fn fallback_skips_constructor_when_present() {
    let mut app = App::new();
    app.add_plugin(MyPlugin);
    app.assert_plugin_else(|| -> MyPlugin { panic!("the constructor must not run") });
    assert!(app.has_plugin::<MyPlugin>());
}

#[test]
fn fallback_runs_constructor_once_when_absent() {
    let mut app = App::new();
    let mut runs: u32 = 0;
    app.assert_plugin_else(|| {
        runs += 1;
        MyPlugin
    });
    assert_eq!(runs, 1);
    assert!(app.has_plugin::<MyPlugin>());
}

#[test]
fn default_fallback_skips_when_present() {
    let mut app = App::new();
    app.add_plugin(MyPlugin);
    app.assert_plugin_else_default::<MyPlugin>();
    assert!(app.has_plugin::<MyPlugin>());
}

#[test]
fn registering_keeps_earlier_plugins() {
    let mut app = App::new();
    app.add_minimal_plugins();
    app.assert_plugin_else(|| MyPlugin);
    assert!(app.has_plugin::<TaskPoolPlugin>());
    assert!(app.has_plugin::<TimePlugin>());
    assert!(app.has_plugin::<MyPlugin>());
}

#[test]
fn assert_plugin_supports_chaining() {
    let mut app = App::new();
    app.add_minimal_plugins();
    app.assert_plugin::<TaskPoolPlugin>().assert_plugin::<TimePlugin>();
}
