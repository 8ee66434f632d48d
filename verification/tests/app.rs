use bevy::app::App;
use bevy::MinimalPlugins;

#[test]
fn app_can_be_created() {
    let mut app = App::new();
    app.add_plugins(MinimalPlugins);
}

#[test]
fn minimal_app_can_update() {
    let mut app = App::new();
    app.add_plugins(MinimalPlugins);

    for _ in 0..10 {
        app.update();
    }
}

#[test]
fn app_builds_without_panic() {
    let _app = App::new();
}
