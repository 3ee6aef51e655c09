use vooox::paths::{
    autostart_path, config_dir, config_path, data_dir, hf_hub_root, history_path, python_command,
    setup_marker, state_path, venv_dir, venv_pip, venv_python, Environment,
};

fn env(config: Option<&str>, data: Option<&str>, home: Option<&str>) -> Environment {
    Environment {
        xdg_config_home: config.map(|s| s.to_string()),
        xdg_data_home: data.map(|s| s.to_string()),
        home: home.map(|s| s.to_string()),
    }
}

#[test]
fn data_dir_uses_xdg_data_home() {
    let e = env(None, Some("/tmp/xyz"), Some("/home/u"));
    assert_eq!(data_dir(&e), "/tmp/xyz/vooox");
}

#[test]
fn data_dir_falls_back_to_home() {
    let e = env(None, None, Some("/tmp/abc"));
    assert_eq!(data_dir(&e), "/tmp/abc/.local/share/vooox");
}

#[test]
fn paths_under_the_data_dir() {
    let e = env(None, Some("/d/"), None);
    assert_eq!(venv_dir(&e), "/d/vooox/venv");
    assert_eq!(venv_python(&e), "/d/vooox/venv/bin/python");
    assert_eq!(venv_pip(&e), "/d/vooox/venv/bin/pip");
    assert_eq!(setup_marker(&e), "/d/vooox/.setup_complete");
    assert_eq!(history_path(&e), "/d/vooox/history.jsonl");
    assert_eq!(state_path(&e), "/d/vooox/window_state.json");
}

#[test]
fn config_paths() {
    let e = env(Some("/c"), None, Some("/home/u"));
    assert_eq!(config_dir(&e), "/c/vooox");
    assert_eq!(config_path(&e), "/c/vooox/config.toml");
    assert_eq!(autostart_path(&e), "/c/autostart/vooox.desktop");
    let f = env(None, None, None);
    assert_eq!(config_path(&f), "/tmp/.config/vooox/config.toml");
    assert_eq!(hf_hub_root(&f), "/tmp/.cache/huggingface/hub");
}

#[test]
fn python_command_prefers_the_venv() {
    let e = env(None, Some("/d"), None);
    assert_eq!(python_command(&e, true), "/d/vooox/venv/bin/python");
    assert_eq!(python_command(&e, false), "python3");
}
