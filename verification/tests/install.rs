use vooox::install::{
    cuda_install_result, mkdir_error, on_install_message, pip_missing_error, retry_label,
    step_announcement, step_error, venv_install_steps, venv_install_success_line, InstallEvent,
    InstallMsg, ProcessOutcome,
};

#[test]
fn install_messages() {
    match on_install_message(InstallMsg::Line("x".into())) {
        InstallEvent::Log(l) => assert_eq!(l, "x"),
        _ => panic!("log"),
    }
    assert!(matches!(on_install_message(InstallMsg::Done), InstallEvent::Finished { failed: false, log: None }));
    match on_install_message(InstallMsg::Error("boom".into())) {
        InstallEvent::Finished { failed: true, log: Some(l) } => assert_eq!(l, "\n✗ FEHLER: boom"),
        _ => panic!("error"),
    }
    assert_eq!(retry_label(), "Erneut versuchen");
    assert_eq!(venv_install_success_line(), "✓ Successfully installed vooox dependencies.");
}

#[test]
fn venv_steps() {
    let steps = venv_install_steps("/d/vooox/venv");
    assert_eq!(steps.len(), 3);
    assert_eq!(steps[0].label, "venv anlegen");
    assert_eq!(steps[0].argv, vec!["python3", "-m", "venv", "/d/vooox/venv"]);
    assert_eq!(steps[1].argv, vec!["/d/vooox/venv/bin/pip", "install", "--upgrade", "pip"]);
    assert_eq!(steps[2].label, "faster-whisper installieren");
    assert_eq!(steps[2].argv, vec!["/d/vooox/venv/bin/pip", "install", "faster-whisper", "websockets"]);
    let (a, b) = step_announcement(&steps[1]);
    assert_eq!(a, "$ # pip aktualisieren");
    assert_eq!(b, "$ /d/vooox/venv/bin/pip install --upgrade pip");
}

#[test]
fn step_errors() {
    assert_eq!(step_error("venv anlegen", ProcessOutcome::Exited { success: true, code: Some(0) }), None);
    assert_eq!(
        step_error("venv anlegen", ProcessOutcome::Exited { success: false, code: Some(2) }),
        Some("venv anlegen: exit 2".to_string())
    );
    assert_eq!(
        step_error("x", ProcessOutcome::Exited { success: false, code: None }),
        Some("x: exit -1".to_string())
    );
    assert_eq!(
        step_error("x", ProcessOutcome::Failed("No such file".into())),
        Some("x: No such file".to_string())
    );
    assert_eq!(mkdir_error("/d/vooox", "denied"), "mkdir /d/vooox: denied");
}

#[test]
fn cuda_install_results() {
    assert_eq!(
        pip_missing_error("/v/bin/pip"),
        "pip nicht gefunden unter /v/bin/pip — Setup zuerst abschließen."
    );
    assert!(matches!(cuda_install_result(true, ProcessOutcome::Exited { success: true, code: Some(0) }), InstallMsg::Done));
    match cuda_install_result(true, ProcessOutcome::Exited { success: false, code: Some(1) }) {
        InstallMsg::Error(m) => assert_eq!(m, "pip install exit 1"),
        _ => panic!("error"),
    }
    match cuda_install_result(false, ProcessOutcome::Failed("e".into())) {
        InstallMsg::Error(m) => assert_eq!(m, "pip spawn: e"),
        _ => panic!("error"),
    }
    match cuda_install_result(true, ProcessOutcome::Failed("e".into())) {
        InstallMsg::Error(m) => assert_eq!(m, "pip wait: e"),
        _ => panic!("error"),
    }
}
