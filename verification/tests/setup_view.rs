use vooox::gpu::NvidiaHardware;
use vooox::setup_view::{
    default_setup_model, first_page, gpu_install_button_label, gpu_page_install_success_line,
    gpu_page_view, gpu_ready, heading_markup, install_info_text, model_choice_label,
    model_download_markup, model_recommendation_markup, python_version_outcome,
    ready_page_markup, runtime_error, setup_download_outcome, setup_download_status,
    sidecar_start_error, status_icon_markup, system_check_view, venv_check_outcome,
    SetupDownloadOutcome, Status,
};

#[test]
fn status_rows() {
    assert_eq!(
        status_icon_markup(Status::Success),
        "<span foreground='#26a269' weight='bold' size='large'>✓</span>"
    );
    assert_eq!(Status::Warn.icon(), "⚠");
    assert_eq!(Status::Error.color(), "#c01c28");
    assert_eq!(Status::Info.icon(), "ℹ");
    assert_eq!(heading_markup("1 · System prüfen"), "<span size='x-large' weight='bold'>1 · System prüfen</span>");
}

#[test]
fn python_outcomes() {
    assert_eq!(python_version_outcome(false, false, b"", b""), Err("python3 nicht gefunden".to_string()));
    assert_eq!(python_version_outcome(true, false, b"", b""), Err("python3 nicht ausführbar".to_string()));
    assert_eq!(python_version_outcome(true, true, b"Python 3.12.3\n", b""), Ok("3.12.3".to_string()));
    assert_eq!(venv_check_outcome("3.12.3".into(), Ok(true)), Ok("3.12.3".to_string()));
    assert_eq!(
        venv_check_outcome("3.12.3".into(), Ok(false)),
        Err("python3 ist da, aber das venv-Modul fehlt.".to_string())
    );
    assert_eq!(
        venv_check_outcome("3.12.3".into(), Err("boom".into())),
        Err("python3 -m venv: boom".to_string())
    );
}

#[test]
fn system_check_page() {
    let ok = system_check_view(Ok("3.11.2".into()), true, false, None);
    assert_eq!(ok.python.status, Status::Success);
    assert_eq!(ok.python.markup, "Python <b>3.11.2</b> mit <tt>venv</tt>-Modul gefunden.");
    assert_eq!(ok.xdotool.status, Status::Success);
    assert_eq!(ok.ydotool.status, Status::Info);
    assert_eq!(ok.instructions, "");
    assert!(ok.next_enabled);
    let bad = system_check_view(Err("python3 nicht gefunden".into()), false, true, Some("ID=fedora\n"));
    assert_eq!(bad.python.status, Status::Error);
    assert_eq!(bad.python.markup, "<b>Python:</b> python3 nicht gefunden");
    assert_eq!(bad.xdotool.status, Status::Warn);
    assert_eq!(
        bad.xdotool.markup,
        "<tt>xdotool</tt> nicht gefunden — Auto-Paste &amp; Fenster-Positionierung deaktiviert."
    );
    assert_eq!(bad.ydotool.markup, "<tt>ydotool</tt> gefunden — Text-Injection unter Wayland möglich.");
    assert!(bad.instructions.contains("<tt>sudo dnf install python3</tt>"));
    assert!(!bad.next_enabled);
}

#[test]
fn gpu_page_states() {
    let none = gpu_page_view(&NvidiaHardware::Absent, true);
    assert_eq!(none.status, Status::Info);
    assert!(!none.install_visible && !none.skip_visible && none.next_visible);
    let old = gpu_page_view(&NvidiaHardware::DriverTooOld { driver: "470.1".into() }, false);
    assert_eq!(old.status, Status::Warn);
    assert_eq!(old.status_markup, "NVIDIA-Treiber <b>470.1</b> ist zu alt — CUDA 12 braucht mindestens Version 525.");
    let offer = gpu_page_view(&NvidiaHardware::Supported { driver: "535.1".into() }, false);
    assert_eq!(offer.status, Status::Success);
    assert_eq!(offer.status_markup, "NVIDIA-GPU erkannt — Treiber <b>535.1</b> unterstützt CUDA 12.");
    assert!(offer.install_visible && offer.skip_visible && !offer.next_visible);
    let done = gpu_page_view(&NvidiaHardware::Supported { driver: "535.1".into() }, true);
    assert_eq!(done.status_markup, "GPU-Beschleunigung eingerichtet — Treiber <b>535.1</b>, CUDA-Libraries installiert.");
    assert!(!done.install_visible && done.next_visible);
    let nodriver = gpu_page_view(&NvidiaHardware::NoDriver, false);
    assert!(nodriver.detail_markup.contains("\n\n<b>Empfehlung für jetzt:</b>"));
    assert_eq!(gpu_install_button_label(), "GPU-Unterstützung installieren (ca. 2,2 GB)");
    assert_eq!(gpu_page_install_success_line(), "✓ CUDA-Libraries installiert. GPU-Beschleunigung ist aktiv.");
}

#[test]
fn model_page() {
    let hw = NvidiaHardware::Supported { driver: "550".into() };
    assert!(gpu_ready(&hw, true));
    assert!(!gpu_ready(&hw, false));
    assert!(!gpu_ready(&NvidiaHardware::NoDriver, true));
    assert_eq!(default_setup_model(true), "medium");
    assert_eq!(default_setup_model(false), "small");
    assert!(model_recommendation_markup(false).starts_with("<b>Empfehlung (CPU-only):</b>"));
    assert_eq!(model_choice_label("medium"), "medium — ca. 1.5 GB");
    assert_eq!(model_choice_label("foo"), "foo — ?");
    assert_eq!(model_download_markup("small"), "<b>Lädt ca. 480 MB · unter 1 min bei 100 Mbit herunter.</b>");
    assert_eq!(
        setup_download_status("small"),
        "Lade small herunter — das kann eine Weile dauern. Bitte nicht schließen."
    );
    assert!(matches!(setup_download_outcome(Some(Ok(()))), SetupDownloadOutcome::Ready));
    match setup_download_outcome(Some(Err("x".into()))) {
        SetupDownloadOutcome::Failed(t) => assert_eq!(t, "✗ Fehler: x"),
        _ => panic!("failed"),
    }
    match setup_download_outcome(None) {
        SetupDownloadOutcome::Failed(t) => assert_eq!(t, "✗ Download-Thread abgebrochen."),
        _ => panic!("failed"),
    }
    assert_eq!(sidecar_start_error("e"), "Sidecar-Start fehlgeschlagen: e");
    assert_eq!(runtime_error("e"), "Tokio-Runtime: e");
    assert!(ready_page_markup("ctrl+shift+space").contains("standardmäßig <tt>ctrl+shift+space</tt> — kurz"));
    assert_eq!(first_page(true), "gpu");
    assert_eq!(first_page(false), "check");
    assert_eq!(
        install_info_text("/d/venv"),
        "Es wird eine isolierte Python-Umgebung unter\n/d/venv\nangelegt und faster-whisper installiert (ca. 600 MB Download, dauert ein paar Minuten)."
    );
}
