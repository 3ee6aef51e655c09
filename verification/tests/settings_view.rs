use vooox::gpu::NvidiaHardware;
use vooox::settings_view::{
    cuda_install_done_detail, cuda_install_done_line, cuda_install_failed_detail,
    cuda_install_running_detail, delete_finished_status, download_finished_status,
    download_progress_text, gpu_section_view, languages, microphone_setting, model_size_text,
    model_state_view, shortcut_format_hint, StatusText,
};

#[test]
fn gpu_section_states() {
    let hw = NvidiaHardware::Supported { driver: "535.1".into() };
    let active = gpu_section_view(&hw, true, true);
    assert_eq!(active.status_markup, "Verarbeitung: <b>GPU (CUDA)</b> — Treiber 535.1");
    assert!(!active.install_visible && active.force_cpu_visible);
    let wheels = gpu_section_view(&hw, false, true);
    assert_eq!(wheels.status_markup, "Verarbeitung: <b>CPU</b> (Treiber 535.1, CUDA-Libraries installiert)");
    assert!(!wheels.install_visible && wheels.force_cpu_visible);
    let offer = gpu_section_view(&hw, false, false);
    assert_eq!(offer.status_markup, "Verarbeitung: <b>CPU</b> — GPU verfügbar (Treiber 535.1)");
    assert!(offer.install_visible && !offer.force_cpu_visible);
    let old = gpu_section_view(&NvidiaHardware::DriverTooOld { driver: "470".into() }, false, false);
    assert_eq!(old.status_markup, "Verarbeitung: <b>CPU</b> (Treiber 470 zu alt)");
    let none = gpu_section_view(&NvidiaHardware::Absent, true, true);
    assert_eq!(none.status_markup, "Verarbeitung: <b>CPU</b>");
    assert!(!none.install_visible && !none.force_cpu_visible);
    assert!(cuda_install_running_detail().starts_with("Lade CUDA-"));
    assert!(cuda_install_failed_detail().starts_with("Installation fehlgeschlagen"));
    assert!(cuda_install_done_detail().starts_with("Fertig"));
    assert!(cuda_install_done_line().starts_with("✓ CUDA-Libraries installiert."));
}

#[test]
fn model_state_and_outcomes() {
    let d = model_state_view(true);
    assert_eq!(d.status_markup, "Status: <b>✓ heruntergeladen</b>");
    assert!(!d.download_enabled && d.delete_enabled);
    let m = model_state_view(false);
    assert!(m.download_enabled && !m.delete_enabled);
    assert_eq!(model_size_text("large-v3"), "Größe: ca. 3.0 GB · ca. 5 min bei 100 Mbit");
    assert_eq!(download_progress_text("tiny"), "Lade tiny herunter — kann ein paar Minuten dauern…");
    assert!(matches!(download_finished_status(Some(Ok(()))), StatusText::Markup(ref m) if m == "<b>✓ Download abgeschlossen.</b>"));
    assert!(matches!(download_finished_status(Some(Err("x".into()))), StatusText::Plain(ref m) if m == "✗ x"));
    assert!(matches!(download_finished_status(None), StatusText::Plain(ref m) if m == "✗ Download-Thread abgebrochen."));
    assert!(matches!(delete_finished_status(Ok(())), StatusText::Markup(ref m) if m == "<b>✓ Modell gelöscht.</b>"));
    assert!(matches!(delete_finished_status(Err("e".into())), StatusText::Plain(ref m) if m == "✗ Löschen fehlgeschlagen: e"));
}

#[test]
fn languages_and_microphone() {
    let l = languages();
    assert_eq!(l.len(), 12);
    assert_eq!(l[0], ("auto", "Automatisch erkennen"));
    assert_eq!(l[1], ("de", "Deutsch"));
    assert_eq!(l[11], ("ja", "Japanisch"));
    assert_eq!(microphone_setting(Some("a".into()), Some("b".into())), Some("a".to_string()));
    assert_eq!(microphone_setting(None, Some("b".into())), Some("b".to_string()));
    assert_eq!(microphone_setting(None, None), None);
    assert_eq!(shortcut_format_hint(), "Format: ctrl+shift+space\nMögliche Modifier: ctrl, shift, alt, super");
}
