//! What the settings window shows: the GPU section, the state of the
//! chosen model and the outcome of downloading or deleting it, the
//! languages offered, and the microphone chosen when none is configured.
use vstd::prelude::*;
use crate::gpu::NvidiaHardware;
use crate::models::{duration_label, file_size_label, model_size, size_label};
use crate::text::{chars_of, concat_lit, string_from, surround};

verus! {

fn owned(s: &str) -> (out: String)
    ensures
        out@ == s@,
{
    string_from(chars_of(s).as_slice())
}

/// The GPU section of the Whisper tab.
pub struct GpuSectionView {
    pub status_markup: String,
    pub detail: String,
    pub install_visible: bool,
    pub force_cpu_visible: bool,
}

/// The GPU section for the hardware found, whether the environment's
/// CTranslate2 sees a CUDA device (`cuda_active`) and whether the CUDA
/// wheels are installed.  The install is offered only for a supported
/// driver without the wheels; forcing the CPU only when CUDA can run.
pub fn gpu_section_view(hw: &NvidiaHardware, cuda_active: bool, wheels_installed: bool) -> (v: GpuSectionView)
    ensures
        match *hw {
            NvidiaHardware::Absent => v.status_markup@ == "Verarbeitung: <b>CPU</b>"@ && v.detail@
                == "Keine NVIDIA-GPU im System gefunden — vooox läuft auf der CPU."@,
            NvidiaHardware::NoDriver => v.status_markup@ == "Verarbeitung: <b>CPU</b> (Treiber fehlt)"@
                && v.detail@
                == "NVIDIA-Karte erkannt, aber der proprietäre Treiber ist nicht installiert. Installiere ihn über deinen Paketmanager (z. B. `nvidia-driver-535`) und starte den Rechner neu."@,
            NvidiaHardware::DriverTooOld { driver } => v.status_markup@ == "Verarbeitung: <b>CPU</b> (Treiber "@
                + driver@ + " zu alt)"@ && v.detail@
                == "Der NVIDIA-Treiber muss mindestens Version 525 sein, um CUDA 12 zu unterstützen. Aktualisiere ihn über deinen Paketmanager."@,
            NvidiaHardware::Supported { driver } => if cuda_active {
                v.status_markup@ == "Verarbeitung: <b>GPU (CUDA)</b> — Treiber "@ + driver@ && v.detail@
                    == "GPU-Beschleunigung ist aktiv. Bei größeren Modellen (medium / large-v3) macht das einen spürbaren Unterschied."@
            } else if wheels_installed {
                v.status_markup@ == "Verarbeitung: <b>CPU</b> (Treiber "@ + driver@
                    + ", CUDA-Libraries installiert)"@ && v.detail@
                    == "Die CUDA-Pakete sind installiert, vooox nutzt aber gerade die CPU. Falls die GPU-Deaktivierung aus ist: vooox neu starten — der Sidecar läuft noch mit der alten Konfiguration."@
            } else {
                v.status_markup@ == "Verarbeitung: <b>CPU</b> — GPU verfügbar (Treiber "@ + driver@ + ")"@
                    && v.detail@
                    == "Du kannst die CUDA-Libraries jetzt nachinstallieren, um Transkriptionen deutlich zu beschleunigen. Nach der Installation vooox einmal neu starten."@
            },
        },
        v.install_visible == (hw is Supported && !cuda_active && !wheels_installed),
        v.force_cpu_visible == (hw is Supported && (cuda_active || wheels_installed)),
{
    match hw {
        NvidiaHardware::Absent => GpuSectionView {
            status_markup: owned("Verarbeitung: <b>CPU</b>"),
            detail: owned("Keine NVIDIA-GPU im System gefunden — vooox läuft auf der CPU."),
            install_visible: false,
            force_cpu_visible: false,
        },
        NvidiaHardware::NoDriver => GpuSectionView {
            status_markup: owned("Verarbeitung: <b>CPU</b> (Treiber fehlt)"),
            detail: owned("NVIDIA-Karte erkannt, aber der proprietäre Treiber ist nicht installiert. Installiere ihn über deinen Paketmanager (z. B. `nvidia-driver-535`) und starte den Rechner neu."),
            install_visible: false,
            force_cpu_visible: false,
        },
        NvidiaHardware::DriverTooOld { driver } => GpuSectionView {
            status_markup: surround("Verarbeitung: <b>CPU</b> (Treiber ", driver.as_str(), " zu alt)"),
            detail: owned("Der NVIDIA-Treiber muss mindestens Version 525 sein, um CUDA 12 zu unterstützen. Aktualisiere ihn über deinen Paketmanager."),
            install_visible: false,
            force_cpu_visible: false,
        },
        NvidiaHardware::Supported { driver } => {
            if cuda_active {
                GpuSectionView {
                    status_markup: concat_lit("Verarbeitung: <b>GPU (CUDA)</b> — Treiber ", chars_of(driver.as_str()).as_slice()),
                    detail: owned("GPU-Beschleunigung ist aktiv. Bei größeren Modellen (medium / large-v3) macht das einen spürbaren Unterschied."),
                    install_visible: false,
                    force_cpu_visible: true,
                }
            } else if wheels_installed {
                GpuSectionView {
                    status_markup: surround("Verarbeitung: <b>CPU</b> (Treiber ", driver.as_str(), ", CUDA-Libraries installiert)"),
                    detail: owned("Die CUDA-Pakete sind installiert, vooox nutzt aber gerade die CPU. Falls die GPU-Deaktivierung aus ist: vooox neu starten — der Sidecar läuft noch mit der alten Konfiguration."),
                    install_visible: false,
                    force_cpu_visible: true,
                }
            } else {
                GpuSectionView {
                    status_markup: surround("Verarbeitung: <b>CPU</b> — GPU verfügbar (Treiber ", driver.as_str(), ")"),
                    detail: owned("Du kannst die CUDA-Libraries jetzt nachinstallieren, um Transkriptionen deutlich zu beschleunigen. Nach der Installation vooox einmal neu starten."),
                    install_visible: true,
                    force_cpu_visible: false,
                }
            }
        },
    }
}

/// The texts of the CUDA install in the settings: while it runs, after a
/// failure, and after success (the detail line and the last log line).
pub fn cuda_install_running_detail() -> (s: &'static str)
    ensures
        s@ == "Lade CUDA- und cuDNN-Libraries herunter — kann ein paar Minuten dauern."@,
{
    "Lade CUDA- und cuDNN-Libraries herunter — kann ein paar Minuten dauern."
}

/// The detail line after a failed CUDA install.
pub fn cuda_install_failed_detail() -> (s: &'static str)
    ensures
        s@ == "Installation fehlgeschlagen — Details siehe Log oben."@,
{
    "Installation fehlgeschlagen — Details siehe Log oben."
}

/// The detail line after a successful CUDA install.
pub fn cuda_install_done_detail() -> (s: &'static str)
    ensures
        s@ == "Fertig — vooox einmal neu starten, dann läuft die Transkription auf der GPU."@,
{
    "Fertig — vooox einmal neu starten, dann läuft die Transkription auf der GPU."
}

/// The last log line of a successful CUDA install.
pub fn cuda_install_done_line() -> (s: &'static str)
    ensures
        s@ == "✓ CUDA-Libraries installiert. vooox neu starten, damit der Sidecar die GPU benutzt."@,
{
    "✓ CUDA-Libraries installiert. vooox neu starten, damit der Sidecar die GPU benutzt."
}

// ───────────────────────────── model ─────────────────────────────

/// The state of the chosen model.
pub struct ModelStateView {
    pub status_markup: &'static str,
    pub download_enabled: bool,
    pub delete_enabled: bool,
}

/// A downloaded model can be deleted, a missing one downloaded.
pub fn model_state_view(downloaded: bool) -> (v: ModelStateView)
    ensures
        v.status_markup@ == if downloaded {
            "Status: <b>✓ heruntergeladen</b>"@
        } else {
            "Status: <b>✗ nicht vorhanden</b>"@
        },
        v.download_enabled == !downloaded,
        v.delete_enabled == downloaded,
{
    if downloaded {
        ModelStateView { status_markup: "Status: <b>✓ heruntergeladen</b>", download_enabled: false, delete_enabled: true }
    } else {
        ModelStateView { status_markup: "Status: <b>✗ nicht vorhanden</b>", download_enabled: true, delete_enabled: false }
    }
}

/// The size line of model `id`.
pub fn model_size_text(id: &str) -> (out: String)
    ensures
        out@ == "Größe: "@ + match model_size(id@) {
            Some(size) => file_size_label(size) + " · "@ + duration_label(size) + " bei 100 Mbit"@,
            None => "unbekannte Größe"@,
        },
{
    let label = size_label(id);
    concat_lit("Größe: ", chars_of(label.as_str()).as_slice())
}

/// The status while model `id` downloads.
pub fn download_progress_text(id: &str) -> (out: String)
    ensures
        out@ == "Lade "@ + id@ + " herunter — kann ein paar Minuten dauern…"@,
{
    surround("Lade ", id, " herunter — kann ein paar Minuten dauern…")
}

/// A status line, as Pango markup or as plain text.
pub enum StatusText {
    Markup(String),
    Plain(String),
}

/// The status after a download: the result the download thread sent, or
/// `None` when it ended without one.
pub fn download_finished_status(result: Option<Result<(), String>>) -> (t: StatusText)
    ensures
        match result {
            Some(Ok(())) => t matches StatusText::Markup(m) && m@ == "<b>✓ Download abgeschlossen.</b>"@,
            Some(Err(e)) => t matches StatusText::Plain(m) && m@ == "✗ "@ + e@,
            None => t matches StatusText::Plain(m) && m@ == "✗ Download-Thread abgebrochen."@,
        },
{
    match result {
        Some(Ok(())) => StatusText::Markup(owned("<b>✓ Download abgeschlossen.</b>")),
        Some(Err(e)) => StatusText::Plain(concat_lit("✗ ", chars_of(e.as_str()).as_slice())),
        None => StatusText::Plain(owned("✗ Download-Thread abgebrochen.")),
    }
}

/// The status after deleting the model's cache.
pub fn delete_finished_status(result: Result<(), String>) -> (t: StatusText)
    ensures
        match result {
            Ok(()) => t matches StatusText::Markup(m) && m@ == "<b>✓ Modell gelöscht.</b>"@,
            Err(e) => t matches StatusText::Plain(m) && m@ == "✗ Löschen fehlgeschlagen: "@ + e@,
        },
{
    match result {
        Ok(()) => StatusText::Markup(owned("<b>✓ Modell gelöscht.</b>")),
        Err(e) => StatusText::Plain(concat_lit("✗ Löschen fehlgeschlagen: ", chars_of(e.as_str()).as_slice())),
    }
}

/// The transcription languages offered, as (code, name).
pub open spec fn language_table() -> Seq<(Seq<char>, Seq<char>)> {
    seq![
        ("auto"@, "Automatisch erkennen"@),
        ("de"@, "Deutsch"@),
        ("en"@, "Englisch"@),
        ("fr"@, "Französisch"@),
        ("es"@, "Spanisch"@),
        ("it"@, "Italienisch"@),
        ("pt"@, "Portugiesisch"@),
        ("nl"@, "Niederländisch"@),
        ("pl"@, "Polnisch"@),
        ("ru"@, "Russisch"@),
        ("zh"@, "Chinesisch"@),
        ("ja"@, "Japanisch"@),
    ]
}

/// The languages the language list offers, in order.
pub fn languages() -> (v: Vec<(&'static str, &'static str)>)
    ensures
        v@.len() == language_table().len(),
        forall|i: int| 0 <= i < v@.len() ==> (#[trigger] v@[i]).0@ == language_table()[i].0
            && v@[i].1@ == language_table()[i].1,
{
    let v = vec![
        ("auto", "Automatisch erkennen"),
        ("de", "Deutsch"),
        ("en", "Englisch"),
        ("fr", "Französisch"),
        ("es", "Spanisch"),
        ("it", "Italienisch"),
        ("pt", "Portugiesisch"),
        ("nl", "Niederländisch"),
        ("pl", "Polnisch"),
        ("ru", "Russisch"),
        ("zh", "Chinesisch"),
        ("ja", "Japanisch"),
    ];
    assert(v@.len() == 12);
    v
}

// ───────────────────────────── microphone ─────────────────────────────

/// The microphone setting after the microphone tab opened: the configured
/// one, or else the device the tab selected.
pub fn microphone_setting(configured: Option<String>, effective: Option<String>) -> (r: Option<String>)
    ensures
        r == match configured {
            Some(c) => Some(c),
            None => effective,
        },
{
    match configured {
        Some(c) => Some(c),
        None => effective,
    }
}

/// The shortcut tab's explanation.
pub fn shortcut_format_hint() -> (s: &'static str)
    ensures
        s@ == "Format: ctrl+shift+space\nMögliche Modifier: ctrl, shift, alt, super"@,
{
    "Format: ctrl+shift+space\nMögliche Modifier: ctrl, shift, alt, super"
}

} // verus!
