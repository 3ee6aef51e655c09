//! What the first-run setup wizard shows: the status rows of the system
//! check, the steps of the Python environment install and how their
//! progress is reported, the GPU page and the model page.  The
//! application builds the GTK widgets, runs the commands and hands the
//! results in.
use vstd::prelude::*;
use crate::gpu::{estimated_download_label, NvidiaHardware};
use crate::models::{duration_label, file_size_label, model_size, size_label, size_label_short};
use crate::setup::{check_python_version, distro_id_spec, install_instructions_markup, install_instructions_spec, python_check_spec};
use crate::text::{chars_of, concat_lit, extend_chars, string_from, surround};

verus! {

/// The kind of a status row.
#[derive(Debug, Clone, Copy, PartialEq, Eq, Structural)]
pub enum Status {
    Success,
    Warn,
    Info,
    Error,
}

pub open spec fn status_icon(s: Status) -> Seq<char> {
    match s {
        Status::Success => "✓"@,
        Status::Warn => "⚠"@,
        Status::Info => "ℹ"@,
        Status::Error => "✗"@,
    }
}

pub open spec fn status_color(s: Status) -> Seq<char> {
    match s {
        Status::Success => "#26a269"@,
        Status::Warn => "#e5a50a"@,
        Status::Info => "#9a9996"@,
        Status::Error => "#c01c28"@,
    }
}

impl Status {
    /// The symbol shown for the status.
    pub fn icon(self) -> (s: &'static str)
        ensures
            s@ == status_icon(self),
    {
        match self {
            Status::Success => "✓",
            Status::Warn => "⚠",
            Status::Info => "ℹ",
            Status::Error => "✗",
        }
    }

    /// The colour of the symbol.
    pub fn color(self) -> (s: &'static str)
        ensures
            s@ == status_color(self),
    {
        match self {
            Status::Success => "#26a269",
            Status::Warn => "#e5a50a",
            Status::Info => "#9a9996",
            Status::Error => "#c01c28",
        }
    }
}

/// The Pango markup of a status row's symbol.
pub fn status_icon_markup(status: Status) -> (out: String)
    ensures
        out@ == "<span foreground='"@ + status_color(status) + "' weight='bold' size='large'>"@
            + status_icon(status) + "</span>"@,
{
    let mut v = chars_of("<span foreground='");
    extend_chars(&mut v, chars_of(status.color()).as_slice());
    extend_chars(&mut v, chars_of("' weight='bold' size='large'>").as_slice());
    extend_chars(&mut v, chars_of(status.icon()).as_slice());
    extend_chars(&mut v, chars_of("</span>").as_slice());
    string_from(v.as_slice())
}

/// The markup of a page heading.
pub fn heading_markup(text: &str) -> (out: String)
    ensures
        out@ == "<span size='x-large' weight='bold'>"@ + text@ + "</span>"@,
{
    surround("<span size='x-large' weight='bold'>", text, "</span>")
}

// ───────────────────────────── system check ─────────────────────────────

/// The outcome of running `python3 --version`: `spawned` is whether the
/// command could be started, `success` whether it exited successfully.
pub fn python_version_outcome(spawned: bool, success: bool, stdout: &[u8], stderr: &[u8]) -> (r: Result<String, String>)
    ensures
        !spawned ==> (r matches Err(e) && e@ == "python3 nicht gefunden"@),
        spawned && !success ==> (r matches Err(e) && e@ == "python3 nicht ausführbar"@),
        spawned && success ==> match python_check_spec(stdout@, stderr@) {
            Ok(v) => r matches Ok(s) && s@ == v,
            Err(m) => r matches Err(e) && e@ == m,
        },
{
    if !spawned {
        return Err(string_from(chars_of("python3 nicht gefunden").as_slice()));
    }
    if !success {
        return Err(string_from(chars_of("python3 nicht ausführbar").as_slice()));
    }
    check_python_version(stdout, stderr)
}

/// The outcome of the check for the `venv` module after the version
/// `version` passed: `venv` is whether `python3 -m venv --help` succeeded,
/// or why it could not be run.
pub fn venv_check_outcome(version: String, venv: Result<bool, String>) -> (r: Result<String, String>)
    ensures
        match venv {
            Ok(true) => r matches Ok(s) && s@ == version@,
            Ok(false) => r matches Err(e) && e@ == "python3 ist da, aber das venv-Modul fehlt."@,
            Err(m) => r matches Err(e) && e@ == "python3 -m venv: "@ + m@,
        },
{
    match venv {
        Ok(true) => Ok(version),
        Ok(false) => Err(string_from(chars_of("python3 ist da, aber das venv-Modul fehlt.").as_slice())),
        Err(m) => Err(concat_lit("python3 -m venv: ", chars_of(m.as_str()).as_slice())),
    }
}

/// One row of the system check.
pub struct StatusLine {
    pub status: Status,
    pub markup: String,
}

/// The system check page.
pub struct SystemCheckView {
    pub python: StatusLine,
    pub xdotool: StatusLine,
    pub ydotool: StatusLine,
    /// The install instructions; empty when Python is fine.
    pub instructions: String,
    /// Whether the user may go on.
    pub next_enabled: bool,
}

/// The system check page from the Python check, whether `xdotool` and
/// `ydotool` are installed, and the content of `/etc/os-release`.
pub fn system_check_view(python: Result<String, String>, has_xdotool: bool, has_ydotool: bool, os_release: Option<&str>) -> (v: SystemCheckView)
    ensures
        match python {
            Ok(version) => v.python.status == Status::Success && v.python.markup@ == "Python <b>"@
                + version@ + "</b> mit <tt>venv</tt>-Modul gefunden."@ && v.instructions@
                == Seq::<char>::empty() && v.next_enabled,
            Err(reason) => v.python.status == Status::Error && v.python.markup@
                == "<b>Python:</b> "@ + reason@ && v.instructions@ == install_instructions_spec(
                distro_id_spec(
                    match os_release {
                        Some(t) => Some(t@),
                        None => None,
                    },
                ),
            ) && !v.next_enabled,
        },
        has_xdotool ==> v.xdotool.status == Status::Success && v.xdotool.markup@
            == "<tt>xdotool</tt> gefunden — Auto-Paste &amp; Fenster-Positionierung verfügbar."@,
        !has_xdotool ==> v.xdotool.status == Status::Warn && v.xdotool.markup@
            == "<tt>xdotool</tt> nicht gefunden — Auto-Paste &amp; Fenster-Positionierung deaktiviert."@,
        has_ydotool ==> v.ydotool.status == Status::Success && v.ydotool.markup@
            == "<tt>ydotool</tt> gefunden — Text-Injection unter Wayland möglich."@,
        !has_ydotool ==> v.ydotool.status == Status::Info && v.ydotool.markup@
            == "<tt>ydotool</tt> nicht gefunden — nur relevant für native Wayland-Apps."@,
{
    let (python_line, instructions, next_enabled) = match python {
        Ok(version) => (
            StatusLine {
                status: Status::Success,
                markup: surround("Python <b>", version.as_str(), "</b> mit <tt>venv</tt>-Modul gefunden."),
            },
            String::new(),
            true,
        ),
        Err(reason) => (
            StatusLine {
                status: Status::Error,
                markup: concat_lit("<b>Python:</b> ", chars_of(reason.as_str()).as_slice()),
            },
            install_instructions_markup(os_release),
            false,
        ),
    };
    let xdotool = if has_xdotool {
        StatusLine {
            status: Status::Success,
            markup: string_from(chars_of("<tt>xdotool</tt> gefunden — Auto-Paste &amp; Fenster-Positionierung verfügbar.").as_slice()),
        }
    } else {
        StatusLine {
            status: Status::Warn,
            markup: string_from(chars_of("<tt>xdotool</tt> nicht gefunden — Auto-Paste &amp; Fenster-Positionierung deaktiviert.").as_slice()),
        }
    };
    let ydotool = if has_ydotool {
        StatusLine {
            status: Status::Success,
            markup: string_from(chars_of("<tt>ydotool</tt> gefunden — Text-Injection unter Wayland möglich.").as_slice()),
        }
    } else {
        StatusLine {
            status: Status::Info,
            markup: string_from(chars_of("<tt>ydotool</tt> nicht gefunden — nur relevant für native Wayland-Apps.").as_slice()),
        }
    };
    SystemCheckView { python: python_line, xdotool, ydotool, instructions, next_enabled }
}

// ───────────────────────────── GPU page ─────────────────────────────

/// The GPU page of the wizard.
pub struct GpuPageView {
    pub status: Status,
    pub status_markup: String,
    pub detail_markup: String,
    pub install_visible: bool,
    pub skip_visible: bool,
    pub next_visible: bool,
}

/// The GPU page for the hardware found and whether the CUDA wheels are
/// installed: a supported driver without the wheels offers the install
/// (and skipping it); every other state only goes on.
pub fn gpu_page_view(hw: &NvidiaHardware, wheels_installed: bool) -> (v: GpuPageView)
    ensures
        match *hw {
            NvidiaHardware::Absent => v.status == Status::Info && v.status_markup@
                == "Keine NVIDIA-GPU im System gefunden — vooox läuft auf der CPU."@ && v.detail_markup@
                == "<b>Empfehlung:</b> Wähle auf der nächsten Seite ein kleines Modell (<tt>tiny</tt> oder <tt>small</tt>). Größere Modelle wären auf der CPU deutlich zu langsam für flüssiges Diktieren."@,
            NvidiaHardware::NoDriver => v.status == Status::Warn && v.status_markup@
                == "NVIDIA-Karte erkannt, aber der proprietäre Treiber ist nicht installiert."@ && v.detail_markup@
                == "Installiere den Treiber (z. B. <tt>nvidia-driver-535</tt>) über deinen Paketmanager und starte den Rechner neu, um GPU-Beschleunigung später zu aktivieren.\n\n<b>Empfehlung für jetzt:</b> Wähle ein kleines Modell (<tt>tiny</tt> oder <tt>small</tt>) — vooox läuft solange auf der CPU."@,
            NvidiaHardware::DriverTooOld { driver } => v.status == Status::Warn && v.status_markup@
                == "NVIDIA-Treiber <b>"@ + driver@ + "</b> ist zu alt — CUDA 12 braucht mindestens Version 525."@
                && v.detail_markup@
                == "Aktualisiere den Treiber über deinen Paketmanager, um GPU-Beschleunigung später nutzen zu können.\n\n<b>Empfehlung für jetzt:</b> Wähle ein kleines Modell (<tt>tiny</tt> oder <tt>small</tt>)."@,
            NvidiaHardware::Supported { driver } => v.status == Status::Success && if wheels_installed {
                v.status_markup@ == "GPU-Beschleunigung eingerichtet — Treiber <b>"@ + driver@
                    + "</b>, CUDA-Libraries installiert."@ && v.detail_markup@
                    == "Du kannst alle Modelle inklusive <tt>medium</tt> und <tt>large-v3</tt> flüssig nutzen."@
            } else {
                v.status_markup@ == "NVIDIA-GPU erkannt — Treiber <b>"@ + driver@ + "</b> unterstützt CUDA 12."@
                    && v.detail_markup@
                    == "Du kannst die CUDA- und cuDNN-Libraries jetzt installieren — das beschleunigt die Transkription erheblich und macht die Modelle <tt>medium</tt> und <tt>large-v3</tt> erst sinnvoll nutzbar. Du kannst das auch später unter <tt>Einstellungen → Whisper</tt> nachholen."@
            },
        },
        v.install_visible == (hw is Supported && !wheels_installed),
        v.skip_visible == v.install_visible,
        v.next_visible == !v.install_visible,
{
    match hw {
        NvidiaHardware::Absent => GpuPageView {
            status: Status::Info,
            status_markup: owned("Keine NVIDIA-GPU im System gefunden — vooox läuft auf der CPU."),
            detail_markup: owned("<b>Empfehlung:</b> Wähle auf der nächsten Seite ein kleines Modell (<tt>tiny</tt> oder <tt>small</tt>). Größere Modelle wären auf der CPU deutlich zu langsam für flüssiges Diktieren."),
            install_visible: false,
            skip_visible: false,
            next_visible: true,
        },
        NvidiaHardware::NoDriver => GpuPageView {
            status: Status::Warn,
            status_markup: owned("NVIDIA-Karte erkannt, aber der proprietäre Treiber ist nicht installiert."),
            detail_markup: owned("Installiere den Treiber (z. B. <tt>nvidia-driver-535</tt>) über deinen Paketmanager und starte den Rechner neu, um GPU-Beschleunigung später zu aktivieren.\n\n<b>Empfehlung für jetzt:</b> Wähle ein kleines Modell (<tt>tiny</tt> oder <tt>small</tt>) — vooox läuft solange auf der CPU."),
            install_visible: false,
            skip_visible: false,
            next_visible: true,
        },
        NvidiaHardware::DriverTooOld { driver } => GpuPageView {
            status: Status::Warn,
            status_markup: surround("NVIDIA-Treiber <b>", driver.as_str(), "</b> ist zu alt — CUDA 12 braucht mindestens Version 525."),
            detail_markup: owned("Aktualisiere den Treiber über deinen Paketmanager, um GPU-Beschleunigung später nutzen zu können.\n\n<b>Empfehlung für jetzt:</b> Wähle ein kleines Modell (<tt>tiny</tt> oder <tt>small</tt>)."),
            install_visible: false,
            skip_visible: false,
            next_visible: true,
        },
        NvidiaHardware::Supported { driver } => {
            if wheels_installed {
                GpuPageView {
                    status: Status::Success,
                    status_markup: surround("GPU-Beschleunigung eingerichtet — Treiber <b>", driver.as_str(), "</b>, CUDA-Libraries installiert."),
                    detail_markup: owned("Du kannst alle Modelle inklusive <tt>medium</tt> und <tt>large-v3</tt> flüssig nutzen."),
                    install_visible: false,
                    skip_visible: false,
                    next_visible: true,
                }
            } else {
                GpuPageView {
                    status: Status::Success,
                    status_markup: surround("NVIDIA-GPU erkannt — Treiber <b>", driver.as_str(), "</b> unterstützt CUDA 12."),
                    detail_markup: owned("Du kannst die CUDA- und cuDNN-Libraries jetzt installieren — das beschleunigt die Transkription erheblich und macht die Modelle <tt>medium</tt> und <tt>large-v3</tt> erst sinnvoll nutzbar. Du kannst das auch später unter <tt>Einstellungen → Whisper</tt> nachholen."),
                    install_visible: true,
                    skip_visible: true,
                    next_visible: false,
                }
            }
        },
    }
}

fn owned(s: &str) -> (out: String)
    ensures
        out@ == s@,
{
    string_from(chars_of(s).as_slice())
}

/// The label of the button that installs the CUDA wheels.
pub fn gpu_install_button_label() -> (out: String)
    ensures
        out@ == "GPU-Unterstützung installieren ("@ + "ca. 2,2 GB"@ + ")"@,
{
    surround("GPU-Unterstützung installieren (", estimated_download_label(), ")")
}

/// The last log line of a successful CUDA install on the GPU page.
pub fn gpu_page_install_success_line() -> (s: &'static str)
    ensures
        s@ == "✓ CUDA-Libraries installiert. GPU-Beschleunigung ist aktiv."@,
{
    "✓ CUDA-Libraries installiert. GPU-Beschleunigung ist aktiv."
}

// ───────────────────────────── install page ─────────────────────────────

/// The text that tells where the environment goes.
pub fn install_info_text(venv: &str) -> (out: String)
    ensures
        out@ == "Es wird eine isolierte Python-Umgebung unter\n"@ + venv@
            + "\nangelegt und faster-whisper installiert (ca. 600 MB Download, dauert ein paar Minuten)."@,
{
    surround(
        "Es wird eine isolierte Python-Umgebung unter\n",
        venv,
        "\nangelegt und faster-whisper installiert (ca. 600 MB Download, dauert ein paar Minuten).",
    )
}

// ───────────────────────────── model page ─────────────────────────────

/// The GPU path is ready: a supported driver and the CUDA wheels.
pub open spec fn gpu_ready_spec(hw: NvidiaHardware, wheels_installed: bool) -> bool {
    wheels_installed && hw is Supported
}

/// Whether transcription can run on the GPU.
pub fn gpu_ready(hw: &NvidiaHardware, wheels_installed: bool) -> (r: bool)
    ensures
        r == gpu_ready_spec(*hw, wheels_installed),
{
    wheels_installed && match hw {
        NvidiaHardware::Supported { .. } => true,
        _ => false,
    }
}

/// The model recommendation for the hardware.
pub fn model_recommendation_markup(gpu: bool) -> (s: &'static str)
    ensures
        s@ == if gpu {
            "<b>Empfehlung (mit GPU):</b> <tt>medium</tt> oder <tt>large-v3</tt> für beste Genauigkeit, oder <tt>small</tt> für schnellere Latenz."@
        } else {
            "<b>Empfehlung (CPU-only):</b> <tt>tiny</tt> oder <tt>small</tt>. Größere Modelle wären auf der CPU zu langsam für flüssiges Diktieren."@
        },
{
    if gpu {
        "<b>Empfehlung (mit GPU):</b> <tt>medium</tt> oder <tt>large-v3</tt> für beste Genauigkeit, oder <tt>small</tt> für schnellere Latenz."
    } else {
        "<b>Empfehlung (CPU-only):</b> <tt>tiny</tt> oder <tt>small</tt>. Größere Modelle wären auf der CPU zu langsam für flüssiges Diktieren."
    }
}

/// The model chosen first: `medium` on the GPU, `small` on the CPU.
pub fn default_setup_model(gpu: bool) -> (s: &'static str)
    ensures
        s@ == if gpu {
            "medium"@
        } else {
            "small"@
        },
{
    if gpu {
        "medium"
    } else {
        "small"
    }
}

/// The entry of model `id` in the model list.
pub fn model_choice_label(id: &str) -> (out: String)
    ensures
        out@ == id@ + " — "@ + match model_size(id@) {
            Some(size) => file_size_label(size),
            None => "?"@,
        },
{
    let short = size_label_short(id);
    surround(id, " — ", short.as_str())
}

/// The line under the model list.
pub fn model_download_markup(id: &str) -> (out: String)
    ensures
        out@ == "<b>Lädt "@ + match model_size(id@) {
            Some(size) => file_size_label(size) + " · "@ + duration_label(size) + " bei 100 Mbit"@,
            None => "unbekannte Größe"@,
        } + " herunter.</b>"@,
{
    let label = size_label(id);
    surround("<b>Lädt ", label.as_str(), " herunter.</b>")
}

/// The status while model `model` downloads.
pub fn setup_download_status(model: &str) -> (out: String)
    ensures
        out@ == "Lade "@ + model@ + " herunter — das kann eine Weile dauern. Bitte nicht schließen."@,
{
    surround("Lade ", model, " herunter — das kann eine Weile dauern. Bitte nicht schließen.")
}

/// How the model download of the wizard ended.
pub enum SetupDownloadOutcome {
    /// The model is ready: show `<b>✓ Modell bereit.</b>`, mark the setup
    /// complete and show the last page.
    Ready,
    /// It failed with this status text; the buttons are enabled again.
    Failed(String),
}

/// The end of the wizard's download: the result the download thread sent,
/// or `None` when the thread ended without one.
pub fn setup_download_outcome(result: Option<Result<(), String>>) -> (o: SetupDownloadOutcome)
    ensures
        match result {
            Some(Ok(())) => o is Ready,
            Some(Err(e)) => o matches SetupDownloadOutcome::Failed(t) && t@ == "✗ Fehler: "@ + e@,
            None => o matches SetupDownloadOutcome::Failed(t) && t@ == "✗ Download-Thread abgebrochen."@,
        },
{
    match result {
        Some(Ok(())) => SetupDownloadOutcome::Ready,
        Some(Err(e)) => SetupDownloadOutcome::Failed(concat_lit("✗ Fehler: ", chars_of(e.as_str()).as_slice())),
        None => SetupDownloadOutcome::Failed(owned("✗ Download-Thread abgebrochen.")),
    }
}

/// The errors of the thread that starts a sidecar to fetch the model.
pub fn sidecar_start_error(e: &str) -> (out: String)
    ensures
        out@ == "Sidecar-Start fehlgeschlagen: "@ + e@,
{
    concat_lit("Sidecar-Start fehlgeschlagen: ", chars_of(e).as_slice())
}

/// The error when the async runtime cannot be started.
pub fn runtime_error(e: &str) -> (out: String)
    ensures
        out@ == "Tokio-Runtime: "@ + e@,
{
    concat_lit("Tokio-Runtime: ", chars_of(e).as_slice())
}

/// The text of the last page, which names the default shortcut.
pub fn ready_page_markup(shortcut: &str) -> (out: String)
    ensures
        out@ == "vooox ist einsatzbereit. Klicke auf \"App starten\", um das Hauptfenster zu öffnen.\n\nDer globale Shortcut ist standardmäßig <tt>"@
            + shortcut@
            + "</tt> — kurz drücken startet/stoppt die Aufnahme, lange halten aktiviert Push-to-Talk. Du kannst ihn in den Einstellungen ändern."@,
{
    surround(
        "vooox ist einsatzbereit. Klicke auf \"App starten\", um das Hauptfenster zu öffnen.\n\nDer globale Shortcut ist standardmäßig <tt>",
        shortcut,
        "</tt> — kurz drücken startet/stoppt die Aufnahme, lange halten aktiviert Push-to-Talk. Du kannst ihn in den Einstellungen ändern.",
    )
}

/// The page the wizard opens on: the GPU page when the environment
/// already has faster-whisper, else the system check.
pub fn first_page(has_faster_whisper: bool) -> (s: &'static str)
    ensures
        s@ == if has_faster_whisper {
            "gpu"@
        } else {
            "check"@
        },
{
    if has_faster_whisper {
        "gpu"
    } else {
        "check"
    }
}

} // verus!
