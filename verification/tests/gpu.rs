use vooox::gpu::nvidia_listed;
use vooox::gpu::{
    build_pip_install_args, classify_driver_version, detect_hardware, estimated_download_label,
    first_non_empty_line, install_command_line, parse_driver_major_version, NvidiaHardware,
    MINIMUM_CUDA12_DRIVER_MAJOR,
};

#[test]
fn gpu_driver_too_old_when_under_525() {
    assert_eq!(parse_driver_major_version("470.182.03"), 470);
    assert!(parse_driver_major_version("470.182.03") < MINIMUM_CUDA12_DRIVER_MAJOR);
}

#[test]
fn gpu_driver_ok_at_525() {
    assert!(parse_driver_major_version("535.183.06") >= MINIMUM_CUDA12_DRIVER_MAJOR);
}

#[test]
fn driver_version_edge_cases() {
    assert_eq!(parse_driver_major_version("525"), 525);
    assert_eq!(parse_driver_major_version("abc.1"), 0);
    assert_eq!(parse_driver_major_version(""), 0);
    assert_eq!(
        classify_driver_version("524.99".to_string()),
        NvidiaHardware::DriverTooOld { driver: "524.99".to_string() }
    );
    assert_eq!(
        classify_driver_version("525.00".to_string()),
        NvidiaHardware::Supported { driver: "525.00".to_string() }
    );
}

#[test]
fn hardware_detection() {
    assert_eq!(detect_hardware(false, Some(b"535.1\n")), NvidiaHardware::Absent);
    assert_eq!(detect_hardware(true, None), NvidiaHardware::NoDriver);
    assert_eq!(detect_hardware(true, Some(b"  \n535.1\n")), NvidiaHardware::NoDriver);
    assert_eq!(
        detect_hardware(true, Some(b" 470.182.03 \n470.182.03\n")),
        NvidiaHardware::DriverTooOld { driver: "470.182.03".to_string() }
    );
    assert_eq!(first_non_empty_line(b""), None);
    assert_eq!(first_non_empty_line(b"abc\r\n"), Some("abc".to_string()));
}

#[test]
fn pip_install_line() {
    let args = build_pip_install_args();
    assert_eq!(args, vec!["install", "nvidia-cublas-cu12", "nvidia-cudnn-cu12"]);
    assert_eq!(
        install_command_line("/v/bin/pip", &args),
        "$ /v/bin/pip install nvidia-cublas-cu12 nvidia-cudnn-cu12"
    );
    assert_eq!(estimated_download_label(), "ca. 2,2 GB");
}

#[test]
fn lspci_listing() {
    assert!(nvidia_listed(true, true, b"01:00.0 VGA compatible controller: NVIDIA\n"));
    assert!(!nvidia_listed(true, true, b""));
    assert!(!nvidia_listed(true, false, b"x"));
    assert!(!nvidia_listed(false, true, b"x"));
}

#[test]
fn invalid_utf8_is_replaced() {
    assert_eq!(first_non_empty_line(b"\xff535.1\n"), Some("\u{FFFD}535.1".to_string()));
    assert_eq!(
        detect_hardware(true, Some(b"\xff535.1\n")),
        NvidiaHardware::DriverTooOld { driver: "\u{FFFD}535.1".to_string() }
    );
}
