use vooox::models::{cache_dir, info, models, size_label, size_label_short};
use vooox::paths::Environment;

#[test]
fn known_models_listed() {
    assert!(info("small").is_some());
    assert!(info("large-v3").is_some());
    assert!(info("bogus").is_none());
}

#[test]
fn size_label_formats() {
    assert!(size_label("small").contains("MB"));
    assert!(size_label("large-v3").contains("GB"));
}

#[test]
fn cache_dir_has_systran_prefix() {
    let env = Environment { xdg_config_home: None, xdg_data_home: None, home: Some("/home/u".to_string()) };
    let p = cache_dir(&env, "small");
    assert!(p.contains("models--Systran--faster-whisper-small"));
    assert_eq!(p, "/home/u/.cache/huggingface/hub/models--Systran--faster-whisper-small");
}

#[test]
fn size_labels_exact() {
    assert_eq!(size_label("small"), "ca. 480 MB · unter 1 min bei 100 Mbit");
    assert_eq!(size_label("medium"), "ca. 1.5 GB · ca. 3 min bei 100 Mbit");
    assert_eq!(size_label("large-v3"), "ca. 3.0 GB · ca. 5 min bei 100 Mbit");
    assert_eq!(size_label("tiny"), "ca. 75 MB · unter 1 min bei 100 Mbit");
    assert_eq!(size_label("bogus"), "unbekannte Größe");
    assert_eq!(size_label_short("base"), "ca. 145 MB");
    assert_eq!(size_label_short("large-v2"), "ca. 3.0 GB");
    assert_eq!(size_label_short("x"), "?");
}

#[test]
fn model_table() {
    let m = models();
    let ids: Vec<&str> = m.iter().map(|m| m.id).collect();
    assert_eq!(ids, vec!["tiny", "base", "small", "medium", "large-v2", "large-v3"]);
    assert_eq!(info("medium").unwrap().size_mb, 1500);
    assert_eq!(info("tiny").unwrap().id, "tiny");
}
