use vooox::setup::{check_python_version, distro_id, install_instructions_markup, parse_major_minor};

#[test]
fn setup_window_version_parses() {
    assert_eq!(parse_major_minor("3.11.6"), Some((3, 11)));
    assert_eq!(parse_major_minor("3.10"), Some((3, 10)));
    assert_eq!(parse_major_minor("garbage"), None);
}

#[test]
fn version_needs_two_numbers() {
    assert_eq!(parse_major_minor("3"), None);
    assert_eq!(parse_major_minor("3.x"), None);
    assert_eq!(parse_major_minor("+3.+9"), Some((3, 9)));
}

#[test]
fn python_version_check() {
    assert_eq!(check_python_version(b"Python 3.11.6\n", b""), Ok("3.11.6".to_string()));
    assert_eq!(check_python_version(b"  \n", b"Python 3.12.1\n"), Ok("3.12.1".to_string()));
    assert_eq!(
        check_python_version(b"Python 3.8.10\n", b""),
        Err("Python 3.8.10 ist zu alt — benötigt wird mindestens 3.10.".to_string())
    );
    assert_eq!(
        check_python_version(b"Python 2.7.18\n", b""),
        Err("Python 2.7.18 ist zu alt — benötigt wird mindestens 3.10.".to_string())
    );
    assert_eq!(
        check_python_version(b"Python abc\n", b""),
        Err("Version nicht parsbar: abc".to_string())
    );
    assert_eq!(
        check_python_version(b"", b"command not found"),
        Err("unerwartete Versionsausgabe: command not found".to_string())
    );
}

#[test]
fn distro_ids() {
    assert_eq!(distro_id(Some("NAME=\"Ubuntu\"\nID=ubuntu\nID_LIKE=debian\n")), "ubuntu".chars().collect::<Vec<char>>());
    assert_eq!(distro_id(Some("ID=\"fedora\"\n")), "fedora".chars().collect::<Vec<char>>());
    assert_eq!(distro_id(Some("NAME=x\n")), Vec::<char>::new());
    assert_eq!(distro_id(None), Vec::<char>::new());
}

#[test]
fn install_instructions() {
    assert_eq!(
        install_instructions_markup(Some("ID=arch\n")),
        "<b>So installierst du es:</b>\n<tt>sudo pacman -S python</tt>\n\nDanach auf \"Erneut prüfen\" klicken."
    );
    assert_eq!(
        install_instructions_markup(Some("ID=debian\n")),
        "<b>So installierst du es:</b>\n<tt>sudo apt install python3 python3-venv</tt>\n\nDanach auf \"Erneut prüfen\" klicken."
    );
    assert!(install_instructions_markup(None).starts_with("<b>Installiere Python 3.10+"));
    assert!(install_instructions_markup(Some("ID=gentoo\n")).contains("Fedora: <tt>sudo dnf install python3</tt>"));
}
