//! The first-run setup: checking the system Python and telling the user
//! how to install it.  The application runs `python3 --version` and reads
//! `/etc/os-release`.
use vstd::prelude::*;
use crate::number::{decimal, parse_u32, parse_unsigned};
use crate::text::{
    chars_of, is_literal, copy_range, extend_chars, lines, lines_of, lossy_chars, split, split_chars,
    starts_with, starts_with_exec, string_from, trim, trim_chars, utf8_lossy, views,
};

verus! {

/// Major and minor version of a version string such as `3.11.6`: the first
/// two dot-separated numbers.
pub open spec fn major_minor_spec(s: Seq<char>) -> Option<(u32, u32)> {
    let ps = split(s, '.');
    match parse_unsigned(ps[0], u32::MAX as int) {
        None => None,
        Some(major) => if ps.len() < 2 {
            None
        } else {
            match parse_unsigned(ps[1], u32::MAX as int) {
                Some(minor) => Some((major as u32, minor as u32)),
                None => None,
            }
        },
    }
}

/// Major and minor version of a version string.
pub fn parse_major_minor(s: &str) -> (r: Option<(u32, u32)>)
    ensures
        r == major_minor_spec(s@),
{
    let c = chars_of(s);
    let ps = split_chars(c.as_slice(), '.');
    proof {
        crate::text::lemma_split_from_nonempty(s@, '.', seq![]);
        assert(views(ps@)[0] == ps@[0]@);
    }
    let major = match parse_u32(ps[0].as_slice()) {
        Some(v) => v,
        None => return None,
    };
    if ps.len() < 2 {
        return None;
    }
    assert(views(ps@)[1] == ps@[1]@);
    match parse_u32(ps[1].as_slice()) {
        Some(minor) => Some((major, minor)),
        None => None,
    }
}

/// The version line of `python3 --version`: its standard output, trimmed,
/// or its standard error when the output is blank.
pub open spec fn version_line_spec(stdout: Seq<u8>, stderr: Seq<u8>) -> Seq<char> {
    let out = trim(utf8_lossy(stdout));
    if out.len() == 0 {
        trim(utf8_lossy(stderr))
    } else {
        out
    }
}

/// The Python version that the version line reports, or why it does not
/// do: the line must read `Python <major>.<minor>…` with at least 3.10.
pub open spec fn python_check_spec(stdout: Seq<u8>, stderr: Seq<u8>) -> Result<Seq<char>, Seq<char>> {
    let line = version_line_spec(stdout, stderr);
    let prefix = "Python "@;
    if !starts_with(line, prefix) {
        Err("unerwartete Versionsausgabe: "@ + line)
    } else {
        let version = line.subrange(prefix.len() as int, line.len() as int);
        match major_minor_spec(version) {
            None => Err("Version nicht parsbar: "@ + version),
            Some((major, minor)) => if major < 3 || (major == 3 && minor < 10) {
                Err("Python "@ + version + " ist zu alt — benötigt wird mindestens 3.10."@)
            } else {
                Ok(version)
            },
        }
    }
}

/// Checks the output of `python3 --version`: the version when it is 3.10
/// or newer, else the message shown to the user.
pub fn check_python_version(stdout: &[u8], stderr: &[u8]) -> (r: Result<String, String>)
    ensures
        match python_check_spec(stdout@, stderr@) {
            Ok(v) => r matches Ok(s) && s@ == v,
            Err(e) => r matches Err(m) && m@ == e,
        },
{
    let out = trim_chars(lossy_chars(stdout).as_slice());
    let line = if out.len() == 0 {
        trim_chars(lossy_chars(stderr).as_slice())
    } else {
        out
    };
    let prefix = chars_of("Python ");
    if !starts_with_exec(line.as_slice(), prefix.as_slice()) {
        let mut m = chars_of("unerwartete Versionsausgabe: ");
        extend_chars(&mut m, line.as_slice());
        return Err(string_from(m.as_slice()));
    }
    let version = copy_range(line.as_slice(), prefix.len(), line.len());
    let version_s = string_from(version.as_slice());
    match parse_major_minor(version_s.as_str()) {
        None => {
            let mut m = chars_of("Version nicht parsbar: ");
            extend_chars(&mut m, version.as_slice());
            Err(string_from(m.as_slice()))
        },
        Some((major, minor)) => {
            if major < 3 || (major == 3 && minor < 10) {
                let mut m = chars_of("Python ");
                extend_chars(&mut m, version.as_slice());
                extend_chars(&mut m, chars_of(" ist zu alt — benötigt wird mindestens 3.10.").as_slice());
                Err(string_from(m.as_slice()))
            } else {
                Ok(version_s)
            }
        },
    }
}

/// The first line that starts with `ID=`.
pub open spec fn id_line(ls: Seq<Seq<char>>) -> Option<Seq<char>>
    decreases ls.len(),
{
    if ls.len() == 0 {
        None
    } else if starts_with(ls[0], "ID="@) {
        Some(ls[0])
    } else {
        id_line(ls.drop_first())
    }
}

/// `s` without all leading `ID=` prefixes.
pub open spec fn strip_id_prefixes(s: Seq<char>) -> Seq<char>
    decreases s.len(),
{
    if starts_with(s, "ID="@) && "ID="@.len() > 0 {
        strip_id_prefixes(s.subrange("ID="@.len() as int, s.len() as int))
    } else {
        s
    }
}

/// `s` without leading and trailing double quotes.
pub open spec fn trim_quotes(s: Seq<char>) -> Seq<char>
    decreases s.len(),
{
    if s.len() > 0 && s[0] == '"' {
        trim_quotes(s.drop_first())
    } else if s.len() > 0 && s.last() == '"' {
        trim_quotes(s.drop_last())
    } else {
        s
    }
}

/// The distribution id that `/etc/os-release` gives, empty without one.
pub open spec fn distro_id_spec(os_release: Option<Seq<char>>) -> Seq<char> {
    match os_release {
        None => seq![],
        Some(text) => match id_line(lines(text)) {
            None => seq![],
            Some(l) => trim_quotes(strip_id_prefixes(l)),
        },
    }
}

fn strip_quotes_exec(s: &[char]) -> (out: Vec<char>)
    ensures
        out@ == trim_quotes(s@),
{
    let mut a: usize = 0;
    let mut b: usize = s.len();
    assert(s@.subrange(0, s@.len() as int) =~= s@);
    while a < b && (s[a] == '"' || s[b - 1] == '"')
        invariant
            a <= b <= s@.len(),
            trim_quotes(s@) == trim_quotes(s@.subrange(a as int, b as int)),
        decreases b - a,
    {
        let ghost t = s@.subrange(a as int, b as int);
        if s[a] == '"' {
            assert(t.drop_first() =~= s@.subrange(a + 1, b as int));
            a = a + 1;
        } else {
            assert(t.drop_last() =~= s@.subrange(a as int, b - 1));
            b = b - 1;
        }
    }
    copy_range(s, a, b)
}

fn strip_id_prefixes_exec(line: &[char]) -> (out: Vec<char>)
    ensures
        out@ == strip_id_prefixes(line@),
{
    proof {
        reveal_strlit("ID=");
    }
    assert("ID="@ =~= seq!['I', 'D', '=']);
    let mut j: usize = 0;
    assert(line@.subrange(0, line@.len() as int) =~= line@);
    while j < line.len() && line.len() - j >= 3 && line[j] == 'I' && line[j + 1] == 'D' && line[j
        + 2] == '='
        invariant
            j <= line@.len(),
            "ID="@ == seq!['I', 'D', '='],
            strip_id_prefixes(line@) == strip_id_prefixes(line@.subrange(j as int, line@.len() as int)),
        decreases line@.len() - j,
    {
        let ghost t = line@.subrange(j as int, line@.len() as int);
        assert(t.subrange(0, 3) =~= "ID="@);
        assert(t.subrange(3, t.len() as int) =~= line@.subrange(j + 3, line@.len() as int));
        j = j + 3;
    }
    proof {
        let t = line@.subrange(j as int, line@.len() as int);
        if starts_with(t, "ID="@) {
            assert(t.subrange(0, 3)[0] == 'I');
            assert(t.subrange(0, 3)[1] == 'D');
            assert(t.subrange(0, 3)[2] == '=');
            assert(line@[j as int] == 'I');
            assert(line@[j + 1] == 'D');
            assert(line@[j + 2] == '=');
            assert(false);
        }
        assert(strip_id_prefixes(t) == t);
    }
    copy_range(line, j, line.len())
}

/// The distribution id of the content of `/etc/os-release`.
pub fn distro_id(os_release: Option<&str>) -> (out: Vec<char>)
    ensures
        out@ == distro_id_spec(
            match os_release {
                Some(t) => Some(t@),
                None => None,
            },
        ),
{
    let text = match os_release {
        Some(t) => t,
        None => return Vec::new(),
    };
    let ls = lines_of(chars_of(text).as_slice());
    let key = chars_of("ID=");
    proof {
        reveal_strlit("ID=");
    }
    assert("ID="@ =~= seq!['I', 'D', '=']);
    assert(views(ls@).subrange(0, ls@.len() as int) =~= views(ls@));
    let mut i: usize = 0;
    while i < ls.len()
        invariant
            i <= ls@.len(),
            views(ls@) == lines(text@),
            os_release == Some(text),
            key@ == "ID="@,
            "ID="@ == seq!['I', 'D', '='],
            id_line(lines(text@)) == id_line(views(ls@).subrange(i as int, ls@.len() as int)),
        decreases ls@.len() - i,
    {
        let ghost r = views(ls@).subrange(i as int, ls@.len() as int);
        assert(r[0] == ls@[i as int]@);
        assert(r.drop_first() =~= views(ls@).subrange(i + 1, ls@.len() as int));
        if starts_with_exec(ls[i].as_slice(), key.as_slice()) {
            assert(id_line(r) == Some(r[0]));
            let rest = strip_id_prefixes_exec(ls[i].as_slice());
            return strip_quotes_exec(rest.as_slice());
        }
        i = i + 1;
    }
    Vec::new()
}

/// The install command for a distribution id, if the distribution is one
/// the hint knows.
pub open spec fn install_hint(id: Seq<char>) -> Option<Seq<char>> {
    if id == "debian"@ || id == "ubuntu"@ || id == "linuxmint"@ || id == "pop"@ {
        Some("sudo apt install python3 python3-venv"@)
    } else if id == "fedora"@ || id == "rhel"@ || id == "centos"@ {
        Some("sudo dnf install python3"@)
    } else if id == "arch"@ || id == "manjaro"@ || id == "endeavouros"@ {
        Some("sudo pacman -S python"@)
    } else {
        None
    }
}

/// The install instructions shown when Python is missing, for the
/// distribution that `/etc/os-release` names.
pub open spec fn install_instructions_spec(id: Seq<char>) -> Seq<char> {
    match install_hint(id) {
        Some(hint) => "<b>So installierst du es:</b>\n<tt>"@ + hint
            + "</tt>\n\nDanach auf \"Erneut prüfen\" klicken."@,
        None => "<b>Installiere Python 3.10+ inklusive venv-Modul.</b>\nDebian/Ubuntu: <tt>sudo apt install python3 python3-venv</tt>\nFedora: <tt>sudo dnf install python3</tt>\nArch: <tt>sudo pacman -S python</tt>"@,
    }
}

fn install_hint_exec(id: &[char]) -> (r: Option<&'static str>)
    ensures
        match install_hint(id@) {
            Some(h) => r matches Some(s) && s@ == h,
            None => r is None,
        },
{
    if is_literal(id, "debian") || is_literal(id, "ubuntu") || is_literal(id, "linuxmint")
        || is_literal(id, "pop") {
        Some("sudo apt install python3 python3-venv")
    } else if is_literal(id, "fedora") || is_literal(id, "rhel") || is_literal(id, "centos") {
        Some("sudo dnf install python3")
    } else if is_literal(id, "arch") || is_literal(id, "manjaro") || is_literal(id, "endeavouros") {
        Some("sudo pacman -S python")
    } else {
        None
    }
}

/// The install instructions for the system whose `/etc/os-release` has
/// the content `os_release` (`None` when it cannot be read).
pub fn install_instructions_markup(os_release: Option<&str>) -> (out: String)
    ensures
        out@ == install_instructions_spec(
            distro_id_spec(
                match os_release {
                    Some(t) => Some(t@),
                    None => None,
                },
            ),
        ),
{
    let id = distro_id(os_release);
    match install_hint_exec(id.as_slice()) {
        Some(hint) => {
            let mut v = chars_of("<b>So installierst du es:</b>\n<tt>");
            extend_chars(&mut v, chars_of(hint).as_slice());
            extend_chars(&mut v, chars_of("</tt>\n\nDanach auf \"Erneut prüfen\" klicken.").as_slice());
            string_from(v.as_slice())
        },
        None => string_from(
            chars_of(
                "<b>Installiere Python 3.10+ inklusive venv-Modul.</b>\nDebian/Ubuntu: <tt>sudo apt install python3 python3-venv</tt>\nFedora: <tt>sudo dnf install python3</tt>\nArch: <tt>sudo pacman -S python</tt>",
            ).as_slice(),
        ),
    }
}

/// Law: the install command the setup names for each distribution: apt on
/// Debian, Ubuntu, Linux Mint and Pop!_OS, dnf on Fedora, RHEL and CentOS,
/// pacman on Arch, Manjaro and EndeavourOS, and none for any other id.
pub proof fn lemma_install_hint_per_distribution(id: Seq<char>)
    ensures
        install_hint(id) == Some("sudo apt install python3 python3-venv"@) <==> (id == "debian"@ || id == "ubuntu"@ || id == "linuxmint"@ || id == "pop"@),
        install_hint(id) == Some("sudo dnf install python3"@) <==> (id == "fedora"@ || id == "rhel"@ || id == "centos"@),
        install_hint(id) == Some("sudo pacman -S python"@) <==> (id == "arch"@ || id == "manjaro"@ || id == "endeavouros"@),
        install_hint(id) is None <==> !(id == "debian"@ || id == "ubuntu"@ || id == "linuxmint"@ || id == "pop"@ || id == "fedora"@ || id == "rhel"@ || id == "centos"@ || id == "arch"@ || id == "manjaro"@ || id == "endeavouros"@),
{
    reveal_strlit("debian");
    reveal_strlit("ubuntu");
    reveal_strlit("linuxmint");
    reveal_strlit("pop");
    reveal_strlit("fedora");
    reveal_strlit("rhel");
    reveal_strlit("centos");
    reveal_strlit("arch");
    reveal_strlit("manjaro");
    reveal_strlit("endeavouros");
    reveal_strlit("sudo apt install python3 python3-venv");
    reveal_strlit("sudo dnf install python3");
    reveal_strlit("sudo pacman -S python");
    assert("ubuntu"@[0] != "debian"@[0]);
    assert("fedora"@[0] != "debian"@[0]);
    assert("fedora"@[0] != "ubuntu"@[0]);
    assert("centos"@[0] != "debian"@[0]);
    assert("centos"@[0] != "ubuntu"@[0]);
    assert("centos"@[0] != "fedora"@[0]);
    assert("arch"@[0] != "rhel"@[0]);
    assert("debian"@.len() == 6);
    assert("ubuntu"@.len() == 6);
    assert("linuxmint"@.len() == 9);
    assert("pop"@.len() == 3);
    assert("fedora"@.len() == 6);
    assert("rhel"@.len() == 4);
    assert("centos"@.len() == 6);
    assert("arch"@.len() == 4);
    assert("manjaro"@.len() == 7);
    assert("endeavouros"@.len() == 11);
    assert("sudo apt install python3 python3-venv"@[5] != "sudo dnf install python3"@[5]);
    assert("sudo apt install python3 python3-venv"@[5] != "sudo pacman -S python"@[5]);
    assert("sudo dnf install python3"@[5] != "sudo pacman -S python"@[5]);
    if id == "arch"@ {
        assert(install_hint(id) == Some("sudo pacman -S python"@));
    }
    if id == "manjaro"@ {
        assert(install_hint(id) == Some("sudo pacman -S python"@));
    }
    if id == "endeavouros"@ {
        assert(install_hint(id) == Some("sudo pacman -S python"@));
    }
}

/// Law: on a distribution with a known command, the instructions show
/// exactly that command between the heading and the hint to check again:
/// apt on Debian, Ubuntu, Linux Mint and Pop!_OS, dnf on Fedora, RHEL and
/// CentOS, pacman on Arch, Manjaro and EndeavourOS.
pub proof fn lemma_install_instructions_per_distribution(id: Seq<char>)
    ensures
        (id == "debian"@ || id == "ubuntu"@ || id == "linuxmint"@ || id == "pop"@) ==> install_instructions_spec(id)
            == "<b>So installierst du es:</b>\n<tt>sudo apt install python3 python3-venv</tt>\n\nDanach auf \"Erneut prüfen\" klicken."@,
        (id == "fedora"@ || id == "rhel"@ || id == "centos"@) ==> install_instructions_spec(id)
            == "<b>So installierst du es:</b>\n<tt>sudo dnf install python3</tt>\n\nDanach auf \"Erneut prüfen\" klicken."@,
        (id == "arch"@ || id == "manjaro"@ || id == "endeavouros"@) ==> install_instructions_spec(id)
            == "<b>So installierst du es:</b>\n<tt>sudo pacman -S python</tt>\n\nDanach auf \"Erneut prüfen\" klicken."@,
{
    lemma_install_hint_per_distribution(id);
    reveal_strlit("<b>So installierst du es:</b>\n<tt>");
    reveal_strlit("</tt>\n\nDanach auf \"Erneut prüfen\" klicken.");
    reveal_strlit("sudo apt install python3 python3-venv");
    reveal_strlit("<b>So installierst du es:</b>\n<tt>sudo apt install python3 python3-venv</tt>\n\nDanach auf \"Erneut prüfen\" klicken.");
    if id == "debian"@ || id == "ubuntu"@ || id == "linuxmint"@ || id == "pop"@ {
        assert(install_instructions_spec(id) =~= "<b>So installierst du es:</b>\n<tt>sudo apt install python3 python3-venv</tt>\n\nDanach auf \"Erneut prüfen\" klicken."@);
    }
    reveal_strlit("sudo dnf install python3");
    reveal_strlit("<b>So installierst du es:</b>\n<tt>sudo dnf install python3</tt>\n\nDanach auf \"Erneut prüfen\" klicken.");
    if id == "fedora"@ || id == "rhel"@ || id == "centos"@ {
        assert(install_instructions_spec(id) =~= "<b>So installierst du es:</b>\n<tt>sudo dnf install python3</tt>\n\nDanach auf \"Erneut prüfen\" klicken."@);
    }
    reveal_strlit("sudo pacman -S python");
    reveal_strlit("<b>So installierst du es:</b>\n<tt>sudo pacman -S python</tt>\n\nDanach auf \"Erneut prüfen\" klicken.");
    if id == "arch"@ || id == "manjaro"@ || id == "endeavouros"@ {
        assert(install_instructions_spec(id) =~= "<b>So installierst du es:</b>\n<tt>sudo pacman -S python</tt>\n\nDanach auf \"Erneut prüfen\" klicken."@);
    }
}

} // verus!
