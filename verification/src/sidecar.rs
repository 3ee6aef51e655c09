//! Starting the transcription sidecar: where its script is looked for and
//! how it announces its port.  The application spawns the process and
//! reads its first line.
use vstd::prelude::*;
use crate::number::{decimal, is_digit, lemma_decimal_digits, lemma_parse_decimal, parse_u16, parse_unsigned};
use crate::paths::{join_path, join_path_exec};
use crate::text::{
    chars_of, copy_range, debug_chars, debug_quoted, extend_chars, starts_with, starts_with_exec,
    string_from, trim, trim_chars, trim_end, trim_start,
};

verus! {

/// The port the sidecar announces on its first line, `VOOOX_PORT=<port>`
/// (surrounding whitespace ignored), or the error that shows the line.
pub open spec fn port_announcement_spec(line: Seq<char>) -> Result<u16, Seq<char>> {
    let t = trim(line);
    let key = "VOOOX_PORT="@;
    if starts_with(t, key) {
        match parse_unsigned(t.subrange(key.len() as int, t.len() as int), u16::MAX as int) {
            Some(p) => Ok(p as u16),
            None => Err("unexpected sidecar output: "@ + debug_quoted(line)),
        }
    } else {
        Err("unexpected sidecar output: "@ + debug_quoted(line))
    }
}

/// The port the sidecar announced on `line`.
pub fn parse_vooox_port_announcement(line: &str) -> (r: Result<u16, String>)
    ensures
        match port_announcement_spec(line@) {
            Ok(p) => r == Ok::<u16, String>(p),
            Err(e) => r matches Err(m) && m@ == e,
        },
{
    let c = chars_of(line);
    let t = trim_chars(c.as_slice());
    let key = chars_of("VOOOX_PORT=");
    if starts_with_exec(t.as_slice(), key.as_slice()) {
        let rest = copy_range(t.as_slice(), key.len(), t.len());
        match parse_u16(rest.as_slice()) {
            Some(p) => return Ok(p),
            None => {},
        }
    }
    let mut msg = chars_of("unexpected sidecar output: ");
    extend_chars(&mut msg, debug_chars(c.as_slice()).as_slice());
    Err(string_from(msg.as_slice()))
}

/// Law: the line the sidecar prints to announce port `port` is read back
/// as that port.
pub proof fn lemma_port_announcement_roundtrip(port: u16)
    ensures
        port_announcement_spec("VOOOX_PORT="@ + decimal(port as nat)) == Ok::<u16, Seq<char>>(port),
{
    reveal_strlit("VOOOX_PORT=");
    let key = "VOOOX_PORT="@;
    let d = decimal(port as nat);
    let line = key + d;
    lemma_decimal_digits(port as nat);
    lemma_parse_decimal(port as nat, u16::MAX as int);
    assert(line[0] == 'V');
    assert(trim_start(line) == line);
    assert(line.last() == d.last());
    assert(is_digit(d[d.len() - 1]));
    assert(trim_end(line) == line);
    assert(trim(line) == line);
    assert(line.subrange(0, key.len() as int) =~= key);
    assert(starts_with(line, key));
    assert(line.subrange(key.len() as int, line.len() as int) =~= d);
}

/// Where the sidecar script is looked for, in order: relative to the
/// working directory, then next to the executable (an empty path when the
/// executable's directory is unknown).
pub fn server_script_candidates(exe_dir: Option<&str>) -> (r: Vec<String>)
    ensures
        r@.len() == 2,
        r@[0]@ == "whisper_server/server.py"@,
        r@[1]@ == match exe_dir {
            Some(d) => join_path(d@, "../whisper_server/server.py"@),
            None => Seq::<char>::empty(),
        },
{
    let mut r: Vec<String> = Vec::new();
    r.push(string_from(chars_of("whisper_server/server.py").as_slice()));
    let second = match exe_dir {
        Some(d) => {
            let dc = chars_of(d);
            let rel = chars_of("../whisper_server/server.py");
            string_from(join_path_exec(dc.as_slice(), rel.as_slice()).as_slice())
        },
        None => String::new(),
    };
    r.push(second);
    r
}

/// The sidecar script: the first candidate that exists (`exists[i]` tells
/// whether `candidates[i]` does), else the error that none was found.
pub fn find_whisper_server_script(candidates: Vec<String>, exists: &[bool]) -> (r: Result<String, String>)
    requires
        exists@.len() == candidates@.len(),
    ensures
        match r {
            Ok(p) => exists|i: int|
                0 <= i < candidates@.len() && exists@[i] && p == candidates@[i] && forall|j: int|
                    0 <= j < i ==> !exists@[j],
            Err(e) => e@ == "whisper_server/server.py not found"@ && forall|j: int|
                0 <= j < candidates@.len() ==> !exists@[j],
        },
{
    let ghost all = candidates@;
    let mut rest = candidates;
    let mut i: usize = 0;
    while i < exists.len()
        invariant
            i <= exists@.len(),
            exists@.len() == all.len(),
            all == candidates@,
            rest@ == all.subrange(i as int, all.len() as int),
            forall|j: int| 0 <= j < i ==> !exists@[j],
        decreases exists@.len() - i,
    {
        let p = rest.remove(0);
        assert(p == all[i as int]);
        assert(rest@ =~= all.subrange(i + 1, all.len() as int));
        if exists[i] {
            assert(0 <= i < candidates@.len() && exists@[i as int] && p == candidates@[i as int]);
            return Ok(p);
        }
        i = i + 1;
    }
    Err(string_from(chars_of("whisper_server/server.py not found").as_slice()))
}

/// The error when the interpreter `python` cannot start the sidecar.
pub fn launch_error(python: &str, e: &str) -> (m: String)
    ensures
        m@ == "could not start sidecar ("@ + python@ + "): "@ + e@,
{
    let mut v = chars_of("could not start sidecar (");
    extend_chars(&mut v, chars_of(python).as_slice());
    extend_chars(&mut v, chars_of("): ").as_slice());
    extend_chars(&mut v, chars_of(e).as_slice());
    string_from(v.as_slice())
}

/// The error when the sidecar's first line cannot be read.
pub fn stdout_error(e: &str) -> (m: String)
    ensures
        m@ == "sidecar stdout: "@ + e@,
{
    let mut v = chars_of("sidecar stdout: ");
    extend_chars(&mut v, chars_of(e).as_slice());
    string_from(v.as_slice())
}

/// The message shown when the sidecar could not be started.
pub fn sidecar_failed_message(e: &str) -> (m: String)
    ensures
        m@ == "Sidecar konnte nicht gestartet werden:\n"@ + e@,
{
    let mut v = chars_of("Sidecar konnte nicht gestartet werden:\n");
    extend_chars(&mut v, chars_of(e).as_slice());
    string_from(v.as_slice())
}

} // verus!
