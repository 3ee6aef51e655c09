//! NVIDIA GPU detection and the pip install of the CUDA 12 libraries.
//!
//! faster-whisper is linked against CUDA 12 and cuDNN 9, so the question
//! whether the GPU path can work reduces to one cut-off: does the driver
//! support CUDA 12 (major version 525 or later)?  The application runs
//! `lspci` and `nvidia-smi`; this module decides from their results.
use vstd::prelude::*;
use crate::number::{decimal, is_digit, lemma_decimal_digits, lemma_parse_decimal, parse_u32, parse_unsigned};
use crate::text::{
    before_char, chars_of, split_from, extend_chars, join, join_exec, lines, lines_of, lossy_chars,
    split, split_chars, string_from, trim, trim_chars, utf8_lossy, views,
};

verus! {

/// The oldest driver major version with CUDA 12 support.
pub const MINIMUM_CUDA12_DRIVER_MAJOR: u32 = 525;

/// What NVIDIA hardware the system has.
#[derive(Debug, Clone, PartialEq, Eq)]
pub enum NvidiaHardware {
    /// No NVIDIA card found by `lspci`.
    Absent,
    /// An NVIDIA card, but `nvidia-smi` cannot run.
    NoDriver,
    /// The driver is too old for CUDA 12.
    DriverTooOld { driver: String },
    /// The driver supports CUDA 12.
    Supported { driver: String },
}

/// The major version of a driver version string such as `"535.183.06"`:
/// the number before the first dot, 0 when it is not one.
pub open spec fn driver_major_spec(driver: Seq<char>) -> u32 {
    match parse_unsigned(before_char(driver, '.'), u32::MAX as int) {
        Some(v) => v as u32,
        None => 0,
    }
}

/// The major version of a driver version string.
pub fn parse_driver_major_version(driver: &str) -> (major: u32)
    ensures
        major == driver_major_spec(driver@),
{
    let c = chars_of(driver);
    let pieces = split_chars(c.as_slice(), '.');
    proof {
        crate::text::lemma_split_from_nonempty(driver@, '.', seq![]);
        assert(views(pieces@)[0] == pieces@[0]@);
    }
    match parse_u32(pieces[0].as_slice()) {
        Some(v) => v,
        None => 0,
    }
}

/// The hardware state a running driver of version `driver` gives.
pub open spec fn classify_spec(driver: Seq<char>) -> bool {
    driver_major_spec(driver) < MINIMUM_CUDA12_DRIVER_MAJOR
}

/// A driver older than 525 is too old for CUDA 12.
pub fn classify_driver_version(driver: String) -> (h: NvidiaHardware)
    ensures
        match h {
            NvidiaHardware::DriverTooOld { driver: d } => d@ == driver@ && classify_spec(driver@),
            NvidiaHardware::Supported { driver: d } => d@ == driver@ && !classify_spec(driver@),
            _ => false,
        },
{
    let major = parse_driver_major_version(driver.as_str());
    if major < MINIMUM_CUDA12_DRIVER_MAJOR {
        NvidiaHardware::DriverTooOld { driver }
    } else {
        NvidiaHardware::Supported { driver }
    }
}

/// The first line of a command's output, trimmed, unless it is empty.
pub open spec fn first_line_spec(output: Seq<u8>) -> Option<Seq<char>> {
    let ls = lines(utf8_lossy(output));
    if ls.len() == 0 || trim(ls[0]).len() == 0 {
        None
    } else {
        Some(trim(ls[0]))
    }
}

/// The first line of `output`, trimmed; `None` when there is none or it is
/// blank.
pub fn first_non_empty_line(output: &[u8]) -> (r: Option<String>)
    ensures
        match first_line_spec(output@) {
            Some(l) => r matches Some(s) && s@ == l,
            None => r is None,
        },
{
    let text = lossy_chars(output);
    let ls = lines_of(text.as_slice());
    if ls.len() == 0 {
        return None;
    }
    assert(views(ls@)[0] == ls@[0]@);
    let line = trim_chars(ls[0].as_slice());
    if line.len() == 0 {
        None
    } else {
        Some(string_from(line.as_slice()))
    }
}

/// The hardware state: `has_nvidia_pci` is whether `lspci` lists an NVIDIA
/// device, `smi_output` the standard output of
/// `nvidia-smi --query-gpu=driver_version --format=csv,noheader` when it
/// ran and succeeded.
pub fn detect_hardware(has_nvidia_pci: bool, smi_output: Option<&[u8]>) -> (h: NvidiaHardware)
    ensures
        !has_nvidia_pci ==> h == NvidiaHardware::Absent,
        has_nvidia_pci ==> match smi_output {
            None => h == NvidiaHardware::NoDriver,
            Some(out) => match first_line_spec(out@) {
                None => h == NvidiaHardware::NoDriver,
                Some(d) => match h {
                    NvidiaHardware::DriverTooOld { driver } => driver@ == d && classify_spec(d),
                    NvidiaHardware::Supported { driver } => driver@ == d && !classify_spec(d),
                    _ => false,
                },
            },
        },
{
    if !has_nvidia_pci {
        return NvidiaHardware::Absent;
    }
    match smi_output {
        None => NvidiaHardware::NoDriver,
        Some(out) => match first_non_empty_line(out) {
            None => NvidiaHardware::NoDriver,
            Some(driver) => classify_driver_version(driver),
        },
    }
}

/// The size of the CUDA download, for the user.
pub fn estimated_download_label() -> (s: &'static str)
    ensures
        s@ == "ca. 2,2 GB"@,
{
    "ca. 2,2 GB"
}

/// The wheels that bring CUDA 12 and cuDNN 9 with them.
pub open spec fn cuda_packages() -> Seq<Seq<char>> {
    seq!["nvidia-cublas-cu12"@, "nvidia-cudnn-cu12"@]
}

/// The arguments of the `pip` call that installs the CUDA wheels.
pub fn build_pip_install_args() -> (args: Vec<String>)
    ensures
        args@.len() == 3,
        args@[0]@ == "install"@,
        args@[1]@ == cuda_packages()[0],
        args@[2]@ == cuda_packages()[1],
{
    let mut args: Vec<String> = Vec::new();
    args.push(string_from(chars_of("install").as_slice()));
    args.push(string_from(chars_of("nvidia-cublas-cu12").as_slice()));
    args.push(string_from(chars_of("nvidia-cudnn-cu12").as_slice()));
    args
}

/// The command line shown before the install starts: `$ <pip> <args…>`.
pub fn install_command_line(pip: &str, args: &[String]) -> (line: String)
    ensures
        line@ == "$ "@ + pip@ + " "@ + join(args@.map_values(|a: String| a@), " "@),
{
    let mut parts: Vec<Vec<char>> = Vec::new();
    let mut i: usize = 0;
    while i < args.len()
        invariant
            i <= args@.len(),
            parts@.len() == i,
            forall|j: int| 0 <= j < i ==> (#[trigger] parts@[j])@ == args@[j]@,
        decreases args@.len() - i,
    {
        parts.push(chars_of(args[i].as_str()));
        i = i + 1;
    }
    assert(views(parts@) =~= args@.map_values(|a: String| a@));
    let mut v = chars_of("$ ");
    extend_chars(&mut v, chars_of(pip).as_slice());
    extend_chars(&mut v, chars_of(" ").as_slice());
    extend_chars(&mut v, join_exec(parts.as_slice(), chars_of(" ").as_slice()).as_slice());
    string_from(v.as_slice())
}

/// Whether `lspci | grep -i nvidia` found an NVIDIA device: it ran,
/// succeeded and printed something.
pub fn nvidia_listed(ran: bool, success: bool, stdout: &[u8]) -> (r: bool)
    ensures
        r == (ran && success && stdout@.len() > 0),
{
    ran && success && stdout.len() > 0
}

/// The CUDA wheels are present in a Python version directory when its
/// `site-packages/nvidia` holds both `cublas` and `cudnn`.
pub fn cuda_wheels_present_in(cublas_is_dir: bool, cudnn_is_dir: bool) -> (r: bool)
    ensures
        r == (cublas_is_dir && cudnn_is_dir),
{
    cublas_is_dir && cudnn_is_dir
}

/// The first piece of `cur + d + tail` split at dots, when `d` holds no dot
/// and `tail` is empty or starts with one, is `cur + d`.
proof fn lemma_first_piece(d: Seq<char>, tail: Seq<char>, cur: Seq<char>)
    requires
        forall|i: int| 0 <= i < d.len() ==> d[i] != '.',
        tail.len() == 0 || tail[0] == '.',
    ensures
        split_from(d + tail, '.', cur)[0] == cur + d,
    decreases d.len(),
{
    if d.len() == 0 {
        assert(d + tail =~= tail);
        assert(cur + d =~= cur);
        if tail.len() > 0 {
            crate::text::lemma_split_from_nonempty(tail.drop_first(), '.', seq![]);
        }
    } else {
        assert((d + tail).drop_first() =~= d.drop_first() + tail);
        assert((d + tail)[0] == d[0]);
        lemma_first_piece(d.drop_first(), tail, cur.push(d[0]));
        assert(cur.push(d[0]) + d.drop_first() =~= cur + d);
    }
}

/// Law: a driver whose version starts with the major number `n` (alone or
/// followed by a dot and more) is too old for CUDA 12 exactly when `n` is
/// below 525.
pub proof fn lemma_driver_cutoff(n: u32, rest: Seq<char>)
    ensures
        driver_major_spec(decimal(n as nat) + seq!['.'] + rest) == n,
        driver_major_spec(decimal(n as nat)) == n,
        classify_spec(decimal(n as nat) + seq!['.'] + rest) <==> n < 525,
        classify_spec(decimal(n as nat)) <==> n < 525,
{
    lemma_decimal_digits(n as nat);
    let d = decimal(n as nat);
    assert forall|i: int| 0 <= i < d.len() implies d[i] != '.' by {
        assert(is_digit(d[i]));
    }
    let t = seq!['.'] + rest;
    lemma_first_piece(d, t, seq![]);
    assert(d + t =~= d + seq!['.'] + rest);
    assert(seq![] + d =~= d);
    lemma_first_piece(d, seq![], seq![]);
    assert(d + Seq::<char>::empty() =~= d);
    lemma_parse_decimal(n as nat, u32::MAX as int);
}

/// Law: the GPU install brings exactly the CUDA 12 cuBLAS and cuDNN wheels.
pub proof fn lemma_cuda_packages()
    ensures
        cuda_packages() == seq!["nvidia-cublas-cu12"@, "nvidia-cudnn-cu12"@],
{
}

} // verus!
