//! The faster-whisper models: their sizes, the labels shown before a
//! download, and where the Hugging Face cache keeps them.
use vstd::prelude::*;
use crate::number::{decimal, digit_char, format_u64};
use crate::paths::{hf_hub_root, hf_hub_root_spec, join_path, join_path_exec, Environment};
use crate::text::{chars_of, extend_chars, is_literal, string_from};

verus! {

/// A model and its approximate download size.
#[derive(Debug, Clone, Copy)]
pub struct ModelInfo {
    pub id: &'static str,
    pub size_mb: u32,
}

/// The download size in MB of the model `id`, for the models known.
pub open spec fn model_size(id: Seq<char>) -> Option<u32> {
    if id == "tiny"@ {
        Some(75)
    } else if id == "base"@ {
        Some(145)
    } else if id == "small"@ {
        Some(480)
    } else if id == "medium"@ {
        Some(1500)
    } else if id == "large-v2"@ {
        Some(3000)
    } else if id == "large-v3"@ {
        Some(3000)
    } else {
        None
    }
}

/// The known models, smallest first.
pub fn models() -> (v: Vec<ModelInfo>)
    ensures
        v@.len() == 6,
        forall|i: int| 0 <= i < 6 ==> model_size((#[trigger] v@[i]).id@) == Some(v@[i].size_mb),
{
    let v = vec![
        ModelInfo { id: "tiny", size_mb: 75 },
        ModelInfo { id: "base", size_mb: 145 },
        ModelInfo { id: "small", size_mb: 480 },
        ModelInfo { id: "medium", size_mb: 1500 },
        ModelInfo { id: "large-v2", size_mb: 3000 },
        ModelInfo { id: "large-v3", size_mb: 3000 },
    ];
    proof {
        reveal_strlit("tiny");
        reveal_strlit("base");
        reveal_strlit("small");
        reveal_strlit("medium");
        reveal_strlit("large-v2");
        reveal_strlit("large-v3");
        assert("large-v3"@ != "large-v2"@) by {
            assert("large-v3"@[7] != "large-v2"@[7]);
        }
        assert("base"@ != "tiny"@) by {
            assert("base"@[0] != "tiny"@[0]);
        }
        assert(v@[0].id@ == "tiny"@);
        assert(v@[1].id@ == "base"@);
        assert(v@[2].id@ == "small"@);
        assert(v@[3].id@ == "medium"@);
        assert(v@[4].id@ == "large-v2"@);
        assert(v@[5].id@ == "large-v3"@);
    }
    v
}

/// The model with id `id`, if it is a known one.
pub fn info(id: &str) -> (r: Option<ModelInfo>)
    ensures
        match model_size(id@) {
            Some(size) => r matches Some(m) && m.size_mb == size && m.id@ == id@,
            None => r is None,
        },
{
    let c = chars_of(id);
    if is_literal(c.as_slice(), "tiny") {
        Some(ModelInfo { id: "tiny", size_mb: 75 })
    } else if is_literal(c.as_slice(), "base") {
        Some(ModelInfo { id: "base", size_mb: 145 })
    } else if is_literal(c.as_slice(), "small") {
        Some(ModelInfo { id: "small", size_mb: 480 })
    } else if is_literal(c.as_slice(), "medium") {
        Some(ModelInfo { id: "medium", size_mb: 1500 })
    } else if is_literal(c.as_slice(), "large-v2") {
        Some(ModelInfo { id: "large-v2", size_mb: 3000 })
    } else if is_literal(c.as_slice(), "large-v3") {
        Some(ModelInfo { id: "large-v3", size_mb: 3000 })
    } else {
        None
    }
}

/// Sizes for which the labels below are computed exactly as the decimal
/// rounding they show: up to a million MB, and whole tenths of a GB.
pub open spec fn labelled_size(size_mb: u32) -> bool {
    size_mb <= 1_000_000 && (size_mb < 1000 || size_mb % 100 == 0)
}

/// `ca. N MB`, or `ca. G.T GB` from 1000 MB on.
pub open spec fn file_size_label(size_mb: u32) -> Seq<char> {
    if size_mb >= 1000 {
        "ca. "@ + decimal((size_mb / 1000) as nat) + seq!['.'] + seq![
            digit_char(((size_mb % 1000) / 100) as nat),
        ] + " GB"@
    } else {
        "ca. "@ + decimal(size_mb as nat) + " MB"@
    }
}

/// The download time at 100 Mbit/s (about 10 MB/s), rounded to minutes.
pub open spec fn duration_label(size_mb: u32) -> Seq<char> {
    if size_mb < 600 {
        "unter 1 min"@
    } else {
        "ca. "@ + decimal(((size_mb + 300) / 600) as nat) + " min"@
    }
}

/// The size of a download, in MB or GB with one decimal.
fn format_file_size(size_mb: u32) -> (out: Vec<char>)
    requires
        labelled_size(size_mb),
    ensures
        out@ == file_size_label(size_mb),
{
    let mut v = chars_of("ca. ");
    if size_mb >= 1000 {
        extend_chars(&mut v, format_u64((size_mb / 1000) as u64).as_slice());
        v.push('.');
        let tenth = ((size_mb % 1000) / 100) as u8;
        v.push((tenth + 48) as char);
        extend_chars(&mut v, chars_of(" GB").as_slice());
    } else {
        extend_chars(&mut v, format_u64(size_mb as u64).as_slice());
        extend_chars(&mut v, chars_of(" MB").as_slice());
    }
    assert(v@ =~= file_size_label(size_mb));
    v
}

/// The estimated download time at 100 Mbit/s.
fn duration_at_100mbit(size_mb: u32) -> (out: Vec<char>)
    requires
        labelled_size(size_mb),
    ensures
        out@ == duration_label(size_mb),
{
    if size_mb < 600 {
        chars_of("unter 1 min")
    } else {
        let mut v = chars_of("ca. ");
        extend_chars(&mut v, format_u64(((size_mb + 300) / 600) as u64).as_slice());
        extend_chars(&mut v, chars_of(" min").as_slice());
        assert(v@ =~= duration_label(size_mb));
        v
    }
}

/// The label of a model in the model list: size and download time.
pub fn size_label(id: &str) -> (out: String)
    ensures
        out@ == match model_size(id@) {
            Some(size) => file_size_label(size) + " · "@ + duration_label(size) + " bei 100 Mbit"@,
            None => "unbekannte Größe"@,
        },
{
    match info(id) {
        Some(m) => {
            let mut v = format_file_size(m.size_mb);
            extend_chars(&mut v, chars_of(" · ").as_slice());
            extend_chars(&mut v, duration_at_100mbit(m.size_mb).as_slice());
            extend_chars(&mut v, chars_of(" bei 100 Mbit").as_slice());
            string_from(v.as_slice())
        },
        None => string_from(chars_of("unbekannte Größe").as_slice()),
    }
}

/// The compact size label of a model, `?` for an unknown one.
pub fn size_label_short(id: &str) -> (out: String)
    ensures
        out@ == match model_size(id@) {
            Some(size) => file_size_label(size),
            None => "?"@,
        },
{
    match info(id) {
        Some(m) => string_from(format_file_size(m.size_mb).as_slice()),
        None => string_from(chars_of("?").as_slice()),
    }
}

/// The cache directory of model `id`: faster-whisper loads
/// `Systran/faster-whisper-<id>`, which the hub caches as
/// `models--Systran--faster-whisper-<id>`.
pub fn cache_dir(env: &Environment, id: &str) -> (out: String)
    ensures
        out@ == join_path(hf_hub_root_spec(*env), "models--Systran--faster-whisper-"@ + id@),
{
    let root = chars_of(hf_hub_root(env).as_str());
    let mut name = chars_of("models--Systran--faster-whisper-");
    extend_chars(&mut name, chars_of(id).as_slice());
    string_from(join_path_exec(root.as_slice(), name.as_slice()).as_slice())
}

/// A model counts as downloaded when its cache directory holds a
/// `snapshots` directory with at least one entry.
pub fn is_downloaded(cache_is_dir: bool, snapshots_is_dir: bool, has_snapshot: bool) -> (r: bool)
    ensures
        r == (cache_is_dir && snapshots_is_dir && has_snapshot),
{
    cache_is_dir && snapshots_is_dir && has_snapshot
}

/// Law: the download sizes of the models: tiny 75 MB, base 145 MB, small
/// 480 MB, medium 1500 MB, large-v2 and large-v3 3000 MB each; no other id
/// names a model.
pub proof fn lemma_model_sizes(id: Seq<char>)
    ensures
        model_size("tiny"@) == Some(75u32),
        model_size("base"@) == Some(145u32),
        model_size("small"@) == Some(480u32),
        model_size("medium"@) == Some(1500u32),
        model_size("large-v2"@) == Some(3000u32),
        model_size("large-v3"@) == Some(3000u32),
        model_size(id) is Some <==> (id == "tiny"@ || id == "base"@ || id == "small"@ || id == "medium"@ || id == "large-v2"@ || id == "large-v3"@),
{
    reveal_strlit("tiny");
    reveal_strlit("base");
    reveal_strlit("small");
    reveal_strlit("medium");
    reveal_strlit("large-v2");
    reveal_strlit("large-v3");
    assert("base"@[0] != "tiny"@[0]);
    assert("small"@.len() != "tiny"@.len());
    assert("small"@.len() != "base"@.len());
    assert("medium"@.len() != "tiny"@.len());
    assert("medium"@.len() != "base"@.len());
    assert("medium"@.len() != "small"@.len());
    assert("large-v2"@.len() != "tiny"@.len());
    assert("large-v2"@.len() != "base"@.len());
    assert("large-v2"@.len() != "small"@.len());
    assert("large-v2"@.len() != "medium"@.len());
    assert("large-v3"@.len() != "tiny"@.len());
    assert("large-v3"@.len() != "base"@.len());
    assert("large-v3"@.len() != "small"@.len());
    assert("large-v3"@.len() != "medium"@.len());
    assert("large-v3"@[7] != "large-v2"@[7]);
}

} // verus!
