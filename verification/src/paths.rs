//! XDG paths of the application: configuration, data directory with its
//! Python environment, history and window state, and the model cache.
//!
//! The values of the environment variables that decide them are read by
//! the application and handed in as an [`Environment`].
use vstd::prelude::*;
use crate::text::{chars_of, extend_chars, string_from};

verus! {

/// The environment variables the paths depend on; `None` for a variable
/// that is unset or not valid Unicode.
pub struct Environment {
    pub xdg_config_home: Option<String>,
    pub xdg_data_home: Option<String>,
    pub home: Option<String>,
}

/// `Path::join` on Unix: an absolute component replaces the base,
/// otherwise a `/` separates them unless the base is empty or ends in one.
pub open spec fn join_path(base: Seq<char>, comp: Seq<char>) -> Seq<char> {
    if comp.len() > 0 && comp[0] == '/' {
        comp
    } else if base.len() > 0 && base.last() != '/' {
        base + seq!['/'] + comp
    } else {
        base + comp
    }
}

/// `Path::join`.
pub fn join_path_exec(base: &[char], comp: &[char]) -> (out: Vec<char>)
    ensures
        out@ == join_path(base@, comp@),
{
    if comp.len() > 0 && comp[0] == '/' {
        let mut v = Vec::new();
        extend_chars(&mut v, comp);
        assert(v@ =~= comp@);
        return v;
    }
    let mut v = Vec::new();
    extend_chars(&mut v, base);
    if base.len() > 0 && base[base.len() - 1] != '/' {
        v.push('/');
    }
    extend_chars(&mut v, comp);
    assert(v@ =~= join_path(base@, comp@));
    v
}

/// `base` joined with the literal component `comp`.
fn join_lit(base: &[char], comp: &str) -> (out: Vec<char>)
    ensures
        out@ == join_path(base@, comp@),
{
    let c = chars_of(comp);
    join_path_exec(base, c.as_slice())
}

fn opt_view(o: &Option<String>) -> (r: Option<Vec<char>>)
    ensures
        match o {
            Some(s) => r matches Some(v) && v@ == s@,
            None => r is None,
        },
{
    match o {
        Some(s) => Some(chars_of(s.as_str())),
        None => None,
    }
}

pub open spec fn or_default(o: Option<String>, d: Seq<char>) -> Seq<char> {
    match o {
        Some(s) => s@,
        None => d,
    }
}

/// `$HOME`, or `/tmp` without it.
pub open spec fn home_dir_spec(env: Environment) -> Seq<char> {
    or_default(env.home, "/tmp"@)
}

/// `$XDG_CONFIG_HOME`, or `$HOME/.config`.
pub open spec fn config_home_spec(env: Environment) -> Seq<char> {
    or_default(env.xdg_config_home, join_path(home_dir_spec(env), ".config"@))
}

/// `$XDG_DATA_HOME`, or `$HOME/.local/share`.
pub open spec fn data_home_spec(env: Environment) -> Seq<char> {
    or_default(env.xdg_data_home, join_path(join_path(home_dir_spec(env), ".local"@), "share"@))
}

pub open spec fn config_dir_spec(env: Environment) -> Seq<char> {
    join_path(config_home_spec(env), "vooox"@)
}

pub open spec fn config_path_spec(env: Environment) -> Seq<char> {
    join_path(config_dir_spec(env), "config.toml"@)
}

pub open spec fn autostart_path_spec(env: Environment) -> Seq<char> {
    join_path(join_path(config_home_spec(env), "autostart"@), "vooox.desktop"@)
}

pub open spec fn data_dir_spec(env: Environment) -> Seq<char> {
    join_path(data_home_spec(env), "vooox"@)
}

pub open spec fn venv_dir_spec(env: Environment) -> Seq<char> {
    join_path(data_dir_spec(env), "venv"@)
}

pub open spec fn venv_python_spec(env: Environment) -> Seq<char> {
    join_path(join_path(venv_dir_spec(env), "bin"@), "python"@)
}

pub open spec fn hf_hub_root_spec(env: Environment) -> Seq<char> {
    join_path(join_path(join_path(home_dir_spec(env), ".cache"@), "huggingface"@), "hub"@)
}

fn home_dir(env: &Environment) -> (out: Vec<char>)
    ensures
        out@ == home_dir_spec(*env),
{
    match opt_view(&env.home) {
        Some(v) => v,
        None => chars_of("/tmp"),
    }
}

fn config_home(env: &Environment) -> (out: Vec<char>)
    ensures
        out@ == config_home_spec(*env),
{
    match opt_view(&env.xdg_config_home) {
        Some(v) => v,
        None => join_lit(home_dir(env).as_slice(), ".config"),
    }
}

fn xdg_data_home(env: &Environment) -> (out: Vec<char>)
    ensures
        out@ == data_home_spec(*env),
{
    match opt_view(&env.xdg_data_home) {
        Some(v) => v,
        None => join_lit(join_lit(home_dir(env).as_slice(), ".local").as_slice(), "share"),
    }
}

/// The directory of the configuration file.
pub fn config_dir(env: &Environment) -> (out: String)
    ensures
        out@ == config_dir_spec(*env),
{
    string_from(join_lit(config_home(env).as_slice(), "vooox").as_slice())
}

/// The configuration file.
pub fn config_path(env: &Environment) -> (out: String)
    ensures
        out@ == config_path_spec(*env),
{
    let dir = join_lit(config_home(env).as_slice(), "vooox");
    string_from(join_lit(dir.as_slice(), "config.toml").as_slice())
}

/// The desktop entry that starts the application at login.
pub fn autostart_path(env: &Environment) -> (out: String)
    ensures
        out@ == autostart_path_spec(*env),
{
    let dir = join_lit(config_home(env).as_slice(), "autostart");
    string_from(join_lit(dir.as_slice(), "vooox.desktop").as_slice())
}

fn data_dir_chars(env: &Environment) -> (out: Vec<char>)
    ensures
        out@ == data_dir_spec(*env),
{
    join_lit(xdg_data_home(env).as_slice(), "vooox")
}

/// The application's data directory.
pub fn data_dir(env: &Environment) -> (out: String)
    ensures
        out@ == data_dir_spec(*env),
{
    string_from(data_dir_chars(env).as_slice())
}

fn venv_dir_chars(env: &Environment) -> (out: Vec<char>)
    ensures
        out@ == venv_dir_spec(*env),
{
    join_lit(data_dir_chars(env).as_slice(), "venv")
}

/// The application's own Python environment.
pub fn venv_dir(env: &Environment) -> (out: String)
    ensures
        out@ == venv_dir_spec(*env),
{
    string_from(venv_dir_chars(env).as_slice())
}

/// The interpreter of the application's Python environment.
pub fn venv_python(env: &Environment) -> (out: String)
    ensures
        out@ == venv_python_spec(*env),
{
    let bin = join_lit(venv_dir_chars(env).as_slice(), "bin");
    string_from(join_lit(bin.as_slice(), "python").as_slice())
}

/// `pip` of the application's Python environment.
pub fn venv_pip(env: &Environment) -> (out: String)
    ensures
        out@ == join_path(venv_dir_spec(*env), "bin/pip"@),
{
    string_from(join_lit(venv_dir_chars(env).as_slice(), "bin/pip").as_slice())
}

/// The marker file written when the first-run setup has finished.
pub open spec fn setup_marker_spec(env: Environment) -> Seq<char> {
    join_path(data_dir_spec(env), ".setup_complete"@)
}

/// The marker file written when the first-run setup has finished.
pub fn setup_marker(env: &Environment) -> (out: String)
    ensures
        out@ == setup_marker_spec(*env),
        out@ == join_path(data_dir_spec(*env), ".setup_complete"@),
{
    string_from(join_lit(data_dir_chars(env).as_slice(), ".setup_complete").as_slice())
}

/// The history file.
pub open spec fn history_path_spec(env: Environment) -> Seq<char> {
    join_path(data_dir_spec(env), "history.jsonl"@)
}

/// The history file.
pub fn history_path(env: &Environment) -> (out: String)
    ensures
        out@ == history_path_spec(*env),
        out@ == join_path(data_dir_spec(*env), "history.jsonl"@),
{
    string_from(join_lit(data_dir_chars(env).as_slice(), "history.jsonl").as_slice())
}

/// The file of remembered window positions.
pub open spec fn state_path_spec(env: Environment) -> Seq<char> {
    join_path(data_dir_spec(env), "window_state.json"@)
}

/// The file of remembered window positions.
pub fn state_path(env: &Environment) -> (out: String)
    ensures
        out@ == state_path_spec(*env),
        out@ == join_path(data_dir_spec(*env), "window_state.json"@),
{
    string_from(join_lit(data_dir_chars(env).as_slice(), "window_state.json").as_slice())
}

/// The Hugging Face hub cache.
pub fn hf_hub_root(env: &Environment) -> (out: String)
    ensures
        out@ == hf_hub_root_spec(*env),
{
    let c = join_lit(home_dir(env).as_slice(), ".cache");
    let h = join_lit(c.as_slice(), "huggingface");
    string_from(join_lit(h.as_slice(), "hub").as_slice())
}

/// The interpreter that runs the transcription server: the one of the
/// application's Python environment when it exists, else `python3`.
pub fn python_command(env: &Environment, venv_python_exists: bool) -> (out: String)
    ensures
        out@ == (if venv_python_exists {
            venv_python_spec(*env)
        } else {
            "python3"@
        }),
{
    if venv_python_exists {
        venv_python(env)
    } else {
        string_from(chars_of("python3").as_slice())
    }
}

/// The setup is complete when its marker file exists and the
/// environment can import faster-whisper.
pub fn setup_is_complete(marker_exists: bool, has_faster_whisper: bool) -> (r: bool)
    ensures
        r == (marker_exists && has_faster_whisper),
{
    marker_exists && has_faster_whisper
}

/// A directory path that `Path::join` extends with a `/`: not empty and
/// not ending in `/`.
pub open spec fn plain_dir(p: Seq<char>) -> bool {
    p.len() > 0 && p.last() != '/'
}

proof fn lemma_join_plain(base: Seq<char>, comp: Seq<char>)
    requires
        plain_dir(base),
        plain_dir(comp),
        comp[0] != '/',
    ensures
        join_path(base, comp) == base + seq!['/'] + comp,
        plain_dir(join_path(base, comp)),
{
    assert((base + seq!['/'] + comp).last() == comp.last());
}

/// Law: with `$XDG_CONFIG_HOME` unset, the configuration lies under
/// `$HOME` whenever it is set: the configuration file is
/// `$HOME/.config/vooox/config.toml` and the autostart entry
/// `$HOME/.config/autostart/vooox.desktop`; the model cache is
/// `$HOME/.cache/huggingface/hub`.  Only without `$HOME` is `/tmp` used.
pub proof fn lemma_paths_under_home(env: Environment)
    requires
        env.xdg_config_home is None,
    ensures
        env.home is Some && plain_dir(env.home->0@) ==> {
            &&& config_path_spec(env) == env.home->0@ + "/.config/vooox/config.toml"@
            &&& autostart_path_spec(env) == env.home->0@ + "/.config/autostart/vooox.desktop"@
            &&& hf_hub_root_spec(env) == env.home->0@ + "/.cache/huggingface/hub"@
        },
        env.home is None ==> config_path_spec(env) == "/tmp/.config/vooox/config.toml"@,
{
    reveal_strlit(".config");
    reveal_strlit("vooox");
    reveal_strlit("config.toml");
    reveal_strlit("autostart");
    reveal_strlit("vooox.desktop");
    reveal_strlit(".local");
    reveal_strlit("share");
    reveal_strlit("venv");
    reveal_strlit("bin");
    reveal_strlit("python");
    reveal_strlit(".cache");
    reveal_strlit("huggingface");
    reveal_strlit("hub");
    reveal_strlit("/tmp");
    reveal_strlit("/.config/vooox/config.toml");
    reveal_strlit("/.config/autostart/vooox.desktop");
    reveal_strlit("/.local/share/vooox");
    reveal_strlit("/.local/share/vooox/venv/bin/python");
    reveal_strlit("/.cache/huggingface/hub");
    reveal_strlit("/vooox/config.toml");
    reveal_strlit("/vooox");
    reveal_strlit("/tmp/.config/vooox/config.toml");
    reveal_strlit("history.jsonl");
    reveal_strlit("window_state.json");
    reveal_strlit(".setup_complete");
    reveal_strlit("/.local/share/vooox/history.jsonl");
    reveal_strlit("/.local/share/vooox/window_state.json");
    reveal_strlit("/.local/share/vooox/.setup_complete");
    let b = home_dir_spec(env);
    if env.home is None {
        assert(plain_dir(b));
    }
    if plain_dir(b) {
        lemma_join_plain(b, ".config"@);
        let c = join_path(b, ".config"@);
        lemma_join_plain(c, "vooox"@);
        lemma_join_plain(join_path(c, "vooox"@), "config.toml"@);
        lemma_join_plain(c, "autostart"@);
        lemma_join_plain(join_path(c, "autostart"@), "vooox.desktop"@);
        lemma_join_plain(b, ".cache"@);
        lemma_join_plain(join_path(b, ".cache"@), "huggingface"@);
        lemma_join_plain(join_path(join_path(b, ".cache"@), "huggingface"@), "hub"@);
        assert(config_path_spec(env) =~= b + "/.config/vooox/config.toml"@);
        assert(autostart_path_spec(env) =~= b + "/.config/autostart/vooox.desktop"@);
        assert(hf_hub_root_spec(env) =~= b + "/.cache/huggingface/hub"@);
        if env.home is None {
            assert(config_path_spec(env) =~= "/tmp/.config/vooox/config.toml"@);
        }
    }
}

/// Law: with `$XDG_DATA_HOME` unset and `$HOME` set, the data directory is
/// `$HOME/.local/share/vooox`, holding the interpreter
/// `venv/bin/python`, the history `history.jsonl`, the window positions
/// `window_state.json` and the setup marker `.setup_complete`.
pub proof fn lemma_data_paths_under_home(env: Environment)
    requires
        env.xdg_data_home is None,
    ensures
        env.home is Some && plain_dir(env.home->0@) ==> {
            &&& data_dir_spec(env) == env.home->0@ + "/.local/share/vooox"@
            &&& venv_python_spec(env) == env.home->0@ + "/.local/share/vooox/venv/bin/python"@
            &&& history_path_spec(env) == env.home->0@ + "/.local/share/vooox/history.jsonl"@
            &&& state_path_spec(env) == env.home->0@ + "/.local/share/vooox/window_state.json"@
            &&& setup_marker_spec(env) == env.home->0@ + "/.local/share/vooox/.setup_complete"@
        },
{
    reveal_strlit(".config");
    reveal_strlit("vooox");
    reveal_strlit("config.toml");
    reveal_strlit("autostart");
    reveal_strlit("vooox.desktop");
    reveal_strlit(".local");
    reveal_strlit("share");
    reveal_strlit("venv");
    reveal_strlit("bin");
    reveal_strlit("python");
    reveal_strlit(".cache");
    reveal_strlit("huggingface");
    reveal_strlit("hub");
    reveal_strlit("/tmp");
    reveal_strlit("/.config/vooox/config.toml");
    reveal_strlit("/.config/autostart/vooox.desktop");
    reveal_strlit("/.local/share/vooox");
    reveal_strlit("/.local/share/vooox/venv/bin/python");
    reveal_strlit("/.cache/huggingface/hub");
    reveal_strlit("/vooox/config.toml");
    reveal_strlit("/vooox");
    reveal_strlit("/tmp/.config/vooox/config.toml");
    reveal_strlit("history.jsonl");
    reveal_strlit("window_state.json");
    reveal_strlit(".setup_complete");
    reveal_strlit("/.local/share/vooox/history.jsonl");
    reveal_strlit("/.local/share/vooox/window_state.json");
    reveal_strlit("/.local/share/vooox/.setup_complete");
    let b = home_dir_spec(env);
    if env.home is Some && plain_dir(env.home->0@) {
        lemma_join_plain(b, ".local"@);
        let l = join_path(b, ".local"@);
        lemma_join_plain(l, "share"@);
        let d = join_path(join_path(l, "share"@), "vooox"@);
        lemma_join_plain(join_path(l, "share"@), "vooox"@);
        lemma_join_plain(d, "venv"@);
        lemma_join_plain(join_path(d, "venv"@), "bin"@);
        lemma_join_plain(join_path(join_path(d, "venv"@), "bin"@), "python"@);
        assert(data_dir_spec(env) =~= b + "/.local/share/vooox"@);
        assert(venv_python_spec(env) =~= b + "/.local/share/vooox/venv/bin/python"@);
        lemma_join_plain(d, "history.jsonl"@);
        lemma_join_plain(d, "window_state.json"@);
        lemma_join_plain(d, ".setup_complete"@);
        assert(history_path_spec(env) =~= b + "/.local/share/vooox/history.jsonl"@);
        assert(state_path_spec(env) =~= b + "/.local/share/vooox/window_state.json"@);
        assert(setup_marker_spec(env) =~= b + "/.local/share/vooox/.setup_complete"@);
    }
}

/// Law: a set `$XDG_CONFIG_HOME` or `$XDG_DATA_HOME` replaces the default:
/// the configuration file is `$XDG_CONFIG_HOME/vooox/config.toml` and the
/// data directory `$XDG_DATA_HOME/vooox`, whatever `$HOME` is.
pub proof fn lemma_paths_under_xdg(env: Environment)
    ensures
        env.xdg_config_home is Some && plain_dir(env.xdg_config_home->0@) ==> config_path_spec(env)
            == env.xdg_config_home->0@ + "/vooox/config.toml"@,
        env.xdg_data_home is Some && plain_dir(env.xdg_data_home->0@) ==> data_dir_spec(env)
            == env.xdg_data_home->0@ + "/vooox"@,
{
    reveal_strlit(".config");
    reveal_strlit("vooox");
    reveal_strlit("config.toml");
    reveal_strlit("autostart");
    reveal_strlit("vooox.desktop");
    reveal_strlit(".local");
    reveal_strlit("share");
    reveal_strlit("venv");
    reveal_strlit("bin");
    reveal_strlit("python");
    reveal_strlit(".cache");
    reveal_strlit("huggingface");
    reveal_strlit("hub");
    reveal_strlit("/tmp");
    reveal_strlit("/.config/vooox/config.toml");
    reveal_strlit("/.config/autostart/vooox.desktop");
    reveal_strlit("/.local/share/vooox");
    reveal_strlit("/.local/share/vooox/venv/bin/python");
    reveal_strlit("/.cache/huggingface/hub");
    reveal_strlit("/vooox/config.toml");
    reveal_strlit("/vooox");
    reveal_strlit("/tmp/.config/vooox/config.toml");
    if let Some(x) = env.xdg_config_home {
        if plain_dir(x@) {
            lemma_join_plain(x@, "vooox"@);
            lemma_join_plain(join_path(x@, "vooox"@), "config.toml"@);
            assert(config_path_spec(env) =~= x@ + "/vooox/config.toml"@);
        }
    }
    if let Some(x) = env.xdg_data_home {
        if plain_dir(x@) {
            lemma_join_plain(x@, "vooox"@);
            assert(data_dir_spec(env) =~= x@ + "/vooox"@);
        }
    }
}

} // verus!
