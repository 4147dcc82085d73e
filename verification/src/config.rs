//! Which stage mode a push uses: the `--stage` flag, else `[wip] stage` in
//! the project config, else `[wip] stage` in the user config, else `all`.

use vstd::prelude::*;
use crate::types::StageMode;

verus! {

/// The stage mode that a setting's text names, if it names one.
pub open spec fn stage_named(v: Seq<char>) -> Option<StageMode> {
    if v == "all"@ {
        Some(StageMode::All)
    } else if v == "tracked"@ {
        Some(StageMode::TrackedOnly)
    } else if v == "none"@ {
        Some(StageMode::IndexOnly)
    } else {
        None
    }
}

/// The effective stage mode: the first of flag, project setting and user
/// setting that is given, and `All` when none is.
pub open spec fn effective_stage(
    flag: Option<StageMode>,
    project: Option<StageMode>,
    user: Option<StageMode>,
) -> StageMode {
    match flag {
        Some(m) => m,
        None => match project {
            Some(m) => m,
            None => match user {
                Some(m) => m,
                None => StageMode::All,
            },
        },
    }
}

/// The string that a TOML document holds under key `key` of table `table`:
/// `None` where the text is no TOML document, the table or key is missing,
/// or the value is not a string.
pub uninterp spec fn toml_string_setting(text: Seq<char>, table: Seq<char>, key: Seq<char>) -> Option<Seq<char>>;

/// The stage mode that a config file's text sets under `[wip] stage`, if any.
/// A missing or malformed setting sets none.
pub open spec fn config_stage(text: Seq<char>) -> Option<StageMode> {
    match toml_string_setting(text, "wip"@, "stage"@) {
        Some(v) => stage_named(v),
        None => None,
    }
}

/// Whether `s` reads exactly `lit`.
pub fn str_is(s: &str, lit: &str) -> (b: bool)
    ensures
        b == (s@ == lit@),
{
    let n = s.unicode_len();
    if n != lit.unicode_len() {
        return false;
    }
    let mut i: usize = 0;
    while i < n
        invariant
            n == s@.len(),
            n == lit@.len(),
            i <= n,
            forall|j: int| 0 <= j < i ==> s@[j] == lit@[j],
        decreases n - i,
    {
        if s.get_char(i) != lit.get_char(i) {
            return false;
        }
        i = i + 1;
    }
    assert(s@ =~= lit@);
    true
}

/// Reads a stage-mode setting: `all`, `tracked` or `none`; anything else
/// names no mode.
pub fn parse_stage_mode(v: &str) -> (m: Option<StageMode>)
    ensures
        m == stage_named(v@),
{
    if str_is(v, "all") {
        Some(StageMode::All)
    } else if str_is(v, "tracked") {
        Some(StageMode::TrackedOnly)
    } else if str_is(v, "none") {
        Some(StageMode::IndexOnly)
    } else {
        None
    }
}

/// Resolve the effective stage mode: CLI flag → project `[wip] stage`
/// → user `[wip] stage` → `StageMode::All`.
pub fn resolve_stage_mode(
    flag: Option<StageMode>,
    project: Option<StageMode>,
    user: Option<StageMode>,
) -> (m: StageMode)
    ensures
        m == effective_stage(flag, project, user),
{
    match flag {
        Some(m) => m,
        None => match project {
            Some(m) => m,
            None => match user {
                Some(m) => m,
                None => StageMode::All,
            },
        },
    }
}

/// Parses `text` as a TOML document with `toml::Table::from_str`, then reads
/// table `table` (`toml::Map::get`), its key `key` (`toml::Value::get`) and
/// that value as a string (`toml::Value::as_str`). The contract only names
/// the result; what TOML text parses to what is not stated.
#[verifier::external_body]
fn toml_string_at(text: &str, table: &str, key: &str) -> (r: Option<String>)
    ensures
        r.deep_view() == toml_string_setting(text@, table@, key@),
{
    let doc = text.parse::<toml::Table>().ok()?;
    doc.get(table)?.get(key)?.as_str().map(String::from)
}

/// The stage mode that a config file's text sets under `[wip] stage`, if any.
pub fn config_stage_mode(text: &str) -> (m: Option<StageMode>)
    ensures
        m == config_stage(text@),
{
    match toml_string_at(text, "wip", "stage") {
        Some(v) => parse_stage_mode(v.as_str()),
        None => None,
    }
}

/// The `--stage` flag always beats config; config only decides without a
/// flag, the project's before the user's, and `all` is the default.
pub proof fn law_flag_beats_config(
    flag: Option<StageMode>,
    project: Option<StageMode>,
    user: Option<StageMode>,
)
    ensures
        flag matches Some(m) ==> effective_stage(flag, project, user) == m,
        flag is None && project is Some ==> effective_stage(flag, project, user) == project->0,
        flag is None && project is None && user is Some ==> effective_stage(flag, project, user) == user->0,
        flag is None && project is None && user is None ==> effective_stage(flag, project, user) == StageMode::All,
{
}

} // verus!
