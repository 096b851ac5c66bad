//! The folders of a Steam installation, told from what the platform's
//! configuration store holds.

use vstd::prelude::*;
use vstd::string::*;
use crate::paths::{join, path_join};
use crate::search::{capture, regex_capture, regex_replace_all, replace_all};

verus! {

/// A reference to a variable at the start of a Windows path: `%NAME%`, the
/// name in the one capture group.
pub const VARIABLE_PATTERN: &'static str = r"^\%([^\/]+)\%";

/// The folder below the programs folder that holds Steam's shortcuts.
pub const MENU_FOLDER: &'static str = "Steam";

/// What the platform's configuration store answered when asked for one
/// entry.
#[derive(Clone, Debug)]
pub enum StoreEntry {
    /// The platform has no such store.
    NoStore,
    /// The store has no such entry.
    Absent,
    /// The text held under the entry.
    Present(String),
}

/// Why a folder could not be told.
#[derive(Clone, Copy, Debug, PartialEq, Eq, Structural)]
pub enum LocateError {
    /// The store lacks the entry that names the folder.
    NotConfigured,
}

/// The text put in place of a variable reference `whole`: the variable's
/// value, or the reference itself where the variable has none.
pub open spec fn replacement_spec(whole: Seq<char>, value: Option<Seq<char>>) -> Seq<char> {
    match value {
        Some(text) => text,
        None => whole,
    }
}

/// The path `s` with the variable reference at its start, if it has one,
/// replaced: by `value`, or left as it is where `value` is `None`.
pub open spec fn expand_win_vars_spec(s: Seq<char>, value: Option<Seq<char>>) -> Seq<char> {
    match regex_capture(VARIABLE_PATTERN@, s, 0) {
        Some(whole) => regex_replace_all(VARIABLE_PATTERN@, s, replacement_spec(whole, value)),
        None => s,
    }
}

/// The path that the stored text `raw` stands for: expanded where it holds
/// a `%`, else as it is.
pub open spec fn stored_path(raw: Seq<char>, value: Option<Seq<char>>) -> Seq<char> {
    if raw.contains('%') {
        expand_win_vars_spec(raw, value)
    } else {
        raw
    }
}

/// Whether `c` occurs in `s`.
pub fn contains_char(s: &str, c: char) -> (r: bool)
    ensures
        r == s@.contains(c),
{
    let n: usize = s.unicode_len();
    let mut i: usize = 0;
    while i < n
        invariant
            i <= n,
            n == s@.len(),
            forall|j: int| 0 <= j < i ==> s@[j] != c,
        decreases n - i,
    {
        if s.get_char(i) == c {
            return true;
        }
        i = i + 1;
    }
    false
}

/// The text to put in place of the variable reference `whole`, `value`
/// being the variable's value, or `None` where it has none.
pub fn replacement(whole: String, value: Option<&str>) -> (r: String)
    ensures
        r@ == replacement_spec(whole@, value.deep_view()),
{
    match value {
        Some(text) => String::from_str(text),
        None => whole,
    }
}

/// The name of the variable that the path `s` refers to at its start, if it
/// starts with such a reference.
pub fn variable_name(s: &str) -> (r: Option<String>)
    ensures
        r.deep_view() == regex_capture(VARIABLE_PATTERN@, s@, 1),
{
    capture(VARIABLE_PATTERN, s, 1)
}

/// Expands the variable reference at the start of the Windows path `s`.
/// `value` is the value of the variable named by [`variable_name`], or
/// `None` where the environment has no such variable: the reference then
/// stays as it is, as does a path that starts with no reference.
pub fn expand_win_vars(s: &str, value: Option<&str>) -> (r: String)
    ensures
        r@ == expand_win_vars_spec(s@, value.deep_view()),
{
    match capture(VARIABLE_PATTERN, s, 0) {
        Some(whole) => {
            let text = replacement(whole, value);
            replace_all(VARIABLE_PATTERN, s, text.as_str())
        },
        None => String::from_str(s),
    }
}

/// The path held under a store entry, variables expanded.
fn expand_stored(raw: String, value: Option<&str>) -> (r: String)
    ensures
        r@ == stored_path(raw@, value.deep_view()),
{
    if contains_char(raw.as_str(), '%') {
        expand_win_vars(raw.as_str(), value)
    } else {
        raw
    }
}

/// The folder in which Steam is installed, `entry` being the store's answer
/// for the installation path. Without a store it is the empty path.
pub fn steam_path(entry: StoreEntry) -> (r: Result<String, LocateError>)
    ensures
        match entry {
            StoreEntry::NoStore => r matches Ok(path) && path@ == Seq::<char>::empty(),
            StoreEntry::Absent => r == Err::<String, LocateError>(LocateError::NotConfigured),
            StoreEntry::Present(raw) => r == Ok::<String, LocateError>(raw),
        },
{
    match entry {
        StoreEntry::NoStore => Ok(String::new()),
        StoreEntry::Absent => Err(LocateError::NotConfigured),
        StoreEntry::Present(raw) => Ok(raw),
    }
}

/// The user's desktop folder, `entry` being the store's answer for the
/// desktop of the user's shell folders. `value` is the value of the variable
/// that the stored text starts with (see [`expand_win_vars`]). Without a
/// store it is the empty path.
pub fn desktop_path(entry: StoreEntry, value: Option<&str>) -> (r: Result<String, LocateError>)
    ensures
        match entry {
            StoreEntry::NoStore => r matches Ok(path) && path@ == Seq::<char>::empty(),
            StoreEntry::Absent => r == Err::<String, LocateError>(LocateError::NotConfigured),
            StoreEntry::Present(raw) => r matches Ok(path) && path@ == stored_path(
                raw@,
                value.deep_view(),
            ),
        },
{
    match entry {
        StoreEntry::NoStore => Ok(String::new()),
        StoreEntry::Absent => Err(LocateError::NotConfigured),
        StoreEntry::Present(raw) => Ok(expand_stored(raw, value)),
    }
}

/// The folder of Steam's shortcuts in the start menu, `entry` being the
/// store's answer for the programs folder of the user's shell folders: that
/// folder, variables expanded, extended by [`MENU_FOLDER`]. `value` is the
/// value of the variable that the stored text starts with (see
/// [`expand_win_vars`]). Without a store it is the empty path.
pub fn menu_path(entry: StoreEntry, value: Option<&str>) -> (r: Result<String, LocateError>)
    ensures
        match entry {
            StoreEntry::NoStore => r matches Ok(path) && path@ == Seq::<char>::empty(),
            StoreEntry::Absent => r == Err::<String, LocateError>(LocateError::NotConfigured),
            StoreEntry::Present(raw) => r matches Ok(path) && path@ == path_join(
                stored_path(raw@, value.deep_view()),
                MENU_FOLDER@,
            ),
        },
{
    match entry {
        StoreEntry::NoStore => Ok(String::new()),
        StoreEntry::Absent => Err(LocateError::NotConfigured),
        StoreEntry::Present(raw) => {
            let programs = expand_stored(raw, value);
            Ok(join(programs.as_str(), MENU_FOLDER))
        },
    }
}

} // verus!
