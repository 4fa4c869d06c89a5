//! The per-evaluation context a builtin runs against: the resolved script
//! path, the invocation and working directories, an override map, and a
//! snapshot of the process environment. OS values enter the context as
//! plain data, taken once when the caller constructs it; every builtin is
//! then a total function of the context and its arguments.

use vstd::prelude::*;

use crate::text::str_eq;

verus! {

/// A filesystem path as the evaluation layer reads it: its text when the
/// raw OS path is valid unicode, and its lossy rendering, which is always
/// available and is used in messages.
#[derive(Debug, PartialEq, Eq, Clone)]
pub struct PathText {
    pub text: Option<String>,
    pub lossy: String,
}

/// The resolved script path together with its parent directory, which is
/// absent when the script path is a filesystem root.
#[derive(Debug, PartialEq, Eq, Clone)]
pub struct ScriptPath {
    pub path: PathText,
    pub parent: Option<PathText>,
}

/// Where the script was found and from where evaluation runs.
#[derive(Debug, PartialEq, Eq, Clone)]
pub struct Search {
    pub justfile: ScriptPath,
    pub working_directory: PathText,
}

/// One process-environment value: either valid unicode, or not, in which
/// case only its debug rendering is kept for the failure message.
#[derive(Debug, PartialEq, Eq, Clone)]
pub enum EnvValue {
    Unicode(String),
    NotUnicode(String),
}

pub struct FunctionContext {
    pub search: Search,
    /// The invocation directory, already rendered for the native shell
    /// relative to the working directory, or the conversion failure.
    pub invocation_directory: Result<String, String>,
    /// The override map, consulted ahead of the process environment.
    pub dotenv: Vec<(String, String)>,
    /// A snapshot of the process environment.
    pub environment: Vec<(String, EnvValue)>,
    /// The path of the running program's own binary, or the OS error that
    /// prevented resolving it, rendered as text.
    pub executable: Result<PathText, String>,
}

/// First-match lookup in an association list keyed by strings.
pub open spec fn assoc_lookup<V>(entries: Seq<(String, V)>, key: Seq<char>) -> Option<V>
    decreases entries.len(),
{
    if entries.len() == 0 {
        None
    } else if entries[0].0@ == key {
        Some(entries[0].1)
    } else {
        assoc_lookup(entries.drop_first(), key)
    }
}

proof fn lemma_assoc_first_match<V>(entries: Seq<(String, V)>, key: Seq<char>, i: int)
    requires
        0 <= i < entries.len(),
        entries[i].0@ == key,
        forall|j: int| 0 <= j < i ==> entries[j].0@ != key,
    ensures
        assoc_lookup(entries, key) == Some(entries[i].1),
    decreases i,
{
    if i > 0 {
        lemma_assoc_first_match(entries.drop_first(), key, i - 1);
    }
}

proof fn lemma_assoc_no_match<V>(entries: Seq<(String, V)>, key: Seq<char>)
    requires
        forall|j: int| 0 <= j < entries.len() ==> entries[j].0@ != key,
    ensures
        assoc_lookup(entries, key) is None,
    decreases entries.len(),
{
    if entries.len() > 0 {
        lemma_assoc_no_match(entries.drop_first(), key);
    }
}

/// Index of the first entry whose key equals `key`, if any.
pub fn assoc_find<V>(entries: &Vec<(String, V)>, key: &str) -> (r: Option<usize>)
    ensures
        match r {
            Some(i) => i < entries@.len() && entries@[i as int].0@ == key@ && assoc_lookup(
                entries@,
                key@,
            ) == Some(entries@[i as int].1),
            None => assoc_lookup(entries@, key@) is None,
        },
{
    let n: usize = entries.len();
    let mut i: usize = 0;
    while i < n
        invariant
            n == entries@.len(),
            i <= n,
            forall|j: int| 0 <= j < i ==> entries@[j].0@ != key@,
        decreases n - i,
    {
        if str_eq(entries[i].0.as_str(), key) {
            proof {
                lemma_assoc_first_match(entries@, key@, i as int);
            }
            return Some(i);
        }
        i += 1;
    }
    proof {
        lemma_assoc_no_match(entries@, key@);
    }
    None
}

} // verus!
