//! The closed registry of named, fixed-arity builtin operations reachable
//! from inside text interpolations, and the evaluator that runs one of
//! them against a per-evaluation context.

use vstd::prelude::*;
use vstd::string::StringExecFns;

use crate::function_context::assoc_lookup;
use crate::function_context::assoc_find;
use crate::function_context::EnvValue;
use crate::function_context::FunctionContext;
use crate::text::str_eq;

verus! {

#[derive(Debug, PartialEq, Eq, Clone, Copy, Structural)]
pub enum NullaryFunction {
    Arch,
    Os,
    OsFamily,
    JustfileDirectory,
    Justfile,
    InvocationDirectory,
    JustExecutable,
}

#[derive(Debug, PartialEq, Eq, Clone, Copy, Structural)]
pub enum UnaryFunction {
    EnvVar,
}

#[derive(Debug, PartialEq, Eq, Clone, Copy, Structural)]
pub enum BinaryFunction {
    EnvVarOrDefault,
}

/// A builtin operation, tagged with the shape of its argument list.
#[derive(Debug, PartialEq, Eq, Clone, Copy, Structural)]
pub enum Function {
    Nullary(NullaryFunction),
    Unary(UnaryFunction),
    Binary(BinaryFunction),
}

pub open spec fn spec_argc(f: Function) -> int {
    match f {
        Function::Nullary(_) => 0,
        Function::Unary(_) => 1,
        Function::Binary(_) => 2,
    }
}

impl Function {
    /// The number of arguments this operation requires; the caller must
    /// compare it against the supplied argument count before invoking.
    pub fn argc(&self) -> (r: usize)
        ensures
            r == spec_argc(*self),
    {
        match *self {
            Function::Nullary(_) => 0,
            Function::Unary(_) => 1,
            Function::Binary(_) => 2,
        }
    }
}

/// The registered name and entry of each builtin, in registry order.
pub open spec fn spec_table() -> Seq<(Seq<char>, Function)> {
    seq![
        ("arch"@, Function::Nullary(NullaryFunction::Arch)),
        ("os"@, Function::Nullary(NullaryFunction::Os)),
        ("os_family"@, Function::Nullary(NullaryFunction::OsFamily)),
        ("justfile_directory"@, Function::Nullary(NullaryFunction::JustfileDirectory)),
        ("justfile"@, Function::Nullary(NullaryFunction::Justfile)),
        ("invocation_directory"@, Function::Nullary(NullaryFunction::InvocationDirectory)),
        ("env_var"@, Function::Unary(UnaryFunction::EnvVar)),
        ("env_var_or_default"@, Function::Binary(BinaryFunction::EnvVarOrDefault)),
        ("just_executable"@, Function::Nullary(NullaryFunction::JustExecutable)),
    ]
}

/// First entry in `entries` registered under `name`.
pub open spec fn table_lookup(entries: Seq<(Seq<char>, Function)>, name: Seq<char>) -> Option<
    Function,
>
    decreases entries.len(),
{
    if entries.len() == 0 {
        None
    } else if entries[0].0 == name {
        Some(entries[0].1)
    } else {
        table_lookup(entries.drop_first(), name)
    }
}

/// The entry registered under `name`, or `None` for an unregistered name.
pub open spec fn spec_lookup(name: Seq<char>) -> Option<Function> {
    table_lookup(spec_table(), name)
}

proof fn lemma_table_first_match(entries: Seq<(Seq<char>, Function)>, name: Seq<char>, i: int)
    requires
        0 <= i < entries.len(),
        entries[i].0 == name,
        forall|j: int| 0 <= j < i ==> entries[j].0 != name,
    ensures
        table_lookup(entries, name) == Some(entries[i].1),
    decreases i,
{
    if i > 0 {
        lemma_table_first_match(entries.drop_first(), name, i - 1);
    }
}

proof fn lemma_table_no_match(entries: Seq<(Seq<char>, Function)>, name: Seq<char>)
    requires
        forall|j: int| 0 <= j < entries.len() ==> entries[j].0 != name,
    ensures
        table_lookup(entries, name) is None,
    decreases entries.len(),
{
    if entries.len() > 0 {
        lemma_table_no_match(entries.drop_first(), name);
    }
}

/// The immutable name-keyed registry of builtins, built once at startup
/// and shared read-only by every evaluation.
pub struct FunctionTable {
    pub entries: Vec<(String, Function)>,
}

impl FunctionTable {
    /// The registry's contents as name-and-entry pairs.
    pub open spec fn view_entries(&self) -> Seq<(Seq<char>, Function)> {
        self.entries@.map(|i: int, e: (String, Function)| (e.0@, e.1))
    }

    pub open spec fn wf(&self) -> bool {
        self.view_entries() == spec_table()
    }

    /// Builds the registry holding exactly the nine builtins.
    pub fn new() -> (t: Self)
        ensures
            t.wf(),
    {
        let mut entries: Vec<(String, Function)> = Vec::new();
        entries.push(("arch".to_owned(), Function::Nullary(NullaryFunction::Arch)));
        entries.push(("os".to_owned(), Function::Nullary(NullaryFunction::Os)));
        entries.push(("os_family".to_owned(), Function::Nullary(NullaryFunction::OsFamily)));
        entries.push(
            ("justfile_directory".to_owned(), Function::Nullary(NullaryFunction::JustfileDirectory)),
        );
        entries.push(("justfile".to_owned(), Function::Nullary(NullaryFunction::Justfile)));
        entries.push(
            (
                "invocation_directory".to_owned(),
                Function::Nullary(NullaryFunction::InvocationDirectory),
            ),
        );
        entries.push(("env_var".to_owned(), Function::Unary(UnaryFunction::EnvVar)));
        entries.push(
            ("env_var_or_default".to_owned(), Function::Binary(BinaryFunction::EnvVarOrDefault)),
        );
        entries.push(
            ("just_executable".to_owned(), Function::Nullary(NullaryFunction::JustExecutable)),
        );
        let t = FunctionTable { entries };
        assert(t.view_entries() =~~= spec_table());
        t
    }

    /// Resolves a builtin name; an unregistered name is reported by the
    /// caller as an unknown function, never by this registry.
    pub fn lookup(&self, name: &str) -> (r: Option<Function>)
        requires
            self.wf(),
        ensures
            r == spec_lookup(name@),
    {
        let n: usize = self.entries.len();
        let mut i: usize = 0;
        while i < n
            invariant
                self.wf(),
                n == self.entries@.len(),
                i <= n,
                forall|j: int| 0 <= j < i ==> self.entries@[j].0@ != name@,
            decreases n - i,
        {
            if str_eq(self.entries[i].0.as_str(), name) {
                proof {
                    assert(self.view_entries()[i as int]
                        == (self.entries@[i as int].0@, self.entries@[i as int].1));
                    assert(forall|j: int|
                        0 <= j < i ==> self.view_entries()[j].0 == self.entries@[j].0@);
                    lemma_table_first_match(spec_table(), name@, i as int);
                }
                return Some(self.entries[i].1);
            }
            i += 1;
        }
        proof {
            assert(forall|j: int|
                0 <= j < self.entries@.len() ==> self.view_entries()[j].0
                    == self.entries@[j].0@);
            lemma_table_no_match(spec_table(), name@);
        }
        None
    }
}

/// The registry resolves each of the nine builtin names to its entry, and
/// with it the entry's required arity; every other name is unregistered
/// and resolves to `None` (by `spec_lookup` running off the table's end).
pub proof fn lemma_registry_contents()
    ensures
        spec_lookup("arch"@) == Some(Function::Nullary(NullaryFunction::Arch)),
        spec_lookup("os"@) == Some(Function::Nullary(NullaryFunction::Os)),
        spec_lookup("os_family"@) == Some(Function::Nullary(NullaryFunction::OsFamily)),
        spec_lookup("justfile_directory"@) == Some(
            Function::Nullary(NullaryFunction::JustfileDirectory),
        ),
        spec_lookup("justfile"@) == Some(Function::Nullary(NullaryFunction::Justfile)),
        spec_lookup("invocation_directory"@) == Some(
            Function::Nullary(NullaryFunction::InvocationDirectory),
        ),
        spec_lookup("env_var"@) == Some(Function::Unary(UnaryFunction::EnvVar)),
        spec_lookup("env_var_or_default"@) == Some(
            Function::Binary(BinaryFunction::EnvVarOrDefault),
        ),
        spec_lookup("just_executable"@) == Some(Function::Nullary(NullaryFunction::JustExecutable)),
{
    reveal_strlit("arch");
    reveal_strlit("os");
    reveal_strlit("os_family");
    reveal_strlit("justfile_directory");
    reveal_strlit("justfile");
    reveal_strlit("invocation_directory");
    reveal_strlit("env_var");
    reveal_strlit("env_var_or_default");
    reveal_strlit("just_executable");
    let t = spec_table();
    assert(t[0].0 == "arch"@);
    assert(t[1].0 == "os"@);
    assert(t[2].0 == "os_family"@);
    assert(t[3].0 == "justfile_directory"@);
    assert(t[4].0 == "justfile"@);
    assert(t[5].0 == "invocation_directory"@);
    assert(t[6].0 == "env_var"@);
    assert(t[7].0 == "env_var_or_default"@);
    assert(t[8].0 == "just_executable"@);
    assert("justfile_directory"@[0] != "env_var_or_default"@[0]);
    lemma_table_first_match(spec_table(), "arch"@, 0);
    lemma_table_first_match(spec_table(), "os"@, 1);
    lemma_table_first_match(spec_table(), "os_family"@, 2);
    lemma_table_first_match(spec_table(), "justfile_directory"@, 3);
    lemma_table_first_match(spec_table(), "justfile"@, 4);
    lemma_table_first_match(spec_table(), "invocation_directory"@, 5);
    lemma_table_first_match(spec_table(), "env_var"@, 6);
    lemma_table_first_match(spec_table(), "env_var_or_default"@, 7);
    lemma_table_first_match(spec_table(), "just_executable"@, 8);
}

/// A function outcome at the level of character sequences.
pub open spec fn result_view(r: Result<String, String>) -> Result<Seq<char>, Seq<char>> {
    match r {
        Ok(s) => Ok(s@),
        Err(e) => Err(e@),
    }
}

/// Relies on target::arch: returns the build target's CPU architecture as
/// a fixed, nonempty constant string.
#[verifier::external_body]
fn target_arch() -> (r: &'static str)
    ensures
        r@.len() > 0,
{
    target::arch()
}

/// Relies on target::os: returns the build target's operating-system
/// identifier as a fixed, nonempty constant string.
#[verifier::external_body]
fn target_os() -> (r: &'static str)
    ensures
        r@.len() > 0,
{
    target::os()
}

/// Relies on target::os_family: returns the build target's OS family,
/// which its source fixes to one of three constant strings.
#[verifier::external_body]
fn target_os_family() -> (r: &'static str)
    ensures
        r@ == "unix"@ || r@ == "wasm"@ || r@ == "windows"@,
{
    target::os_family()
}

/// The build target's CPU architecture identifier; never fails.
pub fn arch(_context: &FunctionContext) -> (r: Result<String, String>)
    ensures
        r is Ok,
        r matches Ok(v) ==> v@.len() > 0,
{
    Ok(target_arch().to_owned())
}

/// The build target's operating-system identifier; never fails.
pub fn os(_context: &FunctionContext) -> (r: Result<String, String>)
    ensures
        r is Ok,
        r matches Ok(v) ==> v@.len() > 0,
{
    Ok(target_os().to_owned())
}

/// The build target's OS family identifier; never fails.
pub fn os_family(_context: &FunctionContext) -> (r: Result<String, String>)
    ensures
        r is Ok,
        r matches Ok(v) ==> v@ == "unix"@ || v@ == "wasm"@ || v@ == "windows"@,
{
    Ok(target_os_family().to_owned())
}

pub open spec fn spec_invocation_directory(context: FunctionContext) -> Result<
    Seq<char>,
    Seq<char>,
> {
    match context.invocation_directory {
        Ok(path) => Ok(path@),
        Err(cause) => Err("Error getting shell path: "@ + cause@),
    }
}

/// The invocation directory, rendered for the native shell relative to the
/// working directory; fails only when that rendering failed.
pub fn invocation_directory(context: &FunctionContext) -> (r: Result<String, String>)
    ensures
        result_view(r) == spec_invocation_directory(*context),
{
    match &context.invocation_directory {
        Ok(path) => Ok(path.clone()),
        Err(cause) => {
            let mut m = "Error getting shell path: ".to_owned();
            m.append(cause.as_str());
            Err(m)
        },
    }
}

pub open spec fn spec_justfile(context: FunctionContext) -> Result<Seq<char>, Seq<char>> {
    match context.search.justfile.path.text {
        Some(text) => Ok(text@),
        None => Err("Justfile path is not valid unicode: "@ + context.search.justfile.path.lossy@),
    }
}

/// The resolved script path as text; fails when the path is not valid
/// unicode, naming its lossy rendering.
pub fn justfile(context: &FunctionContext) -> (r: Result<String, String>)
    ensures
        result_view(r) == spec_justfile(*context),
{
    match &context.search.justfile.path.text {
        Some(text) => Ok(text.clone()),
        None => {
            let mut m = "Justfile path is not valid unicode: ".to_owned();
            m.append(context.search.justfile.path.lossy.as_str());
            Err(m)
        },
    }
}

pub open spec fn spec_justfile_directory(context: FunctionContext) -> Result<Seq<char>, Seq<char>> {
    match context.search.justfile.parent {
        None => Err(
            "Could not resolve justfile directory. Justfile `"@ + context.search.justfile.path.lossy@
                + "` had no parent."@,
        ),
        Some(parent) => match parent.text {
            Some(text) => Ok(text@),
            None => Err("Justfile directory is not valid unicode: "@ + parent.lossy@),
        },
    }
}

/// The parent directory of the script path as text; fails when the script
/// path has no parent, or when the parent is not valid unicode.
pub fn justfile_directory(context: &FunctionContext) -> (r: Result<String, String>)
    ensures
        result_view(r) == spec_justfile_directory(*context),
{
    match &context.search.justfile.parent {
        None => {
            let mut m = "Could not resolve justfile directory. Justfile `".to_owned();
            m.append(context.search.justfile.path.lossy.as_str());
            m.append("` had no parent.");
            Err(m)
        },
        Some(parent) => match &parent.text {
            Some(text) => Ok(text.clone()),
            None => {
                let mut m = "Justfile directory is not valid unicode: ".to_owned();
                m.append(parent.lossy.as_str());
                Err(m)
            },
        },
    }
}

pub open spec fn spec_env_var(context: FunctionContext, key: Seq<char>) -> Result<
    Seq<char>,
    Seq<char>,
> {
    match assoc_lookup(context.dotenv@, key) {
        Some(value) => Ok(value@),
        None => match assoc_lookup(context.environment@, key) {
            None => Err("environment variable `"@ + key + "` not present"@),
            Some(EnvValue::Unicode(value)) => Ok(value@),
            Some(EnvValue::NotUnicode(rendering)) => Err(
                "environment variable `"@ + key + "` not unicode: "@ + rendering@,
            ),
        },
    }
}

/// Resolves `key` first in the override map, then in the environment
/// snapshot; fails when the variable is absent from both, or when its OS
/// value is not valid unicode.
pub fn env_var(context: &FunctionContext, key: &str) -> (r: Result<String, String>)
    ensures
        result_view(r) == spec_env_var(*context, key@),
{
    if let Some(i) = assoc_find(&context.dotenv, key) {
        return Ok(context.dotenv[i].1.clone());
    }
    match assoc_find(&context.environment, key) {
        None => {
            let mut m = "environment variable `".to_owned();
            m.append(key);
            m.append("` not present");
            assert(m@ =~= "environment variable `"@ + key@ + "` not present"@);
            Err(m)
        },
        Some(i) => match &context.environment[i].1 {
            EnvValue::Unicode(value) => Ok(value.clone()),
            EnvValue::NotUnicode(rendering) => {
                let mut m = "environment variable `".to_owned();
                m.append(key);
                m.append("` not unicode: ");
                m.append(rendering.as_str());
                assert(m@ =~= "environment variable `"@ + key@ + "` not unicode: "@ + rendering@);
                Err(m)
            },
        },
    }
}

pub open spec fn spec_env_var_or_default(
    context: FunctionContext,
    key: Seq<char>,
    default: Seq<char>,
) -> Result<Seq<char>, Seq<char>> {
    match assoc_lookup(context.dotenv@, key) {
        Some(value) => Ok(value@),
        None => match assoc_lookup(context.environment@, key) {
            None => Ok(default),
            Some(EnvValue::Unicode(value)) => Ok(value@),
            Some(EnvValue::NotUnicode(rendering)) => Err(
                "environment variable `"@ + key + "` not unicode: "@ + rendering@,
            ),
        },
    }
}

/// Like `env_var`, but a variable absent from both sources yields
/// `default` instead of failing; a present but non-unicode OS value still
/// fails.
pub fn env_var_or_default(context: &FunctionContext, key: &str, default: &str) -> (r: Result<
    String,
    String,
>)
    ensures
        result_view(r) == spec_env_var_or_default(*context, key@, default@),
{
    if let Some(i) = assoc_find(&context.dotenv, key) {
        return Ok(context.dotenv[i].1.clone());
    }
    match assoc_find(&context.environment, key) {
        None => Ok(default.to_owned()),
        Some(i) => match &context.environment[i].1 {
            EnvValue::Unicode(value) => Ok(value.clone()),
            EnvValue::NotUnicode(rendering) => {
                let mut m = "environment variable `".to_owned();
                m.append(key);
                m.append("` not unicode: ");
                m.append(rendering.as_str());
                assert(m@ =~= "environment variable `"@ + key@ + "` not unicode: "@ + rendering@);
                Err(m)
            },
        },
    }
}

pub open spec fn spec_just_executable(context: FunctionContext) -> Result<Seq<char>, Seq<char>> {
    match context.executable {
        Err(cause) => Err("Error getting current executable: "@ + cause@),
        Ok(exe_path) => match exe_path.text {
            Some(text) => Ok(text@),
            None => Err("Executable path is not valid unicode: "@ + exe_path.lossy@),
        },
    }
}

/// The path of the running program's own binary as text; fails when the
/// OS could not resolve it, or when the path is not valid unicode.
pub fn just_executable(context: &FunctionContext) -> (r: Result<String, String>)
    ensures
        result_view(r) == spec_just_executable(*context),
{
    match &context.executable {
        Err(cause) => {
            let mut m = "Error getting current executable: ".to_owned();
            m.append(cause.as_str());
            Err(m)
        },
        Ok(exe_path) => match &exe_path.text {
            Some(text) => Ok(text.clone()),
            None => {
                let mut m = "Executable path is not valid unicode: ".to_owned();
                m.append(exe_path.lossy.as_str());
                Err(m)
            },
        },
    }
}

/// Runs one registry entry against a context and its already-arity-checked
/// arguments.
pub fn invoke(function: &Function, context: &FunctionContext, arguments: &Vec<String>) -> (r:
    Result<String, String>)
    requires
        arguments@.len() == spec_argc(*function),
    ensures
        match *function {
            Function::Nullary(NullaryFunction::Arch) => r is Ok,
            Function::Nullary(NullaryFunction::Os) => r is Ok,
            Function::Nullary(NullaryFunction::OsFamily) => r is Ok,
            Function::Nullary(NullaryFunction::JustfileDirectory) => result_view(r)
                == spec_justfile_directory(*context),
            Function::Nullary(NullaryFunction::Justfile) => result_view(r) == spec_justfile(
                *context,
            ),
            Function::Nullary(NullaryFunction::InvocationDirectory) => result_view(r)
                == spec_invocation_directory(*context),
            Function::Nullary(NullaryFunction::JustExecutable) => result_view(r)
                == spec_just_executable(*context),
            Function::Unary(UnaryFunction::EnvVar) => result_view(r) == spec_env_var(
                *context,
                arguments@[0]@,
            ),
            Function::Binary(BinaryFunction::EnvVarOrDefault) => result_view(r)
                == spec_env_var_or_default(*context, arguments@[0]@, arguments@[1]@),
        },
{
    match function {
        Function::Nullary(NullaryFunction::Arch) => arch(context),
        Function::Nullary(NullaryFunction::Os) => os(context),
        Function::Nullary(NullaryFunction::OsFamily) => os_family(context),
        Function::Nullary(NullaryFunction::JustfileDirectory) => justfile_directory(context),
        Function::Nullary(NullaryFunction::Justfile) => justfile(context),
        Function::Nullary(NullaryFunction::InvocationDirectory) => invocation_directory(context),
        Function::Nullary(NullaryFunction::JustExecutable) => just_executable(context),
        Function::Unary(UnaryFunction::EnvVar) => env_var(context, arguments[0].as_str()),
        Function::Binary(BinaryFunction::EnvVarOrDefault) => env_var_or_default(
            context,
            arguments[0].as_str(),
            arguments[1].as_str(),
        ),
    }
}

} // verus!
