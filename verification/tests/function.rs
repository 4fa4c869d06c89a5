use just_core::function::{
    arch, env_var, env_var_or_default, invocation_directory, invoke, just_executable, justfile,
    justfile_directory, os, os_family, BinaryFunction, Function, FunctionTable, NullaryFunction,
    UnaryFunction,
};
use just_core::function_context::{EnvValue, FunctionContext, PathText, ScriptPath, Search};

fn text_path(path: &str) -> PathText {
    PathText { text: Some(path.to_string()), lossy: path.to_string() }
}

fn raw_path(lossy: &str) -> PathText {
    PathText { text: None, lossy: lossy.to_string() }
}

fn context() -> FunctionContext {
    FunctionContext {
        search: Search {
            justfile: ScriptPath {
                path: text_path("/work/justfile"),
                parent: Some(text_path("/work")),
            },
            working_directory: text_path("/work"),
        },
        invocation_directory: Ok("/work/sub".to_string()),
        dotenv: Vec::new(),
        environment: Vec::new(),
        executable: Ok(text_path("/usr/bin/just")),
    }
}

#[test]
fn env_var_prefers_override_map() {
    let mut ctx = context();
    ctx.dotenv.push(("X".to_string(), "1".to_string()));
    ctx.environment.push(("X".to_string(), EnvValue::Unicode("2".to_string())));
    assert_eq!(env_var(&ctx, "X"), Ok("1".to_string()));
}

#[test]
fn env_var_falls_back_to_environment() {
    let mut ctx = context();
    ctx.environment.push(("PATH2".to_string(), EnvValue::Unicode("/bin".to_string())));
    assert_eq!(env_var(&ctx, "PATH2"), Ok("/bin".to_string()));
}

#[test]
fn env_var_missing_reports_not_present() {
    let ctx = context();
    let err = env_var(&ctx, "MISSING").unwrap_err();
    assert!(err.contains("not present"), "unexpected message: {}", err);
    assert_eq!(err, "environment variable `MISSING` not present");
}

#[test]
fn env_var_non_unicode_value_fails() {
    let mut ctx = context();
    ctx.environment.push(("BAD".to_string(), EnvValue::NotUnicode("\"\\xFF\"".to_string())));
    assert_eq!(
        env_var(&ctx, "BAD"),
        Err("environment variable `BAD` not unicode: \"\\xFF\"".to_string())
    );
}

#[test]
fn env_var_or_default_uses_default_when_missing() {
    let ctx = context();
    assert_eq!(env_var_or_default(&ctx, "MISSING", "fallback"), Ok("fallback".to_string()));
}

#[test]
fn env_var_or_default_prefers_override_then_environment() {
    let mut ctx = context();
    ctx.dotenv.push(("A".to_string(), "dot".to_string()));
    ctx.environment.push(("A".to_string(), EnvValue::Unicode("env".to_string())));
    ctx.environment.push(("B".to_string(), EnvValue::Unicode("env".to_string())));
    assert_eq!(env_var_or_default(&ctx, "A", "fallback"), Ok("dot".to_string()));
    assert_eq!(env_var_or_default(&ctx, "B", "fallback"), Ok("env".to_string()));
}

#[test]
fn env_var_or_default_still_fails_on_non_unicode() {
    let mut ctx = context();
    ctx.environment.push(("BAD".to_string(), EnvValue::NotUnicode("\"\\xFF\"".to_string())));
    assert_eq!(
        env_var_or_default(&ctx, "BAD", "fallback"),
        Err("environment variable `BAD` not unicode: \"\\xFF\"".to_string())
    );
}

#[test]
fn justfile_returns_path_text() {
    let ctx = context();
    assert_eq!(justfile(&ctx), Ok("/work/justfile".to_string()));
}

#[test]
fn justfile_fails_on_non_unicode_path() {
    let mut ctx = context();
    ctx.search.justfile.path = raw_path("/work/just\u{fffd}file");
    assert_eq!(
        justfile(&ctx),
        Err("Justfile path is not valid unicode: /work/just\u{fffd}file".to_string())
    );
}

#[test]
fn justfile_directory_returns_parent() {
    let ctx = context();
    assert_eq!(justfile_directory(&ctx), Ok("/work".to_string()));
}

#[test]
fn justfile_directory_fails_without_parent() {
    let mut ctx = context();
    ctx.search.justfile = ScriptPath { path: text_path("/"), parent: None };
    assert_eq!(
        justfile_directory(&ctx),
        Err("Could not resolve justfile directory. Justfile `/` had no parent.".to_string())
    );
}

#[test]
fn justfile_directory_fails_on_non_unicode_parent() {
    let mut ctx = context();
    ctx.search.justfile.parent = Some(raw_path("/wo\u{fffd}rk"));
    assert_eq!(
        justfile_directory(&ctx),
        Err("Justfile directory is not valid unicode: /wo\u{fffd}rk".to_string())
    );
}

#[test]
fn invocation_directory_passes_conversion_through() {
    let ctx = context();
    assert_eq!(invocation_directory(&ctx), Ok("/work/sub".to_string()));
}

#[test]
fn invocation_directory_prefixes_conversion_failure() {
    let mut ctx = context();
    ctx.invocation_directory = Err("bad path".to_string());
    assert_eq!(invocation_directory(&ctx), Err("Error getting shell path: bad path".to_string()));
}

#[test]
fn just_executable_returns_binary_path() {
    let ctx = context();
    assert_eq!(just_executable(&ctx), Ok("/usr/bin/just".to_string()));
}

#[test]
fn just_executable_failure_cases() {
    let mut ctx = context();
    ctx.executable = Err("os error".to_string());
    assert_eq!(just_executable(&ctx), Err("Error getting current executable: os error".to_string()));
    ctx.executable = Ok(raw_path("/usr/bin/ju\u{fffd}st"));
    assert_eq!(
        just_executable(&ctx),
        Err("Executable path is not valid unicode: /usr/bin/ju\u{fffd}st".to_string())
    );
}

#[test]
fn target_queries_ignore_context() {
    // The build-target identifiers do not depend on the override map, the
    // environment snapshot, or anything else in the context.
    let plain = context();
    let mut loaded = context();
    loaded.dotenv.push(("arch".to_string(), "other".to_string()));
    loaded.environment.push(("os".to_string(), EnvValue::Unicode("other".to_string())));
    assert_eq!(arch(&plain), arch(&loaded));
    assert_eq!(os(&plain), os(&loaded));
    assert_eq!(os_family(&plain), os_family(&loaded));
    assert!(arch(&plain).is_ok());
    assert!(os(&plain).is_ok());
    assert!(os_family(&plain).is_ok());
    assert!(!arch(&plain).unwrap().is_empty());
    let family = os_family(&plain).unwrap();
    assert!(family == "unix" || family == "wasm" || family == "windows");
}

#[test]
fn registry_holds_exactly_the_nine_builtins() {
    let table = FunctionTable::new();
    let expected = [
        ("arch", 0),
        ("os", 0),
        ("os_family", 0),
        ("justfile_directory", 0),
        ("justfile", 0),
        ("invocation_directory", 0),
        ("env_var", 1),
        ("env_var_or_default", 2),
        ("just_executable", 0),
    ];
    for (name, argc) in expected {
        let entry = table.lookup(name).unwrap_or_else(|| panic!("{} not registered", name));
        assert_eq!(entry.argc(), argc, "wrong arity for {}", name);
    }
    assert_eq!(table.lookup("absent"), None);
    assert_eq!(table.lookup(""), None);
    assert_eq!(table.lookup("env_var_or_defaults"), None);
}

#[test]
fn invoke_dispatches_by_entry() {
    let mut ctx = context();
    ctx.dotenv.push(("X".to_string(), "1".to_string()));
    let no_args: Vec<String> = Vec::new();
    assert_eq!(
        invoke(&Function::Nullary(NullaryFunction::Justfile), &ctx, &no_args),
        Ok("/work/justfile".to_string())
    );
    assert_eq!(
        invoke(&Function::Unary(UnaryFunction::EnvVar), &ctx, &vec!["X".to_string()]),
        Ok("1".to_string())
    );
    assert_eq!(
        invoke(
            &Function::Binary(BinaryFunction::EnvVarOrDefault),
            &ctx,
            &vec!["Y".to_string(), "d".to_string()],
        ),
        Ok("d".to_string())
    );
}
