use std::cell::Cell;

use lalrpop_util::ParseError;
use move_lang::diagnostics::{Errors, Loc};
use move_lang::driver::{compile_program, move_check, move_compile, sanity_check_compiled_units};
use move_lang::files::Files;
use move_lang::pipeline::{parse_file, parse_program, ParseResult, Program, SourceFile};
use move_lang::stages::{check_errors, check_program, Passes};

fn source(name: &str, contents: &str) -> SourceFile {
    SourceFile { name: name.to_string(), contents: contents.to_string() }
}

/// A stand-in grammar: a file parses to its text, unless it holds `?`.
fn toy_parse(_f: &str, t: &str) -> ParseResult<String> {
    match t.find('?') {
        Some(i) => Err(ParseError::UnrecognizedToken {
            token: (i, "?".to_string(), i + 1),
            expected: vec!["ident".to_string()],
        }),
        None => Ok(t.to_string()),
    }
}

fn diag(file: &str, at: u32, msg: &str) -> Vec<(Loc, String)> {
    vec![(Loc { file: file.to_string(), start: at, end: at }, msg.to_string())]
}

#[test]
fn parse_file_registers_sanitized_text() {
    let mut files = Files::new();
    let (def, errs) = parse_file(&mut files, "a", "x // y\nz", &toy_parse).ok().unwrap();
    assert_eq!(def, Some("x     \nz".to_string()));
    assert!(errs.is_empty());
    assert_eq!(files.get("a").unwrap().text, "x     \nz");
    assert!(files.get("b").is_none());
}

#[test]
fn parse_file_reports_parse_failure_and_registers() {
    let mut files = Files::new();
    let (def, errs) = parse_file(&mut files, "a", "ok ?", &toy_parse).ok().unwrap();
    assert!(def.is_none());
    assert_eq!(errs.len(), 1);
    assert_eq!(errs[0][0].1, "Unrecognized Token: ?");
    assert_eq!((errs[0][0].0.start, errs[0][0].0.end), (3, 4));
    assert_eq!(errs[0][1].1, "Expected:  ident,");
    assert!(files.get("a").is_some());
}

#[test]
fn parse_file_skips_parser_on_forbidden_char() {
    let calls = Cell::new(0);
    let parser = |f: &str, t: &str| {
        calls.set(calls.get() + 1);
        toy_parse(f, t)
    };
    let mut files = Files::new();
    let (def, errs) = parse_file(&mut files, "a", "let x\r\n", &parser).ok().unwrap();
    assert!(def.is_none());
    assert_eq!(errs.len(), 1);
    assert_eq!(errs[0][0].0.start, 5);
    assert_eq!(errs[0][0].0.end, 5);
    assert_eq!(calls.get(), 0);
    assert!(files.get("a").is_none());
}

#[test]
fn parse_file_user_error_is_internal() {
    let parser = |_f: &str, _t: &str| -> ParseResult<String> {
        Err(ParseError::User { error: "boom".to_string() })
    };
    let mut files = Files::new();
    let r = parse_file(&mut files, "a", "x", &parser);
    assert_eq!(r.err().unwrap().message, "boom");
}

#[test]
fn accumulation_across_files() {
    let targets = vec![
        source("f0", "a"),
        source("f1", "b ?"),
        source("f2", "c"),
        source("f3", "?"),
        source("f4", "e"),
    ];
    let (files, res) = parse_program(&targets, &vec![], &toy_parse).ok().unwrap();
    let errs = res.err().unwrap();
    assert_eq!(errs.len(), 2);
    assert_eq!(errs[0][0].0.file, "f1");
    assert_eq!(errs[1][0].0.file, "f3");
    assert_eq!(files.len(), 5);
}

#[test]
fn accumulation_includes_dependencies() {
    let targets = vec![source("t", "a\r")];
    let deps = vec![source("d", "x ?")];
    let (_, res) = parse_program(&targets, &deps, &toy_parse).ok().unwrap();
    let errs = res.err().unwrap();
    assert_eq!(errs.len(), 2);
    assert_eq!(errs[0][0].0.file, "t");
    assert_eq!(errs[1][0].0.file, "d");
}

#[test]
fn order_preservation() {
    let targets = vec![source("A", "a"), source("B", "b"), source("C", "c")];
    let (_, res) = parse_program(&targets, &vec![], &toy_parse).ok().unwrap();
    let prog = res.ok().unwrap();
    assert_eq!(prog.source_definitions, vec!["a".to_string(), "b".to_string(), "c".to_string()]);
    assert!(prog.lib_definitions.is_empty());
}

#[test]
fn scenario_comment_then_statement() {
    let targets = vec![source("s", "// comment\nlet x = 1;")];
    let (files, res) = parse_program(&targets, &vec![], &toy_parse).ok().unwrap();
    let prog = res.ok().unwrap();
    assert_eq!(prog.source_definitions, vec!["          \nlet x = 1;".to_string()]);
    assert_eq!(files.get("s").unwrap().text, "          \nlet x = 1;");
}

#[test]
fn scenario_carriage_return() {
    let calls = Cell::new(0);
    let parser = |f: &str, t: &str| {
        calls.set(calls.get() + 1);
        toy_parse(f, t)
    };
    let targets = vec![source("s", "let x = 1;\r\n")];
    let (_, res) = parse_program(&targets, &vec![], &parser).ok().unwrap();
    let errs = res.err().unwrap();
    assert_eq!(errs.len(), 1);
    assert_eq!((errs[0][0].0.start, errs[0][0].0.end), (10, 10));
    assert_eq!(calls.get(), 0);
}

#[test]
fn check_errors_gates() {
    assert!(check_errors(vec![]).is_ok());
    let es: Errors = vec![diag("f", 0, "m")];
    assert_eq!(check_errors(es).err().unwrap().len(), 1);
}

fn passes_with_typing_error() -> Passes<
    impl Fn(u32, Option<u8>) -> (u32, Errors),
    impl Fn(u32, Errors) -> (u32, Errors),
    impl Fn(u32, Errors) -> (u32, Errors),
    impl Fn(u32) -> (u32, Errors),
    impl Fn(Errors, u32) -> (u32, Errors),
> {
    Passes::new(
        |p: u32, _s: Option<u8>| (p + 1, vec![]),
        |e: u32, d: Errors| (e + 1, d),
        |n: u32, mut d: Errors| {
            d.push(diag("t", 1, "type mismatch"));
            (n + 1, d)
        },
        |_t: u32| -> (u32, Errors) { panic!("lowering must not run") },
        |_d: Errors, _h: u32| -> (u32, Errors) { panic!("cfg construction must not run") },
    )
}

#[test]
fn gate_after_typing_short_circuits() {
    let ps = passes_with_typing_error();
    let r = check_program(&ps, Ok(0u32), None);
    let errs = r.err().unwrap();
    assert_eq!(errs.len(), 1);
    assert_eq!(errs[0][0].1, "type mismatch");
}

#[test]
fn failed_program_skips_passes() {
    let ps = passes_with_typing_error();
    let r = check_program(&ps, Err(vec![diag("p", 2, "parse")]), Some(1u8));
    assert_eq!(r.err().unwrap()[0][0].1, "parse");
}

#[test]
fn gate_after_cfg() {
    let ps = Passes::new(
        |p: u32, _s: Option<u8>| (p, vec![]),
        |e: u32, d: Errors| (e, d),
        |n: u32, d: Errors| (n, d),
        |t: u32| (t * 2, vec![]),
        |mut d: Errors, h: u32| {
            d.push(diag("c", 3, "unused resource"));
            (h, d)
        },
    );
    let r = check_program(&ps, Ok(5u32), None);
    assert_eq!(r.err().unwrap()[0][0].1, "unused resource");
}

#[test]
fn passes_run_in_order() {
    let ps = Passes::new(
        |p: u32, s: Option<u8>| (p * 10 + s.unwrap_or(0) as u32, vec![]),
        |e: u32, d: Errors| (e * 10 + 2, d),
        |n: u32, d: Errors| (n * 10 + 3, d),
        |t: u32| (t * 10 + 4, vec![]),
        |d: Errors, h: u32| (h * 10 + 5, d),
    );
    assert_eq!(check_program(&ps, Ok(0u32), Some(1u8)).ok().unwrap(), 12345);
    let enc = |c: u32| -> Result<Vec<u32>, Errors> { Ok(vec![c, c + 1]) };
    assert_eq!(compile_program(&ps, &enc, Ok(0u32), Some(1u8)).ok().unwrap(), vec![12345, 12346]);
}

/// Naming succeeds only where every name used by a target is defined by some file.
fn naming_passes() -> Passes<
    impl Fn(Program<String>, Option<u8>) -> (Vec<String>, Errors),
    impl Fn(Vec<String>, Errors) -> (Vec<String>, Errors),
    impl Fn(Vec<String>, Errors) -> (Vec<String>, Errors),
    impl Fn(Vec<String>) -> (Vec<String>, Errors),
    impl Fn(Errors, Vec<String>) -> (Vec<String>, Errors),
> {
    Passes::new(
        |p: Program<String>, _s: Option<u8>| {
            let mut all = p.source_definitions.clone();
            all.extend(p.lib_definitions.clone());
            (all, vec![])
        },
        |defs: Vec<String>, mut d: Errors| {
            let defined: Vec<String> = defs
                .iter()
                .filter_map(|t| t.strip_prefix("def ").map(|n| n.trim().to_string()))
                .collect();
            for t in &defs {
                if let Some(n) = t.strip_prefix("use ") {
                    if !defined.contains(&n.trim().to_string()) {
                        d.push(diag("t", 0, "unbound name"));
                    }
                }
            }
            (defs, d)
        },
        |n: Vec<String>, d: Errors| (n, d),
        |t: Vec<String>| (t, vec![]),
        |d: Errors, h: Vec<String>| (h, d),
    )
}

#[test]
fn scenario_dependency_resolution() {
    let ps = naming_passes();
    let targets = vec![source("t", "use M")];
    let deps = vec![source("d", "def M")];
    let (_, res) = move_check(&targets, &deps, None, &toy_parse, &ps).ok().unwrap();
    assert!(res.is_ok());
    let (_, res) = move_check(&targets, &vec![], None, &toy_parse, &ps).ok().unwrap();
    let errs = res.err().unwrap();
    assert_eq!(errs[0][0].1, "unbound name");
}

#[test]
fn compile_returns_units() {
    let ps = naming_passes();
    let enc = |c: Vec<String>| -> Result<Vec<String>, Errors> { Ok(c) };
    let targets = vec![source("t", "use M // needs M")];
    let deps = vec![source("d", "def M")];
    let (files, res) = move_compile(&targets, &deps, None, &toy_parse, &ps, &enc).ok().unwrap();
    assert_eq!(res.ok().unwrap(), vec!["use M           ".to_string(), "def M".to_string()]);
    assert_eq!(files.get("t").unwrap().text, "use M           ");
}

#[test]
fn sanity_check_reports_validator_errors() {
    let files = Files::new();
    let ok = |us: Vec<u8>| -> (Vec<u8>, Errors) { (us, vec![]) };
    assert!(sanity_check_compiled_units(files, vec![1u8], &ok).is_ok());
    let bad = |us: Vec<u8>| -> (Vec<u8>, Errors) { (us, vec![diag("u", 0, "ICE")]) };
    let (_, errs) = sanity_check_compiled_units(Files::new(), vec![1u8], &bad).err().unwrap();
    assert_eq!(errs[0][0].1, "ICE");
}

#[test]
fn registry_later_insert_wins() {
    let mut files = Files::new();
    files.insert("a", "one".to_string());
    files.insert("b", "two".to_string());
    files.insert("a", "three".to_string());
    assert_eq!(files.get("a").unwrap().text, "three");
    assert_eq!(files.get("b").unwrap().name, "b");
    assert_eq!(files.len(), 3);
}
