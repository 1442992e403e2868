use gers::io::{ModuleNameError, ModuleNameParseKind, ModulePath};
use std::path::PathBuf;

fn file_path(path: &ModulePath) -> PathBuf {
    path.as_path().iter().collect()
}

#[test]
fn test_module_name_parse() {
    let path = ModulePath::new("gers.graphics").unwrap();
    assert_eq!(file_path(&path).as_path(), PathBuf::from("gers/graphics.wren").as_path());
}

#[test]
fn test_module_name_parse_err() {
    assert_eq!(
        ModulePath::new(".gers.graphics"),
        Err(ModuleNameError {
            kind: ModuleNameParseKind::ModuleNameMissing,
            pos: 0,
            snippet: "-->.gers.graphics".to_string(),
        })
    );
    assert_eq!(
        ModulePath::new("gers.graphics."),
        Err(ModuleNameError {
            kind: ModuleNameParseKind::UnexpectedEOS,
            pos: 13,
            snippet: "gers.graphics.<--".to_string(),
        })
    );
    assert_eq!(
        ModulePath::new("gers..graphics"),
        Err(ModuleNameError {
            kind: ModuleNameParseKind::ModuleNameMissing,
            pos: 5,
            snippet: "gers.-->.graphics".to_string(),
        })
    );
}

#[test]
fn module_name_single_identifier() {
    let path = ModulePath::new("main").unwrap();
    assert_eq!(path.as_path(), &vec!["main.wren".to_string()]);
    assert_eq!(path.to_string(), "main");
}

#[test]
fn module_name_whitespace_and_invalid_characters() {
    assert_eq!(
        ModulePath::new("gers graphics"),
        Err(ModuleNameError {
            kind: ModuleNameParseKind::Whitespace,
            pos: 4,
            snippet: "gers--> graphics".to_string(),
        })
    );
    assert_eq!(
        ModulePath::new("gers/graphics"),
        Err(ModuleNameError {
            kind: ModuleNameParseKind::InvalidCharacter,
            pos: 4,
            snippet: "gers-->/graphics".to_string(),
        })
    );
    assert_eq!(
        ModulePath::new("ab!"),
        Err(ModuleNameError {
            kind: ModuleNameParseKind::InvalidCharacter,
            pos: 2,
            snippet: "ab!<--".to_string(),
        })
    );
    assert_eq!(
        ModulePath::new("ab€"),
        Err(ModuleNameError {
            kind: ModuleNameParseKind::InvalidCharacter,
            pos: 2,
            snippet: "ab-->€".to_string(),
        })
    );
}

#[test]
fn module_name_error_messages() {
    let missing = ModulePath::new("gers..graphics").unwrap_err();
    assert_eq!(
        missing.to_string(),
        "parse error: module name expected at character 6 'gers.-->.graphics'"
    );
    let eos = ModulePath::new("gers.").unwrap_err();
    assert_eq!(eos.to_string(), "parse error: unexpected end of module path at 'gers.<--'");
    let space = ModulePath::new("a\tb").unwrap_err();
    assert_eq!(space.to_string(), "parse error: whitespace not allowed in module path 'a-->\tb'");
    let invalid = ModulePath::new("a+b").unwrap_err();
    assert_eq!(invalid.to_string(), "parse error: invalid character at 'a-->+b'");
}

#[test]
fn module_name_empty() {
    let error = ModulePath::new("").unwrap_err();
    assert_eq!(
        error,
        ModuleNameError { kind: ModuleNameParseKind::UnexpectedEOS, pos: 0, snippet: "-->".to_string() }
    );
    assert_eq!(error.to_string(), "parse error: unexpected end of module path at '-->'");
    assert_eq!(ModulePath::make_snippet("", 0), "-->");
}
