//! Runs the checker on real TOML text, the way the command-line front end
//! does: parse the text, rebuild the tree in the checker's document type,
//! and ask for the verdict.

use toml_sorted::checker::is_sorted;
use toml_sorted::document::{Manifest, Value};

fn convert(v: &toml::Value) -> Value {
    match v {
        toml::Value::String(s) => Value::Str(s.clone()),
        toml::Value::Array(items) => Value::Arr(items.iter().map(convert).collect()),
        toml::Value::Table(entries) => {
            Value::Table(entries.iter().map(|(k, w)| (k.clone(), convert(w))).collect())
        }
        _ => Value::Other,
    }
}

fn check(raw: &str) -> Result<bool, toml_sorted::error::ShapeError> {
    let parsed: toml::Value = raw.parse().expect("test input must be valid TOML");
    let m = Manifest { value: convert(&parsed), parsed_file: raw.to_string() };
    is_sorted(&m)
}

#[test]
fn sorted_manifest_passes() {
    let raw = "[package]\n\
               name = \"demo\"\n\
               version = \"0.1.0\"\n\
               \n\
               [dependencies]\n\
               anyhow = \"1.0\"\n\
               serde = \"1.0\"\n\
               \n\
               [dev-dependencies]\n\
               criterion = \"0.3\"\n";
    assert_eq!(check(raw), Ok(true));
}

#[test]
fn unsorted_dependencies_fail() {
    let raw = "[dependencies]\n\
               serde = \"1.0\"\n\
               anyhow = \"1.0\"\n";
    assert_eq!(check(raw), Ok(false));
}

#[test]
fn exploded_table_idiom_passes() {
    // `winapi` is declared as an exploded table after `zeroize`; the parser
    // appends its key out of order, but the header in the text forgives it.
    let raw = "[dependencies]\n\
               libc = \"0.2\"\n\
               zeroize = \"1.0\"\n\
               \n\
               [dependencies.winapi]\n\
               version = \"0.3\"\n\
               features = [\"winuser\"]\n";
    assert_eq!(check(raw), Ok(true));
}

#[test]
fn unsorted_workspace_members_fail() {
    let raw = "[workspace]\n\
               members = [\"tools\", \"core\"]\n";
    assert_eq!(check(raw), Ok(false));
}

#[test]
fn sorted_workspace_passes() {
    let raw = "[workspace]\n\
               members = [\"core\", \"tools\"]\n\
               exclude = [\"attic\", \"bench\"]\n";
    assert_eq!(check(raw), Ok(true));
}
