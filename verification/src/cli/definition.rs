//! Workflow definition files.

use crate::documents::{
    insert_json, insert_toml, json_contents, json_document, json_pretty, json_string, parse_json, parse_toml,
    pretty_json, pretty_toml, toml_document, toml_entries, toml_pretty, toml_string, toml_text,
};
use crate::json::{member, text_at, Json};
use crate::path::{extension, join_path, joined, path_extension};
use crate::text::{cat2, cat3, cat4, str_eq};
use crate::wire::{WorkflowDefinitionDocument, WorkflowDefinitionFormat};
use vstd::prelude::*;

verus! {

/// `dir` with `result.json` in it.
pub open spec fn result_path(dir: Seq<char>, windows: bool) -> Seq<char> {
    joined(dir, "result.json"@, windows)
}

/// The file a node's result is looked for in, unless another one is named.
pub fn default_node_result_path(node_dir: &str, windows: bool) -> (r: String)
    ensures
        r@ == result_path(node_dir@, windows),
{
    join_path(node_dir, "result.json", windows)
}

// ---------------------------------------------------------------------------
// Definitions
// ---------------------------------------------------------------------------

/// The format of a definition file, by its extension.
pub open spec fn format_of(path: Seq<char>, windows: bool) -> Result<
    WorkflowDefinitionFormat,
    Seq<char>,
> {
    if extension(path, windows) == Some("toml"@) {
        Ok(WorkflowDefinitionFormat::Toml)
    } else if extension(path, windows) == Some("json"@) {
        Ok(WorkflowDefinitionFormat::Json)
    } else {
        Err("definition file "@ + path + " must have a .toml or .json extension"@)
    }
}

pub fn definition_format_from_path(path: &str, windows: bool) -> (r: Result<
    WorkflowDefinitionFormat,
    String,
>)
    ensures
        match (r, format_of(path@, windows)) {
            (Ok(f), Ok(g)) => f == g,
            (Err(m), Err(e)) => m@ == e,
            _ => false,
        },
{
    match path_extension(path, windows) {
        Some(ext) => {
            if str_eq(ext.as_str(), "toml") {
                return Ok(WorkflowDefinitionFormat::Toml);
            }
            if str_eq(ext.as_str(), "json") {
                return Ok(WorkflowDefinitionFormat::Json);
            }
        },
        None => {},
    }
    Err(cat3("definition file ", path, " must have a .toml or .json extension"))
}

/// `after` is `before` with its top-level name replaced: a JSON object.
pub open spec fn json_renamed(
    before: serde_json::Value,
    after: serde_json::Value,
    name: Seq<char>,
) -> bool {
    &&& json_contents(after) is Object
    &&& text_at(json_contents(after), "name"@) == Some(name)
    &&& forall|k: Seq<char>|
        k != "name"@ ==> #[trigger] member(json_contents(after), k) == member(
            json_contents(before),
            k,
        )
}

/// `after` is `before` with its top-level name replaced, and with every other entry as it
/// was: a TOML table.
pub open spec fn toml_renamed(before: toml::Value, after: toml::Value, name: Seq<char>) -> bool {
    &&& toml_entries(after) is Some
    &&& toml_text(toml_entries(after)->0["name"@]) == Some(name)
    &&& toml_entries(after)->0 == toml_entries(before)->0.insert(
        "name"@,
        toml_entries(after)->0["name"@],
    )
}

/// The outcome of writing a rewritten document.
pub open spec fn written(
    r: Result<String, String>,
    notation: Result<Seq<char>, Seq<char>>,
) -> bool {
    match (r, notation) {
        (Ok(t), Ok(n)) => t@ == n,
        (Err(m), Err(e)) => m@ == "failed to re-serialize definition: "@ + e,
        _ => false,
    }
}

/// What replacing the name of a definition gives.
pub open spec fn renamed_definition(
    r: Result<String, String>,
    format: WorkflowDefinitionFormat,
    text: Seq<char>,
    name: Seq<char>,
) -> bool {
    match format {
        WorkflowDefinitionFormat::Toml => match toml_document(text) {
            Err(e) => r is Err && r->Err_0@ == "invalid TOML definition: "@ + e,
            Ok(value) => if toml_entries(value) is None {
                r is Err && r->Err_0@ == "definition must be a TOML table"@
            } else {
                exists|after: toml::Value| #[trigger]
                    toml_renamed(value, after, name) && written(r, toml_pretty(after))
            },
        },
        WorkflowDefinitionFormat::Json => match json_document(text) {
            Err(e) => r is Err && r->Err_0@ == "invalid JSON definition: "@ + e,
            Ok(value) => if !(json_contents(value) is Object) {
                r is Err && r->Err_0@ == "definition must be a JSON object"@
            } else {
                exists|after: serde_json::Value| #[trigger]
                    json_renamed(value, after, name) && written(r, json_pretty(after))
            },
        },
    }
}

/// Replaces the top-level name of a TOML document that was read.
pub fn rename_toml(document: Result<toml::Value, String>, name: &str) -> (r: Result<
    String,
    String,
>)
    ensures
        match document {
            Err(e) => r is Err && r->Err_0@ == "invalid TOML definition: "@ + e@,
            Ok(value) => if toml_entries(value) is None {
                r is Err && r->Err_0@ == "definition must be a TOML table"@
            } else {
                exists|after: toml::Value| #[trigger]
                    toml_renamed(value, after, name@) && written(r, toml_pretty(after))
            },
        },
{
    match document {
        Err(e) => Err(cat2("invalid TOML definition: ", e.as_str())),
        Ok(value) => {
            let mut value = value;
            let ghost before = value;
            if !insert_toml(&mut value, "name", toml_string(name)) {
                return Err("definition must be a TOML table".to_owned());
            }
            assert(toml_renamed(before, value, name@));
            match pretty_toml(&value) {
                Ok(text) => Ok(text),
                Err(e) => Err(cat2("failed to re-serialize definition: ", e.as_str())),
            }
        },
    }
}

/// Replaces the top-level name of a JSON document that was read.
pub fn rename_json(document: Result<serde_json::Value, String>, name: &str) -> (r: Result<
    String,
    String,
>)
    ensures
        match document {
            Err(e) => r is Err && r->Err_0@ == "invalid JSON definition: "@ + e@,
            Ok(value) => if !(json_contents(value) is Object) {
                r is Err && r->Err_0@ == "definition must be a JSON object"@
            } else {
                exists|after: serde_json::Value| #[trigger]
                    json_renamed(value, after, name@) && written(r, json_pretty(after))
            },
        },
{
    match document {
        Err(e) => Err(cat2("invalid JSON definition: ", e.as_str())),
        Ok(value) => {
            let mut value = value;
            let ghost before = value;
            if !insert_json(&mut value, "name", json_string(name)) {
                return Err("definition must be a JSON object".to_owned());
            }
            assert(json_renamed(before, value, name@));
            match pretty_json(&value) {
                Ok(text) => Ok(text),
                Err(e) => Err(cat2("failed to re-serialize definition: ", e.as_str())),
            }
        },
    }
}

/// Replaces the top-level name of a definition and nothing else.
pub fn override_definition_name(
    format: WorkflowDefinitionFormat,
    text: &str,
    name: &str,
) -> (r: Result<String, String>)
    ensures
        renamed_definition(r, format, text@, name@),
{
    match format {
        WorkflowDefinitionFormat::Toml => rename_toml(parse_toml(text), name),
        WorkflowDefinitionFormat::Json => rename_json(parse_json(text), name),
    }
}

/// What loading a definition gives, for what was read of its file.
pub open spec fn definition_loaded(
    path: Seq<char>,
    read: Result<String, String>,
    name_override: Option<String>,
    windows: bool,
    r: Result<WorkflowDefinitionDocument, String>,
) -> bool {
    match format_of(path, windows) {
        Err(e) => r is Err && r->Err_0@ == e,
        Ok(format) => match read {
            Err(e) => r is Err && r->Err_0@ == "failed to read "@ + path + ": "@ + e@,
            Ok(text) => match name_override {
                None => r is Ok && r->Ok_0.format == format && r->Ok_0.text == text,
                Some(name) => exists|t: Result<String, String>| #[trigger]
                    renamed_definition(t, format, text@, name@) && (match (r, t) {
                        (Ok(d), Ok(new)) => d.format == format && d.text@ == new@,
                        (Err(m), Err(e)) => m@ == e@,
                        _ => false,
                    }),
            },
        },
    }
}

/// The document of a definition file. `read` is the file's text, or why it could not
/// be read; the file is only looked at where its extension names a format.
pub fn load_definition_document(
    path: &str,
    read: Result<String, String>,
    name_override: Option<String>,
    windows: bool,
) -> (r: Result<WorkflowDefinitionDocument, String>)
    ensures
        definition_loaded(path@, read, name_override, windows, r),
{
    let format = match definition_format_from_path(path, windows) {
        Ok(f) => f,
        Err(m) => {
            return Err(m);
        },
    };
    let text = match read {
        Ok(t) => t,
        Err(e) => {
            return Err(cat4("failed to read ", path, ": ", e.as_str()));
        },
    };
    match name_override {
        None => Ok(WorkflowDefinitionDocument { format, text }),
        Some(name) => {
            let renamed = override_definition_name(format, text.as_str(), name.as_str());
            match renamed {
                Ok(new) => {
                    assert(renamed_definition(
                        Ok::<String, String>(new),
                        format,
                        text@,
                        name@,
                    ));
                    Ok(WorkflowDefinitionDocument { format, text: new })
                },
                Err(m) => {
                    assert(renamed_definition(Err::<String, String>(m), format, text@, name@));
                    Err(m)
                },
            }
        },
    }
}

} // verus!
