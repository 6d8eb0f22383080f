//! Detection of the project's own license: from the text of a license file, or
//! from the license that a package manifest declares.
use crate::document::{json_document, parse_json, parse_toml, toml_document, Node};
use crate::text::{chars_of, contains, contains_str};
use vstd::prelude::*;

verus! {

/// What the caller has read of a project: the candidate license files, in the
/// order of `license_file_names`, and the three manifests. A file that is
/// absent or cannot be read is `None`.
pub struct ProjectFiles {
    /// Contents of the candidate license files, first candidate first.
    pub license_files: Vec<Option<String>>,
    /// Contents of `package.json`.
    pub package_json: Option<String>,
    /// Contents of `Cargo.toml`.
    pub cargo_toml: Option<String>,
    /// Contents of `pyproject.toml`.
    pub pyproject_toml: Option<String>,
}

/// The names under which a license file is looked for, in order of preference.
pub open spec fn candidate_names() -> Seq<Seq<char>> {
    seq!["LICENSE"@, "LICENSE.txt"@, "LICENSE.md"@, "license"@, "COPYING"@]
}

/// The names under which a license file is looked for, in order of preference.
pub fn license_file_names() -> (names: Vec<&'static str>)
    ensures
        names@.len() == candidate_names().len(),
        forall|i: int| 0 <= i < names@.len() ==> names@[i]@ == candidate_names()[i],
{
    vec!["LICENSE", "LICENSE.txt", "LICENSE.md", "license", "COPYING"]
}

/// The license that the text of a license file reveals, by the phrases that
/// mark each known family. The families are tried in this order and the first
/// whose phrases all occur wins.
pub open spec fn license_in_text(content: Seq<char>) -> Option<Seq<char>> {
    if contains(content, "MIT License"@) || contains(
        content,
        "Permission is hereby granted, free of charge"@,
    ) {
        Some("MIT"@)
    } else if contains(content, "GNU GENERAL PUBLIC LICENSE"@) && contains(content, "Version 3"@) {
        Some("GPL-3.0"@)
    } else if contains(content, "Apache License"@) && contains(content, "Version 2.0"@) {
        Some("Apache-2.0"@)
    } else if contains(content, "BSD"@) && contains(content, "Redistribution and use"@)
        && contains(content, "Neither the name"@) {
        Some("BSD-3-Clause"@)
    } else if contains(content, "GNU LESSER GENERAL PUBLIC LICENSE"@) && contains(
        content,
        "Version 3"@,
    ) {
        Some("LGPL-3.0"@)
    } else if contains(content, "Mozilla Public License"@) && contains(content, "Version 2.0"@) {
        Some("MPL-2.0"@)
    } else {
        None
    }
}

/// The license that the first recognisable license file reveals, looking from
/// position `from` on. A file that is absent, or in which no family is
/// recognised, is passed over.
pub open spec fn license_in_files(files: Seq<Option<String>>, from: int) -> Option<Seq<char>>
    decreases files.len() - from,
{
    if from < 0 || from >= files.len() {
        None
    } else {
        match files[from] {
            Some(content) if license_in_text(content@) is Some => license_in_text(content@),
            _ => license_in_files(files, from + 1),
        }
    }
}

/// The string that a document holds under `key`.
pub open spec fn declared_in(document: Option<Node>, key: Seq<char>) -> Option<Seq<char>> {
    match document {
        Some(node) => node.member_text(key),
        None => None,
    }
}

/// The string that a document holds under `key` of its table `table`.
pub open spec fn declared_in_table(document: Option<Node>, table: Seq<char>, key: Seq<char>)
    -> Option<Seq<char>> {
    match document {
        Some(node) => match node.member(table) {
            Some(inner) => inner.member_text(key),
            None => None,
        },
        None => None,
    }
}

/// The license that `package.json` declares: the string under `license`.
pub open spec fn license_in_package_json(content: Seq<char>) -> Option<Seq<char>> {
    declared_in(json_document(content), "license"@)
}

/// The license that `Cargo.toml` declares: the string under `package.license`.
pub open spec fn license_in_cargo_toml(content: Seq<char>) -> Option<Seq<char>> {
    declared_in_table(toml_document(content), "package"@, "license"@)
}

/// The license that `pyproject.toml` declares: the string under
/// `project.license`, or, where that is a table, the string under its `text`.
pub open spec fn license_in_pyproject(content: Seq<char>) -> Option<Seq<char>> {
    match toml_document(content) {
        Some(node) => match node.member("project"@) {
            Some(project) => match project.member("license"@) {
                Some(license) => match license.text() {
                    Some(id) => Some(id),
                    None => license.member_text("text"@),
                },
                None => None,
            },
            None => None,
        },
        None => None,
    }
}

/// The license that a manifest declares, where there is a manifest.
pub open spec fn declared_by(
    manifest: Option<String>,
    reading: spec_fn(Seq<char>) -> Option<Seq<char>>,
) -> Option<Seq<char>> {
    match manifest {
        Some(content) => reading(content@),
        None => None,
    }
}

/// The project's license: what the first recognisable license file reveals;
/// failing that, what `package.json` declares, then `Cargo.toml`, then
/// `pyproject.toml`; and nothing where none of them speaks.
pub open spec fn project_license(files: ProjectFiles) -> Option<Seq<char>> {
    if license_in_files(files.license_files@, 0) is Some {
        license_in_files(files.license_files@, 0)
    } else if declared_by(files.package_json, |c: Seq<char>| license_in_package_json(c))
        is Some {
        declared_by(files.package_json, |c: Seq<char>| license_in_package_json(c))
    } else if declared_by(files.cargo_toml, |c: Seq<char>| license_in_cargo_toml(c)) is Some {
        declared_by(files.cargo_toml, |c: Seq<char>| license_in_cargo_toml(c))
    } else {
        declared_by(files.pyproject_toml, |c: Seq<char>| license_in_pyproject(c))
    }
}

/// The license that the text of a license file reveals.
pub fn detect_license_in_text(content: &str) -> (license: Option<&'static str>)
    ensures
        match license {
            Some(id) => license_in_text(content@) == Some(id@),
            None => license_in_text(content@) is None,
        },
{
    let text = chars_of(content);
    let version_3 = contains_str(&text, "Version 3");
    let version_2 = contains_str(&text, "Version 2.0");
    if contains_str(&text, "MIT License") || contains_str(
        &text,
        "Permission is hereby granted, free of charge",
    ) {
        Some("MIT")
    } else if contains_str(&text, "GNU GENERAL PUBLIC LICENSE") && version_3 {
        Some("GPL-3.0")
    } else if contains_str(&text, "Apache License") && version_2 {
        Some("Apache-2.0")
    } else if contains_str(&text, "BSD") && contains_str(&text, "Redistribution and use")
        && contains_str(&text, "Neither the name") {
        Some("BSD-3-Clause")
    } else if contains_str(&text, "GNU LESSER GENERAL PUBLIC LICENSE") && version_3 {
        Some("LGPL-3.0")
    } else if contains_str(&text, "Mozilla Public License") && version_2 {
        Some("MPL-2.0")
    } else {
        None
    }
}

/// The license that `package.json` declares.
pub fn detect_license_in_package_json(content: &str) -> (license: Option<String>)
    ensures
        match license {
            Some(id) => license_in_package_json(content@) == Some(id@),
            None => license_in_package_json(content@) is None,
        },
{
    match parse_json(content) {
        Some(document) => match document.get_str("license") {
            Some(id) => Some(id.to_owned()),
            None => None,
        },
        None => None,
    }
}

/// The license that `Cargo.toml` declares.
pub fn detect_license_in_cargo_toml(content: &str) -> (license: Option<String>)
    ensures
        match license {
            Some(id) => license_in_cargo_toml(content@) == Some(id@),
            None => license_in_cargo_toml(content@) is None,
        },
{
    match parse_toml(content) {
        Some(document) => match document.get("package") {
            Some(package) => match package.get_str("license") {
                Some(id) => Some(id.to_owned()),
                None => None,
            },
            None => None,
        },
        None => None,
    }
}

/// The license that `pyproject.toml` declares.
pub fn detect_license_in_pyproject(content: &str) -> (license: Option<String>)
    ensures
        match license {
            Some(id) => license_in_pyproject(content@) == Some(id@),
            None => license_in_pyproject(content@) is None,
        },
{
    match parse_toml(content) {
        Some(document) => match document.get("project") {
            Some(project) => match project.get("license") {
                Some(license) => match license.as_str() {
                    Some(id) => Some(id.to_owned()),
                    None => match license.get_str("text") {
                        Some(id) => Some(id.to_owned()),
                        None => None,
                    },
                },
                None => None,
            },
            None => None,
        },
        None => None,
    }
}

/// Detects the project's license from what was read of the project.
pub fn detect_project_license(files: &ProjectFiles) -> (license: Option<String>)
    ensures
        match license {
            Some(id) => project_license(*files) == Some(id@),
            None => project_license(*files) is None,
        },
{
    let mut i: usize = 0;
    while i < files.license_files.len()
        invariant
            i <= files.license_files.len(),
            license_in_files(files.license_files@, 0) == license_in_files(
                files.license_files@,
                i as int,
            ),
        decreases files.license_files.len() - i,
    {
        match &files.license_files[i] {
            Some(content) => match detect_license_in_text(content.as_str()) {
                Some(id) => {
                    return Some(id.to_owned());
                },
                None => {},
            },
            None => {},
        }
        i += 1;
    }
    match &files.package_json {
        Some(content) => match detect_license_in_package_json(content.as_str()) {
            Some(id) => {
                return Some(id);
            },
            None => {},
        },
        None => {},
    }
    match &files.cargo_toml {
        Some(content) => match detect_license_in_cargo_toml(content.as_str()) {
            Some(id) => {
                return Some(id);
            },
            None => {},
        },
        None => {},
    }
    match &files.pyproject_toml {
        Some(content) => detect_license_in_pyproject(content.as_str()),
        None => None,
    }
}

} // verus!
