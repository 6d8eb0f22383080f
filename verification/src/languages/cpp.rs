//! Dependencies of C++ projects: what the manifests of the common build
//! systems declare, and what is made of the license that a registry reports.
use crate::document::{json_document, parse_json, Node};
use crate::licenses::{
    declared, is_license_restrictive, restrictive, License, LicenseCompatibility, LicenseInfo,
    Taxonomy,
};
use crate::pattern::{all_captures, group, group_text, groups_view, matches_view, regex_captures};
use crate::text::{
    after_char, before_char, chars_eq_str, chars_of, char_lists, find_char, first_word,
    first_word_of, lemma_position_of, lines_of, push_str, slice_chars, split_lines, starts_with,
    starts_with_str, string_from_chars, trim, trimmed,
};
use vstd::prelude::*;

verus! {

/// Names and versions as character sequences.
pub open spec fn pairs(list: Seq<(String, String)>) -> Seq<(Seq<char>, Seq<char>)> {
    Seq::new(list.len(), |i: int| (list[i].0@, list[i].1@))
}

/// The dependency that one entry of a `vcpkg.json` declares: a string names a
/// package at its latest version; a table names one under `name`, at the
/// version under `version` or the latest; anything else declares nothing.
pub open spec fn vcpkg_dependency(item: Node) -> Option<(Seq<char>, Seq<char>)> {
    match item {
        Node::Text(name) => Some((name@, "latest"@)),
        Node::Table(_) => match item.member_text("name"@) {
            Some(name) => Some(
                (
                    name,
                    match item.member_text("version"@) {
                        Some(version) => version,
                        None => "latest"@,
                    },
                ),
            ),
            None => None,
        },
        _ => None,
    }
}

/// The dependencies that the first `n` entries declare, in order.
pub open spec fn vcpkg_dependencies_in(items: Seq<Node>, n: int) -> Seq<(Seq<char>, Seq<char>)>
    decreases n,
{
    if n <= 0 || n > items.len() {
        Seq::empty()
    } else {
        match vcpkg_dependency(items[n - 1]) {
            Some(dependency) => vcpkg_dependencies_in(items, n - 1).push(dependency),
            None => vcpkg_dependencies_in(items, n - 1),
        }
    }
}

/// The dependencies that a `vcpkg.json` declares: those of the array under
/// `dependencies`, none where there is no such array, and no answer where the
/// text is no JSON document.
pub open spec fn vcpkg_dependencies(content: Seq<char>) -> Option<Seq<(Seq<char>, Seq<char>)>> {
    match json_document(content) {
        Some(document) => Some(
            match document.member("dependencies"@) {
                Some(node) => match node.items() {
                    Some(items) => vcpkg_dependencies_in(items, items.len() as int),
                    None => Seq::empty(),
                },
                None => Seq::empty(),
            },
        ),
        None => None,
    }
}

/// Reads the dependencies that a `vcpkg.json` declares.
pub fn parse_vcpkg_dependencies(content: &str) -> (dependencies: Option<Vec<(String, String)>>)
    ensures
        match dependencies {
            Some(list) => vcpkg_dependencies(content@) == Some(pairs(list@)),
            None => vcpkg_dependencies(content@) is None,
        },
{
    let document = match parse_json(content) {
        Some(document) => document,
        None => {
            return None;
        },
    };
    let mut dependencies: Vec<(String, String)> = Vec::new();
    assert(pairs(dependencies@) =~= Seq::<(Seq<char>, Seq<char>)>::empty());
    let items = match document.get("dependencies") {
        Some(node) => match node.as_array() {
            Some(items) => items,
            None => {
                return Some(dependencies);
            },
        },
        None => {
            return Some(dependencies);
        },
    };
    let mut i: usize = 0;
    while i < items.len()
        invariant
            i <= items.len(),
            pairs(dependencies@) == vcpkg_dependencies_in(items@, i as int),
        decreases items.len() - i,
    {
        let ghost before = pairs(dependencies@);
        match &items[i] {
            Node::Text(name) => {
                dependencies.push((name.clone(), "latest".to_owned()));
                assert(pairs(dependencies@) =~= before.push((name@, "latest"@)));
            },
            Node::Table(_) => match items[i].get_str("name") {
                Some(name) => {
                    let version = match items[i].get_str("version") {
                        Some(version) => version,
                        None => "latest",
                    };
                    dependencies.push((name.to_owned(), version.to_owned()));
                    assert(pairs(dependencies@) =~= before.push((name@, version@)));
                },
                None => {},
            },
            _ => {},
        }
        i += 1;
    }
    Some(dependencies)
}

/// The dependency that a Conan reference `name/version@user/channel` names:
/// the name before the first slash, and of what follows it the part before the
/// first `@`. A text without a slash is no reference.
pub open spec fn conan_reference(reference: Seq<char>) -> Option<(Seq<char>, Seq<char>)> {
    if reference.contains('/') {
        Some((before_char(reference, '/'), before_char(after_char(reference, '/'), '@')))
    } else {
        None
    }
}

/// Where the reading of a `conanfile.txt` stands: whether the lines read last
/// belong to the section `[requires]`, and the dependencies found so far.
pub struct ConanReading {
    pub in_requires: bool,
    pub found: Seq<(Seq<char>, Seq<char>)>,
}

/// The reading after one more line. A section header opens or closes the
/// section `[requires]`; within it, every line that is not empty, is no
/// comment and holds a reference adds a dependency.
pub open spec fn conan_line(reading: ConanReading, line: Seq<char>) -> ConanReading {
    let text = trimmed(line);
    if text == "[requires]"@ {
        ConanReading { in_requires: true, found: reading.found }
    } else if text.len() > 0 && text[0] == '[' && text.last() == ']' {
        ConanReading { in_requires: false, found: reading.found }
    } else if reading.in_requires && text.len() > 0 && text[0] != '#' {
        match conan_reference(text) {
            Some(dependency) => ConanReading {
                in_requires: true,
                found: reading.found.push(dependency),
            },
            None => reading,
        }
    } else {
        reading
    }
}

/// The reading after the first `n` lines.
pub open spec fn conan_lines(lines: Seq<Seq<char>>, n: int) -> ConanReading
    decreases n,
{
    if n <= 0 || n > lines.len() {
        ConanReading { in_requires: false, found: Seq::empty() }
    } else {
        conan_line(conan_lines(lines, n - 1), lines[n - 1])
    }
}

/// The dependencies that a `conanfile.txt` declares in its section `[requires]`.
pub open spec fn conanfile_txt_dependencies(content: Seq<char>) -> Seq<(Seq<char>, Seq<char>)> {
    conan_lines(lines_of(content), lines_of(content).len() as int).found
}

/// The dependency that a Conan reference names.
fn parse_conan_reference(reference: &Vec<char>) -> (dependency: Option<(String, String)>)
    ensures
        match dependency {
            Some(pair) => conan_reference(reference@) == Some((pair.0@, pair.1@)),
            None => conan_reference(reference@) is None,
        },
{
    let slash = find_char(reference, '/', 0);
    proof {
        lemma_position_of(reference@, '/', 0);
        if slash < reference@.len() {
            assert(reference@.contains('/'));
        } else {
            assert(!reference@.contains('/')) by {
                if reference@.contains('/') {
                    let i = choose|i: int| 0 <= i < reference@.len() && reference@[i] == '/';
                    assert(reference@[i] != '/');
                }
            }
        }
    }
    if slash >= reference.len() {
        return None;
    }
    let name = slice_chars(reference, 0, slash);
    let rest = slice_chars(reference, slash + 1, reference.len());
    assert(name@ =~= before_char(reference@, '/'));
    assert(rest@ =~= after_char(reference@, '/'));
    let at = find_char(&rest, '@', 0);
    let version = slice_chars(&rest, 0, at);
    assert(version@ =~= before_char(rest@, '@'));
    Some((string_from_chars(&name), string_from_chars(&version)))
}

/// Reads the dependencies that a `conanfile.txt` declares.
pub fn parse_conanfile_txt(content: &str) -> (dependencies: Vec<(String, String)>)
    ensures
        pairs(dependencies@) == conanfile_txt_dependencies(content@),
{
    let text = chars_of(content);
    let lines = split_lines(&text);
    let mut dependencies: Vec<(String, String)> = Vec::new();
    let mut in_requires_section = false;
    let mut i: usize = 0;
    assert(pairs(dependencies@) =~= Seq::<(Seq<char>, Seq<char>)>::empty());
    while i < lines.len()
        invariant
            i <= lines.len(),
            char_lists(lines@) == lines_of(content@),
            conan_lines(lines_of(content@), i as int) == (ConanReading {
                in_requires: in_requires_section,
                found: pairs(dependencies@),
            }),
        decreases lines.len() - i,
    {
        let ghost before = pairs(dependencies@);
        assert(char_lists(lines@)[i as int] == lines@[i as int]@);
        let line = trim(&lines[i]);
        let n = line.len();
        if chars_eq_str(&line, "[requires]") {
            in_requires_section = true;
        } else if n > 0 && line[0] == '[' && line[n - 1] == ']' {
            in_requires_section = false;
        } else if in_requires_section && n > 0 && line[0] != '#' {
            match parse_conan_reference(&line) {
                Some(pair) => {
                    dependencies.push(pair);
                    assert(pairs(dependencies@) =~= before.push((pair.0@, pair.1@)));
                },
                None => {},
            }
        }
        i += 1;
    }
    dependencies
}

/// The pattern of the list of requirements in a `conanfile.py`.
pub const REQUIRES_PATTERN: &'static str = "requires\\s*=\\s*\\[(.*?)\\]";

/// The pattern of a text between double quotes.
pub const QUOTED_PATTERN: &'static str = "\"([^\"]+)\"";

/// The pattern of a `FetchContent_Declare` in a `CMakeLists.txt`.
pub const FETCH_CONTENT_PATTERN: &'static str = "FetchContent_Declare\\s*\\(\\s*(\\w+)";

/// The pattern of a `find_package` in a `CMakeLists.txt`.
pub const FIND_PACKAGE_PATTERN: &'static str =
    "find_package\\s*\\(\\s*(\\w+)(?:\\s+([^)]+))?\\)";

/// The pattern of a `bazel_dep` in a `MODULE.bazel`.
pub const BAZEL_DEP_PATTERN: &'static str =
    "bazel_dep\\s*\\(\\s*name\\s*=\\s*\"([^\"]+)\"\\s*,\\s*version\\s*=\\s*\"([^\"]+)\"";

/// The pattern of an `http_archive` in a Bazel `WORKSPACE`.
pub const HTTP_ARCHIVE_PATTERN: &'static str = "http_archive\\s*\\(\\s*name\\s*=\\s*\"([^\"]+)\"";

/// The dependencies that the first `n` quoted references name, in order.
pub open spec fn conan_references_in(quoted: Seq<Seq<Option<Seq<char>>>>, n: int) -> Seq<
    (Seq<char>, Seq<char>),
>
    decreases n,
{
    if n <= 0 || n > quoted.len() {
        Seq::empty()
    } else {
        let earlier = conan_references_in(quoted, n - 1);
        match group_text(quoted[n - 1], 1) {
            Some(reference) => match conan_reference(reference) {
                Some(dependency) => earlier.push(dependency),
                None => earlier,
            },
            None => earlier,
        }
    }
}

/// The dependencies that a `conanfile.py` declares: the quoted references in
/// the first list assigned to `requires`, and none where there is no such list.
pub open spec fn conanfile_py_dependencies(content: Seq<char>) -> Option<
    Seq<(Seq<char>, Seq<char>)>,
> {
    match regex_captures(REQUIRES_PATTERN@, content) {
        None => None,
        Some(lists) => if lists.len() == 0 {
            Some(Seq::empty())
        } else {
            match group_text(lists[0], 1) {
                None => Some(Seq::empty()),
                Some(list) => match regex_captures(QUOTED_PATTERN@, list) {
                    None => None,
                    Some(quoted) => Some(conan_references_in(quoted, quoted.len() as int)),
                },
            }
        },
    }
}

/// Reads the dependencies that a `conanfile.py` declares.
pub fn parse_conanfile_py(content: &str) -> (dependencies: Option<Vec<(String, String)>>)
    ensures
        match dependencies {
            Some(list) => conanfile_py_dependencies(content@) == Some(pairs(list@)),
            None => conanfile_py_dependencies(content@) is None,
        },
{
    let lists = match all_captures(REQUIRES_PATTERN, content) {
        Some(lists) => lists,
        None => {
            return None;
        },
    };
    let mut dependencies: Vec<(String, String)> = Vec::new();
    assert(pairs(dependencies@) =~= Seq::<(Seq<char>, Seq<char>)>::empty());
    if lists.len() == 0 {
        return Some(dependencies);
    }
    let list = match group(&lists[0], 1) {
        Some(list) => list,
        None => {
            return Some(dependencies);
        },
    };
    let quoted = match all_captures(QUOTED_PATTERN, list) {
        Some(quoted) => quoted,
        None => {
            return None;
        },
    };
    let ghost wanted = regex_captures(QUOTED_PATTERN@, list@)->0;
    let mut i: usize = 0;
    while i < quoted.len()
        invariant
            i <= quoted.len(),
            matches_view(Some(quoted)) == Some(wanted),
            pairs(dependencies@) == conan_references_in(wanted, i as int),
        decreases quoted.len() - i,
    {
        let ghost before = pairs(dependencies@);
        assert(wanted[i as int] == groups_view(quoted@[i as int]));
        match group(&quoted[i], 1) {
            Some(reference) => {
                let chars = chars_of(reference);
                match parse_conan_reference(&chars) {
                    Some(pair) => {
                        dependencies.push(pair);
                        assert(pairs(dependencies@) =~= before.push((pair.0@, pair.1@)));
                    },
                    None => {},
                }
            },
            None => {},
        }
        i += 1;
    }
    Some(dependencies)
}

/// The dependencies that the first `n` matches name by their first group, each
/// at the version `version`.
pub open spec fn named_in(matches: Seq<Seq<Option<Seq<char>>>>, version: Seq<char>, n: int) -> Seq<
    (Seq<char>, Seq<char>),
>
    decreases n,
{
    if n <= 0 || n > matches.len() {
        Seq::empty()
    } else {
        match group_text(matches[n - 1], 1) {
            Some(name) => named_in(matches, version, n - 1).push((name, version)),
            None => named_in(matches, version, n - 1),
        }
    }
}

/// The version that a `find_package` asks for: the first word behind the
/// package's name, and `system` where there is none or where that word begins
/// the list of options.
pub open spec fn cmake_version(arguments: Option<Seq<char>>) -> Seq<char> {
    match arguments {
        None => "system"@,
        Some(text) => {
            let options = trimmed(text);
            if starts_with(options, "REQUIRED"@) || starts_with(options, "COMPONENTS"@)
                || first_word(options).len() == 0 {
                "system"@
            } else {
                first_word(options)
            }
        },
    }
}

/// The packages that the first `n` matches of `find_package` name, each at
/// the version asked for.
pub open spec fn packages_in(matches: Seq<Seq<Option<Seq<char>>>>, n: int) -> Seq<
    (Seq<char>, Seq<char>),
>
    decreases n,
{
    if n <= 0 || n > matches.len() {
        Seq::empty()
    } else {
        match group_text(matches[n - 1], 1) {
            Some(name) => packages_in(matches, n - 1).push(
                (name, cmake_version(group_text(matches[n - 1], 2))),
            ),
            None => packages_in(matches, n - 1),
        }
    }
}

/// The dependencies that a `CMakeLists.txt` declares: what it fetches, at the
/// version `git`, and then the packages that it finds.
pub open spec fn cmake_dependencies(content: Seq<char>) -> Option<Seq<(Seq<char>, Seq<char>)>> {
    match regex_captures(FETCH_CONTENT_PATTERN@, content) {
        None => None,
        Some(fetched) => match regex_captures(FIND_PACKAGE_PATTERN@, content) {
            None => None,
            Some(packages) => Some(
                named_in(fetched, "git"@, fetched.len() as int) + packages_in(
                    packages,
                    packages.len() as int,
                ),
            ),
        },
    }
}

/// Appends the dependencies that the matches name by their first group.
fn push_named(
    dependencies: &mut Vec<(String, String)>,
    matches: &Vec<Vec<Option<String>>>,
    version: &str,
)
    ensures
        pairs(final(dependencies)@) == pairs(old(dependencies)@) + named_in(
            matches_view(Some(*matches))->0,
            version@,
            matches@.len() as int,
        ),
{
    let ghost wanted = matches_view(Some(*matches))->0;
    let mut i: usize = 0;
    assert(pairs(dependencies@) =~= pairs(old(dependencies)@) + named_in(wanted, version@, 0));
    while i < matches.len()
        invariant
            i <= matches.len(),
            wanted == matches_view(Some(*matches))->0,
            pairs(dependencies@) == pairs(old(dependencies)@) + named_in(
                wanted,
                version@,
                i as int,
            ),
        decreases matches.len() - i,
    {
        let ghost before = pairs(dependencies@);
        assert(wanted[i as int] == groups_view(matches@[i as int]));
        match group(&matches[i], 1) {
            Some(name) => {
                dependencies.push((name.to_owned(), version.to_owned()));
                assert(pairs(dependencies@) =~= before.push((name@, version@)));
                assert(pairs(dependencies@) =~= pairs(old(dependencies)@) + named_in(
                    wanted,
                    version@,
                    i + 1,
                ));
            },
            None => {},
        }
        i += 1;
    }
}

/// The version that a `find_package` asks for.
fn parse_cmake_version(arguments: Option<&str>) -> (version: String)
    ensures
        version@ == cmake_version(
            match arguments {
                Some(text) => Some(text@),
                None => None,
            },
        ),
{
    match arguments {
        None => "system".to_owned(),
        Some(text) => {
            let options = trim(&chars_of(text));
            if starts_with_str(&options, "REQUIRED") || starts_with_str(&options, "COMPONENTS") {
                "system".to_owned()
            } else {
                let word = first_word_of(&options);
                if word.len() == 0 {
                    "system".to_owned()
                } else {
                    string_from_chars(&word)
                }
            }
        },
    }
}

/// Reads the dependencies that a `CMakeLists.txt` declares.
pub fn parse_cmake_dependencies(content: &str) -> (dependencies: Option<Vec<(String, String)>>)
    ensures
        match dependencies {
            Some(list) => cmake_dependencies(content@) == Some(pairs(list@)),
            None => cmake_dependencies(content@) is None,
        },
{
    let fetched = match all_captures(FETCH_CONTENT_PATTERN, content) {
        Some(fetched) => fetched,
        None => {
            return None;
        },
    };
    let packages = match all_captures(FIND_PACKAGE_PATTERN, content) {
        Some(packages) => packages,
        None => {
            return None;
        },
    };
    let mut dependencies: Vec<(String, String)> = Vec::new();
    push_named(&mut dependencies, &fetched, "git");
    let ghost first = pairs(dependencies@);
    let ghost wanted = matches_view(Some(packages))->0;
    assert(first =~= named_in(matches_view(Some(fetched))->0, "git"@, fetched@.len() as int));
    let mut i: usize = 0;
    assert(pairs(dependencies@) =~= first + packages_in(wanted, 0));
    while i < packages.len()
        invariant
            i <= packages.len(),
            wanted == matches_view(Some(packages))->0,
            pairs(dependencies@) == first + packages_in(wanted, i as int),
        decreases packages.len() - i,
    {
        let ghost before = pairs(dependencies@);
        assert(wanted[i as int] == groups_view(packages@[i as int]));
        match group(&packages[i], 1) {
            Some(name) => {
                let version = parse_cmake_version(group(&packages[i], 2));
                dependencies.push((name.to_owned(), version));
                assert(pairs(dependencies@) =~= before.push(
                    (name@, cmake_version(group_text(wanted[i as int], 2))),
                ));
                assert(pairs(dependencies@) =~= first + packages_in(wanted, i + 1));
            },
            None => {},
        }
        i += 1;
    }
    Some(dependencies)
}

/// The modules that the first `n` matches of `bazel_dep` name, each at its version.
pub open spec fn modules_in(matches: Seq<Seq<Option<Seq<char>>>>, n: int) -> Seq<
    (Seq<char>, Seq<char>),
>
    decreases n,
{
    if n <= 0 || n > matches.len() {
        Seq::empty()
    } else {
        match (group_text(matches[n - 1], 1), group_text(matches[n - 1], 2)) {
            (Some(name), Some(version)) => modules_in(matches, n - 1).push((name, version)),
            _ => modules_in(matches, n - 1),
        }
    }
}

/// The dependencies that a `MODULE.bazel` declares.
pub open spec fn module_bazel_dependencies(content: Seq<char>) -> Option<
    Seq<(Seq<char>, Seq<char>)>,
> {
    match regex_captures(BAZEL_DEP_PATTERN@, content) {
        None => None,
        Some(matches) => Some(modules_in(matches, matches.len() as int)),
    }
}

/// The dependencies that a Bazel `WORKSPACE` declares: its archives, each at
/// the version `archive`.
pub open spec fn workspace_bazel_dependencies(content: Seq<char>) -> Option<
    Seq<(Seq<char>, Seq<char>)>,
> {
    match regex_captures(HTTP_ARCHIVE_PATTERN@, content) {
        None => None,
        Some(matches) => Some(named_in(matches, "archive"@, matches.len() as int)),
    }
}

/// Reads the dependencies that a `MODULE.bazel` declares.
pub fn parse_module_bazel(content: &str) -> (dependencies: Option<Vec<(String, String)>>)
    ensures
        match dependencies {
            Some(list) => module_bazel_dependencies(content@) == Some(pairs(list@)),
            None => module_bazel_dependencies(content@) is None,
        },
{
    let matches = match all_captures(BAZEL_DEP_PATTERN, content) {
        Some(matches) => matches,
        None => {
            return None;
        },
    };
    let ghost wanted = matches_view(Some(matches))->0;
    let mut dependencies: Vec<(String, String)> = Vec::new();
    let mut i: usize = 0;
    assert(pairs(dependencies@) =~= modules_in(wanted, 0));
    while i < matches.len()
        invariant
            i <= matches.len(),
            wanted == matches_view(Some(matches))->0,
            pairs(dependencies@) == modules_in(wanted, i as int),
        decreases matches.len() - i,
    {
        let ghost before = pairs(dependencies@);
        assert(wanted[i as int] == groups_view(matches@[i as int]));
        match (group(&matches[i], 1), group(&matches[i], 2)) {
            (Some(name), Some(version)) => {
                dependencies.push((name.to_owned(), version.to_owned()));
                assert(pairs(dependencies@) =~= before.push((name@, version@)));
            },
            _ => {},
        }
        i += 1;
    }
    Some(dependencies)
}

/// Reads the dependencies that a Bazel `WORKSPACE` declares.
pub fn parse_workspace_bazel(content: &str) -> (dependencies: Option<Vec<(String, String)>>)
    ensures
        match dependencies {
            Some(list) => workspace_bazel_dependencies(content@) == Some(pairs(list@)),
            None => workspace_bazel_dependencies(content@) is None,
        },
{
    let matches = match all_captures(HTTP_ARCHIVE_PATTERN, content) {
        Some(matches) => matches,
        None => {
            return None;
        },
    };
    let mut dependencies: Vec<(String, String)> = Vec::new();
    push_named(&mut dependencies, &matches, "archive");
    assert(pairs(dependencies@) =~= named_in(
        matches_view(Some(matches))->0,
        "archive"@,
        matches@.len() as int,
    ));
    Some(dependencies)
}

/// What the caller found of a manifest.
#[derive(Debug)]
pub enum ManifestFile {
    /// There is no such file.
    Missing,
    /// There is one, but it could not be read.
    Unreadable,
    /// The file holds this text.
    Content(String),
}

/// What the caller found of the manifests of a C++ project.
#[derive(Debug)]
pub struct CppFiles {
    pub vcpkg_json: ManifestFile,
    pub conanfile_txt: ManifestFile,
    pub conanfile_py: ManifestFile,
    pub cmake_lists: ManifestFile,
    pub module_bazel: ManifestFile,
    pub workspace: ManifestFile,
}

/// What a manifest declares, as `reading` reads it; there is no answer where
/// the manifest is missing or cannot be read.
pub open spec fn read_with(
    file: ManifestFile,
    reading: spec_fn(Seq<char>) -> Option<Seq<(Seq<char>, Seq<char>)>>,
) -> Option<Seq<(Seq<char>, Seq<char>)>> {
    match file {
        ManifestFile::Content(content) => reading(content@),
        _ => None,
    }
}

/// What Conan's manifests declare: `conanfile.txt` where there is one, and
/// `conanfile.py` only where there is none.
pub open spec fn conan_dependencies(txt: ManifestFile, py: ManifestFile) -> Option<
    Seq<(Seq<char>, Seq<char>)>,
> {
    if !(txt is Missing) {
        read_with(txt, |content: Seq<char>| Some(conanfile_txt_dependencies(content)))
    } else {
        read_with(py, |content: Seq<char>| conanfile_py_dependencies(content))
    }
}

/// What Bazel's manifests declare: `MODULE.bazel` where there is one, and
/// `WORKSPACE` only where there is none.
pub open spec fn bazel_dependencies(module: ManifestFile, workspace: ManifestFile) -> Option<
    Seq<(Seq<char>, Seq<char>)>,
> {
    if !(module is Missing) {
        read_with(module, |content: Seq<char>| module_bazel_dependencies(content))
    } else {
        read_with(workspace, |content: Seq<char>| workspace_bazel_dependencies(content))
    }
}

/// The dependencies of a C++ project: what the first build system that gives
/// an answer declares, asked in the order vcpkg, Conan, CMake, Bazel; none
/// where none of them answers.
pub open spec fn cpp_dependencies(files: CppFiles) -> Seq<(Seq<char>, Seq<char>)> {
    let vcpkg = read_with(files.vcpkg_json, |content: Seq<char>| vcpkg_dependencies(content));
    let conan = conan_dependencies(files.conanfile_txt, files.conanfile_py);
    let cmake = read_with(files.cmake_lists, |content: Seq<char>| cmake_dependencies(content));
    let bazel = bazel_dependencies(files.module_bazel, files.workspace);
    if vcpkg is Some {
        vcpkg->0
    } else if conan is Some {
        conan->0
    } else if cmake is Some {
        cmake->0
    } else if bazel is Some {
        bazel->0
    } else {
        Seq::empty()
    }
}

/// Reads what Conan's manifests declare.
pub fn parse_conan_dependencies(txt: &ManifestFile, py: &ManifestFile) -> (dependencies: Option<
    Vec<(String, String)>,
>)
    ensures
        match dependencies {
            Some(list) => conan_dependencies(*txt, *py) == Some(pairs(list@)),
            None => conan_dependencies(*txt, *py) is None,
        },
{
    match txt {
        ManifestFile::Content(content) => Some(parse_conanfile_txt(content.as_str())),
        ManifestFile::Unreadable => None,
        ManifestFile::Missing => match py {
            ManifestFile::Content(content) => parse_conanfile_py(content.as_str()),
            _ => None,
        },
    }
}

/// Reads what Bazel's manifests declare.
pub fn parse_bazel_dependencies(module: &ManifestFile, workspace: &ManifestFile) -> (dependencies:
    Option<Vec<(String, String)>>)
    ensures
        match dependencies {
            Some(list) => bazel_dependencies(*module, *workspace) == Some(pairs(list@)),
            None => bazel_dependencies(*module, *workspace) is None,
        },
{
    match module {
        ManifestFile::Content(content) => parse_module_bazel(content.as_str()),
        ManifestFile::Unreadable => None,
        ManifestFile::Missing => match workspace {
            ManifestFile::Content(content) => parse_workspace_bazel(content.as_str()),
            _ => None,
        },
    }
}

/// Detects the dependencies of a C++ project from its manifests.
pub fn detect_cpp_dependencies(files: &CppFiles) -> (dependencies: Vec<(String, String)>)
    ensures
        pairs(dependencies@) == cpp_dependencies(*files),
{
    match &files.vcpkg_json {
        ManifestFile::Content(content) => match parse_vcpkg_dependencies(content.as_str()) {
            Some(list) => {
                return list;
            },
            None => {},
        },
        _ => {},
    }
    match parse_conan_dependencies(&files.conanfile_txt, &files.conanfile_py) {
        Some(list) => {
            return list;
        },
        None => {},
    }
    match &files.cmake_lists {
        ManifestFile::Content(content) => match parse_cmake_dependencies(content.as_str()) {
            Some(list) => {
                return list;
            },
            None => {},
        },
        _ => {},
    }
    match parse_bazel_dependencies(&files.module_bazel, &files.workspace) {
        Some(list) => {
            return list;
        },
        None => {},
    }
    let none: Vec<(String, String)> = Vec::new();
    assert(pairs(none@) =~= Seq::<(Seq<char>, Seq<char>)>::empty());
    none
}

/// Where the license of a C++ dependency is asked for.
#[derive(Debug, Clone, Copy, PartialEq, Eq, Structural)]
pub enum LicenseSource {
    /// The vcpkg registry.
    Vcpkg,
    /// Conan Center.
    Conan,
    /// The system's package description.
    System,
    /// Nowhere: the version says nothing of where the package came from.
    Nowhere,
}

/// Where the license of a dependency at `version` is asked for: the vcpkg
/// registry for `latest` and `git`; Conan Center for a version that begins
/// with a digit or is empty; the system for `system`.
pub open spec fn license_source(version: Seq<char>) -> LicenseSource {
    if version == "latest"@ || version == "git"@ {
        LicenseSource::Vcpkg
    } else if version.len() == 0 || ('0' <= version[0] && version[0] <= '9') {
        LicenseSource::Conan
    } else if version == "system"@ {
        LicenseSource::System
    } else {
        LicenseSource::Nowhere
    }
}

/// Where the license of a dependency at `version` is asked for.
pub fn license_source_for(version: &str) -> (source: LicenseSource)
    ensures
        source == license_source(version@),
{
    let chars = chars_of(version);
    if chars_eq_str(&chars, "latest") || chars_eq_str(&chars, "git") {
        LicenseSource::Vcpkg
    } else if chars.len() == 0 || ('0' <= chars[0] && chars[0] <= '9') {
        LicenseSource::Conan
    } else if chars_eq_str(&chars, "system") {
        LicenseSource::System
    } else {
        LicenseSource::Nowhere
    }
}

/// Where the vcpkg registry describes a package.
pub open spec fn vcpkg_address(package_name: Seq<char>) -> Seq<char> {
    "https://raw.githubusercontent.com/microsoft/vcpkg/master/ports/"@ + package_name
        + "/vcpkg.json"@
}

/// Where Conan Center describes a package at a version.
pub open spec fn conan_address(package_name: Seq<char>, version: Seq<char>) -> Seq<char> {
    "https://conan.io/center/api/packages/"@ + package_name + "/"@ + version
}

/// Where the vcpkg registry describes a package.
pub fn vcpkg_url(package_name: &str) -> (url: String)
    ensures
        url@ == vcpkg_address(package_name@),
{
    let mut url: Vec<char> = Vec::new();
    push_str(&mut url, "https://raw.githubusercontent.com/microsoft/vcpkg/master/ports/");
    push_str(&mut url, package_name);
    push_str(&mut url, "/vcpkg.json");
    assert(url@ =~= vcpkg_address(package_name@));
    string_from_chars(&url)
}

/// Where Conan Center describes a package at a version.
pub fn conan_url(package_name: &str, version: &str) -> (url: String)
    ensures
        url@ == conan_address(package_name@, version@),
{
    let mut url: Vec<char> = Vec::new();
    push_str(&mut url, "https://conan.io/center/api/packages/");
    push_str(&mut url, package_name);
    push_str(&mut url, "/");
    push_str(&mut url, version);
    assert(url@ =~= conan_address(package_name@, version@));
    string_from_chars(&url)
}

/// The license that a registry's answer declares: the string under `license`
/// of the JSON document that the answer holds.
pub open spec fn license_in_reply(reply: Option<&str>) -> Option<Seq<char>> {
    match reply {
        Some(body) => match json_document(body@) {
            Some(document) => document.member_text("license"@),
            None => None,
        },
        None => None,
    }
}

/// What stands for a license that could not be had from `source`.
pub open spec fn unknown_license(source: Seq<char>, package_name: Seq<char>) -> Seq<char> {
    "Unknown license ("@ + source + ": "@ + package_name + ")"@
}

/// What a package's license is taken to be after a registry was asked.
pub open spec fn registry_license(source: Seq<char>, package_name: Seq<char>, reply: Option<&str>)
    -> Seq<char> {
    match license_in_reply(reply) {
        Some(license) => license,
        None => unknown_license(source, package_name),
    }
}

/// What a package's license is taken to be after the system was asked: what it
/// printed, trimmed, unless that is nothing.
pub open spec fn system_license(package_name: Seq<char>, output: Option<&str>) -> Seq<char> {
    match output {
        Some(text) if trimmed(text@).len() > 0 => trimmed(text@),
        _ => unknown_license("system"@, package_name),
    }
}

/// What a dependency's license is taken to be after its source was asked.
pub open spec fn cpp_license(name: Seq<char>, version: Seq<char>, reply: Option<&str>) -> Seq<
    char,
> {
    match license_source(version) {
        LicenseSource::Vcpkg => registry_license("vcpkg"@, name, reply),
        LicenseSource::Conan => registry_license("conan"@, name, reply),
        LicenseSource::System => system_license(name, reply),
        LicenseSource::Nowhere => "Unknown license for "@ + name + ": "@ + version,
    }
}

fn unknown_license_text(source: &str, package_name: &str) -> (text: String)
    ensures
        text@ == unknown_license(source@, package_name@),
{
    let mut text: Vec<char> = Vec::new();
    push_str(&mut text, "Unknown license (");
    push_str(&mut text, source);
    push_str(&mut text, ": ");
    push_str(&mut text, package_name);
    push_str(&mut text, ")");
    assert(text@ =~= unknown_license(source@, package_name@));
    string_from_chars(&text)
}

fn license_from_registry(source: &str, package_name: &str, reply: Option<&str>) -> (license: String)
    ensures
        license@ == registry_license(source@, package_name@, reply),
{
    match reply {
        Some(body) => match parse_json(body) {
            Some(document) => match document.get_str("license") {
                Some(license) => {
                    return license.to_owned();
                },
                None => {},
            },
            None => {},
        },
        None => {},
    }
    unknown_license_text(source, package_name)
}

/// The license of a package after the vcpkg registry was asked; `reply` is the
/// body of its answer, or `None` where the request failed.
pub fn fetch_license_from_vcpkg_registry(package_name: &str, reply: Option<&str>) -> (license:
    String)
    ensures
        license@ == registry_license("vcpkg"@, package_name@, reply),
{
    license_from_registry("vcpkg", package_name, reply)
}

/// The license of a package after Conan Center was asked; `reply` is the body
/// of its answer, or `None` where the request failed.
pub fn fetch_license_from_conan_center(package_name: &str, reply: Option<&str>) -> (license:
    String)
    ensures
        license@ == registry_license("conan"@, package_name@, reply),
{
    license_from_registry("conan", package_name, reply)
}

/// The license of a package after the system was asked; `output` is what
/// `pkg-config` printed, or `None` where it failed.
pub fn fetch_license_from_system_package(package_name: &str, output: Option<&str>) -> (license:
    String)
    ensures
        license@ == system_license(package_name@, output),
{
    match output {
        Some(text) => {
            let license = trim(&chars_of(text));
            if license.len() > 0 {
                return string_from_chars(&license);
            }
        },
        None => {},
    }
    unknown_license_text("system", package_name)
}

/// The license of a dependency after its source was asked; `reply` is what the
/// source answered, or `None` where it did not.
pub fn fetch_license_for_cpp_dependency(name: &str, version: &str, reply: Option<&str>) -> (license:
    String)
    ensures
        license@ == cpp_license(name@, version@, reply),
{
    match license_source_for(version) {
        LicenseSource::Vcpkg => fetch_license_from_vcpkg_registry(name, reply),
        LicenseSource::Conan => fetch_license_from_conan_center(name, reply),
        LicenseSource::System => fetch_license_from_system_package(name, reply),
        LicenseSource::Nowhere => {
            let mut text: Vec<char> = Vec::new();
            push_str(&mut text, "Unknown license for ");
            push_str(&mut text, name);
            push_str(&mut text, ": ");
            push_str(&mut text, version);
            assert(text@ =~= "Unknown license for "@ + name@ + ": "@ + version@);
            string_from_chars(&text)
        },
    }
}

/// A dependency with the license that its source reported.
#[derive(Debug, Clone)]
pub struct ResolvedDependency {
    pub name: String,
    pub version: String,
    pub license: String,
}

/// Whether `info` is the record of `dependency`: same name and version, the
/// reported license, restrictive as the classifier decides, and of unknown
/// compatibility.
pub open spec fn records(
    info: LicenseInfo,
    dependency: ResolvedDependency,
    known: Map<Seq<char>, License>,
    patterns: Seq<String>,
) -> bool {
    &&& info.name@ == dependency.name@
    &&& info.version@ == dependency.version@
    &&& declared(info.license) == Some(dependency.license@)
    &&& info.is_restrictive == restrictive(Some(dependency.license@), known, patterns)
    &&& info.compatibility == LicenseCompatibility::Unknown
}

/// Classifies the dependencies of a C++ project: one record for each, in order.
pub fn analyze_cpp_licenses(
    dependencies: Vec<ResolvedDependency>,
    known_licenses: &Taxonomy,
    restrictive_patterns: &Vec<String>,
) -> (infos: Vec<LicenseInfo>)
    ensures
        infos@.len() == dependencies@.len(),
        forall|i: int|
            0 <= i < infos@.len() ==> records(
                #[trigger] infos@[i],
                dependencies@[i],
                known_licenses@,
                restrictive_patterns@,
            ),
{
    let mut infos: Vec<LicenseInfo> = Vec::new();
    let ghost all = dependencies@;
    let mut rest = dependencies;
    let mut i: usize = 0;
    let n = rest.len();
    while i < n
        invariant
            i <= n,
            n == all.len(),
            rest@ == all,
            infos@.len() == i,
            forall|j: int|
                0 <= j < i ==> records(
                    #[trigger] infos@[j],
                    all[j],
                    known_licenses@,
                    restrictive_patterns@,
                ),
        decreases n - i,
    {
        let license = Some(rest[i].license.clone());
        let is_restrictive = is_license_restrictive(
            &license,
            known_licenses,
            restrictive_patterns,
        );
        infos.push(
            LicenseInfo {
                name: rest[i].name.clone(),
                version: rest[i].version.clone(),
                license,
                is_restrictive,
                compatibility: LicenseCompatibility::Unknown,
            },
        );
        i += 1;
    }
    infos
}

} // verus!
