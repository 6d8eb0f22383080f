//! Project roots: which files mark a directory as the root of a project, and
//! which manifest is read of a root. Walking the directories is the caller's
//! business.
use crate::licenses::LicenseInfo;
use crate::text::{chars_eq_str, chars_of};
use vstd::prelude::*;

verus! {

/// The ecosystem of a project.
#[derive(Debug, PartialEq, Eq, Structural, Clone, Copy)]
pub enum ProjectType {
    Rust,
    Node,
    Go,
    Python,
}

/// The files that list the packages of a Python project, in order of preference.
pub const PYTHON_PATHS: [&'static str; 3] = ["requirements.txt", "Pipfile.lock", "pip_freeze.txt"];

/// The files that list the packages of a Python project, in order of preference.
pub open spec fn python_paths() -> Seq<Seq<char>> {
    seq!["requirements.txt"@, "Pipfile.lock"@, "pip_freeze.txt"@]
}

/// A directory that holds a project, and the project's ecosystem.
#[derive(Debug)]
pub struct ProjectRoot {
    pub path: String,
    pub project_type: ProjectType,
}

/// A file that the walk came by: its name, and the directory that holds it.
#[derive(Debug)]
pub struct FoundFile {
    pub file_name: String,
    pub parent: String,
}

/// The ecosystem whose project a file of this name marks, if it marks one.
pub open spec fn project_type_of(file_name: Seq<char>) -> Option<ProjectType> {
    if file_name == "Cargo.toml"@ {
        Some(ProjectType::Rust)
    } else if file_name == "package.json"@ {
        Some(ProjectType::Node)
    } else if file_name == "go.mod"@ {
        Some(ProjectType::Go)
    } else if python_paths().contains(file_name) {
        Some(ProjectType::Python)
    } else {
        None
    }
}

/// Whether `root` is the project root that `file` marks.
pub open spec fn marks(file: FoundFile, root: ProjectRoot) -> bool {
    root.path@ == file.parent@ && project_type_of(file.file_name@) == Some(root.project_type)
}

/// The ecosystem whose project a file of this name marks.
pub fn project_type_for(file_name: &str) -> (project_type: Option<ProjectType>)
    ensures
        project_type == project_type_of(file_name@),
{
    let name = chars_of(file_name);
    if chars_eq_str(&name, "Cargo.toml") {
        Some(ProjectType::Rust)
    } else if chars_eq_str(&name, "package.json") {
        Some(ProjectType::Node)
    } else if chars_eq_str(&name, "go.mod") {
        Some(ProjectType::Go)
    } else if chars_eq_str(&name, "requirements.txt") || chars_eq_str(&name, "Pipfile.lock")
        || chars_eq_str(&name, "pip_freeze.txt") {
        assert(python_paths().contains(name@)) by {
            assert(python_paths()[0] == "requirements.txt"@);
            assert(python_paths()[1] == "Pipfile.lock"@);
            assert(python_paths()[2] == "pip_freeze.txt"@);
        }
        Some(ProjectType::Python)
    } else {
        None
    }
}

/// How many of the first `n` files mark a project root.
pub open spec fn marking_files(files: Seq<FoundFile>, n: int) -> nat
    decreases n,
{
    if n <= 0 || n > files.len() {
        0
    } else {
        marking_files(files, n - 1) + if project_type_of(files[n - 1].file_name@) is Some {
            1nat
        } else {
            0nat
        }
    }
}

/// Whether `roots` are the project roots that the first `n` files mark, one
/// for each marking file, in the order of the files.
pub open spec fn roots_of(files: Seq<FoundFile>, n: int, roots: Seq<ProjectRoot>) -> bool
    decreases n,
{
    if n <= 0 || n > files.len() {
        roots.len() == 0
    } else if project_type_of(files[n - 1].file_name@) is Some {
        roots.len() > 0 && marks(files[n - 1], roots.last()) && roots_of(
            files,
            n - 1,
            roots.drop_last(),
        )
    } else {
        roots_of(files, n - 1, roots)
    }
}

/// The project roots among the files that the walk came by: one for every
/// file that marks a project, in the order in which the files came.
pub fn find_project_roots(files: &Vec<FoundFile>) -> (roots: Vec<ProjectRoot>)
    ensures
        roots_of(files@, files@.len() as int, roots@),
        roots@.len() == marking_files(files@, files@.len() as int),
{
    let mut roots: Vec<ProjectRoot> = Vec::new();
    let mut i: usize = 0;
    while i < files.len()
        invariant
            i <= files.len(),
            roots_of(files@, i as int, roots@),
            roots@.len() == marking_files(files@, i as int),
        decreases files.len() - i,
    {
        let ghost before = roots@;
        match project_type_for(files[i].file_name.as_str()) {
            Some(project_type) => {
                roots.push(ProjectRoot { path: files[i].parent.clone(), project_type });
                assert(roots@.drop_last() =~= before);
            },
            None => {},
        }
        i += 1;
    }
    roots
}

/// The first of the Python package lists that exists, given for each of them,
/// in order of preference, whether it exists.
pub open spec fn first_existing(exists: Seq<bool>, from: int) -> Option<Seq<char>>
    decreases exists.len() - from,
{
    if from < 0 || from >= exists.len() || from >= python_paths().len() {
        None
    } else if exists[from] {
        Some(python_paths()[from])
    } else {
        first_existing(exists, from + 1)
    }
}

/// The Python package list to read: the first that exists. `exists` says of
/// each of `PYTHON_PATHS`, in order, whether the project has it.
pub fn check_which_python_file_exists(exists: &Vec<bool>) -> (file_name: Option<String>)
    ensures
        match file_name {
            Some(name) => first_existing(exists@, 0) == Some(name@),
            None => first_existing(exists@, 0) is None,
        },
{
    let mut i: usize = 0;
    while i < exists.len() && i < 3
        invariant
            i <= exists.len(),
            i <= 3,
            first_existing(exists@, 0) == first_existing(exists@, i as int),
        decreases exists.len() - i,
    {
        if exists[i] {
            let name = if i == 0 {
                "requirements.txt"
            } else if i == 1 {
                "Pipfile.lock"
            } else {
                "pip_freeze.txt"
            };
            return Some(name.to_owned());
        }
        i += 1;
    }
    None
}

/// The manifest that is read of a project root: the one that marks the
/// ecosystem, and for Python the first package list that exists.
pub open spec fn manifest_of(project_type: ProjectType, python_exists: Seq<bool>) -> Option<
    Seq<char>,
> {
    match project_type {
        ProjectType::Rust => Some("Cargo.toml"@),
        ProjectType::Node => Some("package.json"@),
        ProjectType::Go => Some("go.mod"@),
        ProjectType::Python => first_existing(python_exists, 0),
    }
}

/// The name of the manifest that is read of a project root. For a Python
/// project without any package list there is none.
pub fn manifest_name(project_type: ProjectType, python_exists: &Vec<bool>) -> (file_name: Option<
    String,
>)
    ensures
        match file_name {
            Some(name) => manifest_of(project_type, python_exists@) == Some(name@),
            None => manifest_of(project_type, python_exists@) is None,
        },
{
    match project_type {
        ProjectType::Rust => Some("Cargo.toml".to_owned()),
        ProjectType::Node => Some("package.json".to_owned()),
        ProjectType::Go => Some("go.mod".to_owned()),
        ProjectType::Python => check_which_python_file_exists(python_exists),
    }
}

/// The records of the first `n` roots, one root's after the other's.
pub open spec fn gathered(per_root: Seq<Vec<LicenseInfo>>, n: int) -> Seq<LicenseInfo>
    decreases n,
{
    if n <= 0 || n > per_root.len() {
        Seq::empty()
    } else {
        gathered(per_root, n - 1) + per_root[n - 1]@
    }
}

/// Gathers the records of all project roots into one list: every root's
/// records, in the order of the roots.
pub fn parse_root(per_root: Vec<Vec<LicenseInfo>>) -> (licenses: Vec<LicenseInfo>)
    ensures
        licenses@ == gathered(per_root@, per_root@.len() as int),
{
    let mut licenses: Vec<LicenseInfo> = Vec::new();
    let ghost all = per_root@;
    let mut rest = per_root;
    let n = rest.len();
    let mut i: usize = 0;
    while i < n
        invariant
            i <= n,
            n == all.len(),
            rest@ == all.skip(i as int),
            licenses@ == gathered(all, i as int),
        decreases n - i,
    {
        let mut next = rest.remove(0);
        assert(next@ == all[i as int]@);
        licenses.append(&mut next);
        assert(rest@ =~= all.skip(i + 1));
        i += 1;
    }
    licenses
}

} // verus!
