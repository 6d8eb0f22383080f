use feluda::licenses::{LicenseCompatibility, LicenseInfo};
use feluda::parser::{
    check_which_python_file_exists, find_project_roots, manifest_name, parse_root,
    project_type_for, FoundFile, ProjectType, PYTHON_PATHS,
};

fn file(parent: &str, file_name: &str) -> FoundFile {
    FoundFile { file_name: file_name.to_string(), parent: parent.to_string() }
}

fn record(name: &str) -> LicenseInfo {
    LicenseInfo {
        name: name.to_string(),
        version: "1".to_string(),
        license: None,
        is_restrictive: false,
        compatibility: LicenseCompatibility::Unknown,
    }
}

#[test]
fn test_find_project_files() {
    let found = vec![
        file("/root/rust_project", "Cargo.toml"),
        file("/root/node_project", "package.json"),
        file("/root", "requirements.txt"),
    ];

    let files = find_project_roots(&found);

    // Verify we found all project files
    assert_eq!(files.len(), 3);

    for file in &files {
        println!("Checking file: {}", file.path);
    }

    // Verify each project type is found
    let file_types: Vec<_> = files.iter().map(|f| f.project_type).collect();
    assert!(file_types.contains(&ProjectType::Rust));
    assert!(file_types.contains(&ProjectType::Node));
    assert!(file_types.contains(&ProjectType::Python));
}

#[test]
fn files_that_mark_a_project() {
    assert_eq!(project_type_for("Cargo.toml"), Some(ProjectType::Rust));
    assert_eq!(project_type_for("package.json"), Some(ProjectType::Node));
    assert_eq!(project_type_for("go.mod"), Some(ProjectType::Go));
    for name in PYTHON_PATHS {
        assert_eq!(project_type_for(name), Some(ProjectType::Python));
    }
    assert_eq!(PYTHON_PATHS, ["requirements.txt", "Pipfile.lock", "pip_freeze.txt"]);
    assert_eq!(project_type_for("cargo.toml"), None);
    assert_eq!(project_type_for("Cargo.lock"), None);
    assert_eq!(project_type_for("pyproject.toml"), None);
    assert_eq!(project_type_for(""), None);
}

#[test]
fn roots_come_in_the_order_of_the_files() {
    let found = vec![
        file("a", "README.md"),
        file("a", "go.mod"),
        file("a/b", "Pipfile.lock"),
        file("a/b", "pip_freeze.txt"),
        file("c", "main.rs"),
        file("c", "Cargo.toml"),
    ];
    let roots = find_project_roots(&found);
    let seen: Vec<(&str, ProjectType)> =
        roots.iter().map(|r| (r.path.as_str(), r.project_type)).collect();
    assert_eq!(
        seen,
        vec![
            ("a", ProjectType::Go),
            ("a/b", ProjectType::Python),
            ("a/b", ProjectType::Python),
            ("c", ProjectType::Rust),
        ]
    );
    assert!(find_project_roots(&Vec::new()).is_empty());
}

#[test]
fn first_python_package_list_that_exists() {
    assert_eq!(
        check_which_python_file_exists(&vec![true, true, true]),
        Some("requirements.txt".to_string())
    );
    assert_eq!(
        check_which_python_file_exists(&vec![false, true, true]),
        Some("Pipfile.lock".to_string())
    );
    assert_eq!(
        check_which_python_file_exists(&vec![false, false, true]),
        Some("pip_freeze.txt".to_string())
    );
    assert_eq!(check_which_python_file_exists(&vec![false, false, false]), None);
    assert_eq!(check_which_python_file_exists(&vec![false, false, false, true]), None);
    assert_eq!(check_which_python_file_exists(&vec![]), None);
}

#[test]
fn manifest_of_each_ecosystem() {
    let none = vec![false, false, false];
    assert_eq!(manifest_name(ProjectType::Rust, &none), Some("Cargo.toml".to_string()));
    assert_eq!(manifest_name(ProjectType::Node, &none), Some("package.json".to_string()));
    assert_eq!(manifest_name(ProjectType::Go, &none), Some("go.mod".to_string()));
    assert_eq!(manifest_name(ProjectType::Python, &none), None);
    assert_eq!(
        manifest_name(ProjectType::Python, &vec![false, true, false]),
        Some("Pipfile.lock".to_string())
    );
}

#[test]
fn records_of_all_roots_are_gathered_in_order() {
    let gathered = parse_root(vec![
        vec![record("a"), record("b")],
        vec![],
        vec![record("c")],
        vec![record("a")],
    ]);
    let names: Vec<&str> = gathered.iter().map(|r| r.name.as_str()).collect();
    assert_eq!(names, vec!["a", "b", "c", "a"]);
    assert!(parse_root(Vec::new()).is_empty());
}
