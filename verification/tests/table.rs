use feluda::licenses::{LicenseCompatibility, LicenseInfo};
use feluda::order::Order;
use feluda::table::{
    command_for, compare_rows, constraint_len_calculator, sort_rows, App, AppMode, Command, Key,
    SortColumn, SortDirection, INFO_TEXT, ITEM_HEIGHT,
};
use feluda::versions::compare_versions;

#[test]
fn test_app_new() {
    let test_data = vec![LicenseInfo {
        name: "test_package".to_string(),
        version: "1.0.0".to_string(),
        license: Some("MIT".to_string()),
        is_restrictive: false,
        compatibility: LicenseCompatibility::Compatible,
    }];

    let app = App::new(test_data.clone(), Some("MIT".to_string()));

    assert_eq!(app.items.len(), 1);
    assert_eq!(app.project_license, Some("MIT".to_string()));
    assert_eq!(app.state.selected(), Some(0));

    let app_no_license = App::new(test_data, None);
    assert!(app_no_license.project_license.is_none());
}

#[test]
fn test_app_new_empty_data() {
    let test_data = vec![];
    let app = App::new(test_data, Some("Apache-2.0".to_string()));

    assert_eq!(app.items.len(), 0);
    assert_eq!(app.project_license, Some("Apache-2.0".to_string()));
    assert_eq!(app.state.selected(), Some(0));
}

#[test]
fn test_app_navigation() {
    let test_data = vec![
        LicenseInfo {
            name: "package1".to_string(),
            version: "1.0.0".to_string(),
            license: Some("MIT".to_string()),
            is_restrictive: false,
            compatibility: LicenseCompatibility::Compatible,
        },
        LicenseInfo {
            name: "package2".to_string(),
            version: "2.0.0".to_string(),
            license: Some("Apache-2.0".to_string()),
            is_restrictive: false,
            compatibility: LicenseCompatibility::Compatible,
        },
        LicenseInfo {
            name: "package3".to_string(),
            version: "3.0.0".to_string(),
            license: Some("GPL-3.0".to_string()),
            is_restrictive: true,
            compatibility: LicenseCompatibility::Incompatible,
        },
    ];

    let mut app = App::new(test_data, None);

    assert_eq!(app.state.selected(), Some(0));

    app.next_row();
    assert_eq!(app.state.selected(), Some(1));

    app.next_row();
    assert_eq!(app.state.selected(), Some(2));

    app.next_row();
    assert_eq!(app.state.selected(), Some(0));

    app.previous_row();
    assert_eq!(app.state.selected(), Some(2));

    app.previous_row();
    assert_eq!(app.state.selected(), Some(1));

    app.previous_row();
    assert_eq!(app.state.selected(), Some(0));

    app.previous_row();
    assert_eq!(app.state.selected(), Some(2));

    app.next_column();
    app.previous_column();
}

#[test]
fn test_app_navigation_single_item() {
    let test_data = vec![LicenseInfo {
        name: "single_package".to_string(),
        version: "1.0.0".to_string(),
        license: Some("MIT".to_string()),
        is_restrictive: false,
        compatibility: LicenseCompatibility::Compatible,
    }];

    let mut app = App::new(test_data, None);

    assert_eq!(app.state.selected(), Some(0));

    app.next_row();
    assert_eq!(app.state.selected(), Some(0));

    app.previous_row();
    assert_eq!(app.state.selected(), Some(0));
}

#[test]
fn test_app_navigation_empty_list() {
    let test_data = vec![];
    let mut app = App::new(test_data, None);

    assert_eq!(app.state.selected(), Some(0));

    app.next_row();
    assert_eq!(app.state.selected(), Some(0));

    app.previous_row();
    assert_eq!(app.state.selected(), Some(0));
}

#[test]
fn test_constraint_len_calculator() {
    let test_data = vec![
        LicenseInfo {
            name: "very_long_package_name_that_exceeds_normal_length".to_string(),
            version: "1.0.0-beta.1+build.123".to_string(),
            license: Some("MIT".to_string()),
            is_restrictive: false,
            compatibility: LicenseCompatibility::Compatible,
        },
        LicenseInfo {
            name: "short".to_string(),
            version: "2.0".to_string(),
            license: Some("Apache-2.0".to_string()),
            is_restrictive: true,
            compatibility: LicenseCompatibility::Incompatible,
        },
    ];

    let (name_len, version_len, license_len, restricted_len, compatibility_len, _osi_len) =
        constraint_len_calculator(&test_data);

    assert_eq!(
        name_len,
        "very_long_package_name_that_exceeds_normal_length".len() as u16
    );
    assert_eq!(version_len, "1.0.0-beta.1+build.123".len() as u16);
    assert_eq!(license_len, "Apache-2.0".len() as u16);
    assert_eq!(restricted_len, "false".len() as u16);
    assert_eq!(compatibility_len, "Incompatible".len() as u16);
}

#[test]
fn test_constraint_len_calculator_empty() {
    let test_data = vec![];
    let (name_len, version_len, license_len, restricted_len, compatibility_len, _osi_len) =
        constraint_len_calculator(&test_data);

    assert_eq!(name_len, 0);
    assert_eq!(version_len, 0);
    assert_eq!(license_len, 0);
    assert_eq!(restricted_len, "false".len() as u16);
    assert_eq!(compatibility_len, "Incompatible".len() as u16);
}

#[test]
fn test_constraint_len_calculator_unicode() {
    let test_data = vec![LicenseInfo {
        name: "package_with_émojis_🚀_and_ünïcödé".to_string(),
        version: "1.0.0".to_string(),
        license: Some("MIT".to_string()),
        is_restrictive: false,
        compatibility: LicenseCompatibility::Compatible,
    }];

    let (name_len, _, _, _, _, _) = constraint_len_calculator(&test_data);

    assert!(name_len > 0);
}

#[test]
fn test_constraint_len_calculator_all_compatibility_types() {
    let test_data = vec![
        LicenseInfo {
            name: "compatible".to_string(),
            version: "1.0.0".to_string(),
            license: Some("MIT".to_string()),
            is_restrictive: false,
            compatibility: LicenseCompatibility::Compatible,
        },
        LicenseInfo {
            name: "incompatible".to_string(),
            version: "1.0.0".to_string(),
            license: Some("GPL-3.0".to_string()),
            is_restrictive: true,
            compatibility: LicenseCompatibility::Incompatible,
        },
        LicenseInfo {
            name: "unknown".to_string(),
            version: "1.0.0".to_string(),
            license: Some("Custom".to_string()),
            is_restrictive: false,
            compatibility: LicenseCompatibility::Unknown,
        },
    ];

    let (_, _, _, _, compatibility_len, _) = constraint_len_calculator(&test_data);

    assert_eq!(compatibility_len, "Incompatible".len() as u16);
}

#[test]
fn test_constraint_len_calculator_restrictive_values() {
    let test_data = vec![
        LicenseInfo {
            name: "package".to_string(),
            version: "1.0.0".to_string(),
            license: Some("MIT".to_string()),
            is_restrictive: true, // true
            compatibility: LicenseCompatibility::Compatible,
        },
        LicenseInfo {
            name: "package2".to_string(),
            version: "1.0.0".to_string(),
            license: Some("Apache".to_string()),
            is_restrictive: false, // false
            compatibility: LicenseCompatibility::Compatible,
        },
    ];

    let (_, _, _, restricted_len, _, _) = constraint_len_calculator(&test_data);

    assert_eq!(restricted_len, "false".len() as u16);
}

#[test]
fn test_item_height_constant() {
    assert_eq!(ITEM_HEIGHT, 4);
}

#[test]
fn test_info_text_constant() {
    assert_eq!(INFO_TEXT.len(), 2);
    assert!(INFO_TEXT[0].contains("Esc"));
    assert!(INFO_TEXT[0].contains("quit"));
    assert!(INFO_TEXT[0].contains("sort mode"));
    assert!(INFO_TEXT[1].contains("sort mode"));
    assert!(INFO_TEXT[1].contains("Enter"));
}

#[test]
fn test_app_longest_item_lens_calculation() {
    let test_data = vec![
        LicenseInfo {
            name: "short".to_string(),
            version: "1.0".to_string(),
            license: Some("MIT".to_string()),
            is_restrictive: false,
            compatibility: LicenseCompatibility::Compatible,
        },
        LicenseInfo {
            name: "much_longer_name".to_string(),
            version: "1.0.0-beta".to_string(),
            license: Some("Apache-2.0".to_string()),
            is_restrictive: true,
            compatibility: LicenseCompatibility::Incompatible,
        },
    ];

    let app = App::new(test_data, None);

    assert_eq!(app.longest_item_lens.0, "much_longer_name".len() as u16);
    assert_eq!(app.longest_item_lens.1, "1.0.0-beta".len() as u16);
    assert_eq!(app.longest_item_lens.2, "Apache-2.0".len() as u16);
    assert_eq!(app.longest_item_lens.3, "false".len() as u16);
    assert_eq!(app.longest_item_lens.4, "Incompatible".len() as u16);
}

#[test]
fn test_sort_by_name() {
    let test_data = vec![
        LicenseInfo {
            name: "zebra".to_string(),
            version: "1.0.0".to_string(),
            license: Some("MIT".to_string()),
            is_restrictive: false,
            compatibility: LicenseCompatibility::Compatible,
        },
        LicenseInfo {
            name: "apple".to_string(),
            version: "2.0.0".to_string(),
            license: Some("Apache-2.0".to_string()),
            is_restrictive: false,
            compatibility: LicenseCompatibility::Compatible,
        },
        LicenseInfo {
            name: "banana".to_string(),
            version: "3.0.0".to_string(),
            license: Some("GPL-3.0".to_string()),
            is_restrictive: true,
            compatibility: LicenseCompatibility::Incompatible,
        },
    ];

    let mut app = App::new(test_data, None);
    app.enter_sort_mode();
    // SortColumn::Name is at index 0, so no navigation needed
    app.apply_current_sort();

    assert_eq!(app.items[0].name, "apple");
    assert_eq!(app.items[1].name, "banana");
    assert_eq!(app.items[2].name, "zebra");
    assert_eq!(app.sort_column, Some(SortColumn::Name));
    assert_eq!(app.sort_direction, SortDirection::Ascending);
    assert_eq!(app.mode, AppMode::Normal);
}

#[test]
fn test_sort_by_name_descending() {
    let test_data = vec![
        LicenseInfo {
            name: "apple".to_string(),
            version: "1.0.0".to_string(),
            license: Some("MIT".to_string()),
            is_restrictive: false,
            compatibility: LicenseCompatibility::Compatible,
        },
        LicenseInfo {
            name: "zebra".to_string(),
            version: "2.0.0".to_string(),
            license: Some("Apache-2.0".to_string()),
            is_restrictive: false,
            compatibility: LicenseCompatibility::Compatible,
        },
    ];

    let mut app = App::new(test_data, None);
    app.enter_sort_mode();
    app.apply_current_sort(); // First sort ascending
    app.enter_sort_mode();
    app.apply_current_sort(); // Toggle to descending

    assert_eq!(app.items[0].name, "zebra");
    assert_eq!(app.items[1].name, "apple");
    assert_eq!(app.sort_direction, SortDirection::Descending);
}

#[test]
fn test_sort_by_restrictive() {
    let test_data = vec![
        LicenseInfo {
            name: "package1".to_string(),
            version: "1.0.0".to_string(),
            license: Some("MIT".to_string()),
            is_restrictive: true,
            compatibility: LicenseCompatibility::Compatible,
        },
        LicenseInfo {
            name: "package2".to_string(),
            version: "2.0.0".to_string(),
            license: Some("Apache-2.0".to_string()),
            is_restrictive: false,
            compatibility: LicenseCompatibility::Compatible,
        },
    ];

    let mut app = App::new(test_data, None);
    app.enter_sort_mode();
    // Navigate to Restrictive column (index 3)
    app.next_sort_column(); // 1
    app.next_sort_column(); // 2
    app.next_sort_column(); // 3
    app.apply_current_sort();

    // False comes before True in ascending order
    assert!(!app.items[0].is_restrictive);
    assert!(app.items[1].is_restrictive);
    assert_eq!(app.sort_column, Some(SortColumn::Restrictive));
}

#[test]
fn test_sort_mode_navigation() {
    let test_data = vec![LicenseInfo {
        name: "test".to_string(),
        version: "1.0.0".to_string(),
        license: Some("MIT".to_string()),
        is_restrictive: false,
        compatibility: LicenseCompatibility::Compatible,
    }];

    let mut app = App::new(test_data, None);
    assert_eq!(app.mode, AppMode::Normal);

    app.enter_sort_mode();
    assert_eq!(app.mode, AppMode::Sorting);
    assert_eq!(app.sort_column_selection, 0);

    app.next_sort_column();
    assert_eq!(app.sort_column_selection, 1);

    app.previous_sort_column();
    assert_eq!(app.sort_column_selection, 0);

    app.exit_sort_mode();
    assert_eq!(app.mode, AppMode::Normal);
}

#[test]
fn test_sort_direction_toggle() {
    let test_data = vec![LicenseInfo {
        name: "package".to_string(),
        version: "1.0.0".to_string(),
        license: Some("MIT".to_string()),
        is_restrictive: false,
        compatibility: LicenseCompatibility::Compatible,
    }];

    let mut app = App::new(test_data, None);

    // First sort should be Ascending
    app.enter_sort_mode();
    app.apply_current_sort();
    assert_eq!(app.sort_direction, SortDirection::Ascending);

    // Second sort on same column should toggle to Descending
    app.enter_sort_mode();
    app.apply_current_sort();
    assert_eq!(app.sort_direction, SortDirection::Descending);

    // Third sort should toggle back to Ascending
    app.enter_sort_mode();
    app.apply_current_sort();
    assert_eq!(app.sort_direction, SortDirection::Ascending);
}

#[test]
fn test_sort_column_change() {
    let test_data = vec![
        LicenseInfo {
            name: "zebra".to_string(),
            version: "1.0.0".to_string(),
            license: Some("MIT".to_string()),
            is_restrictive: false,
            compatibility: LicenseCompatibility::Compatible,
        },
        LicenseInfo {
            name: "apple".to_string(),
            version: "5.0.0".to_string(),
            license: Some("Apache-2.0".to_string()),
            is_restrictive: false,
            compatibility: LicenseCompatibility::Compatible,
        },
    ];

    let mut app = App::new(test_data, None);

    // Sort by Name
    app.enter_sort_mode();
    app.apply_current_sort();
    assert_eq!(app.items[0].name, "apple");
    assert_eq!(app.sort_direction, SortDirection::Ascending);

    // Change to sort by Version - should reset to Ascending
    app.enter_sort_mode();
    app.next_sort_column(); // Navigate to Version (index 1)
    app.apply_current_sort();
    assert_eq!(app.sort_column, Some(SortColumn::Version));
    assert_eq!(app.sort_direction, SortDirection::Ascending);
}

#[test]
fn test_initial_sort_state() {
    let test_data = vec![LicenseInfo {
        name: "test".to_string(),
        version: "1.0.0".to_string(),
        license: Some("MIT".to_string()),
        is_restrictive: false,
        compatibility: LicenseCompatibility::Compatible,
    }];

    let app = App::new(test_data, None);

    assert_eq!(app.sort_column, None);
    assert_eq!(app.sort_direction, SortDirection::Ascending);
    assert_eq!(app.mode, AppMode::Normal);
    assert_eq!(app.sort_column_selection, 0);
}

#[test]
fn test_sort_by_version_with_v_prefix() {
    let test_data = vec![
        LicenseInfo {
            name: "package1".to_string(),
            version: "v3.0.0".to_string(),
            license: Some("MIT".to_string()),
            is_restrictive: false,
            compatibility: LicenseCompatibility::Compatible,
        },
        LicenseInfo {
            name: "package2".to_string(),
            version: "v1.0.0".to_string(),
            license: Some("Apache-2.0".to_string()),
            is_restrictive: false,
            compatibility: LicenseCompatibility::Compatible,
        },
        LicenseInfo {
            name: "package3".to_string(),
            version: "v2.5.0".to_string(),
            license: Some("GPL-3.0".to_string()),
            is_restrictive: true,
            compatibility: LicenseCompatibility::Incompatible,
        },
    ];

    let mut app = App::new(test_data, None);
    app.enter_sort_mode();
    // Navigate to Version column (index 1)
    app.next_sort_column();
    app.apply_current_sort();

    // Should be sorted as v1.0.0, v2.5.0, v3.0.0
    assert_eq!(app.items[0].version, "v1.0.0");
    assert_eq!(app.items[1].version, "v2.5.0");
    assert_eq!(app.items[2].version, "v3.0.0");
    assert_eq!(app.sort_column, Some(SortColumn::Version));
    assert_eq!(app.sort_direction, SortDirection::Ascending);
}

#[test]
fn test_sort_by_version_mixed_prefix() {
    let test_data = vec![
        LicenseInfo {
            name: "package1".to_string(),
            version: "3.0.0".to_string(),
            license: Some("MIT".to_string()),
            is_restrictive: false,
            compatibility: LicenseCompatibility::Compatible,
        },
        LicenseInfo {
            name: "package2".to_string(),
            version: "v1.5.0".to_string(),
            license: Some("Apache-2.0".to_string()),
            is_restrictive: false,
            compatibility: LicenseCompatibility::Compatible,
        },
        LicenseInfo {
            name: "package3".to_string(),
            version: "v2.0.0".to_string(),
            license: Some("GPL-3.0".to_string()),
            is_restrictive: true,
            compatibility: LicenseCompatibility::Incompatible,
        },
    ];

    let mut app = App::new(test_data, None);
    app.enter_sort_mode();
    // Navigate to Version column (index 1)
    app.next_sort_column();
    app.apply_current_sort();

    // Should be sorted as v1.5.0, v2.0.0, 3.0.0 (semantic versions first, then non-semantic)
    assert_eq!(app.items[0].version, "v1.5.0");
    assert_eq!(app.items[1].version, "v2.0.0");
    assert_eq!(app.items[2].version, "3.0.0");
}

#[test]
fn test_sort_by_version_descending() {
    let test_data = vec![
        LicenseInfo {
            name: "package1".to_string(),
            version: "v10.14.0".to_string(),
            license: Some("MIT".to_string()),
            is_restrictive: false,
            compatibility: LicenseCompatibility::Compatible,
        },
        LicenseInfo {
            name: "package2".to_string(),
            version: "0.14".to_string(),
            license: Some("Apache-2.0".to_string()),
            is_restrictive: false,
            compatibility: LicenseCompatibility::Compatible,
        },
        LicenseInfo {
            name: "package3".to_string(),
            version: "2015.7".to_string(),
            license: Some("GPL-3.0".to_string()),
            is_restrictive: true,
            compatibility: LicenseCompatibility::Incompatible,
        },
    ];

    let mut app = App::new(test_data, None);
    app.enter_sort_mode();
    // Navigate to Version column (index 1)
    app.next_sort_column();
    app.apply_current_sort(); // First sort on Version (ascending)

    // Enter sort mode again - it should remember we're on Version
    app.enter_sort_mode();
    // We should already be on Version (index 1), so no need to navigate
    app.apply_current_sort(); // Toggle to Descending

    // In descending: non-semantic versions come BEFORE semantic versions
    // String order reversed: "2015.7" < "0.14" when reversed
    assert_eq!(app.items[0].version, "0.14");
    assert_eq!(app.items[1].version, "2015.7");
    assert_eq!(app.items[2].version, "v10.14.0");
    assert_eq!(app.sort_direction, SortDirection::Descending);
}

fn row(name: &str, version: &str, license: Option<&str>, restrictive: bool) -> LicenseInfo {
    LicenseInfo {
        name: name.to_string(),
        version: version.to_string(),
        license: license.map(|l| l.to_string()),
        is_restrictive: restrictive,
        compatibility: LicenseCompatibility::Unknown,
    }
}

#[test]
fn sort_columns_and_their_headings() {
    let all = SortColumn::all();
    assert_eq!(
        all.to_vec(),
        vec![
            SortColumn::Name,
            SortColumn::Version,
            SortColumn::License,
            SortColumn::Restrictive,
            SortColumn::Compatibility,
            SortColumn::OsiStatus,
        ]
    );
    let names: Vec<&str> = all.iter().map(|c| c.display_name()).collect();
    assert_eq!(
        names,
        vec!["Name", "Version", "License", "Restrictive", "Compatibility", "OSI Status"]
    );
}

#[test]
fn version_order_keeps_kinds_apart() {
    assert_eq!(compare_versions("1.2.3", "1.10.0", true), Order::Before);
    assert_eq!(compare_versions("1.2.3", "1.10.0", false), Order::Before);
    assert_eq!(compare_versions("v1.10.0", "1.2.3", true), Order::After);
    assert_eq!(compare_versions("vv2.0.0", "2.0.0", true), Order::Same);
    assert_eq!(compare_versions("1.0.0-alpha", "1.0.0", true), Order::Before);
    assert_eq!(compare_versions("1.0.0", "1.0", true), Order::Before);
    assert_eq!(compare_versions("1.0.0", "1.0", false), Order::After);
    assert_eq!(compare_versions("1.0", "1.0.0", true), Order::After);
    assert_eq!(compare_versions("1.0", "1.0.0", false), Order::Before);
    assert_eq!(compare_versions("2015.7", "0.14", true), Order::After);
    assert_eq!(compare_versions("2015.7", "0.14", false), Order::After);
    assert_eq!(compare_versions("latest", "latest", false), Order::Same);
    assert_eq!(compare_versions("", "v", true), Order::Same);
    assert_eq!(compare_versions("abc", "abd", true), Order::Before);
    assert_eq!(compare_versions("ab", "abc", true), Order::Before);
    assert_eq!(compare_versions("é", "z", true), Order::After);
}

#[test]
fn row_order_by_each_column() {
    let a = LicenseInfo {
        name: "a".to_string(),
        version: "2.0.0".to_string(),
        license: None,
        is_restrictive: false,
        compatibility: LicenseCompatibility::Incompatible,
    };
    let b = LicenseInfo {
        name: "b".to_string(),
        version: "1.0.0".to_string(),
        license: Some("MIT".to_string()),
        is_restrictive: true,
        compatibility: LicenseCompatibility::Compatible,
    };
    assert_eq!(compare_rows(&a, &b, SortColumn::Name, true), Order::Before);
    assert_eq!(compare_rows(&a, &b, SortColumn::Name, false), Order::After);
    assert_eq!(compare_rows(&a, &b, SortColumn::Version, true), Order::After);
    assert_eq!(compare_rows(&a, &b, SortColumn::Version, false), Order::After);
    assert_eq!(compare_rows(&a, &b, SortColumn::License, true), Order::After);
    assert_eq!(compare_rows(&a, &b, SortColumn::License, false), Order::Before);
    assert_eq!(compare_rows(&a, &b, SortColumn::Restrictive, true), Order::Before);
    assert_eq!(compare_rows(&b, &a, SortColumn::Restrictive, true), Order::After);
    assert_eq!(compare_rows(&a, &b, SortColumn::Compatibility, true), Order::After);
    assert_eq!(compare_rows(&a, &b, SortColumn::Compatibility, false), Order::Before);
    assert_eq!(compare_rows(&a, &b, SortColumn::OsiStatus, true), Order::Same);
    assert_eq!(compare_rows(&a, &a, SortColumn::Name, true), Order::Same);
}

#[test]
fn sort_is_stable() {
    let mut rows = vec![
        row("d", "1", Some("MIT"), true),
        row("c", "2", Some("MIT"), false),
        row("b", "3", Some("ISC"), true),
        row("a", "4", Some("ISC"), false),
        row("e", "5", Some("MIT"), false),
    ];
    sort_rows(&mut rows, SortColumn::Restrictive, true);
    let names: Vec<&str> = rows.iter().map(|r| r.name()).collect();
    assert_eq!(names, vec!["c", "a", "e", "d", "b"]);
    sort_rows(&mut rows, SortColumn::License, false);
    let names: Vec<&str> = rows.iter().map(|r| r.name()).collect();
    assert_eq!(names, vec!["c", "e", "d", "a", "b"]);
    sort_rows(&mut rows, SortColumn::OsiStatus, true);
    let names: Vec<&str> = rows.iter().map(|r| r.name()).collect();
    assert_eq!(names, vec!["c", "e", "d", "a", "b"]);
    sort_rows(&mut rows, SortColumn::Name, true);
    let names: Vec<&str> = rows.iter().map(|r| r.name()).collect();
    assert_eq!(names, vec!["a", "b", "c", "d", "e"]);
    let mut none: Vec<LicenseInfo> = Vec::new();
    sort_rows(&mut none, SortColumn::Name, true);
    assert!(none.is_empty());
}

#[test]
fn sort_agrees_with_a_stable_library_sort() {
    let mut seed: u32 = 12345;
    let mut rows = Vec::new();
    for _ in 0..60 {
        seed = seed.wrapping_mul(1_103_515_245).wrapping_add(12345);
        let name = format!("p{}", (seed >> 16) % 7);
        let version = match (seed >> 8) % 4 {
            0 => format!("v{}.{}.0", (seed >> 20) % 3, (seed >> 4) % 3),
            1 => format!("{}.{}", (seed >> 20) % 3, (seed >> 4) % 3),
            2 => format!("{}.0.0-rc.{}", (seed >> 20) % 3, (seed >> 4) % 3),
            _ => "latest".to_string(),
        };
        rows.push(row(&name, &version, None, seed % 2 == 0));
    }
    for column in SortColumn::all() {
        for ascending in [true, false] {
            let mut ours = rows.clone();
            sort_rows(&mut ours, column, ascending);
            let mut theirs = rows.clone();
            theirs.sort_by(|a, b| match compare_rows(a, b, column, ascending) {
                Order::Before => std::cmp::Ordering::Less,
                Order::Same => std::cmp::Ordering::Equal,
                Order::After => std::cmp::Ordering::Greater,
            });
            let ours: Vec<(String, String)> =
                ours.iter().map(|r| (r.name.clone(), r.version.clone())).collect();
            let theirs: Vec<(String, String)> =
                theirs.iter().map(|r| (r.name.clone(), r.version.clone())).collect();
            assert_eq!(ours, theirs);
        }
    }
}

#[test]
fn column_selection_moves_and_stops() {
    let mut app = App::new(vec![row("a", "1", None, false)], None);
    assert_eq!(app.state.selected_column(), None);
    app.next_column();
    assert_eq!(app.state.selected_column(), Some(0));
    app.next_column();
    assert_eq!(app.state.selected_column(), Some(1));
    app.previous_column();
    app.previous_column();
    assert_eq!(app.state.selected_column(), Some(0));
    app.previous_column();
    assert_eq!(app.state.selected_column(), Some(0));
    let mut fresh = App::new(Vec::new(), None);
    fresh.previous_column();
    assert_eq!(fresh.state.selected_column(), Some(usize::MAX));
    fresh.next_column();
    assert_eq!(fresh.state.selected_column(), Some(usize::MAX));
}

#[test]
fn scrollbar_follows_the_selection() {
    let mut app = App::new(
        vec![row("a", "1", None, false), row("b", "1", None, false), row("c", "1", None, false)],
        None,
    );
    assert_eq!(app.scroll_state.content_length, 2 * ITEM_HEIGHT);
    assert_eq!(app.scroll_state.position, 0);
    app.next_row();
    assert_eq!(app.scroll_state.position, ITEM_HEIGHT);
    app.previous_row();
    app.previous_row();
    assert_eq!(app.scroll_state.position, 2 * ITEM_HEIGHT);
    app.enter_sort_mode();
    app.apply_current_sort();
    assert_eq!(app.scroll_state.position, 0);
    assert_eq!(app.state.selected(), Some(0));
    let empty = App::new(Vec::new(), None);
    assert_eq!(empty.scroll_state.content_length, 0);
}

#[test]
fn sort_column_selection_stops_at_both_ends() {
    let mut app = App::new(vec![row("a", "1", None, false)], None);
    app.enter_sort_mode();
    app.previous_sort_column();
    assert_eq!(app.sort_column_selection, 0);
    for _ in 0..10 {
        app.next_sort_column();
    }
    assert_eq!(app.sort_column_selection, 5);
    app.apply_current_sort();
    assert_eq!(app.sort_column, Some(SortColumn::OsiStatus));
    app.enter_sort_mode();
    assert_eq!(app.sort_column_selection, 5);
    app.apply_sort();
    assert_eq!(app.mode, AppMode::Sorting);
}

#[test]
fn keys_in_normal_mode() {
    let mode = AppMode::Normal;
    assert_eq!(command_for(mode, Key::Char('q')), Command::Quit);
    assert_eq!(command_for(mode, Key::Esc), Command::Quit);
    assert_eq!(command_for(mode, Key::Char('j')), Command::NextRow);
    assert_eq!(command_for(mode, Key::Down), Command::NextRow);
    assert_eq!(command_for(mode, Key::Char('k')), Command::PreviousRow);
    assert_eq!(command_for(mode, Key::Up), Command::PreviousRow);
    assert_eq!(command_for(mode, Key::Char('l')), Command::NextColumn);
    assert_eq!(command_for(mode, Key::Right), Command::NextColumn);
    assert_eq!(command_for(mode, Key::Char('h')), Command::PreviousColumn);
    assert_eq!(command_for(mode, Key::Left), Command::PreviousColumn);
    assert_eq!(command_for(mode, Key::Char('s')), Command::EnterSortMode);
    assert_eq!(command_for(mode, Key::Enter), Command::Nothing);
    assert_eq!(command_for(mode, Key::Char('S')), Command::Nothing);
    assert_eq!(command_for(mode, Key::Other), Command::Nothing);
}

#[test]
fn keys_in_sort_mode() {
    let mode = AppMode::Sorting;
    assert_eq!(command_for(mode, Key::Left), Command::PreviousSortColumn);
    assert_eq!(command_for(mode, Key::Char('h')), Command::PreviousSortColumn);
    assert_eq!(command_for(mode, Key::Right), Command::NextSortColumn);
    assert_eq!(command_for(mode, Key::Char('l')), Command::NextSortColumn);
    assert_eq!(command_for(mode, Key::Enter), Command::ApplyCurrentSort);
    assert_eq!(command_for(mode, Key::Char('q')), Command::ExitSortMode);
    assert_eq!(command_for(mode, Key::Esc), Command::ExitSortMode);
    assert_eq!(command_for(mode, Key::Up), Command::Nothing);
    assert_eq!(command_for(mode, Key::Down), Command::Nothing);
    assert_eq!(command_for(mode, Key::Char('j')), Command::Nothing);
    assert_eq!(command_for(mode, Key::Char('s')), Command::Nothing);
    assert_eq!(command_for(mode, Key::Other), Command::Nothing);
}

#[test]
fn labels_and_footer() {
    let mut app = App::new(
        vec![LicenseInfo {
            name: "a".to_string(),
            version: "1".to_string(),
            license: None,
            is_restrictive: false,
            compatibility: LicenseCompatibility::Unknown,
        }],
        Some("MIT".to_string()),
    );
    assert_eq!(
        app.header_labels(),
        vec!["Name", "Version", "License", "Restrictive", "Compatibility", "OSI Status"]
    );
    assert_eq!(
        app.footer_text(),
        format!("Project: MIT | {}\n{}", INFO_TEXT[0], INFO_TEXT[1])
    );
    app.enter_sort_mode();
    app.next_sort_column();
    assert_eq!(
        app.footer_text(),
        "Sort Mode\n Name  [>Version< ]  License   Restrictive   Compatibility   OSI Status  \nCurrent: None"
    );
    app.apply_current_sort();
    assert_eq!(
        app.header_labels(),
        vec!["Name", "Version ↑", "License", "Restrictive", "Compatibility", "OSI Status"]
    );
    assert_eq!(
        app.footer_text(),
        format!("Project: MIT | {} | Sort: Version ↑\n{}", INFO_TEXT[0], INFO_TEXT[1])
    );
    app.enter_sort_mode();
    assert_eq!(
        app.footer_text(),
        "Sort Mode\n Name  [>Version< ]  License   Restrictive   Compatibility   OSI Status  \nCurrent: Version ↑"
    );
    app.apply_current_sort();
    assert_eq!(app.header_labels()[1], "Version ↓");
    let unknown = App::new(Vec::new(), None);
    assert!(unknown.footer_text().starts_with("Project: Unknown | (Esc) quit"));
}
