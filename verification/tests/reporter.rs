use feluda::licenses::{LicenseCompatibility, LicenseInfo};
use feluda::reporter::{
    all_clear_lines, all_clear_message, count_restrictive, count_verdict, generate_report,
    incompatible_licenses_table, output_github_format, output_jenkins_format,
    restrictive_licenses_table, summary_footer, summary_table, verbose_table, CiFormat, Pick,
    Report, ReportBody, ReportConfig, Span, TableFormatter, Tone,
};

fn info(
    name: &str,
    version: &str,
    license: Option<&str>,
    is_restrictive: bool,
    compatibility: LicenseCompatibility,
) -> LicenseInfo {
    LicenseInfo {
        name: name.to_string(),
        version: version.to_string(),
        license: license.map(|l| l.to_string()),
        is_restrictive,
        compatibility,
    }
}

fn get_test_data() -> Vec<LicenseInfo> {
    vec![
        LicenseInfo {
            name: "crate1".to_string(),
            version: "1.0.0".to_string(),
            license: Some("MIT".to_string()),
            is_restrictive: false,
            compatibility: LicenseCompatibility::Compatible,
        },
        LicenseInfo {
            name: "crate2".to_string(),
            version: "2.0.0".to_string(),
            license: Some("GPL-3.0".to_string()),
            is_restrictive: true,
            compatibility: LicenseCompatibility::Incompatible,
        },
        LicenseInfo {
            name: "crate3".to_string(),
            version: "3.0.0".to_string(),
            license: Some("Apache-2.0".to_string()),
            is_restrictive: false,
            compatibility: LicenseCompatibility::Compatible,
        },
        LicenseInfo {
            name: "crate4".to_string(),
            version: "4.0.0".to_string(),
            license: Some("Unknown".to_string()),
            is_restrictive: false,
            compatibility: LicenseCompatibility::Unknown,
        },
    ]
}

fn get_test_data_with_unknown_compatibility() -> Vec<LicenseInfo> {
    vec![
        LicenseInfo {
            name: "crate1".to_string(),
            version: "1.0.0".to_string(),
            license: Some("MIT".to_string()),
            is_restrictive: false,
            compatibility: LicenseCompatibility::Unknown,
        },
        LicenseInfo {
            name: "crate2".to_string(),
            version: "2.0.0".to_string(),
            license: Some("GPL-3.0".to_string()),
            is_restrictive: true,
            compatibility: LicenseCompatibility::Unknown,
        },
    ]
}

fn found(report: &Report) -> (bool, bool) {
    (report.has_restrictive, report.has_incompatible)
}

fn plain(spans: &[Span]) -> String {
    spans.iter().map(|s| s.text.as_str()).collect()
}

fn toned(spans: &[Span]) -> Vec<(Tone, &str)> {
    spans.iter().map(|s| (s.tone, s.text.as_str())).collect()
}

#[test]
fn test_generate_report_empty_data() {
    let data = vec![];
    let config = ReportConfig::new(false, false, false, false, None, None, None);
    let result = generate_report(&data, &config);
    assert_eq!(found(&result), (false, false)); // No restrictive or incompatible licenses
}

#[test]
fn test_generate_report_non_strict() {
    let data = get_test_data();
    let config = ReportConfig::new(false, false, false, false, None, Some("MIT".to_string()), None);
    let result = generate_report(&data, &config);
    assert_eq!(found(&result), (true, true)); // Has both restrictive and incompatible licenses
}

#[test]
fn test_generate_report_strict() {
    let data = get_test_data();
    let config = ReportConfig::new(false, false, false, true, None, Some("MIT".to_string()), None);
    let result = generate_report(&data, &config);
    assert_eq!(found(&result), (true, true)); // In strict mode, still has both restrictive and incompatible
}

#[test]
fn test_generate_report_json() {
    let data = get_test_data();
    let config = ReportConfig::new(true, false, false, false, None, Some("MIT".to_string()), None);
    let result = generate_report(&data, &config);
    assert_eq!(found(&result), (true, true));
}

#[test]
fn test_generate_report_verbose() {
    let data = get_test_data();
    let config = ReportConfig::new(false, false, true, false, None, Some("MIT".to_string()), None);
    let result = generate_report(&data, &config);
    assert_eq!(found(&result), (true, true));
}

#[test]
fn test_generate_report_no_project_license() {
    let data = get_test_data_with_unknown_compatibility();
    let config = ReportConfig::new(false, false, false, false, None, None, None);
    let result = generate_report(&data, &config);
    assert_eq!(found(&result), (true, false)); // Has restrictive but no incompatible since no project license
}

#[test]
fn test_github_output_format() {
    let data = get_test_data();
    let config = ReportConfig::new(
        false,
        false,
        false,
        false,
        Some(CiFormat::Github),
        Some("MIT".to_string()),
        None,
    );

    let result = generate_report(&data, &config);
    assert_eq!(found(&result), (true, true));
    match &result.body {
        ReportBody::Text(text) => assert_eq!(
            text,
            "::warning title=Restrictive License::Dependency 'crate2@2.0.0' has restrictive license: GPL-3.0\n\
             ::notice title=License Check Summary::Found 1 dependencies with restrictive licenses out of 4 total\n"
        ),
        other => panic!("expected a text, got {other:?}"),
    }
}

#[test]
fn test_jenkins_output_format() {
    let data = get_test_data();
    let config = ReportConfig::new(
        false,
        false,
        false,
        false,
        Some(CiFormat::Jenkins),
        Some("MIT".to_string()),
        None,
    );

    let result = generate_report(&data, &config);
    assert_eq!(found(&result), (true, true));
    assert!(matches!(&result.body, ReportBody::Text(text) if text.contains("tests=\"4\" failures=\"1\"")));
}

#[test]
fn test_jenkins_output_format_no_project_license() {
    let data = get_test_data_with_unknown_compatibility();
    let config = ReportConfig::new(
        false,
        false,
        false,
        false,
        Some(CiFormat::Jenkins),
        None,
        None,
    );

    let result = generate_report(&data, &config);
    assert_eq!(found(&result), (true, false)); // Has restrictive but no incompatible
}

#[test]
fn test_table_formatter() {
    let headers = vec![
        "Name".to_string(),
        "Value".to_string(),
        "Compatibility".to_string(),
    ];
    let mut formatter = TableFormatter::new(headers);

    let row1 = vec![
        "key1".to_string(),
        "value1".to_string(),
        "Compatible".to_string(),
    ];
    let row2 = vec![
        "key2".to_string(),
        "value2".to_string(),
        "Incompatible".to_string(),
    ];
    let row3 = vec![
        "key3".to_string(),
        "value3".to_string(),
        "Unknown".to_string(),
    ];

    formatter.add_row(&row1);
    formatter.add_row(&row2);
    formatter.add_row(&row3);

    let header = plain(&formatter.render_header());
    let row1_str = plain(&formatter.render_row(&row1, true));
    let row2_str = plain(&formatter.render_row(&row2, false));
    let row3_str = plain(&formatter.render_row(&row3, false));
    let footer = plain(&formatter.render_footer());

    assert!(header.contains("Name"));
    assert!(header.contains("Value"));
    assert!(header.contains("Compatibility"));
    assert!(row1_str.contains("key1"));
    assert!(row2_str.contains("key2"));
    assert!(row3_str.contains("key3"));
    assert!(footer.contains("└"));
}

#[test]
fn test_print_incompatible_licenses_table() {
    // Create test data
    let test_data = get_test_data();

    let incompatible_licenses: Vec<&LicenseInfo> = test_data
        .iter()
        .filter(|info| info.compatibility == LicenseCompatibility::Incompatible)
        .collect();

    assert!(!incompatible_licenses.is_empty());
    let spans = incompatible_licenses_table(&test_data, "MIT");
    assert_eq!(
        plain(&spans),
        "\n❌ Warning: Licenses incompatible with MIT found!\n\n\
         ┌─────────────────────────────┐\n\
         │ Package │ Version │ License │\n\
         ├─────────────────────────────┤\n\
         │ crate2  │ 2.0.0   │ GPL-3.0 │\n\
         └─────────────────────────────┘\n\n"
    );
}

#[test]
fn test_print_summary_footer_with_compatibility() {
    let data = get_test_data();
    let spans = summary_footer(&data, Some("MIT"));
    assert_eq!(
        plain(&spans),
        "🔍 License Summary:\n\
         \x20 • 3 permissive licenses\n\
         \x20 • 1 restrictive licenses\n\
         \x20 • 2 compatible licenses\n\
         \x20 • 1 incompatible licenses\n\
         \x20 • 1 unknown compatibility\n\
         \x20 • 4 total dependencies\n\
         \n⚠️ Recommendation: Review these dependencies for compliance with your project's licensing requirements.\n\
         \n❌ Warning: Some dependencies have licenses that may be incompatible with your project's MIT license. Review for legal compliance.\n\
         \n"
    );
}

#[test]
fn test_print_summary_footer_without_compatibility() {
    let data = get_test_data_with_unknown_compatibility();
    let spans = summary_footer(&data, None);
    assert_eq!(
        plain(&spans),
        "🔍 License Summary:\n\
         \x20 • 1 permissive licenses\n\
         \x20 • 1 restrictive licenses\n\
         \x20 • 2 total dependencies\n\
         \n⚠️ Recommendation: Review these dependencies for compliance with your project's licensing requirements.\n\
         \n"
    );
}

#[test]
fn test_report_config_default_values() {
    let config = ReportConfig::new(
        false, // json
        false, // yaml
        false, // verbose
        false, // strict
        None,  // ci_format
        None,  // output_file
        None,  // project_license
    );

    assert!(!config.json);
    assert!(!config.yaml);
    assert!(!config.verbose);
    assert!(!config.strict);
    assert!(config.ci_format.is_none());
    assert!(config.output_file.is_none());
    assert!(config.project_license.is_none());
}

#[test]
fn test_generate_report_all_permissive() {
    let data = vec![
        LicenseInfo {
            name: "package1".to_string(),
            version: "1.0.0".to_string(),
            license: Some("MIT".to_string()),
            is_restrictive: false,
            compatibility: LicenseCompatibility::Compatible,
        },
        LicenseInfo {
            name: "package2".to_string(),
            version: "2.0.0".to_string(),
            license: Some("BSD-3-Clause".to_string()),
            is_restrictive: false,
            compatibility: LicenseCompatibility::Compatible,
        },
    ];

    let config = ReportConfig::new(
        false,
        false,
        false,
        false,
        None,
        None,
        Some("MIT".to_string()),
    );
    let (has_restrictive, has_incompatible) = found(&generate_report(&data, &config));

    assert!(!has_restrictive);
    assert!(!has_incompatible);
}

#[test]
fn test_generate_report_mixed_licenses() {
    let data = vec![
        LicenseInfo {
            name: "good_package".to_string(),
            version: "1.0.0".to_string(),
            license: Some("MIT".to_string()),
            is_restrictive: false,
            compatibility: LicenseCompatibility::Compatible,
        },
        LicenseInfo {
            name: "bad_package".to_string(),
            version: "2.0.0".to_string(),
            license: Some("GPL-3.0".to_string()),
            is_restrictive: true,
            compatibility: LicenseCompatibility::Incompatible,
        },
    ];

    let config = ReportConfig::new(
        false,
        false,
        false,
        false,
        None,
        None,
        Some("MIT".to_string()),
    );
    let (has_restrictive, has_incompatible) = found(&generate_report(&data, &config));

    assert!(has_restrictive);
    assert!(has_incompatible);
}

#[test]
fn test_generate_report_strict_mode_filters() {
    let data = vec![
        LicenseInfo {
            name: "permissive_package".to_string(),
            version: "1.0.0".to_string(),
            license: Some("MIT".to_string()),
            is_restrictive: false,
            compatibility: LicenseCompatibility::Compatible,
        },
        LicenseInfo {
            name: "restrictive_package".to_string(),
            version: "2.0.0".to_string(),
            license: Some("GPL-3.0".to_string()),
            is_restrictive: true,
            compatibility: LicenseCompatibility::Incompatible,
        },
    ];

    let config = ReportConfig::new(
        false,
        false,
        false,
        true,
        None,
        None,
        Some("MIT".to_string()),
    );
    let report = generate_report(&data, &config);
    let (has_restrictive, has_incompatible) = found(&report);

    assert!(has_restrictive);
    assert!(has_incompatible);
    assert_eq!(report.listed.len(), 1);
    assert_eq!(report.listed[0].name, "restrictive_package");
}

#[test]
fn test_generate_report_json_output() {
    let data = vec![LicenseInfo {
        name: "test_package".to_string(),
        version: "1.0.0".to_string(),
        license: Some("MIT".to_string()),
        is_restrictive: false,
        compatibility: LicenseCompatibility::Compatible,
    }];

    let config = ReportConfig::new(true, false, false, false, None, None, None);
    let report = generate_report(&data, &config);
    let (has_restrictive, has_incompatible) = found(&report);

    assert!(!has_restrictive);
    assert!(!has_incompatible);
    assert!(matches!(report.body, ReportBody::Json));
}

#[test]
fn test_generate_report_yaml_output() {
    let data = vec![LicenseInfo {
        name: "test_package".to_string(),
        version: "1.0.0".to_string(),
        license: Some("MIT".to_string()),
        is_restrictive: false,
        compatibility: LicenseCompatibility::Compatible,
    }];

    let config = ReportConfig::new(false, true, false, false, None, None, None);
    let report = generate_report(&data, &config);
    let (has_restrictive, has_incompatible) = found(&report);

    assert!(!has_restrictive);
    assert!(!has_incompatible);
    assert!(matches!(report.body, ReportBody::Yaml));
}

#[test]
fn test_generate_report_verbose_output() {
    let data = vec![LicenseInfo {
        name: "test_package".to_string(),
        version: "1.0.0".to_string(),
        license: Some("MIT".to_string()),
        is_restrictive: false,
        compatibility: LicenseCompatibility::Compatible,
    }];

    let config = ReportConfig::new(
        false,
        false,
        true,
        false,
        None,
        None,
        Some("MIT".to_string()),
    );
    let report = generate_report(&data, &config);
    let (has_restrictive, has_incompatible) = found(&report);

    assert!(!has_restrictive);
    assert!(!has_incompatible);
    assert!(matches!(report.body, ReportBody::Lines(_)));
}

#[test]
fn test_github_output_format_stdout() {
    let data = vec![LicenseInfo {
        name: "restrictive_package".to_string(),
        version: "1.0.0".to_string(),
        license: Some("GPL-3.0".to_string()),
        is_restrictive: true,
        compatibility: LicenseCompatibility::Incompatible,
    }];

    let config = ReportConfig::new(
        false,
        false,
        false,
        false,
        Some(CiFormat::Github),
        None,
        Some("MIT".to_string()),
    );

    let (has_restrictive, has_incompatible) = found(&generate_report(&data, &config));
    assert!(has_restrictive);
    assert!(has_incompatible);
}

#[test]
fn test_print_restrictive_licenses_table() {
    let data = vec![
        LicenseInfo {
            name: "restrictive1".to_string(),
            version: "1.0.0".to_string(),
            license: Some("GPL-3.0".to_string()),
            is_restrictive: true,
            compatibility: LicenseCompatibility::Incompatible,
        },
        LicenseInfo {
            name: "restrictive2".to_string(),
            version: "2.0.0".to_string(),
            license: Some("AGPL-3.0".to_string()),
            is_restrictive: true,
            compatibility: LicenseCompatibility::Incompatible,
        },
    ];

    let spans = restrictive_licenses_table(&data, Pick::All);
    assert_eq!(
        plain(&spans),
        "\n⚠️ Warning: Restrictive licenses found!\n\n\
         ┌───────────────────────────────────┐\n\
         │ Package      │ Version │ License  │\n\
         ├───────────────────────────────────┤\n\
         │ restrictive1 │ 1.0.0   │ GPL-3.0  │\n\
         │ restrictive2 │ 2.0.0   │ AGPL-3.0 │\n\
         └───────────────────────────────────┘\n\n"
    );
}

#[test]
fn test_table_formatter_column_width_calculation() {
    let headers = vec!["A".to_string(), "BB".to_string(), "CCC".to_string()];
    let mut formatter = TableFormatter::new(headers);

    assert_eq!(formatter.column_widths[0], 1); // "A"
    assert_eq!(formatter.column_widths[1], 2); // "BB"
    assert_eq!(formatter.column_widths[2], 3); // "CCC"

    let row = vec!["AAAA".to_string(), "B".to_string(), "CC".to_string()];
    formatter.add_row(&row);

    assert_eq!(formatter.column_widths[0], 4); // "AAAA"
    assert_eq!(formatter.column_widths[1], 2); // "BB" (header is longer)
    assert_eq!(formatter.column_widths[2], 3); // "CCC" (header is longer)
}

#[test]
fn test_report_config_debug() {
    let config = ReportConfig::new(
        true,
        false,
        true,
        false,
        Some(CiFormat::Github),
        Some("test.txt".to_string()),
        Some("MIT".to_string()),
    );

    let debug_str = format!("{:?}", config);
    assert!(debug_str.contains("ReportConfig"));
    assert!(debug_str.contains("json: true"));
    assert!(debug_str.contains("yaml: false"));
    assert!(debug_str.contains("Github"));
}

#[test]
fn counts_of_restrictive_and_by_verdict() {
    let data = get_test_data();
    assert_eq!(count_restrictive(&data), 1);
    assert_eq!(count_verdict(&data, LicenseCompatibility::Compatible), 2);
    assert_eq!(count_verdict(&data, LicenseCompatibility::Incompatible), 1);
    assert_eq!(count_verdict(&data, LicenseCompatibility::Unknown), 1);
    assert_eq!(count_restrictive(&Vec::new()), 0);
}

#[test]
fn github_report_with_project_license() {
    let data = get_test_data();
    assert_eq!(
        output_github_format(&data, Some("MIT")),
        "::notice title=Project License::Project is using MIT license\n\
         ::warning title=Restrictive License::Dependency 'crate2@2.0.0' has restrictive license: GPL-3.0\n\
         ::error title=Incompatible License::Dependency 'crate2@2.0.0' has license GPL-3.0 which may be incompatible with project license MIT\n\
         ::notice title=License Check Summary::Found 1 dependencies with restrictive licenses and 1 dependencies with incompatible licenses out of 4 total\n"
    );
}

#[test]
fn github_report_without_project_license() {
    let data = vec![
        info("a", "1", None, true, LicenseCompatibility::Incompatible),
        info("b", "2", Some("MIT"), false, LicenseCompatibility::Incompatible),
    ];
    assert_eq!(
        output_github_format(&data, None),
        "::warning title=Restrictive License::Dependency 'a@1' has restrictive license: No License\n\
         ::notice title=License Check Summary::Found 1 dependencies with restrictive licenses out of 2 total\n"
    );
    assert_eq!(
        output_github_format(&Vec::new(), None),
        "::notice title=License Check Summary::Found 0 dependencies with restrictive licenses out of 0 total\n"
    );
    assert_eq!(
        output_github_format(&data, Some("X")),
        "::notice title=Project License::Project is using X license\n\
         ::warning title=Restrictive License::Dependency 'a@1' has restrictive license: No License\n\
         ::error title=Incompatible License::Dependency 'a@1' has license No License which may be incompatible with project license X\n\
         ::error title=Incompatible License::Dependency 'b@2' has license MIT which may be incompatible with project license X\n\
         ::notice title=License Check Summary::Found 1 dependencies with restrictive licenses and 2 dependencies with incompatible licenses out of 2 total\n"
    );
}

#[test]
fn jenkins_report_with_project_license() {
    let data = get_test_data();
    let expected = concat_lines(&[
        "<?xml version=\"1.0\" encoding=\"UTF-8\"?>",
        "<testsuites>",
        "  <testsuite name=\"Feluda License Check\" tests=\"5\" failures=\"2\" errors=\"0\" skipped=\"0\">",
        "    <testcase classname=\"feluda.project\" name=\"project_license\" time=\"0\">",
        "        <system-out>Project is using MIT license</system-out>",
        "    </testcase>",
        "    <testcase classname=\"feluda.licenses\" name=\"crate1-1.0.0\" time=\"0\" />",
        "    <testcase classname=\"feluda.licenses\" name=\"crate2-2.0.0\" time=\"0\">",
        "<failure message=\"Restrictive license found\" type=\"restrictive\">",
        "            Dependency 'crate2@2.0.0' has restrictive license: GPL-3.0",
        "        </failure>",
        "<failure message=\"Incompatible license found\" type=\"incompatible\">",
        "            Dependency 'crate2@2.0.0' has license GPL-3.0 which may be incompatible with project license MIT",
        "        </failure>",
        "    </testcase>",
        "    <testcase classname=\"feluda.licenses\" name=\"crate3-3.0.0\" time=\"0\" />",
        "    <testcase classname=\"feluda.licenses\" name=\"crate4-4.0.0\" time=\"0\" />",
        "  </testsuite>",
        "</testsuites>",
    ]);
    assert_eq!(output_jenkins_format(&data, Some("MIT")), expected);
}

fn concat_lines(lines: &[&str]) -> String {
    let mut text = String::new();
    for line in lines {
        text.push_str(line);
        text.push('\n');
    }
    text
}

#[test]
fn jenkins_report_without_project_license() {
    let data = vec![
        info("a", "1", None, false, LicenseCompatibility::Incompatible),
        info("b", "2", Some("GPL"), true, LicenseCompatibility::Compatible),
    ];
    let expected = concat_lines(&[
        "<?xml version=\"1.0\" encoding=\"UTF-8\"?>",
        "<testsuites>",
        "  <testsuite name=\"Feluda License Check\" tests=\"2\" failures=\"1\" errors=\"0\" skipped=\"0\">",
        "    <testcase classname=\"feluda.licenses\" name=\"a-1\" time=\"0\" />",
        "    <testcase classname=\"feluda.licenses\" name=\"b-2\" time=\"0\">",
        "<failure message=\"Restrictive license found\" type=\"restrictive\">",
        "            Dependency 'b@2' has restrictive license: GPL",
        "        </failure>",
        "    </testcase>",
        "  </testsuite>",
        "</testsuites>",
    ]);
    assert_eq!(output_jenkins_format(&data, None), expected);
    let only_incompatible = concat_lines(&[
        "<?xml version=\"1.0\" encoding=\"UTF-8\"?>",
        "<testsuites>",
        "  <testsuite name=\"Feluda License Check\" tests=\"2\" failures=\"1\" errors=\"0\" skipped=\"0\">",
        "    <testcase classname=\"feluda.project\" name=\"project_license\" time=\"0\">",
        "        <system-out>Project is using P license</system-out>",
        "    </testcase>",
        "    <testcase classname=\"feluda.licenses\" name=\"a-1\" time=\"0\">",
        "<failure message=\"Incompatible license found\" type=\"incompatible\">",
        "            Dependency 'a@1' has license No License which may be incompatible with project license P",
        "        </failure>",
        "    </testcase>",
        "  </testsuite>",
        "</testsuites>",
    ]);
    assert_eq!(output_jenkins_format(&data[..1].to_vec(), Some("P")), only_incompatible);
    let empty = concat_lines(&[
        "<?xml version=\"1.0\" encoding=\"UTF-8\"?>",
        "<testsuites>",
        "  <testsuite name=\"Feluda License Check\" tests=\"0\" failures=\"0\" errors=\"0\" skipped=\"0\">",
        "",
        "  </testsuite>",
        "</testsuites>",
    ]);
    assert_eq!(output_jenkins_format(&Vec::new(), None), empty);
}

#[test]
fn formatter_pads_by_characters_and_measures_by_bytes() {
    let mut formatter = TableFormatter::new(vec!["é".to_string(), "b".to_string()]);
    assert_eq!(formatter.column_widths, vec![2, 1]);
    formatter.add_row(&vec!["x".to_string(), "日本".to_string(), "extra".to_string()]);
    assert_eq!(formatter.column_widths, vec![2, 6]);
    assert_eq!(
        toned(&formatter.render_header()),
        vec![
            (Tone::Plain, "┌─────────────┐\n│ "),
            (Tone::BlueBold, "é  │ b     "),
            (Tone::Plain, " │\n├─────────────┤"),
        ]
    );
    assert_eq!(
        toned(&formatter.render_row(&vec!["x".to_string(), "日本".to_string(), "extra".to_string()], true)),
        vec![(Tone::Plain, "│ "), (Tone::RedBold, "x  │ 日本     │ extra"), (Tone::Plain, " │")]
    );
    assert_eq!(
        toned(&formatter.render_row(&vec!["long cell".to_string()], false)),
        vec![(Tone::Plain, "│ "), (Tone::Green, "long cell"), (Tone::Plain, " │")]
    );
    assert_eq!(
        toned(&formatter.render_row(&Vec::new(), false)),
        vec![(Tone::Plain, "│ "), (Tone::Green, ""), (Tone::Plain, " │")]
    );
    assert_eq!(toned(&formatter.render_footer()), vec![(Tone::Plain, "└─────────────┘")]);
}

#[test]
fn verbose_report() {
    let data = get_test_data();
    let spans = verbose_table(&data, true, Some("MIT"));
    assert_eq!(
        plain(&spans),
        "\n\
         ┌─────────────────────────────────────────────────────────────┐\n\
         │ Name   │ Version │ License    │ Restrictive │ Compatibility │\n\
         ├─────────────────────────────────────────────────────────────┤\n\
         │ crate1 │ 1.0.0   │ MIT        │ false       │ Compatible    │\n\
         │ crate2 │ 2.0.0   │ GPL-3.0    │ true        │ Incompatible  │\n\
         │ crate3 │ 3.0.0   │ Apache-2.0 │ false       │ Compatible    │\n\
         │ crate4 │ 4.0.0   │ Unknown    │ false       │ Unknown       │\n\
         └─────────────────────────────────────────────────────────────┘\n\n"
    );
    let tones: Vec<Tone> = spans.iter().map(|s| s.tone).collect();
    assert_eq!(tones.iter().filter(|t| **t == Tone::RedBold).count(), 1);
    assert_eq!(tones.iter().filter(|t| **t == Tone::Green).count(), 3);
    let with_footer = verbose_table(&data, false, None);
    let text = plain(&with_footer);
    assert!(text.starts_with(
        "\n┌─────────────────────────────────────────────┐\n│ Name   │ Version │ License    │ Restrictive │\n"
    ));
    assert!(text.ends_with(&plain(&summary_footer(&data, None))));
}

#[test]
fn summary_report() {
    let data = vec![
        info("a", "1", Some("MIT"), false, LicenseCompatibility::Compatible),
        info("b", "1", Some("Apache-2.0"), false, LicenseCompatibility::Compatible),
        info("c", "1", Some("GPL-3.0"), true, LicenseCompatibility::Incompatible),
        info("d", "1", Some("MIT"), false, LicenseCompatibility::Compatible),
        info("e", "1", None, false, LicenseCompatibility::Unknown),
        info("f", "1", Some("MIT"), true, LicenseCompatibility::Compatible),
    ];
    let spans = summary_table(&data, 9, false, Some("MIT"));
    assert_eq!(
        plain(&spans),
        "\n📄 Project License: MIT\n\
         \n🔍 License Summary\n\n\
         ┌──────────────────────┐\n\
         │ License Type │ Count │\n\
         ├──────────────────────┤\n\
         │ Apache-2.0   │ 1     │\n\
         │ MIT          │ 2     │\n\
         │ No License   │ 1     │\n\
         └──────────────────────┘\n\
         \n📦 Total dependencies scanned: 9\n\
         \n⚠️ Warning: Restrictive licenses found!\n\n\
         ┌─────────────────────────────┐\n\
         │ Package │ Version │ License │\n\
         ├─────────────────────────────┤\n\
         │ c       │ 1       │ GPL-3.0 │\n\
         │ f       │ 1       │ MIT     │\n\
         └─────────────────────────────┘\n\n\
         \n❌ Warning: Licenses incompatible with MIT found!\n\n\
         ┌─────────────────────────────┐\n\
         │ Package │ Version │ License │\n\
         ├─────────────────────────────┤\n\
         │ c       │ 1       │ GPL-3.0 │\n\
         └─────────────────────────────┘\n\n"
    );
    assert!(spans.iter().any(|s| s.tone == Tone::BoldUnderline && s.text == "License Summary"));
    assert!(spans.iter().any(|s| s.tone == Tone::RedBold && s.text == "Apache-2.0   │ 1    "));
    let calm = summary_table(&data[..2].to_vec(), 2, false, Some("MIT"));
    let text = plain(&calm);
    assert!(text.ends_with(
        "\n✅ No restrictive licenses found! 🎉\n\n\n✅ No incompatible licenses found! 🎉\n\n"
    ));
    let unknown_project = summary_table(&data[..2].to_vec(), 2, false, None);
    let text = plain(&unknown_project);
    assert!(text.starts_with("\n🔍 License Summary\n\n"));
    assert!(text.ends_with("\n📦 Total dependencies scanned: 2\n\n✅ No restrictive licenses found! 🎉\n\n"));
    let strict = summary_table(&data, 9, true, Some("MIT"));
    assert_eq!(plain(&strict), plain(&restrictive_licenses_table(&data, Pick::All)));
}

#[test]
fn report_body_follows_the_configuration() {
    let data = get_test_data();
    let project = Some("MIT".to_string());
    let github = ReportConfig::new(true, true, true, false, Some(CiFormat::Github), None, project.clone());
    match generate_report(&data, &github).body {
        ReportBody::Text(text) => assert_eq!(text, output_github_format(&data, Some("MIT"))),
        other => panic!("{other:?}"),
    }
    let jenkins = ReportConfig::new(true, true, true, true, Some(CiFormat::Jenkins), None, project.clone());
    let report = generate_report(&data, &jenkins);
    assert_eq!(report.listed.len(), 1);
    match report.body {
        ReportBody::Text(text) => assert_eq!(text, output_jenkins_format(&report.listed, Some("MIT"))),
        other => panic!("{other:?}"),
    }
    let json = ReportConfig::new(true, true, true, false, None, None, project.clone());
    assert!(matches!(generate_report(&data, &json).body, ReportBody::Json));
    let yaml = ReportConfig::new(false, true, true, false, None, None, project.clone());
    assert!(matches!(generate_report(&data, &yaml).body, ReportBody::Yaml));
    let verbose = ReportConfig::new(false, false, true, false, None, None, project.clone());
    match generate_report(&data, &verbose).body {
        ReportBody::Lines(lines) => {
            assert_eq!(plain(&lines), plain(&verbose_table(&data, false, Some("MIT"))))
        }
        other => panic!("{other:?}"),
    }
    let summary = ReportConfig::new(false, false, false, true, None, None, None);
    let report = generate_report(&data, &summary);
    match &report.body {
        ReportBody::Lines(lines) => {
            assert_eq!(plain(lines), plain(&summary_table(&report.listed, 4, true, None)))
        }
        other => panic!("{other:?}"),
    }
    let permissive = vec![info("a", "1", Some("MIT"), false, LicenseCompatibility::Incompatible)];
    let strict = ReportConfig::new(false, false, false, true, Some(CiFormat::Github), None, None);
    let report = generate_report(&permissive, &strict);
    assert!(matches!(report.body, ReportBody::AllClear));
    assert_eq!(found(&report), (false, false));
    assert!(report.listed.is_empty());
}

#[test]
fn all_clear_news() {
    assert_eq!(
        all_clear_message(),
        "\n🎉 All dependencies passed the license check! No restrictive or incompatible licenses found.\n"
    );
    assert_eq!(
        toned(&all_clear_lines()),
        vec![
            (Tone::Plain, "\n"),
            (Tone::GreenBold, all_clear_message()),
            (Tone::Plain, "\n\n"),
        ]
    );
}

#[test]
fn test_output_github_format_file_write_error() {
    let data = vec![LicenseInfo {
        name: "test_package".to_string(),
        version: "1.0.0".to_string(),
        license: Some("MIT".to_string()),
        is_restrictive: false,
        compatibility: LicenseCompatibility::Compatible,
    }];

    let text = output_github_format(&data, Some("MIT"));
    assert_eq!(
        text,
        "::notice title=Project License::Project is using MIT license\n\
         ::notice title=License Check Summary::Found 0 dependencies with restrictive licenses and 0 dependencies with incompatible licenses out of 1 total\n"
    );
}

#[test]
fn test_output_jenkins_format_file_write_error() {
    let data = vec![LicenseInfo {
        name: "test_package".to_string(),
        version: "1.0.0".to_string(),
        license: Some("MIT".to_string()),
        is_restrictive: false,
        compatibility: LicenseCompatibility::Compatible,
    }];

    let text = output_jenkins_format(&data, Some("MIT"));
    assert!(text.contains("tests=\"2\" failures=\"0\""));
    assert!(text.contains("name=\"test_package-1.0.0\" time=\"0\" />"));
}
