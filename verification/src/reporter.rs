//! Reports on classified dependencies: what a run found, and the texts in which
//! continuous-integration systems want to be told. Printing and writing files
//! is the caller's business.
use crate::licenses::{LicenseCompatibility, LicenseInfo};
use crate::order::{lemma_same_place_same_text, order_of_texts, text_order, Order};
use crate::text::{
    chars_of, decimal, push_chars, push_decimal, push_str, string_from_chars, texts,
};
use vstd::prelude::*;

verus! {

/// The continuous-integration system for which a report is written.
#[derive(Debug, Clone, Copy, PartialEq, Eq, Structural)]
pub enum CiFormat {
    Github,
    Jenkins,
}

/// What kind of report is wanted.
#[derive(Debug)]
pub struct ReportConfig {
    /// The listed records as JSON.
    pub json: bool,
    /// The listed records as YAML.
    pub yaml: bool,
    /// The detailed table instead of the summary.
    pub verbose: bool,
    /// Only restrictive licenses are listed.
    pub strict: bool,
    /// The continuous-integration system to write for, if any.
    pub ci_format: Option<CiFormat>,
    /// The file into which the report is also written, if any.
    pub output_file: Option<String>,
    /// The project's own license, if it is known.
    pub project_license: Option<String>,
}

impl ReportConfig {
    /// A configuration with these settings.
    pub fn new(
        json: bool,
        yaml: bool,
        verbose: bool,
        strict: bool,
        ci_format: Option<CiFormat>,
        output_file: Option<String>,
        project_license: Option<String>,
    ) -> (config: ReportConfig)
        ensures
            config.json == json,
            config.yaml == yaml,
            config.verbose == verbose,
            config.strict == strict,
            config.ci_format == ci_format,
            config.output_file == output_file,
            config.project_license == project_license,
    {
        ReportConfig { json, yaml, verbose, strict, ci_format, output_file, project_license }
    }
}

/// How many of the first `n` records are restrictive.
pub open spec fn restrictive_count(data: Seq<LicenseInfo>, n: int) -> nat
    decreases n,
{
    if n <= 0 || n > data.len() {
        0
    } else {
        restrictive_count(data, n - 1) + if data[n - 1].is_restrictive {
            1nat
        } else {
            0nat
        }
    }
}

/// How many of the first `n` records carry the verdict `verdict`.
pub open spec fn verdict_count(data: Seq<LicenseInfo>, verdict: LicenseCompatibility, n: int)
    -> nat
    decreases n,
{
    if n <= 0 || n > data.len() {
        0
    } else {
        verdict_count(data, verdict, n - 1) + if data[n - 1].compatibility == verdict {
            1nat
        } else {
            0nat
        }
    }
}

/// A count never exceeds the number of records counted over.
pub proof fn lemma_counts_bounded(data: Seq<LicenseInfo>, verdict: LicenseCompatibility, n: int)
    ensures
        restrictive_count(data, n) <= data.len(),
        restrictive_count(data, n) <= n || n < 0,
        verdict_count(data, verdict, n) <= data.len(),
        verdict_count(data, verdict, n) <= n || n < 0,
    decreases n,
{
    if !(n <= 0 || n > data.len()) {
        lemma_counts_bounded(data, verdict, n - 1);
    }
}

/// How many records are restrictive.
pub fn count_restrictive(data: &Vec<LicenseInfo>) -> (count: usize)
    ensures
        count == restrictive_count(data@, data@.len() as int),
{
    let mut count: usize = 0;
    let mut i: usize = 0;
    while i < data.len()
        invariant
            i <= data.len(),
            count <= i,
            count == restrictive_count(data@, i as int),
        decreases data.len() - i,
    {
        if data[i].is_restrictive {
            count += 1;
        }
        i += 1;
    }
    count
}

/// How many records carry the verdict `verdict`.
pub fn count_verdict(data: &Vec<LicenseInfo>, verdict: LicenseCompatibility) -> (count: usize)
    ensures
        count == verdict_count(data@, verdict, data@.len() as int),
{
    let mut count: usize = 0;
    let mut i: usize = 0;
    while i < data.len()
        invariant
            i <= data.len(),
            count <= i,
            count == verdict_count(data@, verdict, i as int),
        decreases data.len() - i,
    {
        if data[i].compatibility == verdict {
            count += 1;
        }
        i += 1;
    }
    count
}

/// The project's license as a character sequence, if it is known.
pub open spec fn known(license: Option<&str>) -> Option<Seq<char>> {
    match license {
        Some(id) => Some(id@),
        None => None,
    }
}

/// The workflow command that warns of a restrictive license.
pub open spec fn github_warning(info: LicenseInfo) -> Seq<char> {
    "::warning title=Restrictive License::Dependency '"@ + info.name@ + "@"@ + info.version@
        + "' has restrictive license: "@ + info.license_text() + "\n"@
}

/// The workflow command that reports an incompatible license.
pub open spec fn github_error(info: LicenseInfo, project: Seq<char>) -> Seq<char> {
    "::error title=Incompatible License::Dependency '"@ + info.name@ + "@"@ + info.version@
        + "' has license "@ + info.license_text()
        + " which may be incompatible with project license "@ + project + "\n"@
}

/// The workflow commands for one record: a warning where it is restrictive,
/// and an error where it is incompatible and the project's license is known.
pub open spec fn github_item(info: LicenseInfo, project: Option<Seq<char>>) -> Seq<char> {
    (if info.is_restrictive {
        github_warning(info)
    } else {
        Seq::empty()
    }) + (match project {
        Some(id) if info.compatibility == LicenseCompatibility::Incompatible => github_error(
            info,
            id,
        ),
        _ => Seq::empty(),
    })
}

/// The workflow commands for the first `n` records, in order.
pub open spec fn github_items(data: Seq<LicenseInfo>, project: Option<Seq<char>>, n: int) -> Seq<
    char,
>
    decreases n,
{
    if n <= 0 || n > data.len() {
        Seq::empty()
    } else {
        github_items(data, project, n - 1) + github_item(data[n - 1], project)
    }
}

/// The notice that sums up the report.
pub open spec fn github_summary(data: Seq<LicenseInfo>, project: Option<Seq<char>>) -> Seq<char> {
    let restrictive = decimal(restrictive_count(data, data.len() as int));
    let total = decimal(data.len());
    match project {
        Some(_) => "::notice title=License Check Summary::Found "@ + restrictive
            + " dependencies with restrictive licenses and "@ + decimal(
            verdict_count(data, LicenseCompatibility::Incompatible, data.len() as int),
        ) + " dependencies with incompatible licenses out of "@ + total + " total\n"@,
        None => "::notice title=License Check Summary::Found "@ + restrictive
            + " dependencies with restrictive licenses out of "@ + total + " total\n"@,
    }
}

/// The report for GitHub Actions: a notice of the project's license where it
/// is known, the commands for each record, and the summary.
pub open spec fn github_text(data: Seq<LicenseInfo>, project: Option<Seq<char>>) -> Seq<char> {
    (match project {
        Some(id) => "::notice title=Project License::Project is using "@ + id + " license\n"@,
        None => Seq::empty(),
    }) + github_items(data, project, data.len() as int) + github_summary(data, project)
}

fn push_github_warning(out: &mut Vec<char>, info: &LicenseInfo)
    ensures
        final(out)@ == old(out)@ + github_warning(*info),
{
    push_str(out, "::warning title=Restrictive License::Dependency '");
    push_str(out, info.name.as_str());
    push_str(out, "@");
    push_str(out, info.version.as_str());
    push_str(out, "' has restrictive license: ");
    push_str(out, info.get_license().as_str());
    push_str(out, "\n");
    assert(out@ =~= old(out)@ + github_warning(*info));
}

fn push_github_error(out: &mut Vec<char>, info: &LicenseInfo, project: &str)
    ensures
        final(out)@ == old(out)@ + github_error(*info, project@),
{
    push_str(out, "::error title=Incompatible License::Dependency '");
    push_str(out, info.name.as_str());
    push_str(out, "@");
    push_str(out, info.version.as_str());
    push_str(out, "' has license ");
    push_str(out, info.get_license().as_str());
    push_str(out, " which may be incompatible with project license ");
    push_str(out, project);
    push_str(out, "\n");
    assert(out@ =~= old(out)@ + github_error(*info, project@));
}

fn push_github_item(out: &mut Vec<char>, info: &LicenseInfo, project_license: Option<&str>)
    ensures
        final(out)@ == old(out)@ + github_item(*info, known(project_license)),
{
    if info.is_restrictive {
        push_github_warning(out, info);
    }
    match project_license {
        Some(id) => {
            if info.compatibility == LicenseCompatibility::Incompatible {
                push_github_error(out, info, id);
            }
        },
        None => {},
    }
    assert(out@ =~= old(out)@ + github_item(*info, known(project_license)));
}

fn push_github_summary(out: &mut Vec<char>, data: &Vec<LicenseInfo>, project_license: Option<&str>)
    ensures
        final(out)@ == old(out)@ + github_summary(data@, known(project_license)),
{
    let restrictive = count_restrictive(data);
    push_str(out, "::notice title=License Check Summary::Found ");
    push_decimal(out, restrictive as u128);
    match project_license {
        Some(_) => {
            let incompatible = count_verdict(data, LicenseCompatibility::Incompatible);
            push_str(out, " dependencies with restrictive licenses and ");
            push_decimal(out, incompatible as u128);
            push_str(out, " dependencies with incompatible licenses out of ");
        },
        None => {
            push_str(out, " dependencies with restrictive licenses out of ");
        },
    }
    push_decimal(out, data.len() as u128);
    push_str(out, " total\n");
    assert(out@ =~= old(out)@ + github_summary(data@, known(project_license)));
}

/// Writes the report for GitHub Actions.
pub fn output_github_format(data: &Vec<LicenseInfo>, project_license: Option<&str>) -> (report:
    String)
    ensures
        report@ == github_text(data@, known(project_license)),
{
    let ghost project = known(project_license);
    let mut out: Vec<char> = Vec::new();
    match project_license {
        Some(id) => {
            push_str(&mut out, "::notice title=Project License::Project is using ");
            push_str(&mut out, id);
            push_str(&mut out, " license\n");
        },
        None => {},
    }
    let ghost head = out@;
    let mut i: usize = 0;
    while i < data.len()
        invariant
            i <= data.len(),
            project == known(project_license),
            out@ == head + github_items(data@, project, i as int),
        decreases data.len() - i,
    {
        push_github_item(&mut out, &data[i], project_license);
        assert(out@ =~= head + (github_items(data@, project, i as int) + github_item(
            data@[i as int],
            project,
        )));
        i += 1;
    }
    push_github_summary(&mut out, data, project_license);
    assert(out@ =~= github_text(data@, project));
    string_from_chars(&out)
}

/// The test case that records the project's license.
pub open spec fn jenkins_project_case(project: Seq<char>) -> Seq<char> {
    "    <testcase classname=\"feluda.project\" name=\"project_license\" time=\"0\">\n        <system-out>Project is using "@
        + project + " license</system-out>\n    </testcase>"@
}

/// The failure that records a restrictive license.
pub open spec fn jenkins_restrictive_failure(info: LicenseInfo) -> Seq<char> {
    "<failure message=\"Restrictive license found\" type=\"restrictive\">\n            Dependency '"@
        + info.name@ + "@"@ + info.version@ + "' has restrictive license: "@
        + info.license_text() + "\n        </failure>"@
}

/// The failure that records an incompatible license.
pub open spec fn jenkins_incompatible_failure(info: LicenseInfo, project: Seq<char>) -> Seq<char> {
    "<failure message=\"Incompatible license found\" type=\"incompatible\">\n            Dependency '"@
        + info.name@ + "@"@ + info.version@ + "' has license "@ + info.license_text()
        + " which may be incompatible with project license "@ + project
        + "\n        </failure>"@
}

/// Whether a record fails for incompatibility: it does where it is
/// incompatible and the project's license is known.
pub open spec fn fails_as_incompatible(info: LicenseInfo, project: Option<Seq<char>>) -> bool {
    project is Some && info.compatibility == LicenseCompatibility::Incompatible
}

/// The failures of one record, one per line; empty where it has none.
pub open spec fn jenkins_failures(info: LicenseInfo, project: Option<Seq<char>>) -> Seq<char> {
    if info.is_restrictive && fails_as_incompatible(info, project) {
        jenkins_restrictive_failure(info) + "\n"@ + jenkins_incompatible_failure(
            info,
            project->0,
        )
    } else if info.is_restrictive {
        jenkins_restrictive_failure(info)
    } else if fails_as_incompatible(info, project) {
        jenkins_incompatible_failure(info, project->0)
    } else {
        Seq::empty()
    }
}

/// The test case of one record, named by package and version.
pub open spec fn jenkins_case(info: LicenseInfo, project: Option<Seq<char>>) -> Seq<char> {
    let name = info.name@ + "-"@ + info.version@;
    if info.is_restrictive || fails_as_incompatible(info, project) {
        "    <testcase classname=\"feluda.licenses\" name=\""@ + name + "\" time=\"0\">\n"@
            + jenkins_failures(info, project) + "\n    </testcase>"@
    } else {
        "    <testcase classname=\"feluda.licenses\" name=\""@ + name + "\" time=\"0\" />"@
    }
}

/// The test cases, one per line: that of the project's license where it is
/// known, then those of the first `n` records.
pub open spec fn jenkins_cases(data: Seq<LicenseInfo>, project: Option<Seq<char>>, n: int) -> Seq<
    char,
>
    decreases n,
{
    if n <= 0 || n > data.len() {
        match project {
            Some(id) => jenkins_project_case(id),
            None => Seq::empty(),
        }
    } else if n == 1 && project is None {
        jenkins_case(data[0], project)
    } else {
        jenkins_cases(data, project, n - 1) + "\n"@ + jenkins_case(data[n - 1], project)
    }
}

/// The number of test cases in the report.
pub open spec fn jenkins_tests(data: Seq<LicenseInfo>, project: Option<Seq<char>>) -> nat {
    data.len() + if project is Some {
        1nat
    } else {
        0nat
    }
}

/// The number of failures in the report.
pub open spec fn jenkins_failure_count(data: Seq<LicenseInfo>, project: Option<Seq<char>>) -> nat {
    restrictive_count(data, data.len() as int) + if project is Some {
        verdict_count(data, LicenseCompatibility::Incompatible, data.len() as int)
    } else {
        0nat
    }
}

/// The report for Jenkins: a JUnit test suite with one test case per record.
pub open spec fn jenkins_text(data: Seq<LicenseInfo>, project: Option<Seq<char>>) -> Seq<char> {
    "<?xml version=\"1.0\" encoding=\"UTF-8\"?>\n<testsuites>\n  <testsuite name=\"Feluda License Check\" tests=\""@
        + decimal(jenkins_tests(data, project)) + "\" failures=\""@ + decimal(
        jenkins_failure_count(data, project),
    ) + "\" errors=\"0\" skipped=\"0\">\n"@ + jenkins_cases(data, project, data.len() as int)
        + "\n  </testsuite>\n</testsuites>\n"@
}

fn push_jenkins_restrictive_failure(out: &mut Vec<char>, info: &LicenseInfo)
    ensures
        final(out)@ == old(out)@ + jenkins_restrictive_failure(*info),
{
    push_str(
        out,
        "<failure message=\"Restrictive license found\" type=\"restrictive\">\n            Dependency '",
    );
    push_str(out, info.name.as_str());
    push_str(out, "@");
    push_str(out, info.version.as_str());
    push_str(out, "' has restrictive license: ");
    push_str(out, info.get_license().as_str());
    push_str(out, "\n        </failure>");
    assert(out@ =~= old(out)@ + jenkins_restrictive_failure(*info));
}

fn push_jenkins_incompatible_failure(out: &mut Vec<char>, info: &LicenseInfo, project: &str)
    ensures
        final(out)@ == old(out)@ + jenkins_incompatible_failure(*info, project@),
{
    push_str(
        out,
        "<failure message=\"Incompatible license found\" type=\"incompatible\">\n            Dependency '",
    );
    push_str(out, info.name.as_str());
    push_str(out, "@");
    push_str(out, info.version.as_str());
    push_str(out, "' has license ");
    push_str(out, info.get_license().as_str());
    push_str(out, " which may be incompatible with project license ");
    push_str(out, project);
    push_str(out, "\n        </failure>");
    assert(out@ =~= old(out)@ + jenkins_incompatible_failure(*info, project@));
}

fn push_jenkins_failures(out: &mut Vec<char>, info: &LicenseInfo, project_license: Option<&str>)
    ensures
        final(out)@ == old(out)@ + jenkins_failures(*info, known(project_license)),
{
    let incompatible = info.compatibility == LicenseCompatibility::Incompatible;
    if info.is_restrictive {
        push_jenkins_restrictive_failure(out, info);
    }
    match project_license {
        Some(id) => {
            if incompatible {
                if info.is_restrictive {
                    push_str(out, "\n");
                }
                push_jenkins_incompatible_failure(out, info, id);
            }
        },
        None => {},
    }
    assert(out@ =~= old(out)@ + jenkins_failures(*info, known(project_license)));
}

fn push_jenkins_case(out: &mut Vec<char>, info: &LicenseInfo, project_license: Option<&str>)
    ensures
        final(out)@ == old(out)@ + jenkins_case(*info, known(project_license)),
{
    let fails = info.is_restrictive || (project_license.is_some() && info.compatibility
        == LicenseCompatibility::Incompatible);
    push_str(out, "    <testcase classname=\"feluda.licenses\" name=\"");
    push_str(out, info.name.as_str());
    push_str(out, "-");
    push_str(out, info.version.as_str());
    if fails {
        push_str(out, "\" time=\"0\">\n");
        push_jenkins_failures(out, info, project_license);
        push_str(out, "\n    </testcase>");
    } else {
        push_str(out, "\" time=\"0\" />");
    }
    assert(out@ =~= old(out)@ + jenkins_case(*info, known(project_license)));
}

fn push_jenkins_cases(out: &mut Vec<char>, data: &Vec<LicenseInfo>, project_license: Option<&str>)
    ensures
        final(out)@ == old(out)@ + jenkins_cases(
            data@,
            known(project_license),
            data@.len() as int,
        ),
{
    let ghost project = known(project_license);
    match project_license {
        Some(id) => {
            push_str(
                out,
                "    <testcase classname=\"feluda.project\" name=\"project_license\" time=\"0\">\n        <system-out>Project is using ",
            );
            push_str(out, id);
            push_str(out, " license</system-out>\n    </testcase>");
            assert(out@ =~= old(out)@ + jenkins_project_case(id@));
        },
        None => {
            assert(out@ =~= old(out)@ + Seq::<char>::empty());
        },
    }
    let mut i: usize = 0;
    while i < data.len()
        invariant
            i <= data.len(),
            project == known(project_license),
            out@ == old(out)@ + jenkins_cases(data@, project, i as int),
        decreases data.len() - i,
    {
        let ghost before = out@;
        if i > 0 || project_license.is_some() {
            push_str(out, "\n");
        }
        push_jenkins_case(out, &data[i], project_license);
        assert(out@ =~= old(out)@ + jenkins_cases(data@, project, i + 1));
        i += 1;
    }
}

/// Writes the report for Jenkins, as a JUnit test suite.
pub fn output_jenkins_format(data: &Vec<LicenseInfo>, project_license: Option<&str>) -> (report:
    String)
    ensures
        report@ == jenkins_text(data@, known(project_license)),
{
    let restrictive = count_restrictive(data);
    let incompatible = match project_license {
        Some(_) => count_verdict(data, LicenseCompatibility::Incompatible),
        None => 0,
    };
    let tests: u128 = data.len() as u128 + if project_license.is_some() {
        1u128
    } else {
        0u128
    };
    let mut out: Vec<char> = Vec::new();
    push_str(
        &mut out,
        "<?xml version=\"1.0\" encoding=\"UTF-8\"?>\n<testsuites>\n  <testsuite name=\"Feluda License Check\" tests=\"",
    );
    push_decimal(&mut out, tests);
    push_str(&mut out, "\" failures=\"");
    push_decimal(&mut out, restrictive as u128 + incompatible as u128);
    push_str(&mut out, "\" errors=\"0\" skipped=\"0\">\n");
    push_jenkins_cases(&mut out, data, project_license);
    push_str(&mut out, "\n  </testsuite>\n</testsuites>\n");
    assert(out@ =~= jenkins_text(data@, known(project_license)));
    string_from_chars(&out)
}

/// How a piece of a report is to be painted on the terminal.
#[derive(Debug, Clone, Copy, PartialEq, Eq, Structural)]
pub enum Tone {
    Plain,
    Bold,
    BoldUnderline,
    Blue,
    BlueBold,
    Green,
    GreenBold,
    Red,
    RedBold,
    Yellow,
    YellowBold,
}

/// A piece of a report: a text and how it is to be painted.
#[derive(Debug)]
pub struct Span {
    pub text: String,
    pub tone: Tone,
}

/// The pieces of a report as tones and character sequences.
pub open spec fn shown(spans: Seq<Span>) -> Seq<(Tone, Seq<char>)> {
    Seq::new(spans.len(), |i: int| (spans[i].tone, spans[i].text@))
}

/// Appends a piece to a report.
pub fn put(out: &mut Vec<Span>, tone: Tone, text: &str)
    ensures
        shown(final(out)@) == shown(old(out)@).push((tone, text@)),
{
    out.push(Span { text: text.to_owned(), tone });
    assert(shown(out@) =~= shown(old(out)@).push((tone, text@)));
}

/// Appends a piece to a report.
fn put_chars(out: &mut Vec<Span>, tone: Tone, text: &Vec<char>)
    ensures
        shown(final(out)@) == shown(old(out)@).push((tone, text@)),
{
    out.push(Span { text: string_from_chars(text), tone });
    assert(shown(out@) =~= shown(old(out)@).push((tone, text@)));
}

/// Appends the pieces of `more` to a report.
fn put_all(out: &mut Vec<Span>, more: Vec<Span>)
    ensures
        shown(final(out)@) == shown(old(out)@) + shown(more@),
{
    let mut more = more;
    let ghost added = more@;
    out.append(&mut more);
    assert(shown(out@) =~= shown(old(out)@) + shown(added));
}

/// The length of a text in bytes, as strings measure themselves.
pub open spec fn byte_len(text: Seq<char>) -> usize {
    vstd::utf8::encode_utf8(text).len() as usize
}

/// `n` copies of the character `c`.
pub open spec fn repeated(c: char, n: nat) -> Seq<char> {
    Seq::new(n, |i: int| c)
}

/// A cell padded with spaces on the right to `width` characters; a cell that
/// is as long or longer is left as it is.
pub open spec fn padded(cell: Seq<char>, width: nat) -> Seq<char> {
    if cell.len() >= width {
        cell
    } else {
        cell + repeated(' ', (width - cell.len()) as nat)
    }
}

/// The sum of the first `n` widths.
pub open spec fn width_sum(widths: Seq<usize>, n: int) -> nat
    decreases n,
{
    if n <= 0 || n > widths.len() {
        0
    } else {
        width_sum(widths, n - 1) + widths[n - 1] as nat
    }
}

/// The first `n` cells of a row, each padded to the width of its column where
/// there is such a column, and joined by bars.
pub open spec fn row_text(cells: Seq<Seq<char>>, widths: Seq<usize>, n: int) -> Seq<char>
    decreases n,
{
    if n <= 0 || n > cells.len() {
        Seq::empty()
    } else {
        let cell = if n - 1 < widths.len() {
            padded(cells[n - 1], widths[n - 1] as nat)
        } else {
            cells[n - 1]
        };
        if n == 1 {
            cell
        } else {
            row_text(cells, widths, n - 1) + " │ "@ + cell
        }
    }
}

/// The widths of the columns once they hold the cells of `cells` too. Cells
/// beyond the last column do not count.
pub open spec fn widened(widths: Seq<usize>, cells: Seq<Seq<char>>) -> Seq<usize> {
    Seq::new(
        widths.len(),
        |i: int|
            if i < cells.len() && byte_len(cells[i]) > widths[i] {
                byte_len(cells[i])
            } else {
                widths[i]
            },
    )
}

/// The widths of columns that hold their headings and nothing else.
pub open spec fn heading_widths(headers: Seq<Seq<char>>) -> Seq<usize> {
    Seq::new(headers.len(), |i: int| byte_len(headers[i]))
}

/// The horizontal rule that spans a table between its corners.
pub open spec fn rule(widths: Seq<usize>) -> Seq<char> {
    repeated('─', (width_sum(widths, widths.len() as int) + 3 * widths.len() - 1) as nat)
}

/// The top of a table: upper border, headings, and the rule below them.
pub open spec fn table_header(headers: Seq<Seq<char>>, widths: Seq<usize>) -> Seq<
    (Tone, Seq<char>),
> {
    seq![
        (Tone::Plain, "┌"@ + rule(widths) + "┐\n│ "@),
        (Tone::BlueBold, row_text(headers, widths, headers.len() as int)),
        (Tone::Plain, " │\n├"@ + rule(widths) + "┤"@),
    ]
}

/// A row of a table between its side borders, red where the row is marked as
/// a problem and green where it is not.
pub open spec fn table_row(cells: Seq<Seq<char>>, widths: Seq<usize>, is_problematic: bool) -> Seq<
    (Tone, Seq<char>),
> {
    seq![
        (Tone::Plain, "│ "@),
        (
            if is_problematic {
                Tone::RedBold
            } else {
                Tone::Green
            },
            row_text(cells, widths, cells.len() as int),
        ),
        (Tone::Plain, " │"@),
    ]
}

/// The lower border of a table.
pub open spec fn table_footer(widths: Seq<usize>) -> Seq<(Tone, Seq<char>)> {
    seq![(Tone::Plain, "└"@ + rule(widths) + "┘"@)]
}

/// Lays out tables of text: keeps, for each column, the width of its widest cell.
#[derive(Debug)]
pub struct TableFormatter {
    /// Width of each column, in bytes of its widest cell.
    pub column_widths: Vec<usize>,
    /// Heading of each column.
    pub headers: Vec<String>,
}

/// A cell padded with spaces on the right to `width` characters.
fn pad(cell: &str, width: usize) -> (text: Vec<char>)
    ensures
        text@ == padded(cell@, width as nat),
{
    let mut text = chars_of(cell);
    let ghost start = text@.len();
    while text.len() < width
        invariant
            start == cell@.len(),
            text@.len() >= start,
            text@.len() <= width || text@.len() == start,
            text@ == cell@ + repeated(' ', (text@.len() - start) as nat),
        decreases width - text.len(),
    {
        text.push(' ');
        assert(text@ =~= cell@ + repeated(' ', (text@.len() - start) as nat));
    }
    assert(text@ =~= padded(cell@, width as nat)) by {
        if cell@.len() >= width {
            assert(text@ =~= cell@);
        }
    }
    text
}

/// The cells of a row, padded and joined by bars.
fn lay_out_row(row: &Vec<String>, widths: &Vec<usize>) -> (text: Vec<char>)
    ensures
        text@ == row_text(texts(row@), widths@, row@.len() as int),
{
    let mut text: Vec<char> = Vec::new();
    let mut i: usize = 0;
    while i < row.len()
        invariant
            i <= row.len(),
            text@ == row_text(texts(row@), widths@, i as int),
        decreases row.len() - i,
    {
        let ghost before = text@;
        if i > 0 {
            push_str(&mut text, " │ ");
        }
        if i < widths.len() {
            let cell = pad(row[i].as_str(), widths[i]);
            push_chars(&mut text, &cell);
        } else {
            push_str(&mut text, row[i].as_str());
        }
        assert(text@ =~= row_text(texts(row@), widths@, i + 1)) by {
            assert(texts(row@)[i as int] == row@[i as int]@);
            if i == 0 {
                assert(before =~= Seq::<char>::empty());
            }
        }
        i += 1;
    }
    text
}

/// Appends the horizontal rule of a table of these widths.
fn push_rule(text: &mut Vec<char>, widths: &Vec<usize>)
    requires
        widths@.len() > 0,
    ensures
        final(text)@ == old(text)@ + rule(widths@),
{
    let ghost mut count: nat = 0;
    assert(text@ =~= old(text)@ + repeated('─', count));
    let mut i: usize = 0;
    while i < widths.len()
        invariant
            i <= widths.len(),
            text@ == old(text)@ + repeated('─', count),
            i == 0 ==> count == 0,
            i > 0 ==> count == width_sum(widths@, i as int) + 3 * i - 1,
        decreases widths.len() - i,
    {
        let mut k: usize = 0;
        let ghost base = count;
        while k < widths[i]
            invariant
                i < widths.len(),
                k <= widths[i as int],
                count == base + k,
                text@ == old(text)@ + repeated('─', count),
            decreases widths[i as int] - k,
        {
            text.push('─');
            proof {
                count = count + 1;
            }
            assert(text@ =~= old(text)@ + repeated('─', count));
            k += 1;
        }
        text.push('─');
        text.push('─');
        proof {
            count = count + 2;
        }
        if i > 0 {
            text.push('─');
            proof {
                count = count + 1;
            }
        }
        assert(text@ =~= old(text)@ + repeated('─', count));
        i += 1;
    }
}

impl TableFormatter {
    /// There is a width for every heading, and at least one column.
    pub open spec fn well_formed(&self) -> bool {
        &&& self.column_widths@.len() == self.headers@.len()
        &&& self.headers@.len() > 0
    }

    /// A table with these headings; each column is as wide as its heading.
    pub fn new(headers: Vec<String>) -> (formatter: TableFormatter)
        ensures
            formatter.headers == headers,
            formatter.column_widths@ == heading_widths(texts(headers@)),
    {
        let mut column_widths: Vec<usize> = Vec::new();
        let mut i: usize = 0;
        while i < headers.len()
            invariant
                i <= headers.len(),
                column_widths@.len() == i,
                forall|j: int|
                    0 <= j < i ==> column_widths@[j] == byte_len(#[trigger] headers@[j]@),
            decreases headers.len() - i,
        {
            column_widths.push(headers[i].as_str().len());
            i += 1;
        }
        assert(column_widths@ =~= heading_widths(texts(headers@)));
        TableFormatter { column_widths, headers }
    }

    /// Widens the columns to hold the cells of `row`. Cells beyond the last
    /// column are ignored.
    pub fn add_row(&mut self, row: &Vec<String>)
        ensures
            final(self).headers == old(self).headers,
            final(self).column_widths@ == widened(old(self).column_widths@, texts(row@)),
    {
        let mut i: usize = 0;
        while i < row.len() && i < self.column_widths.len()
            invariant
                self.headers == old(self).headers,
                self.column_widths@.len() == old(self).column_widths@.len(),
                forall|j: int|
                    0 <= j < old(self).column_widths@.len() ==> #[trigger] self.column_widths@[j]
                        == (if j < i {
                        widened(old(self).column_widths@, texts(row@))[j]
                    } else {
                        old(self).column_widths@[j]
                    }),
            decreases row.len() - i,
        {
            let len = row[i].as_str().len();
            if len > self.column_widths[i] {
                self.column_widths[i] = len;
            }
            i += 1;
        }
        assert(self.column_widths@ =~= widened(old(self).column_widths@, texts(row@)));
    }

    /// Renders the top of the table.
    pub fn render_header(&self) -> (spans: Vec<Span>)
        requires
            self.well_formed(),
        ensures
            shown(spans@) == table_header(texts(self.headers@), self.column_widths@),
    {
        let mut spans: Vec<Span> = Vec::new();
        let mut top: Vec<char> = Vec::new();
        push_str(&mut top, "┌");
        push_rule(&mut top, &self.column_widths);
        push_str(&mut top, "┐\n│ ");
        assert(top@ =~= "┌"@ + rule(self.column_widths@) + "┐\n│ "@);
        put_chars(&mut spans, Tone::Plain, &top);
        let headings = lay_out_row(&self.headers, &self.column_widths);
        put_chars(&mut spans, Tone::BlueBold, &headings);
        let mut below: Vec<char> = Vec::new();
        push_str(&mut below, " │\n├");
        push_rule(&mut below, &self.column_widths);
        push_str(&mut below, "┤");
        assert(below@ =~= " │\n├"@ + rule(self.column_widths@) + "┤"@);
        put_chars(&mut spans, Tone::Plain, &below);
        assert(shown(spans@) =~= table_header(texts(self.headers@), self.column_widths@));
        spans
    }

    /// Renders a row of the table.
    pub fn render_row(&self, row: &Vec<String>, is_problematic: bool) -> (spans: Vec<Span>)
        ensures
            shown(spans@) == table_row(texts(row@), self.column_widths@, is_problematic),
    {
        let mut spans: Vec<Span> = Vec::new();
        put(&mut spans, Tone::Plain, "│ ");
        let cells = lay_out_row(row, &self.column_widths);
        let tone = if is_problematic {
            Tone::RedBold
        } else {
            Tone::Green
        };
        put_chars(&mut spans, tone, &cells);
        put(&mut spans, Tone::Plain, " │");
        assert(shown(spans@) =~= table_row(texts(row@), self.column_widths@, is_problematic));
        spans
    }

    /// Renders the lower border of the table.
    pub fn render_footer(&self) -> (spans: Vec<Span>)
        requires
            self.well_formed(),
        ensures
            shown(spans@) == table_footer(self.column_widths@),
    {
        let mut spans: Vec<Span> = Vec::new();
        let mut border: Vec<char> = Vec::new();
        push_str(&mut border, "└");
        push_rule(&mut border, &self.column_widths);
        push_str(&mut border, "┘");
        assert(border@ =~= "└"@ + rule(self.column_widths@) + "┘"@);
        put_chars(&mut spans, Tone::Plain, &border);
        assert(shown(spans@) =~= table_footer(self.column_widths@));
        spans
    }
}

/// The end of a line.
pub open spec fn line_end() -> (Tone, Seq<char>) {
    (Tone::Plain, "\n"@)
}

/// The cells of a list of rows as character sequences.
pub open spec fn cell_texts(rows: Seq<Vec<String>>) -> Seq<Seq<Seq<char>>> {
    Seq::new(rows.len(), |i: int| texts(rows[i]@))
}

/// The widths of the columns once they hold their headings and the first `n` rows.
pub open spec fn fitted(headers: Seq<Seq<char>>, rows: Seq<Seq<Seq<char>>>, n: int) -> Seq<usize>
    decreases n,
{
    if n <= 0 || n > rows.len() {
        heading_widths(headers)
    } else {
        widened(fitted(headers, rows, n - 1), rows[n - 1])
    }
}

/// The first `n` rows of a table, each on a line of its own; row `i` is marked
/// as a problem where `flags[i]` says so.
pub open spec fn table_rows(
    rows: Seq<Seq<Seq<char>>>,
    flags: Seq<bool>,
    widths: Seq<usize>,
    n: int,
) -> Seq<(Tone, Seq<char>)>
    decreases n,
{
    if n <= 0 || n > rows.len() {
        Seq::empty()
    } else {
        table_rows(rows, flags, widths, n - 1) + table_row(
            rows[n - 1],
            widths,
            n - 1 < flags.len() && flags[n - 1],
        ) + seq![line_end()]
    }
}

/// A whole table, every column as wide as its widest cell: header, rows and
/// lower border, each ending its line.
pub open spec fn table(headers: Seq<Seq<char>>, rows: Seq<Seq<Seq<char>>>, flags: Seq<bool>) -> Seq<
    (Tone, Seq<char>),
> {
    let widths = fitted(headers, rows, rows.len() as int);
    table_header(headers, widths) + seq![line_end()] + table_rows(
        rows,
        flags,
        widths,
        rows.len() as int,
    ) + table_footer(widths) + seq![line_end()]
}

/// Appends a whole table to a report.
fn put_table(out: &mut Vec<Span>, headers: Vec<String>, rows: &Vec<Vec<String>>, flags: &Vec<bool>)
    requires
        headers@.len() > 0,
        flags@.len() == rows@.len(),
    ensures
        shown(final(out)@) == shown(old(out)@) + table(
            texts(headers@),
            cell_texts(rows@),
            flags@,
        ),
{
    let ghost heads = texts(headers@);
    let ghost cells = cell_texts(rows@);
    let mut formatter = TableFormatter::new(headers);
    let mut i: usize = 0;
    while i < rows.len()
        invariant
            i <= rows.len(),
            formatter.headers@.len() > 0,
            texts(formatter.headers@) == heads,
            cells == cell_texts(rows@),
            formatter.column_widths@ == fitted(heads, cells, i as int),
        decreases rows.len() - i,
    {
        formatter.add_row(&rows[i]);
        assert(cells[i as int] == texts(rows@[i as int]@));
        i += 1;
    }
    let ghost widths = formatter.column_widths@;
    assert(widths.len() == heads.len()) by {
        lemma_fitted_len(heads, cells, rows@.len() as int);
    }
    put_all(out, formatter.render_header());
    put(out, Tone::Plain, "\n");
    let ghost top = shown(out@);
    assert(top =~= shown(old(out)@) + table_header(heads, widths) + seq![line_end()]);
    let mut j: usize = 0;
    while j < rows.len()
        invariant
            j <= rows.len(),
            flags@.len() == rows@.len(),
            cells == cell_texts(rows@),
            widths == formatter.column_widths@,
            shown(out@) == top + table_rows(cells, flags@, widths, j as int),
        decreases rows.len() - j,
    {
        let ghost before = shown(out@);
        put_all(out, formatter.render_row(&rows[j], flags[j]));
        put(out, Tone::Plain, "\n");
        assert(cells[j as int] == texts(rows@[j as int]@));
        assert(shown(out@) =~= before + (table_row(cells[j as int], widths, flags@[j as int])
            + seq![line_end()]));
        assert(shown(out@) =~= top + table_rows(cells, flags@, widths, j + 1));
        j += 1;
    }
    let ghost body = shown(out@);
    put_all(out, formatter.render_footer());
    put(out, Tone::Plain, "\n");
    assert(shown(out@) =~= body + table_footer(widths) + seq![line_end()]);
    assert(shown(out@) =~= shown(old(out)@) + table(heads, cells, flags@));
}

/// Widening keeps the number of columns.
proof fn lemma_fitted_len(headers: Seq<Seq<char>>, rows: Seq<Seq<Seq<char>>>, n: int)
    ensures
        fitted(headers, rows, n).len() == headers.len(),
    decreases n,
{
    if !(n <= 0 || n > rows.len()) {
        lemma_fitted_len(headers, rows, n - 1);
    }
}

/// Which records a table lists.
#[derive(Debug, Clone, Copy, PartialEq, Eq, Structural)]
pub enum Pick {
    /// Every record.
    All,
    /// The restrictive ones.
    Restrictive,
    /// The incompatible ones.
    Incompatible,
}

impl Pick {
    /// Whether the table lists this record.
    pub open spec fn takes(self, info: LicenseInfo) -> bool {
        match self {
            Pick::All => true,
            Pick::Restrictive => info.is_restrictive,
            Pick::Incompatible => info.compatibility == LicenseCompatibility::Incompatible,
        }
    }

    /// Whether the table lists this record.
    pub fn picks(self, info: &LicenseInfo) -> (taken: bool)
        ensures
            taken == self.takes(*info),
    {
        match self {
            Pick::All => true,
            Pick::Restrictive => info.is_restrictive,
            Pick::Incompatible => info.compatibility == LicenseCompatibility::Incompatible,
        }
    }
}

/// Those of the first `n` records that `pick` takes, in order.
pub open spec fn picked(data: Seq<LicenseInfo>, pick: Pick, n: int) -> Seq<LicenseInfo>
    decreases n,
{
    if n <= 0 || n > data.len() {
        Seq::empty()
    } else if pick.takes(data[n - 1]) {
        picked(data, pick, n - 1).push(data[n - 1])
    } else {
        picked(data, pick, n - 1)
    }
}

/// The cells that a table of packages shows of a record.
pub open spec fn package_row(info: LicenseInfo) -> Seq<Seq<char>> {
    seq![info.name@, info.version@, info.license_text()]
}

/// The rows of a table of packages.
pub open spec fn package_rows(infos: Seq<LicenseInfo>) -> Seq<Seq<Seq<char>>> {
    Seq::new(infos.len(), |i: int| package_row(infos[i]))
}

/// A table of packages: name, version and license of each, none marked as a
/// problem, followed by an empty line.
pub open spec fn package_table(infos: Seq<LicenseInfo>) -> Seq<(Tone, Seq<char>)> {
    table(
        seq!["Package"@, "Version"@, "License"@],
        package_rows(infos),
        Seq::new(infos.len(), |i: int| false),
    ) + seq![line_end()]
}

/// The warning that restrictive licenses were found, and the table of the
/// packages that have them.
pub open spec fn restrictive_table(infos: Seq<LicenseInfo>) -> Seq<(Tone, Seq<char>)> {
    seq![
        line_end(),
        (Tone::Bold, "⚠️"@),
        (Tone::Plain, " "@),
        (Tone::YellowBold, "Warning: Restrictive licenses found!"@),
        (Tone::Plain, "\n\n"@),
    ] + package_table(infos)
}

/// The warning that licenses incompatible with the project's were found, and
/// the table of the packages that have them.
pub open spec fn incompatible_table(infos: Seq<LicenseInfo>, project: Seq<char>) -> Seq<
    (Tone, Seq<char>),
> {
    seq![
        line_end(),
        (Tone::Bold, "❌"@),
        (Tone::Plain, " "@),
        (Tone::RedBold, "Warning: Licenses incompatible with "@ + project + " found!"@),
        (Tone::Plain, "\n\n"@),
    ] + package_table(infos)
}

/// The rows of a table of the packages that `pick` takes.
fn package_rows_of(data: &Vec<LicenseInfo>, pick: Pick) -> (rows: Vec<Vec<String>>)
    ensures
        cell_texts(rows@) == package_rows(picked(data@, pick, data@.len() as int)),
{
    let mut rows: Vec<Vec<String>> = Vec::new();
    let mut i: usize = 0;
    assert(cell_texts(rows@) =~= package_rows(picked(data@, pick, 0)));
    while i < data.len()
        invariant
            i <= data.len(),
            cell_texts(rows@) == package_rows(picked(data@, pick, i as int)),
        decreases data.len() - i,
    {
        let info = &data[i];
        if pick.picks(info) {
            let ghost before = cell_texts(rows@);
            let row = vec![info.name.clone(), info.version.clone(), info.get_license()];
            assert(texts(row@) =~= package_row(*info));
            rows.push(row);
            assert(cell_texts(rows@) =~= before.push(package_row(*info)));
            assert(cell_texts(rows@) =~= package_rows(picked(data@, pick, i + 1)));
        }
        i += 1;
    }
    rows
}

/// As many `false` as there are rows.
fn no_flags(rows: &Vec<Vec<String>>) -> (flags: Vec<bool>)
    ensures
        flags@ == Seq::new(rows@.len(), |i: int| false),
{
    let mut flags: Vec<bool> = Vec::new();
    let mut i: usize = 0;
    while i < rows.len()
        invariant
            i <= rows.len(),
            flags@ == Seq::new(i as nat, |i: int| false),
        decreases rows.len() - i,
    {
        flags.push(false);
        assert(flags@ =~= Seq::new((i + 1) as nat, |i: int| false));
        i += 1;
    }
    flags
}

/// Appends the table of the packages that `pick` takes.
fn put_package_table(out: &mut Vec<Span>, data: &Vec<LicenseInfo>, pick: Pick)
    ensures
        shown(final(out)@) == shown(old(out)@) + package_table(
            picked(data@, pick, data@.len() as int),
        ),
{
    let rows = package_rows_of(data, pick);
    let flags = no_flags(&rows);
    let headers = vec!["Package".to_owned(), "Version".to_owned(), "License".to_owned()];
    assert(texts(headers@) =~= seq!["Package"@, "Version"@, "License"@]);
    let ghost infos = picked(data@, pick, data@.len() as int);
    assert(package_rows(infos).len() == infos.len());
    assert(cell_texts(rows@).len() == rows@.len());
    put_table(out, headers, &rows, &flags);
    put(out, Tone::Plain, "\n");
    assert(shown(out@) =~= shown(old(out)@) + package_table(infos));
}

/// The warning that restrictive licenses were found, with the table of those
/// records of `data` that `pick` takes.
pub fn restrictive_licenses_table(data: &Vec<LicenseInfo>, pick: Pick) -> (spans: Vec<Span>)
    ensures
        shown(spans@) == restrictive_table(picked(data@, pick, data@.len() as int)),
{
    let mut spans: Vec<Span> = Vec::new();
    put(&mut spans, Tone::Plain, "\n");
    put(&mut spans, Tone::Bold, "⚠️");
    put(&mut spans, Tone::Plain, " ");
    put(&mut spans, Tone::YellowBold, "Warning: Restrictive licenses found!");
    put(&mut spans, Tone::Plain, "\n\n");
    put_package_table(&mut spans, data, pick);
    assert(shown(spans@) =~= restrictive_table(picked(data@, pick, data@.len() as int)));
    spans
}

/// The warning that licenses incompatible with the project's were found, with
/// the table of the incompatible records of `data`.
pub fn incompatible_licenses_table(data: &Vec<LicenseInfo>, project_license: &str) -> (spans: Vec<
    Span,
>)
    ensures
        shown(spans@) == incompatible_table(
            picked(data@, Pick::Incompatible, data@.len() as int),
            project_license@,
        ),
{
    let mut spans: Vec<Span> = Vec::new();
    put(&mut spans, Tone::Plain, "\n");
    put(&mut spans, Tone::Bold, "❌");
    put(&mut spans, Tone::Plain, " ");
    let mut warning: Vec<char> = Vec::new();
    push_str(&mut warning, "Warning: Licenses incompatible with ");
    push_str(&mut warning, project_license);
    push_str(&mut warning, " found!");
    assert(warning@ =~= "Warning: Licenses incompatible with "@ + project_license@ + " found!"@);
    put_chars(&mut spans, Tone::RedBold, &warning);
    put(&mut spans, Tone::Plain, "\n\n");
    put_package_table(&mut spans, data, Pick::Incompatible);
    assert(shown(spans@) =~= incompatible_table(
        picked(data@, Pick::Incompatible, data@.len() as int),
        project_license@,
    ));
    spans
}

/// One line of the summary: a count, and what was counted.
pub open spec fn count_line(count: nat, strong: Tone, soft: Tone, what: Seq<char>) -> Seq<
    (Tone, Seq<char>),
> {
    seq![
        (Tone::Plain, "  • "@),
        (strong, decimal(count)),
        (Tone::Plain, " "@),
        (soft, what),
        line_end(),
    ]
}

/// The advice that closes the summary: to review the restrictive licenses
/// where there are any, and that all is well where there are none.
pub open spec fn advice(restrictive: nat) -> Seq<(Tone, Seq<char>)> {
    if restrictive > 0 {
        seq![
            line_end(),
            (Tone::YellowBold, "⚠️"@),
            (Tone::Plain, " "@),
            (Tone::YellowBold, "Recommendation"@),
            (
                Tone::Plain,
                ": Review these dependencies for compliance with your project's licensing requirements.\n"@,
            ),
        ]
    } else {
        seq![
            line_end(),
            (Tone::GreenBold, "✅"@),
            (Tone::Plain, " "@),
            (Tone::GreenBold, "Status"@),
            (
                Tone::Plain,
                ": All dependencies have permissive licenses compatible with most projects.\n"@,
            ),
        ]
    }
}

/// The warning that some licenses may be incompatible with the project's.
pub open spec fn incompatibility_warning(project: Seq<char>) -> Seq<(Tone, Seq<char>)> {
    seq![
        line_end(),
        (Tone::RedBold, "❌"@),
        (Tone::Plain, " "@),
        (Tone::RedBold, "Warning"@),
        (
            Tone::Plain,
            ": Some dependencies have licenses that may be incompatible with your project's "@
                + project + " license. Review for legal compliance.\n"@,
        ),
    ]
}

/// The counts by verdict, shown where the project's license is known.
pub open spec fn verdict_lines(data: Seq<LicenseInfo>) -> Seq<(Tone, Seq<char>)> {
    count_line(
        verdict_count(data, LicenseCompatibility::Compatible, data.len() as int),
        Tone::GreenBold,
        Tone::Green,
        "compatible licenses"@,
    ) + count_line(
        verdict_count(data, LicenseCompatibility::Incompatible, data.len() as int),
        Tone::RedBold,
        Tone::Red,
        "incompatible licenses"@,
    ) + count_line(
        verdict_count(data, LicenseCompatibility::Unknown, data.len() as int),
        Tone::BlueBold,
        Tone::Blue,
        "unknown compatibility"@,
    )
}

/// The summary below a table of dependencies: how many are permissive and how
/// many restrictive; how many are compatible, incompatible and of unknown
/// compatibility, where the project's license is known; how many there are in
/// all; and what to do about it.
pub open spec fn summary_footer_text(data: Seq<LicenseInfo>, project: Option<Seq<char>>) -> Seq<
    (Tone, Seq<char>),
> {
    let restrictive = restrictive_count(data, data.len() as int);
    let incompatible = verdict_count(data, LicenseCompatibility::Incompatible, data.len() as int);
    seq![(Tone::Bold, "🔍 License Summary:"@), line_end()] + count_line(
        (data.len() - restrictive) as nat,
        Tone::GreenBold,
        Tone::Green,
        "permissive licenses"@,
    ) + count_line(restrictive, Tone::YellowBold, Tone::Yellow, "restrictive licenses"@) + (
    if project is Some {
        verdict_lines(data)
    } else {
        Seq::empty()
    }) + seq![(Tone::Plain, "  • "@ + decimal(data.len()) + " total dependencies\n"@)] + advice(
        restrictive,
    ) + (match project {
        Some(id) if incompatible > 0 => incompatibility_warning(id),
        _ => Seq::empty(),
    }) + seq![line_end()]
}

fn put_count_line(out: &mut Vec<Span>, count: usize, strong: Tone, soft: Tone, what: &str)
    ensures
        shown(final(out)@) == shown(old(out)@) + count_line(count as nat, strong, soft, what@),
{
    put(out, Tone::Plain, "  • ");
    let mut number: Vec<char> = Vec::new();
    push_decimal(&mut number, count as u128);
    assert(number@ =~= decimal(count as nat));
    put_chars(out, strong, &number);
    put(out, Tone::Plain, " ");
    put(out, soft, what);
    put(out, Tone::Plain, "\n");
    assert(shown(out@) =~= shown(old(out)@) + count_line(count as nat, strong, soft, what@));
}

fn put_verdict_lines(out: &mut Vec<Span>, data: &Vec<LicenseInfo>)
    ensures
        shown(final(out)@) == shown(old(out)@) + verdict_lines(data@),
{
    put_count_line(
        out,
        count_verdict(data, LicenseCompatibility::Compatible),
        Tone::GreenBold,
        Tone::Green,
        "compatible licenses",
    );
    put_count_line(
        out,
        count_verdict(data, LicenseCompatibility::Incompatible),
        Tone::RedBold,
        Tone::Red,
        "incompatible licenses",
    );
    put_count_line(
        out,
        count_verdict(data, LicenseCompatibility::Unknown),
        Tone::BlueBold,
        Tone::Blue,
        "unknown compatibility",
    );
    assert(shown(out@) =~= shown(old(out)@) + verdict_lines(data@));
}

fn put_advice(out: &mut Vec<Span>, restrictive: usize)
    ensures
        shown(final(out)@) == shown(old(out)@) + advice(restrictive as nat),
{
    put(out, Tone::Plain, "\n");
    if restrictive > 0 {
        put(out, Tone::YellowBold, "⚠️");
        put(out, Tone::Plain, " ");
        put(out, Tone::YellowBold, "Recommendation");
        put(
            out,
            Tone::Plain,
            ": Review these dependencies for compliance with your project's licensing requirements.\n",
        );
    } else {
        put(out, Tone::GreenBold, "✅");
        put(out, Tone::Plain, " ");
        put(out, Tone::GreenBold, "Status");
        put(
            out,
            Tone::Plain,
            ": All dependencies have permissive licenses compatible with most projects.\n",
        );
    }
    assert(shown(out@) =~= shown(old(out)@) + advice(restrictive as nat));
}

fn put_incompatibility_warning(out: &mut Vec<Span>, project: &str)
    ensures
        shown(final(out)@) == shown(old(out)@) + incompatibility_warning(project@),
{
    put(out, Tone::Plain, "\n");
    put(out, Tone::RedBold, "❌");
    put(out, Tone::Plain, " ");
    put(out, Tone::RedBold, "Warning");
    let mut text: Vec<char> = Vec::new();
    push_str(
        &mut text,
        ": Some dependencies have licenses that may be incompatible with your project's ",
    );
    push_str(&mut text, project);
    push_str(&mut text, " license. Review for legal compliance.\n");
    assert(text@
        =~= ": Some dependencies have licenses that may be incompatible with your project's "@
        + project@ + " license. Review for legal compliance.\n"@);
    put_chars(out, Tone::Plain, &text);
    assert(shown(out@) =~= shown(old(out)@) + incompatibility_warning(project@));
}

fn put_summary_footer(out: &mut Vec<Span>, data: &Vec<LicenseInfo>, project_license: Option<&str>)
    ensures
        shown(final(out)@) == shown(old(out)@) + summary_footer_text(
            data@,
            known(project_license),
        ),
{
    let restrictive = count_restrictive(data);
    let incompatible = count_verdict(data, LicenseCompatibility::Incompatible);
    proof {
        lemma_counts_bounded(data@, LicenseCompatibility::Incompatible, data@.len() as int);
    }
    put(out, Tone::Bold, "🔍 License Summary:");
    put(out, Tone::Plain, "\n");
    put_count_line(
        out,
        data.len() - restrictive,
        Tone::GreenBold,
        Tone::Green,
        "permissive licenses",
    );
    put_count_line(out, restrictive, Tone::YellowBold, Tone::Yellow, "restrictive licenses");
    if project_license.is_some() {
        put_verdict_lines(out, data);
    }
    let mut total: Vec<char> = Vec::new();
    push_str(&mut total, "  • ");
    push_decimal(&mut total, data.len() as u128);
    push_str(&mut total, " total dependencies\n");
    assert(total@ =~= "  • "@ + decimal(data@.len()) + " total dependencies\n"@);
    put_chars(out, Tone::Plain, &total);
    put_advice(out, restrictive);
    match project_license {
        Some(id) => {
            if incompatible > 0 {
                put_incompatibility_warning(out, id);
            }
        },
        None => {},
    }
    put(out, Tone::Plain, "\n");
    assert(shown(out@) =~= shown(old(out)@) + summary_footer_text(
        data@,
        known(project_license),
    ));
}

/// The summary below a table of dependencies.
pub fn summary_footer(data: &Vec<LicenseInfo>, project_license: Option<&str>) -> (spans: Vec<
    Span,
>)
    ensures
        shown(spans@) == summary_footer_text(data@, known(project_license)),
{
    let mut spans: Vec<Span> = Vec::new();
    put_summary_footer(&mut spans, data, project_license);
    assert(shown(spans@) =~= summary_footer_text(data@, known(project_license)));
    spans
}

/// A truth value as it is written.
pub open spec fn flag_text(flag: bool) -> Seq<char> {
    if flag {
        "true"@
    } else {
        "false"@
    }
}

/// The headings of the detailed table; compatibility has a column where the
/// project's license is known.
pub open spec fn verbose_headers(with_compatibility: bool) -> Seq<Seq<char>> {
    if with_compatibility {
        seq!["Name"@, "Version"@, "License"@, "Restrictive"@, "Compatibility"@]
    } else {
        seq!["Name"@, "Version"@, "License"@, "Restrictive"@]
    }
}

/// The cells that the detailed table shows of a record.
pub open spec fn verbose_row(info: LicenseInfo, with_compatibility: bool) -> Seq<Seq<char>> {
    if with_compatibility {
        seq![
            info.name@,
            info.version@,
            info.license_text(),
            flag_text(info.is_restrictive),
            info.compatibility.text(),
        ]
    } else {
        seq![info.name@, info.version@, info.license_text(), flag_text(info.is_restrictive)]
    }
}

/// Whether the detailed table marks a record as a problem: it does where the
/// license is restrictive or incompatible.
pub open spec fn is_problem(info: LicenseInfo) -> bool {
    info.is_restrictive || info.compatibility == LicenseCompatibility::Incompatible
}

/// The detailed report: after an empty line, the table of all records, the
/// problems marked, and, unless only restrictive licenses are shown, the
/// summary.
pub open spec fn verbose_text(data: Seq<LicenseInfo>, strict: bool, project: Option<Seq<char>>)
    -> Seq<(Tone, Seq<char>)> {
    seq![line_end()] + table(
        verbose_headers(project is Some),
        Seq::new(data.len(), |i: int| verbose_row(data[i], project is Some)),
        Seq::new(data.len(), |i: int| is_problem(data[i])),
    ) + seq![line_end()] + (if strict {
        Seq::empty()
    } else {
        summary_footer_text(data, project)
    })
}

/// The detailed report.
pub fn verbose_table(data: &Vec<LicenseInfo>, strict: bool, project_license: Option<&str>) -> (spans:
    Vec<Span>)
    ensures
        shown(spans@) == verbose_text(data@, strict, known(project_license)),
{
    let with_compatibility = project_license.is_some();
    let ghost wanted_rows = Seq::new(
        data@.len(),
        |i: int| verbose_row(data@[i], with_compatibility),
    );
    let ghost wanted_flags = Seq::new(data@.len(), |i: int| is_problem(data@[i]));
    let mut headers = vec![
        "Name".to_owned(),
        "Version".to_owned(),
        "License".to_owned(),
        "Restrictive".to_owned(),
    ];
    if with_compatibility {
        headers.push("Compatibility".to_owned());
    }
    assert(texts(headers@) =~= verbose_headers(with_compatibility));
    let mut rows: Vec<Vec<String>> = Vec::new();
    let mut flags: Vec<bool> = Vec::new();
    let mut i: usize = 0;
    while i < data.len()
        invariant
            i <= data.len(),
            rows@.len() == i,
            flags@.len() == i,
            forall|j: int|
                0 <= j < i ==> texts(#[trigger] rows@[j]@) == verbose_row(
                    data@[j],
                    with_compatibility,
                ),
            forall|j: int| 0 <= j < i ==> #[trigger] flags@[j] == is_problem(data@[j]),
        decreases data.len() - i,
    {
        let info = &data[i];
        let mut row = vec![
            info.name.clone(),
            info.version.clone(),
            info.get_license(),
            if info.is_restrictive {
                "true".to_owned()
            } else {
                "false".to_owned()
            },
        ];
        if with_compatibility {
            row.push(info.compatibility.to_string());
        }
        assert(texts(row@) =~= verbose_row(*info, with_compatibility));
        rows.push(row);
        flags.push(
            info.is_restrictive || info.compatibility == LicenseCompatibility::Incompatible,
        );
        i += 1;
    }
    assert(cell_texts(rows@) =~= wanted_rows);
    assert(flags@ =~= wanted_flags);
    let mut spans: Vec<Span> = Vec::new();
    put(&mut spans, Tone::Plain, "\n");
    put_table(&mut spans, headers, &rows, &flags);
    put(&mut spans, Tone::Plain, "\n");
    if !strict {
        put_summary_footer(&mut spans, data, project_license);
    }
    assert(shown(spans@) =~= verbose_text(data@, strict, known(project_license)));
    spans
}

/// How many of the first `n` records are not restrictive and show `license`.
pub open spec fn permissive_count(data: Seq<LicenseInfo>, license: Seq<char>, n: int) -> nat
    decreases n,
{
    if n <= 0 || n > data.len() {
        0
    } else {
        permissive_count(data, license, n - 1) + if !data[n - 1].is_restrictive && data[n
            - 1].license_text() == license {
            1nat
        } else {
            0nat
        }
    }
}

/// How many of the first `n` names come before `name`, counted from the front
/// up to the first that does not.
pub open spec fn place_of(names: Seq<Seq<char>>, name: Seq<char>, n: int) -> int
    decreases names.len() - n,
{
    if n < 0 || n >= names.len() || text_order(names[n], name) != Order::Before {
        n
    } else {
        place_of(names, name, n + 1)
    }
}

/// The licenses that the first `n` records show, those of restrictive records
/// left out: each once, and each new one put before the first that does not
/// come before it, so that they stand in the order of their names.
pub open spec fn permissive_licenses(data: Seq<LicenseInfo>, n: int) -> Seq<Seq<char>>
    decreases n,
{
    if n <= 0 || n > data.len() {
        Seq::empty()
    } else {
        let before = permissive_licenses(data, n - 1);
        let license = data[n - 1].license_text();
        if data[n - 1].is_restrictive || before.contains(license) {
            before
        } else {
            before.insert(place_of(before, license, 0), license)
        }
    }
}

/// The rows of the tally: each permissive license with the number of records
/// that show it.
pub open spec fn tally_rows(data: Seq<LicenseInfo>) -> Seq<Seq<Seq<char>>> {
    let licenses = permissive_licenses(data, data.len() as int);
    Seq::new(
        licenses.len(),
        |i: int| seq![licenses[i], decimal(permissive_count(data, licenses[i], data.len() as int))],
    )
}

/// The permissive licenses and how many records show each.
fn tally(data: &Vec<LicenseInfo>) -> (rows: Vec<Vec<String>>)
    ensures
        cell_texts(rows@) == tally_rows(data@),
{
    let mut names: Vec<String> = Vec::new();
    let mut counts: Vec<usize> = Vec::new();
    let mut i: usize = 0;
    assert(texts(names@) =~= permissive_licenses(data@, 0));
    while i < data.len()
        invariant
            i <= data.len(),
            names@.len() == counts@.len(),
            texts(names@) == permissive_licenses(data@, i as int),
            texts(names@).no_duplicates(),
            forall|j: int|
                0 <= j < counts@.len() ==> #[trigger] counts@[j] == permissive_count(
                    data@,
                    names@[j]@,
                    i as int,
                ) && counts@[j] <= i,
            forall|license: Seq<char>|
                !texts(names@).contains(license) ==> #[trigger] permissive_count(
                    data@,
                    license,
                    i as int,
                ) == 0,
        decreases data.len() - i,
    {
        let info = &data[i];
        if !info.is_restrictive {
            let license = info.get_license();
            let license_chars = chars_of(license.as_str());
            let ghost before = texts(names@);
            let mut found: Option<usize> = None;
            let mut place: Option<usize> = None;
            let mut j: usize = 0;
            while j < names.len()
                invariant
                    j <= names.len(),
                    before == texts(names@),
                    license_chars@ == license@,
                    match found {
                        Some(at) => at < names@.len() && names@[at as int]@ == license@,
                        None => forall|k: int| 0 <= k < j ==> names@[k]@ != license@,
                    },
                    match place {
                        Some(at) => at < j && place_of(before, license@, 0) == at,
                        None => place_of(before, license@, 0) == place_of(
                            before,
                            license@,
                            j as int,
                        ),
                    },
                decreases names.len() - j,
            {
                let name = chars_of(names[j].as_str());
                let order = order_of_texts(&name, &license_chars);
                assert(before[j as int] == names@[j as int]@);
                proof {
                    lemma_same_place_same_text(name@, license_chars@);
                }
                if order == Order::Same && found.is_none() {
                    found = Some(j);
                }
                if order != Order::Before && place.is_none() {
                    place = Some(j);
                }
                j += 1;
            }
            match found {
                Some(at) => {
                    assert(before[at as int] == license@);
                    assert(before.contains(license@));
                    counts[at] = counts[at] + 1;
                    assert forall|k: int| 0 <= k < counts@.len() implies #[trigger] counts@[k]
                        == permissive_count(data@, names@[k]@, i + 1) && counts@[k] <= i + 1 by {
                        if k != at {
                            assert(before[k] == names@[k]@);
                            assert(before[k] != before[at as int]);
                        }
                    }
                    assert(texts(names@) =~= before);
                    assert forall|other: Seq<char>|
                        !texts(names@).contains(other) implies #[trigger] permissive_count(
                        data@,
                        other,
                        i + 1,
                    ) == 0 by {
                        assert(permissive_count(data@, other, i as int) == 0);
                    }
                },
                None => {
                    assert(!before.contains(license@)) by {
                        if before.contains(license@) {
                            let k = choose|k: int| 0 <= k < before.len() && before[k] == license@;
                            assert(names@[k]@ == license@);
                        }
                    }
                    let at = match place {
                        Some(at) => at,
                        None => names.len(),
                    };
                    assert(at == place_of(before, license@, 0));
                    let ghost old_names = names@;
                    let ghost old_counts = counts@;
                    names.insert(at, license);
                    counts.insert(at, 1);
                    assert(texts(names@) =~= before.insert(at as int, license@));
                    assert forall|a: int, b: int|
                        0 <= a < texts(names@).len() && 0 <= b < texts(names@).len() && a
                            != b implies texts(names@)[a] != texts(names@)[b] by {
                        let a0 = if a < at {
                            a
                        } else {
                            a - 1
                        };
                        let b0 = if b < at {
                            b
                        } else {
                            b - 1
                        };
                        if a != at && b != at {
                            assert(before[a0] != before[b0]);
                        } else if a == at {
                            assert(before[b0] != license@);
                        } else {
                            assert(before[a0] != license@);
                        }
                    }
                    assert forall|k: int| 0 <= k < counts@.len() implies #[trigger] counts@[k]
                        == permissive_count(data@, names@[k]@, i + 1) && counts@[k] <= i + 1 by {
                        if k < at {
                            assert(names@[k] == old_names[k]);
                            assert(before[k] == old_names[k]@);
                            assert(counts@[k] == old_counts[k]);
                        } else if k > at {
                            assert(names@[k] == old_names[k - 1]);
                            assert(before[k - 1] == old_names[k - 1]@);
                            assert(counts@[k] == old_counts[k - 1]);
                        } else {
                            assert(permissive_count(data@, license@, i as int) == 0);
                        }
                    }
                    assert forall|other: Seq<char>|
                        !texts(names@).contains(other) implies #[trigger] permissive_count(
                        data@,
                        other,
                        i + 1,
                    ) == 0 by {
                        assert(texts(names@)[at as int] == license@);
                        if before.contains(other) {
                            let k = choose|k: int| 0 <= k < before.len() && before[k] == other;
                            let k1 = if k < at {
                                k
                            } else {
                                k + 1
                            };
                            assert(texts(names@)[k1] == other);
                        }
                        assert(permissive_count(data@, other, i as int) == 0);
                    }
                },
            }
        } else {
            assert forall|k: int| 0 <= k < counts@.len() implies #[trigger] counts@[k]
                == permissive_count(data@, names@[k]@, i + 1) && counts@[k] <= i + 1 by {}
            assert forall|other: Seq<char>|
                !texts(names@).contains(other) implies #[trigger] permissive_count(
                data@,
                other,
                i + 1,
            ) == 0 by {
                assert(permissive_count(data@, other, i as int) == 0);
            }
        }
        i += 1;
    }
    let mut rows: Vec<Vec<String>> = Vec::new();
    let mut k: usize = 0;
    while k < names.len()
        invariant
            k <= names.len(),
            names@.len() == counts@.len(),
            rows@.len() == k,
            forall|j: int|
                0 <= j < k ==> texts(#[trigger] rows@[j]@) == seq![
                    names@[j]@,
                    decimal(counts@[j] as nat),
                ],
        decreases names.len() - k,
    {
        let mut number: Vec<char> = Vec::new();
        push_decimal(&mut number, counts[k] as u128);
        assert(number@ =~= decimal(counts@[k as int] as nat));
        let row = vec![names[k].clone(), string_from_chars(&number)];
        assert(texts(row@) =~= seq![names@[k as int]@, decimal(counts@[k as int] as nat)]);
        rows.push(row);
        k += 1;
    }
    assert(cell_texts(rows@) =~= tally_rows(data@)) by {
        assert forall|j: int| 0 <= j < names@.len() implies texts(names@)[j] == names@[j]@ by {}
    }
    rows
}

/// The line that names the project's license.
pub open spec fn project_line(project: Seq<char>) -> Seq<(Tone, Seq<char>)> {
    seq![
        line_end(),
        (Tone::Bold, "📄"@),
        (Tone::Plain, " "@),
        (Tone::Bold, "Project License: "@ + project),
        line_end(),
    ]
}

/// The tally of permissive licenses under its heading, and the number of
/// dependencies scanned.
pub open spec fn tally_text(data: Seq<LicenseInfo>, total_packages: nat) -> Seq<(Tone, Seq<char>)> {
    seq![
        line_end(),
        (Tone::Bold, "🔍"@),
        (Tone::Plain, " "@),
        (Tone::BoldUnderline, "License Summary"@),
        (Tone::Plain, "\n\n"@),
    ] + table(
        seq!["License Type"@, "Count"@],
        tally_rows(data),
        Seq::new(tally_rows(data).len(), |i: int| true),
    ) + seq![
        line_end(),
        (Tone::Bold, "📦"@),
        (Tone::Plain, " "@),
        (Tone::Bold, "Total dependencies scanned: "@ + decimal(total_packages)),
        line_end(),
    ]
}

/// The good news that a table would have been empty.
pub open spec fn none_found(what: Seq<char>) -> Seq<(Tone, Seq<char>)> {
    seq![line_end(), (Tone::GreenBold, what), (Tone::Plain, "\n\n"@)]
}

/// The summary report. Where only restrictive licenses are shown, it is the
/// table of all records under the warning. Otherwise: the project's license
/// where it is known; the tally of permissive licenses; the restrictive
/// records, or the news that there are none; and, where the project's license
/// is known, the incompatible records, or the news that there are none.
pub open spec fn summary_text(
    data: Seq<LicenseInfo>,
    total_packages: nat,
    strict: bool,
    project: Option<Seq<char>>,
) -> Seq<(Tone, Seq<char>)> {
    if strict {
        restrictive_table(picked(data, Pick::All, data.len() as int))
    } else {
        (match project {
            Some(id) => project_line(id),
            None => Seq::empty(),
        }) + tally_text(data, total_packages) + (if restrictive_count(data, data.len() as int)
            > 0 {
            restrictive_table(picked(data, Pick::Restrictive, data.len() as int))
        } else {
            none_found("✅ No restrictive licenses found! 🎉"@)
        }) + (match project {
            Some(id) => if verdict_count(
                data,
                LicenseCompatibility::Incompatible,
                data.len() as int,
            ) > 0 {
                incompatible_table(picked(data, Pick::Incompatible, data.len() as int), id)
            } else {
                none_found("✅ No incompatible licenses found! 🎉"@)
            },
            None => Seq::empty(),
        })
    }
}

fn put_project_line(out: &mut Vec<Span>, project: &str)
    ensures
        shown(final(out)@) == shown(old(out)@) + project_line(project@),
{
    put(out, Tone::Plain, "\n");
    put(out, Tone::Bold, "📄");
    put(out, Tone::Plain, " ");
    let mut text: Vec<char> = Vec::new();
    push_str(&mut text, "Project License: ");
    push_str(&mut text, project);
    put_chars(out, Tone::Bold, &text);
    put(out, Tone::Plain, "\n");
    assert(shown(out@) =~= shown(old(out)@) + project_line(project@));
}

fn put_tally(out: &mut Vec<Span>, data: &Vec<LicenseInfo>, total_packages: usize)
    ensures
        shown(final(out)@) == shown(old(out)@) + tally_text(data@, total_packages as nat),
{
    put(out, Tone::Plain, "\n");
    put(out, Tone::Bold, "🔍");
    put(out, Tone::Plain, " ");
    put(out, Tone::BoldUnderline, "License Summary");
    put(out, Tone::Plain, "\n\n");
    let rows = tally(data);
    let mut flags: Vec<bool> = Vec::new();
    let mut i: usize = 0;
    while i < rows.len()
        invariant
            i <= rows.len(),
            flags@ == Seq::new(i as nat, |i: int| true),
        decreases rows.len() - i,
    {
        flags.push(true);
        assert(flags@ =~= Seq::new((i + 1) as nat, |i: int| true));
        i += 1;
    }
    let headers = vec!["License Type".to_owned(), "Count".to_owned()];
    assert(texts(headers@) =~= seq!["License Type"@, "Count"@]);
    assert(cell_texts(rows@).len() == rows@.len());
    put_table(out, headers, &rows, &flags);
    put(out, Tone::Plain, "\n");
    put(out, Tone::Bold, "📦");
    put(out, Tone::Plain, " ");
    let mut text: Vec<char> = Vec::new();
    push_str(&mut text, "Total dependencies scanned: ");
    push_decimal(&mut text, total_packages as u128);
    put_chars(out, Tone::Bold, &text);
    put(out, Tone::Plain, "\n");
    assert(shown(out@) =~= shown(old(out)@) + tally_text(data@, total_packages as nat));
}

fn put_none_found(out: &mut Vec<Span>, what: &str)
    ensures
        shown(final(out)@) == shown(old(out)@) + none_found(what@),
{
    put(out, Tone::Plain, "\n");
    put(out, Tone::GreenBold, what);
    put(out, Tone::Plain, "\n\n");
    assert(shown(out@) =~= shown(old(out)@) + none_found(what@));
}

/// The summary report on `data`, of `total_packages` dependencies scanned.
pub fn summary_table(
    data: &Vec<LicenseInfo>,
    total_packages: usize,
    strict: bool,
    project_license: Option<&str>,
) -> (spans: Vec<Span>)
    ensures
        shown(spans@) == summary_text(
            data@,
            total_packages as nat,
            strict,
            known(project_license),
        ),
{
    if strict {
        return restrictive_licenses_table(data, Pick::All);
    }
    let mut spans: Vec<Span> = Vec::new();
    match project_license {
        Some(id) => {
            put_project_line(&mut spans, id);
        },
        None => {},
    }
    put_tally(&mut spans, data, total_packages);
    if count_restrictive(data) > 0 {
        put_all(&mut spans, restrictive_licenses_table(data, Pick::Restrictive));
    } else {
        put_none_found(&mut spans, "✅ No restrictive licenses found! 🎉");
    }
    match project_license {
        Some(id) => {
            if count_verdict(data, LicenseCompatibility::Incompatible) > 0 {
                put_all(&mut spans, incompatible_licenses_table(data, id));
            } else {
                put_none_found(&mut spans, "✅ No incompatible licenses found! 🎉");
            }
        },
        None => {},
    }
    assert(shown(spans@) =~= summary_text(
        data@,
        total_packages as nat,
        strict,
        known(project_license),
    ));
    spans
}

/// What a report consists of.
#[derive(Debug)]
pub enum ReportBody {
    /// Nothing is listed: the news that all dependencies passed.
    AllClear,
    /// A text for a continuous-integration system.
    Text(String),
    /// The listed records as JSON; encoding them is the caller's business.
    Json,
    /// The listed records as YAML; encoding them is the caller's business.
    Yaml,
    /// A table for the terminal.
    Lines(Vec<Span>),
}

/// A report: what it lists, what it found, and what is to be shown.
#[derive(Debug)]
pub struct Report {
    /// Whether a listed record is restrictive.
    pub has_restrictive: bool,
    /// Whether a listed record is incompatible.
    pub has_incompatible: bool,
    /// The records that the report lists.
    pub listed: Vec<LicenseInfo>,
    /// What is to be shown.
    pub body: ReportBody,
}

/// The news that all dependencies passed, as it is written to a file.
pub open spec fn all_clear_text() -> Seq<char> {
    "\n🎉 All dependencies passed the license check! No restrictive or incompatible licenses found.\n"@
}

/// The news that all dependencies passed, as it is written to a file.
pub fn all_clear_message() -> (message: &'static str)
    ensures
        message@ == all_clear_text(),
{
    "\n🎉 All dependencies passed the license check! No restrictive or incompatible licenses found.\n"
}

/// The news that all dependencies passed, as it is shown on the terminal.
pub fn all_clear_lines() -> (spans: Vec<Span>)
    ensures
        shown(spans@) == seq![
            line_end(),
            (Tone::GreenBold, all_clear_text()),
            (Tone::Plain, "\n\n"@),
        ],
{
    let mut spans: Vec<Span> = Vec::new();
    put(&mut spans, Tone::Plain, "\n");
    put(&mut spans, Tone::GreenBold, all_clear_message());
    put(&mut spans, Tone::Plain, "\n\n");
    assert(shown(spans@) =~= seq![
        line_end(),
        (Tone::GreenBold, all_clear_text()),
        (Tone::Plain, "\n\n"@),
    ]);
    spans
}

/// The records that a report lists: the restrictive ones where only those are
/// wanted, and all of them otherwise.
pub open spec fn listed(data: Seq<LicenseInfo>, strict: bool) -> Seq<LicenseInfo> {
    if strict {
        picked(data, Pick::Restrictive, data.len() as int)
    } else {
        data
    }
}

/// What is shown of the records that a report lists. With nothing listed it is
/// the news that all passed. Otherwise the first of these that is asked for:
/// the text for a continuous-integration system, JSON, YAML, the detailed
/// table; and the summary where none is.
pub open spec fn body_matches(
    body: ReportBody,
    rows: Seq<LicenseInfo>,
    total_packages: nat,
    config: ReportConfig,
) -> bool {
    let project = declared_project(config);
    if rows.len() == 0 {
        body is AllClear
    } else {
        match config.ci_format {
            Some(CiFormat::Github) => body matches ReportBody::Text(text) && text@ == github_text(
                rows,
                project,
            ),
            Some(CiFormat::Jenkins) => body matches ReportBody::Text(text) && text@
                == jenkins_text(rows, project),
            None => if config.json {
                body is Json
            } else if config.yaml {
                body is Yaml
            } else if config.verbose {
                body matches ReportBody::Lines(lines) && shown(lines@) == verbose_text(
                    rows,
                    config.strict,
                    project,
                )
            } else {
                body matches ReportBody::Lines(lines) && shown(lines@) == summary_text(
                    rows,
                    total_packages,
                    config.strict,
                    project,
                )
            },
        }
    }
}

/// The project's license that a configuration names, if it names one.
pub open spec fn declared_project(config: ReportConfig) -> Option<Seq<char>> {
    match config.project_license {
        Some(id) => Some(id@),
        None => None,
    }
}

/// A copy of a record.
fn copy_of(info: &LicenseInfo) -> (copy: LicenseInfo)
    ensures
        copy == *info,
{
    LicenseInfo {
        name: info.name.clone(),
        version: info.version.clone(),
        license: match &info.license {
            Some(id) => Some(id.clone()),
            None => None,
        },
        is_restrictive: info.is_restrictive,
        compatibility: info.compatibility,
    }
}

/// Copies of the records that a report lists.
fn list(data: &Vec<LicenseInfo>, strict: bool) -> (rows: Vec<LicenseInfo>)
    ensures
        rows@ == listed(data@, strict),
{
    let mut rows: Vec<LicenseInfo> = Vec::new();
    let mut i: usize = 0;
    while i < data.len()
        invariant
            i <= data.len(),
            strict ==> rows@ == picked(data@, Pick::Restrictive, i as int),
            !strict ==> rows@ == data@.take(i as int),
        decreases data.len() - i,
    {
        if !strict || data[i].is_restrictive {
            rows.push(copy_of(&data[i]));
        }
        assert(!strict ==> rows@ =~= data@.take(i + 1));
        i += 1;
    }
    assert(data@.take(i as int) =~= data@);
    rows
}

/// Generates the report that `config` asks for on `data`: what it lists, what
/// it found among the listed records, and what is to be shown.
pub fn generate_report(data: &Vec<LicenseInfo>, config: &ReportConfig) -> (report: Report)
    ensures
        report.listed@ == listed(data@, config.strict),
        report.has_restrictive == (restrictive_count(report.listed@, report.listed@.len() as int)
            > 0),
        report.has_incompatible == (verdict_count(
            report.listed@,
            LicenseCompatibility::Incompatible,
            report.listed@.len() as int,
        ) > 0),
        body_matches(report.body, report.listed@, data@.len(), *config),
{
    let rows = list(data, config.strict);
    let has_restrictive = count_restrictive(&rows) > 0;
    let has_incompatible = count_verdict(&rows, LicenseCompatibility::Incompatible) > 0;
    let project: Option<&str> = match &config.project_license {
        Some(id) => Some(id.as_str()),
        None => None,
    };
    assert(known(project) == declared_project(*config));
    let body = if rows.len() == 0 {
        ReportBody::AllClear
    } else {
        match config.ci_format {
            Some(CiFormat::Github) => ReportBody::Text(output_github_format(&rows, project)),
            Some(CiFormat::Jenkins) => ReportBody::Text(output_jenkins_format(&rows, project)),
            None => if config.json {
                ReportBody::Json
            } else if config.yaml {
                ReportBody::Yaml
            } else if config.verbose {
                ReportBody::Lines(verbose_table(&rows, config.strict, project))
            } else {
                ReportBody::Lines(summary_table(&rows, data.len(), config.strict, project))
            },
        }
    };
    Report { has_restrictive, has_incompatible, listed: rows, body }
}

} // verus!
