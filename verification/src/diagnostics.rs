//! Which diagnostics of a file are published.
use crate::config::{Config, DiagnosticConfig, Warnings};
use crate::path::{PathView, ProjectPath};
use lsp_types::Diagnostic;
use vstd::prelude::*;

verus! {

#[verifier::external_type_specification]
#[verifier::external_body]
pub struct ExDiagnostic(Diagnostic);

/// `Diagnostic::clone`, which copies every field: the copy is the same diagnostic.
pub assume_specification[ <Diagnostic as Clone>::clone ](diagnostic: &Diagnostic) -> (copy:
    Diagnostic)
    ensures
        copy == *diagnostic,
;

/// What the compiler reported for a file.
#[derive(Debug)]
pub struct Diagnostics {
    pub warnings: Vec<Diagnostic>,
    pub errors: Vec<Diagnostic>,
}

/// What a session has found that may be published for a file.
#[derive(Debug)]
pub struct Findings {
    /// A warning for each parsed token of the file.
    pub parsed_tokens: Vec<Diagnostic>,
    /// A warning for each typed token of the file.
    pub typed_tokens: Vec<Diagnostic>,
    /// What the compiler reported, for each file. Of two reports for one file the first counts.
    pub reports: Vec<(ProjectPath, Diagnostics)>,
}

/// The report for the file at `path`.
pub open spec fn report_for(
    reports: Seq<(ProjectPath, Diagnostics)>,
    path: PathView,
) -> Option<Diagnostics>
    decreases reports.len(),
{
    if reports.len() == 0 {
        None
    } else if reports[0].0@ == path {
        Some(reports[0].1)
    } else {
        report_for(reports.skip(1), path)
    }
}

/// The part of a report that is shown: its warnings, then its errors, each unless it is switched
/// off.
pub open spec fn shown(report: Diagnostics, config: DiagnosticConfig) -> Seq<Diagnostic> {
    let warnings = if config.show_warnings {
        report.warnings@
    } else {
        Seq::empty()
    };
    let errors = if config.show_errors {
        report.errors@
    } else {
        Seq::empty()
    };
    warnings + errors
}

/// The diagnostics to publish for the file at `path`: the parsed or the typed tokens where these
/// are asked for, and otherwise what is shown of the report for the file.
pub open spec fn to_publish(
    findings: Findings,
    path: PathView,
    config: Config,
) -> Seq<Diagnostic> {
    match config.debug.show_collected_tokens_as_warnings {
        Warnings::Parsed => findings.parsed_tokens@,
        Warnings::Typed => findings.typed_tokens@,
        Warnings::Default => match report_for(findings.reports@, path) {
            Some(report) => shown(report, config.diagnostic),
            None => Seq::empty(),
        },
    }
}

fn find_report<'a>(
    reports: &'a Vec<(ProjectPath, Diagnostics)>,
    path: &ProjectPath,
) -> (report: Option<&'a Diagnostics>)
    ensures
        match report {
            Some(found) => report_for(reports@, path@) == Some(*found),
            None => report_for(reports@, path@) is None,
        },
{
    let mut at: usize = 0;
    assert(reports@.skip(0) == reports@);
    while at < reports.len()
        invariant
            at <= reports.len(),
            report_for(reports@, path@) == report_for(reports@.skip(at as int), path@),
        decreases reports.len() - at,
    {
        let ghost rest = reports@.skip(at as int);
        assert(rest[0] == reports@[at as int]);
        assert(rest.skip(1) == reports@.skip(at + 1));
        if reports[at].0.same(path) {
            return Some(&reports[at].1);
        }
        at = at + 1;
    }
    None
}

fn append_all(list: &mut Vec<Diagnostic>, more: &Vec<Diagnostic>)
    ensures
        final(list)@ == old(list)@ + more@,
{
    let mut at: usize = 0;
    while at < more.len()
        invariant
            at <= more.len(),
            list@ == old(list)@ + more@.take(at as int),
        decreases more.len() - at,
    {
        list.push(more[at].clone());
        assert(more@.take(at + 1) == more@.take(at as int).push(more@[at as int]));
        at = at + 1;
    }
    assert(more@.take(at as int) == more@);
}

/// The diagnostics to publish for the file at `path`.
pub fn diagnostics_for(
    findings: &Findings,
    path: &ProjectPath,
    config: &Config,
) -> (diagnostics: Vec<Diagnostic>)
    ensures
        diagnostics@ == to_publish(*findings, path@, *config),
{
    let mut diagnostics_to_publish: Vec<Diagnostic> = Vec::new();
    match config.debug.show_collected_tokens_as_warnings {
        // The tokens take over the normal error and warning display. This is useful for
        // debugging the parser.
        Warnings::Parsed => append_all(&mut diagnostics_to_publish, &findings.parsed_tokens),
        Warnings::Typed => append_all(&mut diagnostics_to_publish, &findings.typed_tokens),
        Warnings::Default => {
            if let Some(diagnostics) = find_report(&findings.reports, path) {
                if config.diagnostic.show_warnings {
                    append_all(&mut diagnostics_to_publish, &diagnostics.warnings);
                }
                if config.diagnostic.show_errors {
                    append_all(&mut diagnostics_to_publish, &diagnostics.errors);
                }
            }
        },
    }
    diagnostics_to_publish
}

/// The first report for a file is the one that counts.
proof fn lemma_first_report(reports: Seq<(ProjectPath, Diagnostics)>, path: PathView, i: int)
    requires
        0 <= i < reports.len(),
        reports[i].0@ == path,
        forall|j: int| 0 <= j < i ==> (#[trigger] reports[j]).0@ != path,
    ensures
        report_for(reports, path) == Some(reports[i].1),
    decreases i,
{
    if i > 0 {
        let rest = reports.skip(1);
        assert(rest[i - 1] == reports[i]);
        assert forall|j: int| 0 <= j < i - 1 implies (#[trigger] rest[j]).0@ != path by {
            assert(rest[j] == reports[j + 1]);
        }
        assert(reports[0].0@ != path);
        lemma_first_report(rest, path, i - 1);
    }
}

proof fn lemma_no_report(reports: Seq<(ProjectPath, Diagnostics)>, path: PathView)
    requires
        forall|j: int| 0 <= j < reports.len() ==> (#[trigger] reports[j]).0@ != path,
    ensures
        report_for(reports, path) is None,
    decreases reports.len(),
{
    if reports.len() > 0 {
        let rest = reports.skip(1);
        assert(reports[0].0@ != path);
        assert forall|j: int| 0 <= j < rest.len() implies (#[trigger] rest[j]).0@ != path by {
            assert(rest[j] == reports[j + 1]);
        }
        lemma_no_report(rest, path);
    }
}

/// Where tokens are asked for, the tokens and nothing else are published, whatever was reported
/// and whatever is switched off.
pub proof fn law_tokens_take_over(findings: Findings, path: PathView, config: Config)
    ensures
        config.debug.show_collected_tokens_as_warnings == Warnings::Parsed ==> to_publish(
            findings,
            path,
            config,
        ) == findings.parsed_tokens@,
        config.debug.show_collected_tokens_as_warnings == Warnings::Typed ==> to_publish(
            findings,
            path,
            config,
        ) == findings.typed_tokens@,
{
}

/// Of a file with a report, all warnings are published if warnings are shown, whatever the errors
/// are, and then all errors if errors are shown, whatever the warnings are. Nothing else is.
pub proof fn law_report_is_published(
    findings: Findings,
    path: PathView,
    config: Config,
    i: int,
)
    requires
        config.debug.show_collected_tokens_as_warnings == Warnings::Default,
        0 <= i < findings.reports@.len(),
        findings.reports@[i].0@ == path,
        forall|j: int| 0 <= j < i ==> (#[trigger] findings.reports@[j]).0@ != path,
    ensures
        ({
            let published = to_publish(findings, path, config);
            let warnings = findings.reports@[i].1.warnings@;
            let errors = findings.reports@[i].1.errors@;
            &&& config.diagnostic.show_warnings ==> published.len() >= warnings.len()
                && published.take(warnings.len() as int) == warnings
            &&& config.diagnostic.show_errors ==> published.len() >= errors.len()
                && published.skip(published.len() - errors.len()) == errors
            &&& published.len() == (if config.diagnostic.show_warnings {
                warnings.len()
            } else {
                0
            }) + (if config.diagnostic.show_errors {
                errors.len()
            } else {
                0
            })
        }),
{
    lemma_first_report(findings.reports@, path, i);
    let published = to_publish(findings, path, config);
    let report = findings.reports@[i].1;
    if config.diagnostic.show_warnings {
        assert(published.take(report.warnings@.len() as int) =~= report.warnings@);
    }
    if config.diagnostic.show_errors {
        assert(published.skip(published.len() - report.errors@.len()) =~= report.errors@);
    }
}

/// Of a file without a report nothing is published, unless tokens are asked for.
pub proof fn law_nothing_without_report(findings: Findings, path: PathView, config: Config)
    requires
        config.debug.show_collected_tokens_as_warnings == Warnings::Default,
        forall|j: int|
            0 <= j < findings.reports@.len() ==> (#[trigger] findings.reports@[j]).0@ != path,
    ensures
        to_publish(findings, path, config).len() == 0,
{
    lemma_no_report(findings.reports@, path);
}

} // verus!
