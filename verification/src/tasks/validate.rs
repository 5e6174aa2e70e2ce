//! Validation of the registries, layers and configuration files.
use vstd::prelude::*;
use crate::cli::{TaskRun, ValidateArgs, selected_profile};
use crate::path::{path_starts_with, starts_with};
use crate::profile::{ActiveProfile, ResolvedSource, SourceLayer, resolved_view};
use crate::registries::configs_registry::{ConfigsRegistry, RegistryEntry};
use crate::registries::package_registry::{PackageManagerEntry, PackageRegistry, compatible_pairs};
use crate::registries::{copies, enabled_pairs};
use crate::utils::system::{CommandLookup, Platform, found_flags, found_of, look_up_commands, looked_up};
use crate::tasks::task_core::PlannedOperation;
use crate::text::{IntoText, decimal, ends_with_str, has_suffix, owned, to_decimal};

verus! {

/// Severity level of a validation finding.
#[derive(Debug, Clone, Copy, PartialEq, Eq, Structural)]
pub enum Severity {
    Error,
    Warning,
    Info,
}

impl Severity {
    pub open spec fn label(&self) -> Seq<char> {
        match self {
            Severity::Error => "ERROR"@,
            Severity::Warning => "WARNING"@,
            Severity::Info => "INFO"@,
        }
    }

    /// The name of the severity in capitals.
    pub fn to_string(&self) -> (r: String)
        ensures
            r@ == self.label(),
    {
        match self {
            Severity::Error => owned("ERROR"),
            Severity::Warning => owned("WARNING"),
            Severity::Info => owned("INFO"),
        }
    }
}

/// A validation finding: severity, message and an optional suggested fix.
#[derive(Debug, Clone)]
pub struct ValidationError {
    pub severity: Severity,
    pub message: String,
    pub fix_suggestion: Option<String>,
}

impl ValidationError {
    /// An error-level finding without a fix.
    pub fn error<M: IntoText>(message: M) -> (r: Self)
        ensures
            r.severity == Severity::Error,
            r.message@ == message.text_view(),
            r.fix_suggestion is None,
    {
        ValidationError { severity: Severity::Error, message: message.into_text(), fix_suggestion: None }
    }

    /// A warning-level finding without a fix.
    pub fn warning<M: IntoText>(message: M) -> (r: Self)
        ensures
            r.severity == Severity::Warning,
            r.message@ == message.text_view(),
            r.fix_suggestion is None,
    {
        ValidationError { severity: Severity::Warning, message: message.into_text(), fix_suggestion: None }
    }

    /// An info-level finding without a fix.
    pub fn info<M: IntoText>(message: M) -> (r: Self)
        ensures
            r.severity == Severity::Info,
            r.message@ == message.text_view(),
            r.fix_suggestion is None,
    {
        ValidationError { severity: Severity::Info, message: message.into_text(), fix_suggestion: None }
    }

    /// The same finding with a suggested fix.
    pub fn with_fix<S: IntoText>(self, suggestion: S) -> (r: Self)
        ensures
            r.severity == self.severity,
            r.message == self.message,
            r.fix_suggestion matches Some(f) && f@ == suggestion.text_view(),
    {
        ValidationError { severity: self.severity, message: self.message, fix_suggestion: Some(suggestion.into_text()) }
    }
}

/// How many findings in `errs` have severity `sev`.
pub open spec fn count_in(errs: Seq<ValidationError>, sev: Severity) -> nat
    decreases errs.len(),
{
    if errs.len() == 0 {
        0
    } else {
        count_in(errs.drop_last(), sev) + if errs.last().severity == sev { 1nat } else { 0nat }
    }
}

/// How many findings of all validators have severity `sev`.
pub open spec fn count_results(rs: Seq<(String, Vec<ValidationError>)>, sev: Severity) -> nat
    decreases rs.len(),
{
    if rs.len() == 0 {
        0
    } else {
        count_results(rs.drop_last(), sev) + count_in(rs.last().1@, sev)
    }
}

/// The number of findings of all validators.
pub open spec fn total_findings(rs: Seq<(String, Vec<ValidationError>)>) -> nat
    decreases rs.len(),
{
    if rs.len() == 0 {
        0
    } else {
        total_findings(rs.drop_last()) + rs.last().1@.len()
    }
}

/// A severity count never exceeds the number of findings.
pub proof fn lemma_count_in_bound(errs: Seq<ValidationError>, sev: Severity)
    ensures
        count_in(errs, sev) <= errs.len(),
    decreases errs.len(),
{
    if errs.len() > 0 {
        lemma_count_in_bound(errs.drop_last(), sev);
    }
}

/// A severity count over all validators never exceeds the number of findings.
pub proof fn lemma_count_results_bound(rs: Seq<(String, Vec<ValidationError>)>, sev: Severity)
    ensures
        count_results(rs, sev) <= total_findings(rs),
    decreases rs.len(),
{
    if rs.len() > 0 {
        lemma_count_results_bound(rs.drop_last(), sev);
        lemma_count_in_bound(rs.last().1@, sev);
    }
}

/// Recording a validator's findings adds their count to each severity's count.
pub proof fn law_counts_add(
    rs: Seq<(String, Vec<ValidationError>)>,
    x: (String, Vec<ValidationError>),
    sev: Severity,
)
    ensures
        count_results(rs.push(x), sev) == count_results(rs, sev) + count_in(x.1@, sev),
        total_findings(rs.push(x)) == total_findings(rs) + x.1@.len(),
{
    assert(rs.push(x).drop_last() =~= rs);
}

/// Errors and warnings together never outnumber the findings.
pub proof fn law_errors_and_warnings_bounded(rs: Seq<(String, Vec<ValidationError>)>)
    ensures
        count_results(rs, Severity::Error) + count_results(rs, Severity::Warning) <= total_findings(rs),
    decreases rs.len(),
{
    if rs.len() > 0 {
        law_errors_and_warnings_bounded(rs.drop_last());
        lemma_two_severities(rs.last().1@);
    }
}

/// Within one validator's findings, errors and warnings never outnumber them.
pub proof fn lemma_two_severities(errs: Seq<ValidationError>)
    ensures
        count_in(errs, Severity::Error) + count_in(errs, Severity::Warning) <= errs.len(),
    decreases errs.len(),
{
    if errs.len() > 0 {
        lemma_two_severities(errs.drop_last());
    }
}

/// The findings of each validator, in the order the validators ran.
pub struct ValidationReport {
    results: Vec<(String, Vec<ValidationError>)>,
}

impl ValidationReport {
    /// The findings of each validator, in order.
    pub closed spec fn view(&self) -> Seq<(String, Vec<ValidationError>)> {
        self.results@
    }

    /// The findings fit in memory together.
    pub open spec fn wf(&self) -> bool {
        total_findings(self.view()) <= usize::MAX
    }

    /// An empty report.
    pub fn new() -> (r: Self)
        ensures
            r.wf(),
            r.view() == Seq::<(String, Vec<ValidationError>)>::empty(),
    {
        ValidationReport { results: Vec::new() }
    }

    /// Records the findings of the validator called `validator_name`.
    pub fn add_result(&mut self, validator_name: &str, errors: Vec<ValidationError>)
        requires
            total_findings(old(self).view()) + errors@.len() <= usize::MAX,
        ensures
            final(self).wf(),
            final(self).view().len() == old(self).view().len() + 1,
            final(self).view().drop_last() == old(self).view(),
            final(self).view().last().0@ == validator_name@,
            final(self).view().last().1@ == errors@,
            forall|sev: Severity| #[trigger] count_results(final(self).view(), sev) == count_results(old(self).view(), sev)
                + count_in(errors@, sev),
            total_findings(final(self).view()) == total_findings(old(self).view()) + errors@.len(),
    {
        let ghost before = self.results@;
        let ghost errs = errors@;
        self.results.push((owned(validator_name), errors));
        proof {
            assert(self.results@.drop_last() =~= before);
            assert(self.results@ == before.push(self.results@.last()));
            assert forall|sev: Severity| #[trigger] count_results(self.results@, sev) == count_results(before, sev)
                + count_in(errs, sev) by {
                law_counts_add(before, self.results@.last(), sev);
            }
            law_counts_add(before, self.results@.last(), Severity::Error);
        }
    }

    /// The number of findings with the given severity.
    pub fn count_by_severity(&self, severity: Severity) -> (n: usize)
        requires
            self.wf(),
        ensures
            n == count_results(self.view(), severity),
    {
        let mut n: usize = 0;
        let mut i: usize = 0;
        while i < self.results.len()
            invariant
                i <= self.results.len(),
                n == count_results(self.results@.take(i as int), severity),
                total_findings(self.results@) <= usize::MAX,
            decreases self.results.len() - i,
        {
            proof {
                assert(self.results@.take(i + 1).drop_last() =~= self.results@.take(i as int));
                lemma_total_prefix(self.results@, i + 1);
                lemma_count_results_bound(self.results@.take(i + 1), severity);
            }
            let errs = &self.results[i].1;
            let mut j: usize = 0;
            let ghost base = n;
            while j < errs.len()
                invariant
                    j <= errs.len(),
                    n == base + count_in(errs@.take(j as int), severity),
                    base + count_in(errs@, severity) <= usize::MAX,
                decreases errs.len() - j,
            {
                proof {
                    assert(errs@.take(j + 1).drop_last() =~= errs@.take(j as int));
                    lemma_count_prefix(errs@, j + 1, severity);
                }
                if errs[j].severity == severity {
                    n = n + 1;
                }
                j = j + 1;
            }
            proof {
                assert(errs@.take(errs.len() as int) =~= errs@);
            }
            i = i + 1;
        }
        proof {
            assert(self.results@.take(self.results.len() as int) =~= self.results@);
        }
        n
    }

    /// The number of error-level findings.
    pub fn error_count(&self) -> (n: usize)
        requires
            self.wf(),
        ensures
            n == count_results(self.view(), Severity::Error),
    {
        self.count_by_severity(Severity::Error)
    }

    /// The number of warning-level findings.
    pub fn warning_count(&self) -> (n: usize)
        requires
            self.wf(),
        ensures
            n == count_results(self.view(), Severity::Warning),
    {
        self.count_by_severity(Severity::Warning)
    }

    /// The findings of each validator, in order.
    pub fn results(&self) -> (r: &Vec<(String, Vec<ValidationError>)>)
        ensures
            r@ == self.view(),
    {
        &self.results
    }
}

/// The lines printing a validator's findings: its name with `OK` when it
/// found nothing, else its name and each finding with an icon for its
/// severity, followed by the suggested fix when there is one.
pub open spec fn result_lines(name: Seq<char>, errs: Seq<ValidationError>) -> Seq<Seq<char>> {
    if errs.len() == 0 {
        seq![" "@ + name + " OK"@]
    } else {
        seq![" "@ + name] + finding_lines(errs)
    }
}

/// The icon of a severity.
pub open spec fn icon(sev: Severity) -> Seq<char> {
    match sev {
        Severity::Error => " x"@,
        Severity::Warning => " !"@,
        Severity::Info => " i"@,
    }
}

/// The lines of the findings, in order.
pub open spec fn finding_lines(errs: Seq<ValidationError>) -> Seq<Seq<char>>
    decreases errs.len(),
{
    if errs.len() == 0 {
        seq![]
    } else {
        let e = errs.last();
        let line = icon(e.severity) + " "@ + e.message@;
        finding_lines(errs.drop_last()) + match e.fix_suggestion {
            Some(f) => seq![line, " Fix: "@ + f@],
            None => seq![line],
        }
    }
}

/// The lines printing a whole report, validator by validator.
pub open spec fn report_lines_spec(rs: Seq<(String, Vec<ValidationError>)>) -> Seq<Seq<char>>
    decreases rs.len(),
{
    if rs.len() == 0 {
        seq![]
    } else {
        report_lines_spec(rs.drop_last()) + result_lines(rs.last().0@, rs.last().1@)
    }
}

impl ValidationReport {
    /// The lines that print the report (see [`report_lines_spec`]).
    pub fn report_lines(&self) -> (r: Vec<String>)
        ensures
            crate::path::views(r@) == report_lines_spec(self.view()),
    {
        let mut r: Vec<String> = Vec::new();
        let mut i: usize = 0;
        while i < self.results.len()
            invariant
                i <= self.results.len(),
                crate::path::views(r@) == report_lines_spec(self.results@.take(i as int)),
            decreases self.results.len() - i,
        {
            proof {
                assert(self.results@.take(i + 1).drop_last() =~= self.results@.take(i as int));
                assert(self.results@.take(i + 1).last() == self.results@[i as int]);
            }
            let name = self.results[i].0.as_str();
            let errs = &self.results[i].1;
            let ghost before = crate::path::views(r@);
            if errs.len() == 0 {
                let mut s = owned(" ");
                s.append(name);
                s.append(" OK");
                r.push(s);
                proof {
                    assert(crate::path::views(r@) =~= before + result_lines(name@, errs@));
                }
            } else {
                let mut head = owned(" ");
                head.append(name);
                r.push(head);
                let ghost base = crate::path::views(r@);
                let mut j: usize = 0;
                while j < errs.len()
                    invariant
                        j <= errs.len(),
                        crate::path::views(r@) == base + finding_lines(errs@.take(j as int)),
                    decreases errs.len() - j,
                {
                    proof {
                        assert(errs@.take(j + 1).drop_last() =~= errs@.take(j as int));
                        assert(errs@.take(j + 1).last() == errs@[j as int]);
                    }
                    let e = &errs[j];
                    let mut line = match e.severity {
                        Severity::Error => owned(" x"),
                        Severity::Warning => owned(" !"),
                        Severity::Info => owned(" i"),
                    };
                    line.append(" ");
                    line.append(e.message.as_str());
                    let ghost mid = crate::path::views(r@);
                    r.push(line);
                    match &e.fix_suggestion {
                        Some(f) => {
                            let mut fix = owned(" Fix: ");
                            fix.append(f.as_str());
                            r.push(fix);
                            proof {
                                assert(crate::path::views(r@) =~= mid + seq![line@, fix@]);
                            }
                        },
                        None => {
                            proof {
                                assert(crate::path::views(r@) =~= mid + seq![line@]);
                            }
                        },
                    }
                    proof {
                        assert(crate::path::views(r@) =~= base + finding_lines(errs@.take(j + 1)));
                    }
                    j = j + 1;
                }
                proof {
                    assert(errs@.take(errs.len() as int) =~= errs@);
                    assert(crate::path::views(r@) =~= before + result_lines(name@, errs@));
                }
            }
            i = i + 1;
        }
        proof {
            assert(self.results@.take(self.results.len() as int) =~= self.results@);
        }
        r
    }
}

impl Default for ValidationReport {
    fn default() -> (r: Self)
        ensures
            r.wf(),
            r.view() == Seq::<(String, Vec<ValidationError>)>::empty(),
    {
        Self::new()
    }
}

/// Counting a prefix never gives more than counting the whole.
proof fn lemma_count_prefix(errs: Seq<ValidationError>, j: int, sev: Severity)
    requires
        0 <= j <= errs.len(),
    ensures
        count_in(errs.take(j), sev) <= count_in(errs, sev),
    decreases errs.len(),
{
    if j < errs.len() {
        assert(errs.drop_last().take(j) =~= errs.take(j));
        lemma_count_prefix(errs.drop_last(), j, sev);
    } else {
        assert(errs.take(j) =~= errs);
    }
}

/// A prefix of the results has no more findings than the whole.
proof fn lemma_total_prefix(rs: Seq<(String, Vec<ValidationError>)>, i: int)
    requires
        0 <= i <= rs.len(),
    ensures
        total_findings(rs.take(i)) <= total_findings(rs),
    decreases rs.len(),
{
    if i < rs.len() {
        assert(rs.drop_last().take(i) =~= rs.take(i));
        lemma_total_prefix(rs.drop_last(), i);
    } else {
        assert(rs.take(i) =~= rs);
    }
}

/// Validates the registry files.
pub struct RegistryValidator;

/// Reports which layer each configuration file is resolved from.
pub struct LayerValidator {
    pub profile: ActiveProfile,
}

/// Checks the syntax of JSON configuration files.
pub struct JsonConfigValidator {
    pub profile: ActiveProfile,
}

/// Finds symlinks left by the symlink-based versions of mntn.
pub struct LegacySymlinkValidator {}

impl RegistryValidator {
    /// The validator's name.
    pub fn name(&self) -> (r: &'static str)
        ensures
            r@ == "Registry Files"@,
    {
        "Registry Files"
    }
}

impl LayerValidator {
    /// A layer validator for `profile`.
    pub fn new(profile: ActiveProfile) -> (r: Self)
        ensures
            r.profile == profile,
    {
        LayerValidator { profile }
    }

    /// The validator's name.
    pub fn name(&self) -> (r: &'static str)
        ensures
            r@ == "Layer Resolution"@,
    {
        "Layer Resolution"
    }
}

impl JsonConfigValidator {
    /// A JSON validator for `profile`.
    pub fn new(profile: ActiveProfile) -> (r: Self)
        ensures
            r.profile == profile,
    {
        JsonConfigValidator { profile }
    }

    /// The validator's name.
    pub fn name(&self) -> (r: &'static str)
        ensures
            r@ == "JSON Configuration Files"@,
    {
        "JSON Configuration Files"
    }
}

impl LegacySymlinkValidator {
    /// A legacy symlink validator.
    pub fn new() -> (r: Self)
        ensures
            r == (LegacySymlinkValidator {}),
    {
        LegacySymlinkValidator {}
    }

    /// The validator's name.
    pub fn name(&self) -> (r: &'static str)
        ensures
            r@ == "Legacy Symlink Check"@,
    {
        "Legacy Symlink Check"
    }
}

/// One of the validators.
pub enum AnyValidator {
    Registry(RegistryValidator),
    Layer(LayerValidator),
    Json(JsonConfigValidator),
    Legacy(LegacySymlinkValidator),
}

impl AnyValidator {
    pub open spec fn name_spec(&self) -> Seq<char> {
        match self {
            AnyValidator::Registry(_) => "Registry Files"@,
            AnyValidator::Layer(_) => "Layer Resolution"@,
            AnyValidator::Json(_) => "JSON Configuration Files"@,
            AnyValidator::Legacy(_) => "Legacy Symlink Check"@,
        }
    }

    /// The validator's name.
    pub fn name(&self) -> (r: &'static str)
        ensures
            r@ == self.name_spec(),
    {
        match self {
            AnyValidator::Registry(v) => v.name(),
            AnyValidator::Layer(v) => v.name(),
            AnyValidator::Json(v) => v.name(),
            AnyValidator::Legacy(v) => v.name(),
        }
    }
}

/// Runs all validators.
pub struct ConfigValidator {
    pub validators: Vec<AnyValidator>,
}

impl ConfigValidator {
    /// The standard validators, in the order they run: registry files,
    /// layer resolution, JSON files, legacy symlinks.
    pub open spec fn wf(&self) -> bool {
        &&& self.validators@.len() == 4
        &&& self.validators@[0] is Registry
        &&& self.validators@[1] is Layer
        &&& self.validators@[2] is Json
        &&& self.validators@[3] is Legacy
    }

    /// The validators, in the order they run: registry files, layer
    /// resolution, JSON files, legacy symlinks.
    pub fn new(profile: ActiveProfile) -> (r: Self)
        ensures
            r.wf(),
            r.validators@.len() == 4,
            r.validators@[0] is Registry,
            r.validators@[1] matches AnyValidator::Layer(v) && v.profile == profile,
            r.validators@[2] matches AnyValidator::Json(v) && v.profile == profile,
            r.validators@[3] is Legacy,
    {
        let mut validators: Vec<AnyValidator> = Vec::new();
        validators.push(AnyValidator::Registry(RegistryValidator));
        validators.push(AnyValidator::Layer(LayerValidator::new(profile.duplicate())));
        validators.push(AnyValidator::Json(JsonConfigValidator::new(profile)));
        validators.push(AnyValidator::Legacy(LegacySymlinkValidator::new()));
        ConfigValidator { validators }
    }
}

/// The validation task.
pub struct ValidateTask {
    pub profile: ActiveProfile,
}

impl ValidateTask {
    /// A validation task for `profile`.
    pub fn new(profile: ActiveProfile) -> (r: Self)
        ensures
            r.profile == profile,
    {
        ValidateTask { profile }
    }

    /// The task's name.
    pub fn name(&self) -> (r: &'static str)
        ensures
            r@ == "Validate"@,
    {
        "Validate"
    }

    /// The checks a validation performs.
    pub fn dry_run(&self) -> (r: Vec<PlannedOperation>)
        ensures
            r@.len() == 4,
            r@[0].description@ == "Validate registry files"@ && r@[0].target is None,
            r@[1].description@ == "Validate layer resolution"@ && r@[1].target is None,
            r@[2].description@ == "Validate JSON configuration files"@ && r@[2].target is None,
            r@[3].description@ == "Check for legacy symlinks"@ && r@[3].target is None,
    {
        let mut r: Vec<PlannedOperation> = Vec::new();
        r.push(PlannedOperation::new("Validate registry files"));
        r.push(PlannedOperation::new("Validate layer resolution"));
        r.push(PlannedOperation::new("Validate JSON configuration files"));
        r.push(PlannedOperation::new("Check for legacy symlinks"));
        r
    }
}

} // verus!

verus! {

/// The view of a finding: severity, message and suggested fix.
pub open spec fn finding_view(e: ValidationError) -> (Severity, Seq<char>, Option<Seq<char>>) {
    (
        e.severity,
        e.message@,
        match e.fix_suggestion {
            Some(f) => Some(f@),
            None => None,
        },
    )
}

/// The views of a list of findings.
pub open spec fn findings_view(es: Seq<ValidationError>) -> Seq<(Severity, Seq<char>, Option<Seq<char>>)> {
    es.map_values(|e: ValidationError| finding_view(e))
}

fn finding(severity: Severity, message: String, fix: String) -> (r: ValidationError)
    ensures
        finding_view(r) == (severity, message@, Some(fix@)),
{
    ValidationError { severity, message, fix_suggestion: Some(fix) }
}

fn push_finding(v: &mut Vec<ValidationError>, e: ValidationError)
    ensures
        final(v)@ == old(v)@.push(e),
        findings_view(final(v)@) == findings_view(old(v)@).push(finding_view(e)),
{
    v.push(e);
    proof {
        assert(findings_view(v@) =~= findings_view(old(v)@).push(finding_view(e)));
    }
}

fn append_findings(v: &mut Vec<ValidationError>, more: Vec<ValidationError>)
    ensures
        findings_view(final(v)@) == findings_view(old(v)@) + findings_view(more@),
{
    let ghost added = more@;
    let mut more = more;
    v.append(&mut more);
    proof {
        assert(findings_view(v@) =~= findings_view(old(v)@) + findings_view(added));
    }
}

/// Parts joined with a separator between each two.
pub open spec fn join_with(parts: Seq<Seq<char>>, sep: Seq<char>) -> Seq<char>
    decreases parts.len(),
{
    if parts.len() == 0 {
        Seq::empty()
    } else if parts.len() == 1 {
        parts[0]
    } else {
        join_with(parts.drop_last(), sep) + sep + parts.last()
    }
}

/// Joins texts with a separator (`[String]::join`).
pub fn join_strings(parts: &Vec<String>, sep: &str) -> (r: String)
    ensures
        r@ == join_with(crate::path::views(parts@), sep@),
{
    let mut s = String::new();
    let mut i: usize = 0;
    while i < parts.len()
        invariant
            i <= parts.len(),
            s@ == join_with(crate::path::views(parts@).take(i as int), sep@),
        decreases parts.len() - i,
    {
        proof {
            assert(crate::path::views(parts@).take(i + 1).drop_last() =~= crate::path::views(parts@).take(i as int));
            assert(crate::path::views(parts@).take(i + 1).last() == parts@[i as int]@);
        }
        if i > 0 {
            s.append(sep);
        } else {
            proof {
                assert(crate::path::views(parts@).take(1)[0] == parts@[0]@);
            }
        }
        s.append(parts[i].as_str());
        i = i + 1;
    }
    proof {
        assert(crate::path::views(parts@).take(parts.len() as int) =~= crate::path::views(parts@));
    }
    s
}

/// What reading a file gave.
#[derive(Debug, Clone)]
pub enum FileRead {
    /// The file does not exist.
    Missing,
    /// It exists but could not be read, with the reason.
    Failed(String),
    /// Its contents.
    Content(String),
}

/// The message `serde_json` gives for `content` when it is not valid JSON,
/// or `None` when it is.
pub uninterp spec fn json_error(content: Seq<char>) -> Option<Seq<char>>;

/// `serde_json::from_str::<serde_json::Value>(content)`, keeping only the
/// error's message: `None` exactly when the crate accepts `content` as JSON.
#[verifier::external_body]
fn json_syntax_error(content: &str) -> (r: Option<String>)
    ensures
        match (r, json_error(content@)) {
            (Some(m), Some(x)) => m@ == x,
            (None, None) => true,
            _ => false,
        },
{
    serde_json::from_str::<serde_json::Value>(content).err().map(|e| e.to_string())
}

/// The findings for a JSON file at `path` (described as `description`),
/// given what reading it gave and, for contents, the parser's complaint.
pub open spec fn json_findings_for(
    path: Seq<char>,
    description: Seq<char>,
    read: FileRead,
    syntax_error: Option<Seq<char>>,
) -> Seq<(Severity, Seq<char>, Option<Seq<char>>)> {
    match read {
        FileRead::Missing => seq![],
        FileRead::Failed(e) => seq![
            (Severity::Warning, "Could not read "@ + description + ": "@ + e@, Some("Check file permissions for "@ + path)),
        ],
        FileRead::Content(_) => match syntax_error {
            None => seq![],
            Some(m) => seq![(Severity::Error, "Invalid JSON in "@ + description + ": "@ + m, Some("Check syntax in "@ + path))],
        },
    }
}

/// The findings for a JSON file: nothing for a missing file, a warning when
/// it cannot be read, an error when it is not valid JSON.
pub open spec fn json_file_findings(path: Seq<char>, description: Seq<char>, read: FileRead) -> Seq<
    (Severity, Seq<char>, Option<Seq<char>>),
> {
    json_findings_for(
        path,
        description,
        read,
        match read {
            FileRead::Content(c) => json_error(c@),
            _ => None,
        },
    )
}

/// The findings of [`json_findings_for`], given the parser's complaint.
pub fn json_findings(path: &str, description: &str, read: &FileRead, syntax_error: &Option<String>) -> (r: Vec<
    ValidationError,
>)
    ensures
        findings_view(r@) == json_findings_for(
            path@,
            description@,
            *read,
            match *syntax_error { Some(m) => Some(m@), None => None },
        ),
{
    let mut r: Vec<ValidationError> = Vec::new();
    match read {
        FileRead::Missing => {},
        FileRead::Failed(e) => {
            let mut m = owned("Could not read ");
            m.append(description);
            m.append(": ");
            m.append(e.as_str());
            let mut f = owned("Check file permissions for ");
            f.append(path);
            push_finding(&mut r, finding(Severity::Warning, m, f));
        },
        FileRead::Content(_) => match syntax_error {
            None => {},
            Some(e) => {
                let mut m = owned("Invalid JSON in ");
                m.append(description);
                m.append(": ");
                m.append(e.as_str());
                let mut f = owned("Check syntax in ");
                f.append(path);
                push_finding(&mut r, finding(Severity::Error, m, f));
            },
        },
    }
    proof {
        assert(findings_view(r@) =~= json_findings_for(
            path@,
            description@,
            *read,
            match *syntax_error { Some(m) => Some(m@), None => None },
        ));
    }
    r
}

/// Checks the syntax of a JSON file, given what reading it gave.
pub fn validate_json_file(path: &str, description: &str, read: &FileRead) -> (r: Vec<ValidationError>)
    ensures
        findings_view(r@) == json_file_findings(path@, description@, *read),
{
    let syntax_error = match read {
        FileRead::Content(c) => json_syntax_error(c.as_str()),
        _ => None,
    };
    json_findings(path, description, read, &syntax_error)
}

} // verus!

verus! {

/// What was found on disk for one enabled registry entry.
#[derive(Debug, Clone)]
pub struct EntryObservations {
    /// The layers holding its source, most specific first.
    pub sources: Vec<ResolvedSource>,
    /// What reading the first of them gave.
    pub json_read: FileRead,
    /// Where its target points, resolved, when the target is a symlink that
    /// could be read.
    pub link_target: Option<String>,
}

/// The findings of the JSON check for one entry: a `.json` source found in
/// some layer is checked where it was found first.
pub open spec fn json_entry_findings(e: RegistryEntry, o: EntryObservations) -> Seq<
    (Severity, Seq<char>, Option<Seq<char>>),
> {
    if has_suffix(e.source_path@, ".json"@) && o.sources@.len() > 0 {
        json_file_findings(o.sources@[0].path@, e.name@, o.json_read)
    } else {
        seq![]
    }
}

/// The findings of the JSON check for the first `n` entries.
pub open spec fn json_findings_upto(es: Seq<(String, RegistryEntry)>, obs: Seq<EntryObservations>, n: nat) -> Seq<
    (Severity, Seq<char>, Option<Seq<char>>),
>
    decreases n,
{
    if n == 0 {
        seq![]
    } else {
        json_findings_upto(es, obs, (n - 1) as nat) + json_entry_findings(es[n - 1].1, obs[n - 1])
    }
}

/// The layers' names joined with commas.
pub open spec fn layer_labels(srcs: Seq<ResolvedSource>) -> Seq<char> {
    join_with(srcs.map_values(|s: ResolvedSource| s.layer.label()), ", "@)
}

/// The finding of the layer check for one entry: a note when its source is
/// in more than one layer.
pub open spec fn layer_entry_findings(id: Seq<char>, e: RegistryEntry, srcs: Seq<ResolvedSource>) -> Seq<
    (Severity, Seq<char>, Option<Seq<char>>),
> {
    if srcs.len() > 1 {
        seq![
            (
                Severity::Info,
                e.name@ + " ("@ + id + "): Found in multiple layers: "@ + layer_labels(srcs) + " (using "@
                    + srcs[0].layer.label() + ")"@,
                Some("This is expected for overrides. Higher-priority layer wins."@),
            ),
        ]
    } else {
        seq![]
    }
}

/// The findings of the layer check for the first `n` entries.
pub open spec fn layer_findings_upto(es: Seq<(String, RegistryEntry)>, obs: Seq<EntryObservations>, n: nat) -> Seq<
    (Severity, Seq<char>, Option<Seq<char>>),
>
    decreases n,
{
    if n == 0 {
        seq![]
    } else {
        layer_findings_upto(es, obs, (n - 1) as nat) + layer_entry_findings(es[n - 1].0@, es[n - 1].1, obs[n - 1].sources@)
    }
}

/// Whether one of the first `n` entries is resolved from the legacy layer.
pub open spec fn legacy_used_upto(obs: Seq<EntryObservations>, n: nat) -> bool
    decreases n,
{
    if n == 0 {
        false
    } else {
        legacy_used_upto(obs, (n - 1) as nat) || (obs[n - 1].sources@.len() > 0 && obs[n - 1].sources@[0].layer
            == SourceLayer::Legacy)
    }
}

/// The findings of the layer check: a note per entry found in several
/// layers, then a warning when some entry is still resolved from the legacy
/// backup directory `backup_root`.
pub open spec fn layer_findings(es: Seq<(String, RegistryEntry)>, obs: Seq<EntryObservations>, backup_root: Seq<char>) -> Seq<
    (Severity, Seq<char>, Option<Seq<char>>),
> {
    layer_findings_upto(es, obs, es.len()) + if legacy_used_upto(obs, es.len()) {
        seq![
            (
                Severity::Warning,
                "Some configs are still in legacy location ("@ + backup_root + ")"@,
                Some("Run 'mntn migrate' to migrate to the layered structure"@),
            ),
        ]
    } else {
        seq![]
    }
}

/// The layer check's per-entry findings are all notes.
proof fn lemma_layer_findings_info(es: Seq<(String, RegistryEntry)>, obs: Seq<EntryObservations>, n: nat)
    requires
        n <= es.len(),
    ensures
        forall|k: int|
            0 <= k < layer_findings_upto(es, obs, n).len() ==> #[trigger] layer_findings_upto(es, obs, n)[k].0
                == Severity::Info,
    decreases n,
{
    if n > 0 {
        lemma_layer_findings_info(es, obs, (n - 1) as nat);
        let a = layer_findings_upto(es, obs, (n - 1) as nat);
        let b = layer_entry_findings(es[n - 1].0@, es[n - 1].1, obs[n - 1].sources@);
        assert forall|k: int| 0 <= k < (a + b).len() implies #[trigger] (a + b)[k].0 == Severity::Info by {
            if k >= a.len() {
                assert((a + b)[k] == b[k - a.len()]);
            }
        }
    }
}

/// Some entry among the first `n` is resolved from the legacy layer exactly
/// when one of them has its first (primary) source there.
proof fn lemma_legacy_used(obs: Seq<EntryObservations>, n: nat)
    requires
        n <= obs.len(),
    ensures
        legacy_used_upto(obs, n) <==> exists|i: int|
            0 <= i < n && obs[i].sources@.len() > 0 && #[trigger] obs[i].sources@[0].layer == SourceLayer::Legacy,
    decreases n,
{
    if n > 0 {
        lemma_legacy_used(obs, (n - 1) as nat);
        if legacy_used_upto(obs, n) {
            if !legacy_used_upto(obs, (n - 1) as nat) {
                assert(obs[n - 1].sources@[0].layer == SourceLayer::Legacy);
            }
        }
    }
}

/// The layer check warns about the legacy location exactly when some
/// entry's primary source (the first one found, the one in use) lies in the
/// legacy layer, not merely when a lower-priority copy is still there: the
/// warning is then its only warning, given last, and names `backup_root`;
/// every other finding is a note.
pub proof fn law_legacy_warning(es: Seq<(String, RegistryEntry)>, obs: Seq<EntryObservations>, backup_root: Seq<char>)
    requires
        obs.len() == es.len(),
    ensures
        ({
            let fs = layer_findings(es, obs, backup_root);
            let primary_legacy = exists|i: int|
                0 <= i < es.len() && obs[i].sources@.len() > 0 && #[trigger] obs[i].sources@[0].layer
                    == SourceLayer::Legacy;
            &&& (exists|k: int| 0 <= k < fs.len() && #[trigger] fs[k].0 == Severity::Warning) <==> primary_legacy
            &&& primary_legacy ==> fs.last() == (
                Severity::Warning,
                "Some configs are still in legacy location ("@ + backup_root + ")"@,
                Some("Run 'mntn migrate' to migrate to the layered structure"@),
            )
            &&& forall|k: int| 0 <= k < fs.len() - 1 ==> #[trigger] fs[k].0 == Severity::Info
        }),
{
    lemma_layer_findings_info(es, obs, es.len());
    lemma_legacy_used(obs, es.len());
    let a = layer_findings_upto(es, obs, es.len());
    let fs = layer_findings(es, obs, backup_root);
    assert forall|k: int| 0 <= k < a.len() implies #[trigger] fs[k] == a[k] by {}
    if legacy_used_upto(obs, es.len()) {
        assert(fs[a.len() as int].0 == Severity::Warning);
    } else {
        assert(fs =~= a);
        assert forall|k: int| 0 <= k < fs.len() implies #[trigger] fs[k].0 != Severity::Warning by {
            assert(a[k].0 == Severity::Info);
        }
    }
    assert forall|k: int| 0 <= k < fs.len() - 1 implies #[trigger] fs[k].0 == Severity::Info by {
        assert(a[k].0 == Severity::Info);
    }
}

/// Whether an entry's target is a symlink into the backup directory.
pub open spec fn is_legacy_link(o: EntryObservations, backup_root: Seq<char>) -> bool {
    o.link_target matches Some(t) && starts_with(t@, backup_root)
}

/// The number of the first `n` entries whose target is a legacy symlink.
pub open spec fn legacy_links_upto(obs: Seq<EntryObservations>, backup_root: Seq<char>, n: nat) -> nat
    decreases n,
{
    if n == 0 {
        0
    } else {
        legacy_links_upto(obs, backup_root, (n - 1) as nat) + if is_legacy_link(obs[n - 1], backup_root) {
            1nat
        } else {
            0nat
        }
    }
}

/// The warnings of the legacy symlink check for the first `n` entries.
pub open spec fn legacy_findings_upto(
    es: Seq<(String, RegistryEntry)>,
    obs: Seq<EntryObservations>,
    backup_root: Seq<char>,
    n: nat,
) -> Seq<(Severity, Seq<char>, Option<Seq<char>>)>
    decreases n,
{
    if n == 0 {
        seq![]
    } else {
        legacy_findings_upto(es, obs, backup_root, (n - 1) as nat) + if is_legacy_link(obs[n - 1], backup_root) {
            seq![
                (
                    Severity::Warning,
                    es[n - 1].1.name@ + " ("@ + es[n - 1].0@ + "): Legacy symlink detected"@,
                    Some("Run 'mntn backup' or 'mntn restore' to convert to a real file"@),
                ),
            ]
        } else {
            seq![]
        }
    }
}

/// The findings of the legacy symlink check: a warning per target that is a
/// symlink into the backup directory, then a note with their number.
pub open spec fn legacy_findings(es: Seq<(String, RegistryEntry)>, obs: Seq<EntryObservations>, backup_root: Seq<char>) -> Seq<
    (Severity, Seq<char>, Option<Seq<char>>),
> {
    let n = legacy_links_upto(obs, backup_root, es.len());
    legacy_findings_upto(es, obs, backup_root, es.len()) + if n > 0 {
        seq![
            (
                Severity::Info,
                "Found "@ + decimal(n) + " legacy symlink(s) from previous mntn version"@,
                Some("Run 'mntn migrate' to convert all symlinks to real files"@),
            ),
        ]
    } else {
        seq![]
    }
}

/// The warning the legacy symlink check gives for the entry `id` named `name`.
pub open spec fn legacy_link_warning(id: Seq<char>, name: Seq<char>) -> (Severity, Seq<char>, Option<Seq<char>>) {
    (
        Severity::Warning,
        name + " ("@ + id + "): Legacy symlink detected"@,
        Some("Run 'mntn backup' or 'mntn restore' to convert to a real file"@),
    )
}

proof fn lemma_legacy_warnings_len(es: Seq<(String, RegistryEntry)>, obs: Seq<EntryObservations>, backup_root: Seq<char>, n: nat)
    requires
        n <= es.len(),
        n <= obs.len(),
    ensures
        legacy_findings_upto(es, obs, backup_root, n).len() == legacy_links_upto(obs, backup_root, n),
    decreases n,
{
    if n > 0 {
        lemma_legacy_warnings_len(es, obs, backup_root, (n - 1) as nat);
    }
}

proof fn lemma_legacy_warnings_sound(es: Seq<(String, RegistryEntry)>, obs: Seq<EntryObservations>, backup_root: Seq<char>, n: nat)
    requires
        n <= es.len(),
        n <= obs.len(),
    ensures
        forall|k: int|
            0 <= k < legacy_findings_upto(es, obs, backup_root, n).len() ==> exists|i: int|
                0 <= i < n && is_legacy_link(obs[i], backup_root) && #[trigger] legacy_findings_upto(
                    es,
                    obs,
                    backup_root,
                    n,
                )[k] == legacy_link_warning(es[i].0@, es[i].1.name@),
    decreases n,
{
    if n > 0 {
        lemma_legacy_warnings_sound(es, obs, backup_root, (n - 1) as nat);
        let prev = legacy_findings_upto(es, obs, backup_root, (n - 1) as nat);
        let ws = legacy_findings_upto(es, obs, backup_root, n);
        let w = legacy_link_warning(es[n - 1].0@, es[n - 1].1.name@);
        if is_legacy_link(obs[n - 1], backup_root) {
            assert(ws =~= prev.push(w));
        } else {
            assert(ws =~= prev);
        }
        assert forall|k: int|
            0 <= k < ws.len() implies exists|i: int|
                0 <= i < n && is_legacy_link(obs[i], backup_root) && #[trigger] ws[k] == legacy_link_warning(
                    es[i].0@,
                    es[i].1.name@,
                ) by {
            if k < prev.len() {
                assert(ws[k] == prev[k]);
                let i = choose|i: int|
                    0 <= i < n - 1 && is_legacy_link(obs[i], backup_root) && #[trigger] legacy_findings_upto(
                        es,
                        obs,
                        backup_root,
                        (n - 1) as nat,
                    )[k] == legacy_link_warning(es[i].0@, es[i].1.name@);
                assert(0 <= i < n && is_legacy_link(obs[i], backup_root) && ws[k] == legacy_link_warning(
                    es[i].0@,
                    es[i].1.name@,
                ));
            } else {
                assert(is_legacy_link(obs[n - 1], backup_root));
                assert(ws[k] == w);
            }
        }
    }
}

proof fn lemma_legacy_warnings_complete(es: Seq<(String, RegistryEntry)>, obs: Seq<EntryObservations>, backup_root: Seq<char>, n: nat)
    requires
        n <= es.len(),
        n <= obs.len(),
    ensures
        forall|i: int|
            0 <= i < n && #[trigger] is_legacy_link(obs[i], backup_root) ==> legacy_findings_upto(
                es,
                obs,
                backup_root,
                n,
            ).contains(legacy_link_warning(es[i].0@, es[i].1.name@)),
    decreases n,
{
    if n > 0 {
        lemma_legacy_warnings_complete(es, obs, backup_root, (n - 1) as nat);
        let prev = legacy_findings_upto(es, obs, backup_root, (n - 1) as nat);
        let ws = legacy_findings_upto(es, obs, backup_root, n);
        assert forall|i: int|
            0 <= i < n && #[trigger] is_legacy_link(obs[i], backup_root) implies ws.contains(
                legacy_link_warning(es[i].0@, es[i].1.name@),
            ) by {
            if i < n - 1 {
                let k = choose|k: int| 0 <= k < prev.len() && prev[k] == legacy_link_warning(es[i].0@, es[i].1.name@);
                assert(ws[k] == prev[k]);
            } else {
                assert(ws[prev.len() as int] == legacy_link_warning(es[i].0@, es[i].1.name@));
            }
        }
    }
}

/// `f` is the warning about one of the entries whose target is a symlink
/// into the backup directory.
pub open spec fn warns_of_linked_entry(
    f: (Severity, Seq<char>, Option<Seq<char>>),
    es: Seq<(String, RegistryEntry)>,
    obs: Seq<EntryObservations>,
    backup_root: Seq<char>,
) -> bool {
    exists|i: int|
        0 <= i < es.len() && (obs[i].link_target matches Some(t) && starts_with(t@, backup_root)) && f
            == #[trigger] legacy_link_warning(es[i].0@, es[i].1.name@)
}

/// The legacy symlink check warns once for each entry whose target is a
/// symlink into the backup directory, naming it, and for no other entry;
/// when it warned at all it ends with a note that counts the warnings.
pub proof fn law_legacy_symlink_findings(
    es: Seq<(String, RegistryEntry)>,
    obs: Seq<EntryObservations>,
    backup_root: Seq<char>,
)
    requires
        obs.len() == es.len(),
    ensures
        ({
            let fs = legacy_findings(es, obs, backup_root);
            let ws = legacy_findings_upto(es, obs, backup_root, es.len());
            &&& fs.len() == ws.len() + (if ws.len() > 0 { 1int } else { 0int })
            &&& forall|k: int| 0 <= k < ws.len() ==> #[trigger] fs[k] == ws[k]
            &&& forall|i: int|
                0 <= i < es.len() ==> (#[trigger] is_legacy_link(obs[i], backup_root) <==> (
                obs[i].link_target matches Some(t) && starts_with(t@, backup_root)))
            &&& forall|k: int| 0 <= k < ws.len() ==> warns_of_linked_entry(#[trigger] ws[k], es, obs, backup_root)
            &&& forall|i: int|
                #![trigger obs[i]]
                0 <= i < es.len() && (obs[i].link_target matches Some(t) && starts_with(t@, backup_root))
                    ==> ws.contains(legacy_link_warning(es[i].0@, es[i].1.name@))
            &&& ws.len() > 0 ==> fs.last() == (
                Severity::Info,
                "Found "@ + decimal(ws.len()) + " legacy symlink(s) from previous mntn version"@,
                Some("Run 'mntn migrate' to convert all symlinks to real files"@),
            )
        }),
{
    lemma_legacy_warnings_len(es, obs, backup_root, es.len());
    lemma_legacy_warnings_sound(es, obs, backup_root, es.len());
    lemma_legacy_warnings_complete(es, obs, backup_root, es.len());
    let ws = legacy_findings_upto(es, obs, backup_root, es.len());
    let fs = legacy_findings(es, obs, backup_root);
    assert forall|k: int| 0 <= k < ws.len() implies warns_of_linked_entry(#[trigger] ws[k], es, obs, backup_root) by {
        let i = choose|i: int|
            0 <= i < es.len() && is_legacy_link(obs[i], backup_root) && #[trigger] legacy_findings_upto(
                es,
                obs,
                backup_root,
                es.len(),
            )[k] == legacy_link_warning(es[i].0@, es[i].1.name@);
        assert(0 <= i < es.len() && is_legacy_link(obs[i], backup_root) && ws[k] == legacy_link_warning(
            es[i].0@,
            es[i].1.name@,
        ));
    }
    if ws.len() > 0 {
        assert(fs =~= ws.push(
            (
                Severity::Info,
                "Found "@ + decimal(ws.len()) + " legacy symlink(s) from previous mntn version"@,
                Some("Run 'mntn migrate' to convert all symlinks to real files"@),
            ),
        ));
    } else {
        assert(fs =~= ws);
    }
    assert forall|i: int|
        #![trigger obs[i]]
        0 <= i < es.len() && (obs[i].link_target matches Some(t) && starts_with(t@, backup_root)) implies ws.contains(
            legacy_link_warning(es[i].0@, es[i].1.name@),
        ) by {
        assert(is_legacy_link(obs[i], backup_root));
    }
}

/// The JSON check of an entry looks only at `.json` sources found in some
/// layer, and then at the file it is resolved from (the first layer it was
/// found in): a missing file gives nothing, an unreadable one a warning, one
/// that does not parse an error, one that parses nothing; each finding's
/// suggestion names that file.
pub proof fn law_json_entry_findings(e: RegistryEntry, o: EntryObservations)
    ensures
        ({
            let fs = json_entry_findings(e, o);
            &&& !(has_suffix(e.source_path@, ".json"@) && o.sources@.len() > 0) ==> fs.len() == 0
            &&& fs.len() <= 1
            &&& o.json_read is Missing ==> fs.len() == 0
            &&& fs.len() == 1 ==> (fs[0].0 == Severity::Warning <==> o.json_read is Failed)
            &&& fs.len() == 1 ==> (fs[0].0 == Severity::Error <==> o.json_read is Content)
            &&& o.json_read matches FileRead::Content(c) ==> (fs.len() == 0 <==> (!(has_suffix(e.source_path@, ".json"@)
                && o.sources@.len() > 0) || json_error(c@) is None))
            &&& forall|k: int|
                0 <= k < fs.len() ==> (#[trigger] fs[k].2 == Some(
                    "Check file permissions for "@ + o.sources@[0].path@,
                ) || fs[k].2 == Some("Check syntax in "@ + o.sources@[0].path@))
        }),
{
}

/// The count of legacy links never exceeds the number of entries looked at.
pub proof fn lemma_legacy_links_bound(obs: Seq<EntryObservations>, backup_root: Seq<char>, n: nat)
    ensures
        legacy_links_upto(obs, backup_root, n) <= n,
    decreases n,
{
    if n > 0 {
        lemma_legacy_links_bound(obs, backup_root, (n - 1) as nat);
    }
}

impl JsonConfigValidator {
    /// Checks the `.json` sources of the enabled entries, given what was
    /// found for each.
    pub fn validate_from(&self, entries: &Vec<(String, RegistryEntry)>, observed: &Vec<EntryObservations>) -> (r: Vec<
        ValidationError,
    >)
        requires
            observed@.len() == entries@.len(),
        ensures
            findings_view(r@) == json_findings_upto(entries@, observed@, entries@.len()),
    {
        let mut r: Vec<ValidationError> = Vec::new();
        let mut i: usize = 0;
        while i < entries.len()
            invariant
                observed@.len() == entries@.len(),
                i <= entries.len(),
                findings_view(r@) == json_findings_upto(entries@, observed@, i as nat),
            decreases entries.len() - i,
        {
            let e = &entries[i].1;
            let o = &observed[i];
            if ends_with_str(e.source_path.as_str(), ".json") && o.sources.len() > 0 {
                let more = validate_json_file(o.sources[0].path.as_str(), e.name.as_str(), &o.json_read);
                append_findings(&mut r, more);
            } else {
                proof {
                    assert(findings_view(r@) =~= findings_view(r@) + Seq::<(Severity, Seq<char>, Option<Seq<char>>)>::empty());
                }
            }
            i = i + 1;
        }
        r
    }
}

impl LayerValidator {
    /// Reports entries found in several layers and entries still resolved
    /// from the legacy directory `backup_root`, given what was found.
    pub fn validate_from(&self, entries: &Vec<(String, RegistryEntry)>, observed: &Vec<EntryObservations>, backup_root: &str) -> (r: Vec<
        ValidationError,
    >)
        requires
            observed@.len() == entries@.len(),
        ensures
            findings_view(r@) == layer_findings(entries@, observed@, backup_root@),
    {
        let mut r: Vec<ValidationError> = Vec::new();
        let mut has_legacy = false;
        let mut i: usize = 0;
        while i < entries.len()
            invariant
                observed@.len() == entries@.len(),
                i <= entries.len(),
                findings_view(r@) == layer_findings_upto(entries@, observed@, i as nat),
                has_legacy == legacy_used_upto(observed@, i as nat),
            decreases entries.len() - i,
        {
            let id = &entries[i].0;
            let e = &entries[i].1;
            let srcs = &observed[i].sources;
            if srcs.len() > 1 {
                let mut labels: Vec<String> = Vec::new();
                let mut j: usize = 0;
                while j < srcs.len()
                    invariant
                        j <= srcs.len(),
                        crate::path::views(labels@) == srcs@.take(j as int).map_values(
                            |s: ResolvedSource| s.layer.label(),
                        ),
                    decreases srcs.len() - j,
                {
                    let ghost before = labels@;
                    labels.push(srcs[j].layer.to_string());
                    proof {
                        assert(srcs@.take(j + 1) =~= srcs@.take(j as int).push(srcs@[j as int]));
                        assert(crate::path::views(labels@) =~= crate::path::views(before).push(labels@[j as int]@));
                        assert(crate::path::views(labels@) =~= srcs@.take(j + 1).map_values(
                            |s: ResolvedSource| s.layer.label(),
                        ));
                    }
                    j = j + 1;
                }
                proof {
                    assert(srcs@.take(srcs.len() as int) =~= srcs@);
                }
                let mut m = e.name.clone();
                m.append(" (");
                m.append(id.as_str());
                m.append("): Found in multiple layers: ");
                m.append(join_strings(&labels, ", ").as_str());
                m.append(" (using ");
                m.append(srcs[0].layer.to_string().as_str());
                m.append(")");
                let f = owned("This is expected for overrides. Higher-priority layer wins.");
                let ghost before = r@;
                push_finding(&mut r, finding(Severity::Info, m, f));
                proof {
                    assert(findings_view(r@) =~= layer_findings_upto(entries@, observed@, (i + 1) as nat));
                }
            } else {
                proof {
                    assert(findings_view(r@) =~= layer_findings_upto(entries@, observed@, (i + 1) as nat));
                }
            }
            if srcs.len() > 0 && srcs[0].layer == SourceLayer::Legacy {
                has_legacy = true;
            }
            i = i + 1;
        }
        if has_legacy {
            let mut m = owned("Some configs are still in legacy location (");
            m.append(backup_root);
            m.append(")");
            let f = owned("Run 'mntn migrate' to migrate to the layered structure");
            push_finding(&mut r, finding(Severity::Warning, m, f));
        }
        proof {
            assert(findings_view(r@) =~= layer_findings(entries@, observed@, backup_root@));
        }
        r
    }
}

impl LegacySymlinkValidator {
    /// Warns about targets that are symlinks into the backup directory
    /// `backup_root`, given where each target points.
    pub fn validate_from(&self, entries: &Vec<(String, RegistryEntry)>, observed: &Vec<EntryObservations>, backup_root: &str) -> (r: Vec<
        ValidationError,
    >)
        requires
            observed@.len() == entries@.len(),
        ensures
            findings_view(r@) == legacy_findings(entries@, observed@, backup_root@),
    {
        let mut r: Vec<ValidationError> = Vec::new();
        let mut count: usize = 0;
        let mut i: usize = 0;
        while i < entries.len()
            invariant
                observed@.len() == entries@.len(),
                i <= entries.len(),
                findings_view(r@) == legacy_findings_upto(entries@, observed@, backup_root@, i as nat),
                count == legacy_links_upto(observed@, backup_root@, i as nat),
                count <= i,
            decreases entries.len() - i,
        {
            proof {
                lemma_legacy_links_bound(observed@, backup_root@, (i + 1) as nat);
            }
            let legacy = match &observed[i].link_target {
                Some(t) => path_starts_with(t.as_str(), backup_root),
                None => false,
            };
            if legacy {
                let mut m = entries[i].1.name.clone();
                m.append(" (");
                m.append(entries[i].0.as_str());
                m.append("): Legacy symlink detected");
                let f = owned("Run 'mntn backup' or 'mntn restore' to convert to a real file");
                push_finding(&mut r, finding(Severity::Warning, m, f));
                count = count + 1;
            }
            proof {
                assert(findings_view(r@) =~= legacy_findings_upto(entries@, observed@, backup_root@, (i + 1) as nat));
            }
            i = i + 1;
        }
        if count > 0 {
            let mut m = owned("Found ");
            m.append(to_decimal(count as u128).as_str());
            m.append(" legacy symlink(s) from previous mntn version");
            let f = owned("Run 'mntn migrate' to convert all symlinks to real files");
            push_finding(&mut r, finding(Severity::Info, m, f));
        }
        proof {
            assert(findings_view(r@) =~= legacy_findings(entries@, observed@, backup_root@));
        }
        r
    }
}

} // verus!

verus! {

/// The source paths of the entries, each once, in the order they first occur.
pub open spec fn sources_in_order(s: Seq<(String, RegistryEntry)>) -> Seq<Seq<char>>
    decreases s.len(),
{
    if s.len() == 0 {
        seq![]
    } else {
        let p = sources_in_order(s.drop_last());
        if p.contains(s.last().1.source_path@) {
            p
        } else {
            p.push(s.last().1.source_path@)
        }
    }
}

/// The ids of the entries whose source is `path`, in order.
pub open spec fn ids_with_source(s: Seq<(String, RegistryEntry)>, path: Seq<char>) -> Seq<Seq<char>>
    decreases s.len(),
{
    if s.len() == 0 {
        seq![]
    } else if s.last().1.source_path@ == path {
        ids_with_source(s.drop_last(), path).push(s.last().0@)
    } else {
        ids_with_source(s.drop_last(), path)
    }
}

/// The warning about the first `n` of the sources `ps` that more than one
/// entry uses.
pub open spec fn duplicate_findings_upto(s: Seq<(String, RegistryEntry)>, ps: Seq<Seq<char>>, n: nat) -> Seq<
    (Severity, Seq<char>, Option<Seq<char>>),
>
    decreases n,
{
    if n == 0 {
        seq![]
    } else {
        let ids = ids_with_source(s, ps[n - 1]);
        duplicate_findings_upto(s, ps, (n - 1) as nat) + if ids.len() > 1 {
            seq![
                (
                    Severity::Warning,
                    "Duplicate source path '"@ + ps[n - 1] + "' used by: "@ + join_with(ids, ", "@),
                    Some("Consider consolidating or renaming entries"@),
                ),
            ]
        } else {
            seq![]
        }
    }
}

/// A warning for each source path that more than one entry uses, in the
/// order the paths first occur, naming the entries in order.
pub open spec fn duplicate_findings(s: Seq<(String, RegistryEntry)>) -> Seq<(Severity, Seq<char>, Option<Seq<char>>)> {
    duplicate_findings_upto(s, sources_in_order(s), sources_in_order(s).len())
}

fn contains_text(v: &Vec<String>, s: &str) -> (r: bool)
    ensures
        r == crate::path::views(v@).contains(s@),
{
    let mut i: usize = 0;
    while i < v.len()
        invariant
            i <= v.len(),
            forall|j: int| 0 <= j < i ==> v@[j]@ != s@,
        decreases v.len() - i,
    {
        if crate::text::str_eq(v[i].as_str(), s) {
            proof {
                assert(crate::path::views(v@)[i as int] == s@);
            }
            return true;
        }
        i = i + 1;
    }
    proof {
        if crate::path::views(v@).contains(s@) {
            let j = choose|j: int| 0 <= j < crate::path::views(v@).len() && crate::path::views(v@)[j] == s@;
            assert(v@[j]@ == s@);
        }
    }
    false
}

fn sources_of(pairs: &Vec<(String, RegistryEntry)>) -> (r: Vec<String>)
    ensures
        crate::path::views(r@) == sources_in_order(pairs@),
{
    let mut r: Vec<String> = Vec::new();
    let mut i: usize = 0;
    while i < pairs.len()
        invariant
            i <= pairs.len(),
            crate::path::views(r@) == sources_in_order(pairs@.take(i as int)),
        decreases pairs.len() - i,
    {
        proof {
            assert(pairs@.take(i + 1).drop_last() =~= pairs@.take(i as int));
            assert(pairs@.take(i + 1).last() == pairs@[i as int]);
        }
        let p = pairs[i].1.source_path.as_str();
        if !contains_text(&r, p) {
            let ghost before = r@;
            r.push(pairs[i].1.source_path.clone());
            proof {
                assert(crate::path::views(r@) =~= crate::path::views(before).push(pairs@[i as int].1.source_path@));
            }
        }
        i = i + 1;
    }
    proof {
        assert(pairs@.take(pairs.len() as int) =~= pairs@);
    }
    r
}

fn ids_of(pairs: &Vec<(String, RegistryEntry)>, path: &str) -> (r: Vec<String>)
    ensures
        crate::path::views(r@) == ids_with_source(pairs@, path@),
{
    let mut r: Vec<String> = Vec::new();
    let mut i: usize = 0;
    while i < pairs.len()
        invariant
            i <= pairs.len(),
            crate::path::views(r@) == ids_with_source(pairs@.take(i as int), path@),
        decreases pairs.len() - i,
    {
        proof {
            assert(pairs@.take(i + 1).drop_last() =~= pairs@.take(i as int));
            assert(pairs@.take(i + 1).last() == pairs@[i as int]);
        }
        if crate::text::str_eq(pairs[i].1.source_path.as_str(), path) {
            let ghost before = r@;
            r.push(pairs[i].0.clone());
            proof {
                assert(crate::path::views(r@) =~= crate::path::views(before).push(pairs@[i as int].0@));
            }
        }
        i = i + 1;
    }
    proof {
        assert(pairs@.take(pairs.len() as int) =~= pairs@);
    }
    r
}

/// Warns about source paths that several entries share (see [`duplicate_findings`]).
pub fn duplicate_source_findings(pairs: &Vec<(String, RegistryEntry)>) -> (r: Vec<ValidationError>)
    ensures
        findings_view(r@) == duplicate_findings(pairs@),
{
    let sources = sources_of(pairs);
    let ghost ps = sources_in_order(pairs@);
    let mut r: Vec<ValidationError> = Vec::new();
    let mut k: usize = 0;
    while k < sources.len()
        invariant
            crate::path::views(sources@) == ps,
            ps == sources_in_order(pairs@),
            k <= sources.len(),
            findings_view(r@) == duplicate_findings_upto(pairs@, ps, k as nat),
        decreases sources.len() - k,
    {
        proof {
            assert(ps[k as int] == sources@[k as int]@);
        }
        let ids = ids_of(pairs, sources[k].as_str());
        if ids.len() > 1 {
            let mut m = owned("Duplicate source path '");
            m.append(sources[k].as_str());
            m.append("' used by: ");
            m.append(join_strings(&ids, ", ").as_str());
            let f = owned("Consider consolidating or renaming entries");
            push_finding(&mut r, finding(Severity::Warning, m, f));
        }
        proof {
            assert(findings_view(r@) =~= duplicate_findings_upto(pairs@, ps, (k + 1) as nat));
        }
        k = k + 1;
    }
    r
}

/// The view of a package manager entry for the tool check: id, name, command.
pub open spec fn tool_view(p: (String, PackageManagerEntry)) -> (Seq<char>, Seq<char>, Seq<char>) {
    (p.0@, p.1.name@, p.1.command@)
}

/// The notes about the first `n` package managers whose command was not found.
pub open spec fn missing_tools_upto(cs: Seq<(Seq<char>, Seq<char>, Seq<char>)>, found: Seq<bool>, n: nat) -> Seq<
    (Severity, Seq<char>, Option<Seq<char>>),
>
    decreases n,
{
    if n == 0 {
        seq![]
    } else {
        let (id, name, command) = cs[n - 1];
        missing_tools_upto(cs, found, (n - 1) as nat) + if !found[n - 1] {
            seq![
                (
                    Severity::Info,
                    "Package manager '"@ + name + "' ("@ + id + ") not found in PATH"@,
                    Some(
                        "Install "@ + command + " or disable this entry with 'mntn registry-packages toggle "@ + id
                            + " -e false'"@,
                    ),
                ),
            ]
        } else {
            seq![]
        }
    }
}

/// Notes the package managers whose command was not found; `found[i]` says
/// whether the command of the `i`-th was.
pub fn missing_tool_findings(cs: &Vec<(String, PackageManagerEntry)>, found: &Vec<bool>) -> (r: Vec<ValidationError>)
    requires
        found@.len() == cs@.len(),
    ensures
        findings_view(r@) == missing_tools_upto(
            cs@.map_values(|p: (String, PackageManagerEntry)| tool_view(p)),
            found@,
            cs@.len(),
        ),
{
    let ghost tv = cs@.map_values(|p: (String, PackageManagerEntry)| tool_view(p));
    let mut r: Vec<ValidationError> = Vec::new();
    let mut i: usize = 0;
    while i < cs.len()
        invariant
            found@.len() == cs@.len(),
            tv == cs@.map_values(|p: (String, PackageManagerEntry)| tool_view(p)),
            i <= cs.len(),
            findings_view(r@) == missing_tools_upto(tv, found@, i as nat),
        decreases cs.len() - i,
    {
        if !found[i] {
            let id = cs[i].0.as_str();
            let e = &cs[i].1;
            let mut m = owned("Package manager '");
            m.append(e.name.as_str());
            m.append("' (");
            m.append(id);
            m.append(") not found in PATH");
            let mut f = owned("Install ");
            f.append(e.command.as_str());
            f.append(" or disable this entry with 'mntn registry-packages toggle ");
            f.append(id);
            f.append(" -e false'");
            push_finding(&mut r, finding(Severity::Info, m, f));
        }
        proof {
            assert(tv[i as int] == tool_view(cs@[i as int]));
            assert(findings_view(r@) =~= missing_tools_upto(tv, found@, (i + 1) as nat));
        }
        i = i + 1;
    }
    r
}

/// The error finding for a registry that could not be loaded.
pub open spec fn load_error(what: Seq<char>, e: Seq<char>) -> (Severity, Seq<char>, Option<Seq<char>>) {
    (Severity::Error, "Could not load "@ + what + ": "@ + e, None)
}

fn load_error_finding(what: &str, e: &str) -> (r: ValidationError)
    ensures
        finding_view(r) == load_error(what@, e@),
{
    let mut m = owned("Could not load ");
    m.append(what);
    m.append(": ");
    m.append(e);
    ValidationError { severity: Severity::Error, message: m, fix_suggestion: None }
}

/// The findings of the registry check: shared source paths in the
/// configuration registry, then package managers of this platform whose
/// command was not found (`found` says which were); a registry that could
/// not be loaded gives an error instead.
pub open spec fn registry_findings(
    configs: Result<ConfigsRegistry, String>,
    packages: Result<PackageRegistry, String>,
    platform: Platform,
    found: Seq<bool>,
) -> Seq<(Severity, Seq<char>, Option<Seq<char>>)> {
    let first = match configs {
        Ok(r) => duplicate_findings(r.pairs()),
        Err(e) => seq![load_error("configs registry"@, e@)],
    };
    let second = match packages {
        Ok(p) => {
            let cs = compatible_pairs(p.pairs(), platform.os_name());
            missing_tools_upto(cs.map_values(|q: (String, PackageManagerEntry)| tool_view(q)), found, cs.len())
        },
        Err(e) => seq![load_error("package registry"@, e@)],
    };
    first + second
}

/// The commands the registry check looks up: those of the package managers
/// of `platform`, in registry order (none when the registry was not loaded).
pub open spec fn commands_to_find_spec(packages: Result<PackageRegistry, String>, platform: Platform) -> Seq<Seq<char>> {
    match packages {
        Ok(p) => compatible_pairs(p.pairs(), platform.os_name()).map_values(
            |q: (String, PackageManagerEntry)| q.1.command@,
        ),
        Err(_) => seq![],
    }
}

/// The number of package managers of `platform` the registry check looks up.
pub open spec fn tools_to_find(packages: Result<PackageRegistry, String>, platform: Platform) -> nat {
    commands_to_find_spec(packages, platform).len()
}

/// The commands the registry check looks up (see [`commands_to_find_spec`]).
pub fn commands_to_find(packages: &Result<PackageRegistry, String>, platform: Platform) -> (r: Vec<String>)
    requires
        packages matches Ok(p) ==> p.wf(),
    ensures
        crate::path::views(r@) == commands_to_find_spec(*packages, platform),
{
    let mut r: Vec<String> = Vec::new();
    match packages {
        Ok(p) => {
            let os = platform.to_string();
            let cs = p.get_platform_compatible_entries(os.as_str());
            let ghost want = compatible_pairs(p.pairs(), platform.os_name());
            proof {
                lemma_copies_tool_view(cs@, want);
            }
            let mut i: usize = 0;
            while i < cs.len()
                invariant
                    i <= cs.len(),
                    cs@.map_values(|q: (String, PackageManagerEntry)| tool_view(q)) == want.map_values(
                        |q: (String, PackageManagerEntry)| tool_view(q),
                    ),
                    crate::path::views(r@) == cs@.take(i as int).map_values(|q: (String, PackageManagerEntry)| q.1.command@),
                decreases cs.len() - i,
            {
                r.push(cs[i].1.command.clone());
                proof {
                    assert(cs@.take(i + 1).map_values(|q: (String, PackageManagerEntry)| q.1.command@) =~= cs@.take(
                        i as int,
                    ).map_values(|q: (String, PackageManagerEntry)| q.1.command@).push(cs@[i as int].1.command@));
                    assert(crate::path::views(r@) =~= crate::path::views(r@.drop_last()).push(r@.last()@));
                }
                i += 1;
            }
            proof {
                assert(cs@.take(cs.len() as int) =~= cs@);
                assert forall|k: int| 0 <= k < cs@.len() implies #[trigger] cs@[k].1.command@ == want[k].1.command@ by {
                    assert(cs@.map_values(|q: (String, PackageManagerEntry)| tool_view(q))[k] == tool_view(cs@[k]));
                    assert(want.map_values(|q: (String, PackageManagerEntry)| tool_view(q))[k] == tool_view(want[k]));
                }
                assert(crate::path::views(r@) =~= commands_to_find_spec(*packages, platform));
            }
        },
        Err(_) => {
            proof {
                assert(crate::path::views(r@) =~= commands_to_find_spec(*packages, platform));
            }
        },
    }
    r
}

/// Copies of package entries show the same id, name and command.
proof fn lemma_copies_tool_view(a: Seq<(String, PackageManagerEntry)>, b: Seq<(String, PackageManagerEntry)>)
    requires
        copies(a, b),
    ensures
        a.map_values(|p: (String, PackageManagerEntry)| tool_view(p)) == b.map_values(
            |p: (String, PackageManagerEntry)| tool_view(p),
        ),
{
    assert forall|i: int| 0 <= i < a.len() implies #[trigger] tool_view(a[i]) == tool_view(b[i]) by {
        assert(crate::registries::same_pair(a[i], b[i]));
    }
    assert(a.map_values(|p: (String, PackageManagerEntry)| tool_view(p)) =~= b.map_values(
        |p: (String, PackageManagerEntry)| tool_view(p),
    ));
}

impl RegistryValidator {
    /// The registry check, given which package managers' commands were found
    /// (see [`registry_findings`]).
    pub fn validate_with(
        &self,
        configs: &Result<ConfigsRegistry, String>,
        packages: &Result<PackageRegistry, String>,
        platform: Platform,
        found: &Vec<bool>,
    ) -> (r: Vec<ValidationError>)
        requires
            configs matches Ok(c) ==> c.wf(),
            packages matches Ok(p) ==> p.wf(),
            found@.len() == tools_to_find(*packages, platform),
        ensures
            findings_view(r@) == registry_findings(*configs, *packages, platform, found@),
    {
        let mut r: Vec<ValidationError> = Vec::new();
        match configs {
            Ok(c) => {
                let more = duplicate_source_findings(c.entries());
                append_findings(&mut r, more);
            },
            Err(e) => push_finding(&mut r, load_error_finding("configs registry", e.as_str())),
        }
        match packages {
            Ok(p) => {
                let os = platform.to_string();
                let cs = p.get_platform_compatible_entries(os.as_str());
                proof {
                    lemma_copies_tool_view(cs@, compatible_pairs(p.pairs(), platform.os_name()));
                }
                let more = missing_tool_findings(&cs, found);
                append_findings(&mut r, more);
            },
            Err(e) => push_finding(&mut r, load_error_finding("package registry", e.as_str())),
        }
        proof {
            assert(findings_view(r@) =~= registry_findings(*configs, *packages, platform, found@));
        }
        r
    }

    /// The registry check, looking up each package manager's command on the
    /// search path; the findings are those of [`registry_findings`] for what
    /// was found.
    pub fn validate(
        &self,
        configs: &Result<ConfigsRegistry, String>,
        packages: &Result<PackageRegistry, String>,
        platform: Platform,
    ) -> (r: Vec<ValidationError>)
        requires
            configs matches Ok(c) ==> c.wf(),
            packages matches Ok(p) ==> p.wf(),
        ensures
            exists|lookups: Seq<CommandLookup>|
                looked_up(lookups, commands_to_find_spec(*packages, platform)) && findings_view(r@)
                    == #[trigger] registry_findings(*configs, *packages, platform, found_of(lookups)),
    {
        let commands = commands_to_find(packages, platform);
        let lookups = look_up_commands(&commands);
        let found = found_flags(&lookups);
        self.validate_with(configs, packages, platform, &found)
    }
}

} // verus!

verus! {

/// What the validators look at: the registries as loaded (or why they could
/// not be), the platform, the legacy backup directory and, for each enabled
/// configuration entry in order, what was found on disk.
#[derive(Debug)]
pub struct ValidationInputs {
    pub configs: Result<ConfigsRegistry, String>,
    pub packages: Result<PackageRegistry, String>,
    pub platform: Platform,
    pub backup_root: String,
    pub observed: Vec<EntryObservations>,
}

/// The inputs hang together: loaded registries are well formed, small
/// enough for their findings to be counted, and there is one observation
/// per enabled configuration entry.
pub open spec fn inputs_ok(i: ValidationInputs) -> bool {
    &&& (i.configs matches Ok(c) ==> c.wf() && c.pairs().len() <= usize::MAX / 8 && i.observed@.len()
        == enabled_pairs(c.pairs()).len())
    &&& (i.packages matches Ok(p) ==> p.wf() && p.pairs().len() <= usize::MAX / 8)
}

/// Whether `inputs` meet what [`ConfigValidator::run_all`] asks of them:
/// registries without repeated ids and of a size the counts fit in, and one
/// observation per enabled configuration entry.
pub fn check_inputs(inputs: &ValidationInputs) -> (r: bool)
    ensures
        r == inputs_ok(*inputs),
{
    let configs_ok = match &inputs.configs {
        Ok(c) => c.has_distinct_ids() && c.entries().len() <= usize::MAX / 8
            && inputs.observed.len() == c.get_enabled_entries().len(),
        Err(_) => true,
    };
    let packages_ok = match &inputs.packages {
        Ok(p) => p.has_distinct_ids() && p.entries().len() <= usize::MAX / 8,
        Err(_) => true,
    };
    configs_ok && packages_ok
}

/// The findings of a check that looks at each enabled entry: `check` of the
/// enabled entries, or an error when the configuration registry could not be loaded.
pub open spec fn per_entry_findings(
    i: ValidationInputs,
    check: spec_fn(Seq<(String, RegistryEntry)>) -> Seq<(Severity, Seq<char>, Option<Seq<char>>)>,
) -> Seq<(Severity, Seq<char>, Option<Seq<char>>)> {
    match i.configs {
        Ok(c) => check(enabled_pairs(c.pairs())),
        Err(e) => seq![load_error("configs registry"@, e@)],
    }
}

/// `fs` are the findings that validator `v` gives for the inputs; for the
/// registry check, for some outcome of looking up the package managers.
pub open spec fn validator_result(v: AnyValidator, i: ValidationInputs, fs: Seq<(Severity, Seq<char>, Option<Seq<char>>)>) -> bool {
    match v {
        AnyValidator::Registry(_) => exists|lookups: Seq<CommandLookup>|
            looked_up(lookups, commands_to_find_spec(i.packages, i.platform)) && fs == #[trigger] registry_findings(
                i.configs,
                i.packages,
                i.platform,
                found_of(lookups),
            ),
        AnyValidator::Layer(_) => fs == per_entry_findings(
            i,
            |es: Seq<(String, RegistryEntry)>| layer_findings(es, i.observed@, i.backup_root@),
        ),
        AnyValidator::Json(_) => fs == per_entry_findings(
            i,
            |es: Seq<(String, RegistryEntry)>| json_findings_upto(es, i.observed@, es.len()),
        ),
        AnyValidator::Legacy(_) => fs == per_entry_findings(
            i,
            |es: Seq<(String, RegistryEntry)>| legacy_findings(es, i.observed@, i.backup_root@),
        ),
    }
}

/// Copies of the entries give the same findings.
proof fn lemma_copies_findings(
    a: Seq<(String, RegistryEntry)>,
    b: Seq<(String, RegistryEntry)>,
    obs: Seq<EntryObservations>,
    root: Seq<char>,
    n: nat,
)
    requires
        copies(a, b),
        n <= a.len(),
    ensures
        json_findings_upto(a, obs, n) == json_findings_upto(b, obs, n),
        layer_findings_upto(a, obs, n) == layer_findings_upto(b, obs, n),
        legacy_findings_upto(a, obs, root, n) == legacy_findings_upto(b, obs, root, n),
    decreases n,
{
    if n > 0 {
        lemma_copies_findings(a, b, obs, root, (n - 1) as nat);
        assert(crate::registries::same_pair(a[n - 1], b[n - 1]));
    }
}

/// The JSON check gives at most one finding per entry.
proof fn lemma_json_len(es: Seq<(String, RegistryEntry)>, obs: Seq<EntryObservations>, n: nat)
    ensures
        json_findings_upto(es, obs, n).len() <= n,
    decreases n,
{
    if n > 0 {
        lemma_json_len(es, obs, (n - 1) as nat);
    }
}

/// The layer check gives at most one note per entry.
proof fn lemma_layer_len(es: Seq<(String, RegistryEntry)>, obs: Seq<EntryObservations>, n: nat)
    ensures
        layer_findings_upto(es, obs, n).len() <= n,
    decreases n,
{
    if n > 0 {
        lemma_layer_len(es, obs, (n - 1) as nat);
    }
}

/// The legacy check gives at most one warning per entry.
proof fn lemma_legacy_len(es: Seq<(String, RegistryEntry)>, obs: Seq<EntryObservations>, root: Seq<char>, n: nat)
    ensures
        legacy_findings_upto(es, obs, root, n).len() <= n,
    decreases n,
{
    if n > 0 {
        lemma_legacy_len(es, obs, root, (n - 1) as nat);
    }
}

/// The duplicate check gives at most one warning per distinct source.
proof fn lemma_duplicates_len(s: Seq<(String, RegistryEntry)>, ps: Seq<Seq<char>>, n: nat)
    ensures
        duplicate_findings_upto(s, ps, n).len() <= n,
    decreases n,
{
    if n > 0 {
        lemma_duplicates_len(s, ps, (n - 1) as nat);
    }
}

/// There are no more distinct sources than entries.
proof fn lemma_sources_len(s: Seq<(String, RegistryEntry)>)
    ensures
        sources_in_order(s).len() <= s.len(),
    decreases s.len(),
{
    if s.len() > 0 {
        lemma_sources_len(s.drop_last());
    }
}

/// The tool check gives at most one note per package manager.
proof fn lemma_missing_len(cs: Seq<(Seq<char>, Seq<char>, Seq<char>)>, found: Seq<bool>, n: nat)
    ensures
        missing_tools_upto(cs, found, n).len() <= n,
    decreases n,
{
    if n > 0 {
        lemma_missing_len(cs, found, (n - 1) as nat);
    }
}

/// There are no more compatible entries than entries.
proof fn lemma_compatible_len(s: Seq<(String, PackageManagerEntry)>, platform: Seq<char>)
    ensures
        compatible_pairs(s, platform).len() <= s.len(),
    decreases s.len(),
{
    if s.len() > 0 {
        lemma_compatible_len(s.drop_last(), platform);
    }
}

impl AnyValidator {
    /// Runs this validator on the inputs (see [`validator_result`]).
    pub fn validate(&self, inputs: &ValidationInputs) -> (r: Vec<ValidationError>)
        requires
            inputs_ok(*inputs),
        ensures
            validator_result(*self, *inputs, findings_view(r@)),
            r@.len() <= usize::MAX / 4,
    {
        match self {
            AnyValidator::Registry(v) => {
                let r = v.validate(&inputs.configs, &inputs.packages, inputs.platform);
                proof {
                    let lookups = choose|lookups: Seq<CommandLookup>|
                        looked_up(lookups, commands_to_find_spec(inputs.packages, inputs.platform)) && findings_view(r@)
                            == #[trigger] registry_findings(inputs.configs, inputs.packages, inputs.platform, found_of(lookups));
                    let found = found_of(lookups);
                    match &inputs.configs {
                        Ok(c) => {
                            lemma_sources_len(c.pairs());
                            lemma_duplicates_len(c.pairs(), sources_in_order(c.pairs()), sources_in_order(c.pairs()).len());
                        },
                        Err(_) => {},
                    }
                    match &inputs.packages {
                        Ok(p) => {
                            let cs = compatible_pairs(p.pairs(), inputs.platform.os_name());
                            lemma_compatible_len(p.pairs(), inputs.platform.os_name());
                            lemma_missing_len(cs.map_values(|q: (String, PackageManagerEntry)| tool_view(q)), found, cs.len());
                        },
                        Err(_) => {},
                    }
                    assert(findings_view(r@).len() == r@.len());
                }
                r
            },
            AnyValidator::Layer(v) => match &inputs.configs {
                Ok(c) => {
                    let es = c.get_enabled_entries();
                    let r = v.validate_from(&es, &inputs.observed, inputs.backup_root.as_str());
                    proof {
                        let b = enabled_pairs(c.pairs());
                        lemma_copies_findings(es@, b, inputs.observed@, inputs.backup_root@, es@.len());
                        lemma_layer_len(es@, inputs.observed@, es@.len());
                        crate::registries::law_enabled_entries(c.pairs());
                        assert(findings_view(r@).len() == r@.len());
                    }
                    r
                },
                Err(e) => {
                    let mut r: Vec<ValidationError> = Vec::new();
                    push_finding(&mut r, load_error_finding("configs registry", e.as_str()));
                    proof {
                        assert(findings_view(r@) =~= seq![load_error("configs registry"@, e@)]);
                    }
                    r
                },
            },
            AnyValidator::Json(v) => match &inputs.configs {
                Ok(c) => {
                    let es = c.get_enabled_entries();
                    let r = v.validate_from(&es, &inputs.observed);
                    proof {
                        let b = enabled_pairs(c.pairs());
                        lemma_copies_findings(es@, b, inputs.observed@, inputs.backup_root@, es@.len());
                        lemma_json_len(es@, inputs.observed@, es@.len());
                        crate::registries::law_enabled_entries(c.pairs());
                        assert(findings_view(r@).len() == r@.len());
                    }
                    r
                },
                Err(e) => {
                    let mut r: Vec<ValidationError> = Vec::new();
                    push_finding(&mut r, load_error_finding("configs registry", e.as_str()));
                    proof {
                        assert(findings_view(r@) =~= seq![load_error("configs registry"@, e@)]);
                    }
                    r
                },
            },
            AnyValidator::Legacy(v) => match &inputs.configs {
                Ok(c) => {
                    let es = c.get_enabled_entries();
                    let r = v.validate_from(&es, &inputs.observed, inputs.backup_root.as_str());
                    proof {
                        let b = enabled_pairs(c.pairs());
                        lemma_copies_findings(es@, b, inputs.observed@, inputs.backup_root@, es@.len());
                        lemma_legacy_len(es@, inputs.observed@, inputs.backup_root@, es@.len());
                        crate::registries::law_enabled_entries(c.pairs());
                        assert(findings_view(r@).len() == r@.len());
                    }
                    r
                },
                Err(e) => {
                    let mut r: Vec<ValidationError> = Vec::new();
                    push_finding(&mut r, load_error_finding("configs registry", e.as_str()));
                    proof {
                        assert(findings_view(r@) =~= seq![load_error("configs registry"@, e@)]);
                    }
                    r
                },
            },
        }
    }
}

impl ConfigValidator {
    /// Runs every validator in order and collects their findings under
    /// their names.
    pub fn run_all(&self, inputs: &ValidationInputs) -> (r: ValidationReport)
        requires
            self.wf(),
            inputs_ok(*inputs),
        ensures
            r.wf(),
            r.view().len() == 4,
            forall|k: int|
                0 <= k < 4 ==> (#[trigger] r.view()[k]).0@ == self.validators@[k].name_spec() && validator_result(
                    self.validators@[k],
                    *inputs,
                    findings_view(r.view()[k].1@),
                ),
    {
        let mut report = ValidationReport::new();
        let mut k: usize = 0;
        while k < 4
            invariant
                self.wf(),
                inputs_ok(*inputs),
                k <= 4,
                report.wf(),
                report.view().len() == k,
                total_findings(report.view()) <= k * (usize::MAX / 4),
                forall|j: int|
                    0 <= j < k ==> (#[trigger] report.view()[j]).0@ == self.validators@[j].name_spec()
                        && validator_result(self.validators@[j], *inputs, findings_view(report.view()[j].1@)),
            decreases 4 - k,
        {
            let v = &self.validators[k];
            let errors = v.validate(inputs);
            proof {
                let q = usize::MAX / 4;
                assert(k * q + q == (k + 1) * q) by (nonlinear_arith);
                assert((k + 1) * q <= 4 * q) by (nonlinear_arith)
                    requires
                        k < 4,
                ;
            }
            let ghost before = report.view();
            report.add_result(v.name(), errors);
            proof {
                assert(report.view().drop_last() == before);
                assert(total_findings(report.view()) == total_findings(before) + errors@.len());
                assert forall|j: int|
                    0 <= j < k + 1 implies (#[trigger] report.view()[j]).0@ == self.validators@[j].name_spec()
                    && validator_result(self.validators@[j], *inputs, findings_view(report.view()[j].1@)) by {
                    if j < k {
                        assert(report.view()[j] == before[j]);
                    }
                }
            }
            k = k + 1;
        }
        report
    }
}

/// The task for the command-line arguments, given the active profile's
/// name, and whether to run it dry.
pub fn run_with_args(args: ValidateArgs, active: Option<String>) -> (r: TaskRun<ValidateTask>)
    ensures
        selected_profile(args.profile_args, active, r.task.profile),
        r.dry_run == args.dry_run,
{
    let profile = args.resolve_profile(active);
    TaskRun { task: ValidateTask::new(profile), dry_run: args.dry_run }
}

} // verus!
