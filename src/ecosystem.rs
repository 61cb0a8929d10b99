//! The ecosystems that a project can belong to, and for each one the marker
//! files that identify it and the ordered steps of its quality gate.

use vstd::prelude::*;
use crate::gate::{EnvFailure, RunReport, all_passed};
use crate::runner::{StepSpec, StepView};

verus! {

/// The languages that a gate can be asked to check.
#[derive(Clone, Copy, Debug, PartialEq, Eq, Structural)]
pub enum Language {
    Rust,
    Go,
    C,
    Cpp,
    D,
    Python,
    Php,
    Java,
    Kotlin,
    Swift,
    Ruby,
    Perl,
    Scala,
    TypeScript,
    Elixir,
    Haskell,
    Clojure,
    Bash,
    ObjectiveC,
    Erlang,
    Lua,
    FSharp,
    R,
    Julia,
    Crystal,
    Groovy,
    Dart,
    Matlab,
    Cobol,
    Fortran,
    Nim,
    Nodejs,
    Vlang,
    OCaml,
    Tcl,
    VHDL,
    Unknown,
}

/// The kinds of check that a make-driven project provides as targets.
#[derive(Clone, Copy, Debug, PartialEq, Eq, Hash, Structural)]
pub enum Checked {
    Fmt,
    Audit,
    Test,
    License,
    Lint,
}

/// The make target that performs a kind of check.
pub open spec fn target_of(c: Checked) -> Seq<char> {
    match c {
        Checked::Fmt => "zuu-fmt"@,
        Checked::Audit => "zuu-audit"@,
        Checked::Test => "zuu-test"@,
        Checked::License => "zuu-license"@,
        Checked::Lint => "zuu-lint"@,
    }
}

impl Checked {
    /// The make target that performs this check.
    pub fn target(self) -> (r: &'static str)
        ensures
            r@ == target_of(self),
    {
        match self {
            Checked::Fmt => "zuu-fmt",
            Checked::Audit => "zuu-audit",
            Checked::Test => "zuu-test",
            Checked::License => "zuu-license",
            Checked::Lint => "zuu-lint",
        }
    }
}

/// The families of tool sequence; several languages share one.
#[derive(Clone, Copy, Debug, PartialEq, Eq, Structural)]
pub enum Ecosystem {
    Rust,
    Php,
    /// Node.js and TypeScript projects, driven by npm.
    Js,
    Python,
    D,
    /// Any other language: the project's makefile provides one target per check.
    Make,
}

/// The ecosystem of a language; none for an unknown one.
pub open spec fn ecosystem_of(lang: Language) -> Option<Ecosystem> {
    match lang {
        Language::Rust => Some(Ecosystem::Rust),
        Language::Php => Some(Ecosystem::Php),
        Language::Nodejs | Language::TypeScript => Some(Ecosystem::Js),
        Language::Python => Some(Ecosystem::Python),
        Language::D => Some(Ecosystem::D),
        Language::Unknown => None,
        _ => Some(Ecosystem::Make),
    }
}

/// The files of which at least one must be present in the project root for
/// the ecosystem to apply; none are asked of a make-driven project.
pub open spec fn markers_of(eco: Ecosystem) -> Seq<Seq<char>> {
    match eco {
        Ecosystem::Rust => seq!["Cargo.toml"@],
        Ecosystem::Php => seq!["composer.json"@],
        Ecosystem::Js => seq!["package.json"@],
        Ecosystem::Python => seq!["setup.py"@],
        Ecosystem::D => seq!["dub.json"@, "dub.sdl"@],
        Ecosystem::Make => seq![],
    }
}

/// The value of a step built from its parts.
pub open spec fn step_of(
    label: Seq<char>,
    passed: Seq<char>,
    failed: Seq<char>,
    log_name: Seq<char>,
    program: Seq<char>,
    args: Seq<Seq<char>>,
    row: u16,
) -> StepView {
    StepView { label, passed, failed, log_name, program, args, row }
}

/// The views of a list of steps, in order.
pub open spec fn step_views(steps: Seq<StepSpec>) -> Seq<StepView> {
    steps.map_values(|s: StepSpec| s@)
}

/// The ordered steps of each ecosystem; step `i` owns terminal row `i + 1`.
pub open spec fn plan_of(eco: Ecosystem) -> Seq<StepView> {
    match eco {
        Ecosystem::Rust => seq![
            step_of("Checking licenses"@, "No dependencies incompatible licenses"@, "Some dependencies may have incompatible licenses"@, "license"@, "cargo"@, seq!["deny"@, "check"@], 1),
            step_of("Auditing code"@, "No security vulnerabilities in the code"@, "Security vulnerabilities detected in the code"@, "audit"@, "cargo"@, seq!["audit"@], 2),
            step_of("Checking code"@, "Your code respect style requirements"@, "Your code does not meet style requirements"@, "lint"@, "cargo"@, seq!["clippy"@], 3),
            step_of("Running tests"@, "All tests pass"@, "Some tests did not pass. Please review the test results"@, "tests"@, "cargo"@, seq!["test"@, "--no-fail-fast"@], 4),
            step_of("Checking code format"@, "Source code is formatted correctly"@, "Source code is not formatted correctly. Please run the formatter"@, "fmt"@, "cargo"@, seq!["fmt"@, "--check"@], 5),
        ],
        Ecosystem::Php => seq![
            step_of("Validating composer.json"@, "No composer problem founded"@, "Composer validate detect problem"@, "validate"@, "composer"@, seq!["validate"@, "--strict"@], 1),
            step_of("Diagnosing composer"@, "Diagnose no detect problem"@, "Diagnose detect problem"@, "diagnose"@, "composer"@, seq!["diagnose"@], 2),
            step_of("Auditing code"@, "No audit errors founded"@, "Audit errors has been founded"@, "audit"@, "composer"@, seq!["audit"@], 3),
            step_of("Running tests"@, "All tests passes"@, "Some tests did not pass. Please review the test results"@, "tests"@, "composer"@, seq!["test"@], 4),
            step_of("Checking code format"@, "Source code format respect stantard"@, "Source code is not formatted correctly. Please run the formatter"@, "fmt"@, "composer"@, seq!["fmt"@], 5),
            step_of("Checking dependencies"@, "Dependencies are up to date"@, "Dependencies must be updated"@, "outdated"@, "composer"@, seq!["outdated"@], 6),
        ],
        Ecosystem::Js => seq![
            step_of("Auditing code"@, "No vulnerabilities founded"@, "Audit detect vulnerabilities"@, "audit"@, "npm"@, seq!["audit"@], 1),
            step_of("Checking dependencies"@, "All dependencies are up to date"@, "Dependencies must be updated"@, "outdated"@, "npm"@, seq!["outdated"@], 2),
            step_of("Checking licenses"@, "No licenses errors founded"@, "Licenses errors has been founded"@, "licenses"@, "npm"@, seq!["run"@, "licenses"@], 3),
            step_of("Checking code"@, "No lint errors founded"@, "Lint errors has been founded"@, "lint"@, "npm"@, seq!["run"@, "lint"@], 4),
            step_of("Running tests"@, "All tests passes"@, "Some tests did not pass. Please review the test results"@, "tests"@, "npm"@, seq!["test"@], 5),
            step_of("Checking npm environment"@, "The health of your npm environment is ok"@, "The health of your npm environment is bad"@, "doctor"@, "npm"@, seq!["doctor"@], 6),
            step_of("Verifying cache"@, "The cache integrity of the cache index and all cached data are ok"@, "The cache integrity of the cache index and all cached data have problem"@, "cache"@, "npm"@, seq!["cache"@, "verify"@], 7),
        ],
        Ecosystem::Python => seq![
            step_of("Auditing code"@, "No vulnerabilities founded"@, "Audit detect vulnerabilities"@, "audit"@, "bandit"@, seq!["-r"@, "."@], 1),
        ],
        Ecosystem::D => seq![
            step_of("Running tests"@, "All tests passes"@, "Test have failures"@, "test"@, "dub"@, seq!["test"@], 1),
            step_of("Checking syntax"@, "The project respect the syntax"@, "The project has bad syntax"@, "syntax"@, "dub"@, seq!["lint"@, "--nodeps"@, "--syntax-check"@], 2),
            step_of("Checking code style"@, "The source style analysis no contains failures"@, "The source style analysis contains failures"@, "style"@, "dub"@, seq!["lint"@, "--style-check"@, "--nodeps"@], 3),
        ],
        Ecosystem::Make => seq![
            step_of("Checking licenses"@, "No licences problem has bee founded"@, "Some dependencies may have incompatible licenses"@, "license"@, "make"@, seq!["zuu-license"@], 1),
            step_of("Auditing code"@, "No vulnerabilities has been founded"@, "Security vulnerabilities detected in the code"@, "audit"@, "make"@, seq!["zuu-audit"@], 2),
            step_of("Checking code"@, "No problem detected"@, "Your code does not meet style requirements"@, "lint"@, "make"@, seq!["zuu-lint"@], 3),
            step_of("Running tests"@, "All tests passes"@, "Some tests did not pass. Please review the test results"@, "tests"@, "make"@, seq!["zuu-test"@], 4),
            step_of("Checking code format"@, "The source code format respect the standard"@, "Source code is not formatted correctly. Please run the formatter"@, "fmt"@, "make"@, seq!["zuu-fmt"@], 5),
        ],    }
}

/// Why a gate did not pass.
#[derive(Clone, Copy, Debug, PartialEq, Eq, Structural)]
pub enum GateError {
    /// The language is unknown, or none of its marker files is present.
    Unsupported,
    /// At least one step failed.
    StepsFailed,
    /// The surroundings could not be set up; no step ran.
    Environment(EnvFailure),
}

/// The process exit code for the result of a gate: 0 when it passed, 1 otherwise.
pub fn zuu_exit(status: &Result<(), GateError>) -> (r: u8)
    ensures
        r == (if status is Ok { 0u8 } else { 1u8 }),
{
    if status.is_err() {
        return 1;
    }
    0
}

fn words1(a: &str) -> (r: Vec<String>)
    ensures
        r@.map_values(|w: String| w@) == seq![a@],
{
    let mut v: Vec<String> = Vec::new();
    v.push(String::from_str(a));
    assert(v@.map_values(|w: String| w@) =~= seq![a@]);
    v
}

fn words2(a: &str, b: &str) -> (r: Vec<String>)
    ensures
        r@.map_values(|w: String| w@) == seq![a@, b@],
{
    let mut v: Vec<String> = Vec::new();
    v.push(String::from_str(a));
    v.push(String::from_str(b));
    assert(v@.map_values(|w: String| w@) =~= seq![a@, b@]);
    v
}

fn words3(a: &str, b: &str, c: &str) -> (r: Vec<String>)
    ensures
        r@.map_values(|w: String| w@) == seq![a@, b@, c@],
{
    let mut v: Vec<String> = Vec::new();
    v.push(String::from_str(a));
    v.push(String::from_str(b));
    v.push(String::from_str(c));
    assert(v@.map_values(|w: String| w@) =~= seq![a@, b@, c@]);
    v
}

fn make_step(
    label: &str,
    passed: &str,
    failed: &str,
    log_name: &str,
    program: &str,
    args: Vec<String>,
    row: u16,
) -> (r: StepSpec)
    ensures
        r@ == step_of(
            label@,
            passed@,
            failed@,
            log_name@,
            program@,
            args@.map_values(|w: String| w@),
            row,
        ),
{
    StepSpec {
        label: String::from_str(label),
        passed: String::from_str(passed),
        failed: String::from_str(failed),
        log_name: String::from_str(log_name),
        program: String::from_str(program),
        args,
        row,
    }
}

/// A quality gate for one language.
pub struct Zuu {
    pub language: Language,
}

impl Zuu {
    pub fn new(lang: Language) -> (r: Zuu)
        ensures
            r.language == lang,
    {
        Zuu { language: lang }
    }

    /// The ecosystem whose steps this gate runs; none for an unknown language.
    pub fn ecosystem(&self) -> (r: Option<Ecosystem>)
        ensures
            r == ecosystem_of(self.language),
    {
        match self.language {
            Language::Rust => Some(Ecosystem::Rust),
            Language::Php => Some(Ecosystem::Php),
            Language::Nodejs | Language::TypeScript => Some(Ecosystem::Js),
            Language::Python => Some(Ecosystem::Python),
            Language::D => Some(Ecosystem::D),
            Language::Unknown => None,
            _ => Some(Ecosystem::Make),
        }
    }

    /// The steps of the Rust ecosystem.
    fn rust() -> (r: Vec<StepSpec>)
        ensures
            step_views(r@) == plan_of(Ecosystem::Rust),
    {
        let mut v: Vec<StepSpec> = Vec::new();
        v.push(make_step(
            "Checking licenses",
            "No dependencies incompatible licenses",
            "Some dependencies may have incompatible licenses",
            "license",
            "cargo",
            words2("deny", "check"),
            1,
        ));
        v.push(make_step(
            "Auditing code",
            "No security vulnerabilities in the code",
            "Security vulnerabilities detected in the code",
            "audit",
            "cargo",
            words1("audit"),
            2,
        ));
        v.push(make_step(
            "Checking code",
            "Your code respect style requirements",
            "Your code does not meet style requirements",
            "lint",
            "cargo",
            words1("clippy"),
            3,
        ));
        v.push(make_step(
            "Running tests",
            "All tests pass",
            "Some tests did not pass. Please review the test results",
            "tests",
            "cargo",
            words2("test", "--no-fail-fast"),
            4,
        ));
        v.push(make_step(
            "Checking code format",
            "Source code is formatted correctly",
            "Source code is not formatted correctly. Please run the formatter",
            "fmt",
            "cargo",
            words2("fmt", "--check"),
            5,
        ));
        assert(step_views(v@) =~= plan_of(Ecosystem::Rust));
        v
    }

    /// The steps of the Php ecosystem.
    fn php() -> (r: Vec<StepSpec>)
        ensures
            step_views(r@) == plan_of(Ecosystem::Php),
    {
        let mut v: Vec<StepSpec> = Vec::new();
        v.push(make_step(
            "Validating composer.json",
            "No composer problem founded",
            "Composer validate detect problem",
            "validate",
            "composer",
            words2("validate", "--strict"),
            1,
        ));
        v.push(make_step(
            "Diagnosing composer",
            "Diagnose no detect problem",
            "Diagnose detect problem",
            "diagnose",
            "composer",
            words1("diagnose"),
            2,
        ));
        v.push(make_step(
            "Auditing code",
            "No audit errors founded",
            "Audit errors has been founded",
            "audit",
            "composer",
            words1("audit"),
            3,
        ));
        v.push(make_step(
            "Running tests",
            "All tests passes",
            "Some tests did not pass. Please review the test results",
            "tests",
            "composer",
            words1("test"),
            4,
        ));
        v.push(make_step(
            "Checking code format",
            "Source code format respect stantard",
            "Source code is not formatted correctly. Please run the formatter",
            "fmt",
            "composer",
            words1("fmt"),
            5,
        ));
        v.push(make_step(
            "Checking dependencies",
            "Dependencies are up to date",
            "Dependencies must be updated",
            "outdated",
            "composer",
            words1("outdated"),
            6,
        ));
        assert(step_views(v@) =~= plan_of(Ecosystem::Php));
        v
    }

    /// The steps of the Js ecosystem.
    fn js() -> (r: Vec<StepSpec>)
        ensures
            step_views(r@) == plan_of(Ecosystem::Js),
    {
        let mut v: Vec<StepSpec> = Vec::new();
        v.push(make_step(
            "Auditing code",
            "No vulnerabilities founded",
            "Audit detect vulnerabilities",
            "audit",
            "npm",
            words1("audit"),
            1,
        ));
        v.push(make_step(
            "Checking dependencies",
            "All dependencies are up to date",
            "Dependencies must be updated",
            "outdated",
            "npm",
            words1("outdated"),
            2,
        ));
        v.push(make_step(
            "Checking licenses",
            "No licenses errors founded",
            "Licenses errors has been founded",
            "licenses",
            "npm",
            words2("run", "licenses"),
            3,
        ));
        v.push(make_step(
            "Checking code",
            "No lint errors founded",
            "Lint errors has been founded",
            "lint",
            "npm",
            words2("run", "lint"),
            4,
        ));
        v.push(make_step(
            "Running tests",
            "All tests passes",
            "Some tests did not pass. Please review the test results",
            "tests",
            "npm",
            words1("test"),
            5,
        ));
        v.push(make_step(
            "Checking npm environment",
            "The health of your npm environment is ok",
            "The health of your npm environment is bad",
            "doctor",
            "npm",
            words1("doctor"),
            6,
        ));
        v.push(make_step(
            "Verifying cache",
            "The cache integrity of the cache index and all cached data are ok",
            "The cache integrity of the cache index and all cached data have problem",
            "cache",
            "npm",
            words2("cache", "verify"),
            7,
        ));
        assert(step_views(v@) =~= plan_of(Ecosystem::Js));
        v
    }

    /// The steps of the Python ecosystem.
    fn python() -> (r: Vec<StepSpec>)
        ensures
            step_views(r@) == plan_of(Ecosystem::Python),
    {
        let mut v: Vec<StepSpec> = Vec::new();
        v.push(make_step(
            "Auditing code",
            "No vulnerabilities founded",
            "Audit detect vulnerabilities",
            "audit",
            "bandit",
            words2("-r", "."),
            1,
        ));
        assert(step_views(v@) =~= plan_of(Ecosystem::Python));
        v
    }

    /// The steps of the D ecosystem.
    fn d() -> (r: Vec<StepSpec>)
        ensures
            step_views(r@) == plan_of(Ecosystem::D),
    {
        let mut v: Vec<StepSpec> = Vec::new();
        v.push(make_step(
            "Running tests",
            "All tests passes",
            "Test have failures",
            "test",
            "dub",
            words1("test"),
            1,
        ));
        v.push(make_step(
            "Checking syntax",
            "The project respect the syntax",
            "The project has bad syntax",
            "syntax",
            "dub",
            words3("lint", "--nodeps", "--syntax-check"),
            2,
        ));
        v.push(make_step(
            "Checking code style",
            "The source style analysis no contains failures",
            "The source style analysis contains failures",
            "style",
            "dub",
            words3("lint", "--style-check", "--nodeps"),
            3,
        ));
        assert(step_views(v@) =~= plan_of(Ecosystem::D));
        v
    }

    /// The steps of the Make ecosystem.
    fn all() -> (r: Vec<StepSpec>)
        ensures
            step_views(r@) == plan_of(Ecosystem::Make),
    {
        let mut v: Vec<StepSpec> = Vec::new();
        v.push(make_step(
            "Checking licenses",
            "No licences problem has bee founded",
            "Some dependencies may have incompatible licenses",
            "license",
            "make",
            words1(Checked::License.target()),
            1,
        ));
        v.push(make_step(
            "Auditing code",
            "No vulnerabilities has been founded",
            "Security vulnerabilities detected in the code",
            "audit",
            "make",
            words1(Checked::Audit.target()),
            2,
        ));
        v.push(make_step(
            "Checking code",
            "No problem detected",
            "Your code does not meet style requirements",
            "lint",
            "make",
            words1(Checked::Lint.target()),
            3,
        ));
        v.push(make_step(
            "Running tests",
            "All tests passes",
            "Some tests did not pass. Please review the test results",
            "tests",
            "make",
            words1(Checked::Test.target()),
            4,
        ));
        v.push(make_step(
            "Checking code format",
            "The source code format respect the standard",
            "Source code is not formatted correctly. Please run the formatter",
            "fmt",
            "make",
            words1(Checked::Fmt.target()),
            5,
        ));
        assert(step_views(v@) =~= plan_of(Ecosystem::Make));
        v
    }

    /// The marker files of this gate's ecosystem, of which at least one must
    /// be present for this gate to be used; none for an unknown language.
    pub fn markers(&self) -> (r: Vec<String>)
        ensures
            r@.map_values(|w: String| w@) == match ecosystem_of(self.language) {
                Some(eco) => markers_of(eco),
                None => seq![],
            },
    {
        match self.ecosystem() {
            Some(Ecosystem::Rust) => words1("Cargo.toml"),
            Some(Ecosystem::Php) => words1("composer.json"),
            Some(Ecosystem::Js) => words1("package.json"),
            Some(Ecosystem::Python) => words1("setup.py"),
            Some(Ecosystem::D) => words2("dub.json", "dub.sdl"),
            Some(Ecosystem::Make) => Vec::new(),
            None => Vec::new(),
        }
    }

    /// The steps to run, given which of [`Zuu::markers`] are present: none
    /// when the language is unknown or the ecosystem asks for markers and
    /// none is present; otherwise the ecosystem's steps, in order.
    pub fn plan(&self, present: &Vec<bool>) -> (r: Option<Vec<StepSpec>>)
        requires
            ecosystem_of(self.language) matches Some(eco) ==> present.len() == markers_of(eco).len(),
        ensures
            match ecosystem_of(self.language) {
                None => r is None,
                Some(eco) => if markers_of(eco).len() == 0 || exists|i: int|
                    0 <= i < present.len() && #[trigger] present@[i] {
                    r matches Some(v) && step_views(v@) == plan_of(eco)
                } else {
                    r is None
                },
            },
    {
        let eco = match self.ecosystem() {
            None => return None,
            Some(e) => e,
        };
        let mut found = eco == Ecosystem::Make;
        let mut i: usize = 0;
        while i < present.len()
            invariant
                0 <= i <= present.len(),
                found == (markers_of(eco).len() == 0 || exists|j: int|
                    0 <= j < i && #[trigger] present@[j]),
            decreases present.len() - i,
        {
            if present[i] {
                found = true;
            }
            i = i + 1;
        }
        if !found {
            return None;
        }
        let steps = match eco {
            Ecosystem::Rust => Zuu::rust(),
            Ecosystem::Php => Zuu::php(),
            Ecosystem::Js => Zuu::js(),
            Ecosystem::Python => Zuu::python(),
            Ecosystem::D => Zuu::d(),
            Ecosystem::Make => Zuu::all(),
        };
        Some(steps)
    }

    /// The result of a completed run: a pass when every step succeeded.
    pub fn end(&self, report: &RunReport) -> (r: Result<(), GateError>)
        ensures
            r == (if all_passed(report.outcomes@) {
                Ok::<(), GateError>(())
            } else {
                Err(GateError::StepsFailed)
            }),
    {
        if report.overall_success() {
            Ok(())
        } else {
            Err(GateError::StepsFailed)
        }
    }

    /// The process exit code for how things went: 0 only for a run whose
    /// steps all succeeded, 1 when no run took place (`None`) or it failed.
    pub fn check(&self, run: &Option<Result<RunReport, EnvFailure>>) -> (r: u8)
        ensures
            r == match run {
                Some(Ok(report)) => if all_passed(report.outcomes@) { 0u8 } else { 1u8 },
                _ => 1u8,
            },
    {
        let status = match run {
            None => Err(GateError::Unsupported),
            Some(Err(e)) => Err(GateError::Environment(*e)),
            Some(Ok(report)) => self.end(report),
        };
        zuu_exit(&status)
    }
}

} // verus!
