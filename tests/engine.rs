use zuu::canvas::{
    acquire, badge_column, badge_text, clear_row, paint_badge, release, spinner_frame, Badge,
    Color, PaintOp,
};
use zuu::ecosystem::{Ecosystem, GateError};
use zuu::gate::{run_all, Action, EnvFailure, Gate, Phase, RunReport};
use zuu::presenter::Spinner;
use zuu::runner::{log_path, outcome, stream_dir_path, succeeded, ProcessEnd, StepSpec, Stream};
use zuu::{ko, ok, zuu_exit, Checked, Language, Zuu};

fn step(label: &str, log_name: &str, program: &str, row: u16) -> StepSpec {
    StepSpec {
        label: label.to_string(),
        passed: format!("{label} passed"),
        failed: format!("{label} failed"),
        log_name: log_name.to_string(),
        program: program.to_string(),
        args: vec![],
        row,
    }
}

fn print(s: &str) -> PaintOp {
    PaintOp::Print(s.to_string())
}

#[test]
fn badge_is_flush_right() {
    assert_eq!(badge_column(80), 74);
    assert_eq!(badge_column(6), 0);
    assert_eq!(badge_column(3), 0);
    assert_eq!(badge_column(0), 0);
}

#[test]
fn spinner_frames_cycle() {
    assert_eq!(spinner_frame(0), ". ");
    assert_eq!(spinner_frame(1), "..");
    assert_eq!(spinner_frame(2), ".:");
    assert_eq!(spinner_frame(3), "::");
    assert_eq!(spinner_frame(4), ". ");
    assert_eq!(spinner_frame(255), "::");
}

#[test]
fn badge_texts() {
    assert_eq!(badge_text(Badge::Passed), " ok ");
    assert_eq!(badge_text(Badge::Failed), " !! ");
    assert_eq!(badge_text(Badge::Spinner(1)), " .. ");
    assert_eq!(badge_text(Badge::Spinner(7)), " :: ");
}

#[test]
fn ok_paints_green_badge() {
    let ops = ok("All tests pass", 4, 80);
    assert_eq!(
        ops,
        vec![
            PaintOp::SetColor(Color::Green),
            PaintOp::MoveTo(0, 4),
            print("*"),
            PaintOp::MoveTo(2, 4),
            PaintOp::SetColor(Color::White),
            print("All tests pass"),
            PaintOp::SetColor(Color::Blue),
            PaintOp::MoveTo(74, 4),
            print("["),
            PaintOp::SetColor(Color::Green),
            print(" ok "),
            PaintOp::SetColor(Color::Blue),
            print("]"),
            PaintOp::SetColor(Color::Reset),
        ]
    );
}

#[test]
fn ko_paints_red_badge() {
    let ops = ko("Lint failed", 2, 40);
    assert_eq!(ops[0], PaintOp::SetColor(Color::Red));
    assert_eq!(ops[5], print("Lint failed"));
    assert_eq!(ops[7], PaintOp::MoveTo(34, 2));
    assert_eq!(ops[9], PaintOp::SetColor(Color::Red));
    assert_eq!(ops[10], print(" !! "));
    assert_eq!(ops.len(), 14);
}

#[test]
fn badge_region_only() {
    let ops = paint_badge(3, 20, Badge::Spinner(2));
    assert_eq!(ops.len(), 8);
    assert_eq!(ops[1], PaintOp::MoveTo(14, 3));
    assert_eq!(ops[4], print(" .: "));
    assert!(!ops.iter().any(|o| matches!(o, PaintOp::MoveTo(0, _))));
}

#[test]
fn canvas_lifecycle() {
    assert_eq!(acquire(), vec![PaintOp::ClearAll, PaintOp::HideCursor]);
    assert_eq!(release(), vec![PaintOp::ShowCursor, print("\n\n")]);
    assert_eq!(clear_row(5), vec![PaintOp::MoveTo(0, 5), PaintOp::ClearLine]);
}

#[test]
fn exit_zero_succeeds_nonzero_fails() {
    assert!(succeeded(ProcessEnd::Exited(0)));
    assert!(!succeeded(ProcessEnd::Exited(1)));
    assert!(!succeeded(ProcessEnd::Exited(-1)));
    assert!(!succeeded(ProcessEnd::Exited(127)));
    assert!(!succeeded(ProcessEnd::Signaled));
    assert!(!succeeded(ProcessEnd::WaitFailed));
}

#[test]
fn missing_executable_fails() {
    assert!(!succeeded(ProcessEnd::SpawnFailed));
}

#[test]
fn log_paths_follow_log_name() {
    assert_eq!(log_path("zuu", Stream::Stdout, "audit"), "zuu/stdout/audit");
    assert_eq!(log_path("zuu", Stream::Stderr, "audit"), "zuu/stderr/audit");
    assert_eq!(stream_dir_path("logs", Stream::Stderr), "logs/stderr");
}

#[test]
fn outcome_records_label_and_logs() {
    let s = step("Auditing code", "audit", "cargo", 2);
    let o = outcome("zuu", &s, ProcessEnd::Exited(3));
    assert_eq!(o.label, "Auditing code");
    assert!(!o.succeeded);
    assert_eq!(o.stdout_log, "zuu/stdout/audit");
    assert_eq!(o.stderr_log, "zuu/stderr/audit");
}

#[test]
fn pass_then_fail_scenario() {
    let steps = vec![step("A", "a", "true", 1), step("B", "b", "false", 2)];
    let report = run_all(steps, "zuu", &vec![ProcessEnd::Exited(0), ProcessEnd::Exited(1)]);
    assert_eq!(report.outcomes.len(), 2);
    assert_eq!(report.outcomes[0].label, "A");
    assert!(report.outcomes[0].succeeded);
    assert_eq!(report.outcomes[1].label, "B");
    assert!(!report.outcomes[1].succeeded);
    assert!(!report.overall_success());
    assert_eq!(report.exit_code(), 1);
}

#[test]
fn empty_run_passes() {
    let report = run_all(vec![], "zuu", &vec![]);
    assert!(report.outcomes.is_empty());
    assert!(report.overall_success());
    assert_eq!(report.exit_code(), 0);
}

#[test]
fn outcomes_keep_step_order() {
    let steps = vec![
        step("one", "1", "p", 1),
        step("two", "2", "p", 2),
        step("three", "3", "p", 3),
        step("four", "4", "p", 4),
    ];
    let ends = vec![
        ProcessEnd::Exited(0),
        ProcessEnd::Exited(0),
        ProcessEnd::Exited(0),
        ProcessEnd::Exited(0),
    ];
    let report = run_all(steps, "zuu", &ends);
    let labels: Vec<&str> = report.outcomes.iter().map(|o| o.label.as_str()).collect();
    assert_eq!(labels, vec!["one", "two", "three", "four"]);
    assert!(report.overall_success());
    assert_eq!(report.exit_code(), 0);
}

#[test]
fn failed_spawn_does_not_stop_later_steps() {
    let steps = vec![step("gone", "gone", "no-such-tool", 1), step("next", "next", "true", 2)];
    let report = run_all(steps, "zuu", &vec![ProcessEnd::SpawnFailed, ProcessEnd::Exited(0)]);
    assert_eq!(report.outcomes.len(), 2);
    assert!(!report.outcomes[0].succeeded);
    assert!(report.outcomes[1].succeeded);
    assert_eq!(report.exit_code(), 1);
}

#[test]
fn gate_steps_through_a_run() {
    let mut gate = Gate::new(vec![step("A", "a", "p", 1), step("B", "b", "p", 2)], "zuu");
    assert_eq!(gate.current_phase(), Phase::Idle);
    assert_eq!(gate.start(Ok(())), Action::Run(0));
    assert_eq!(gate.current_phase(), Phase::Running(0));
    assert_eq!(gate.step(0).label, "A");
    let running = gate.running_paint(0, 80);
    assert_eq!(running[5], print("A"));
    assert_eq!(running[10], print(" .  "));
    assert_eq!(gate.step_finished(ProcessEnd::Exited(2)), Action::Run(1));
    let result = gate.result_paint(0, 80);
    assert_eq!(result[5], print("A failed"));
    assert_eq!(result[10], print(" !! "));
    assert_eq!(gate.step_finished(ProcessEnd::Exited(0)), Action::Finish(1));
    let result = gate.result_paint(1, 80);
    assert_eq!(result[5], print("B passed"));
    assert_eq!(gate.current_phase(), Phase::Done);
    let report = gate.into_report().unwrap();
    assert_eq!(report.outcomes.len(), 2);
}

#[test]
fn empty_gate_finishes_at_once() {
    let mut gate = Gate::new(vec![], "zuu");
    assert_eq!(gate.start(Ok(())), Action::Finish(0));
    assert_eq!(gate.current_phase(), Phase::Done);
    assert!(gate.into_report().unwrap().outcomes.is_empty());
}

#[test]
fn unwritable_log_directory_aborts_before_any_step() {
    let mut gate = Gate::new(vec![step("A", "a", "p", 1)], "zuu");
    let a = gate.start(Err(EnvFailure::LogDirectory));
    assert_eq!(a, Action::Abort(EnvFailure::LogDirectory));
    assert_eq!(gate.outcomes_len(), 0);
    assert_eq!(gate.current_phase(), Phase::Aborted(EnvFailure::LogDirectory));
    assert_eq!(gate.into_report().unwrap_err(), EnvFailure::LogDirectory);
}

#[test]
fn spinner_animates_then_stops() {
    let mut s = Spinner::start(3);
    let first = s.tick(80);
    assert_eq!(first[4], print(" .  "));
    assert_eq!(s.tick(80)[4], print(" .. "));
    assert_eq!(s.tick(80)[4], print(" .: "));
    assert_eq!(s.tick(80)[4], print(" :: "));
    assert_eq!(s.tick(80)[4], print(" .  "));
    assert_eq!(s.stop(), vec![PaintOp::MoveTo(0, 3), PaintOp::ClearLine]);
    assert!(!s.active);
    for _ in 0..10 {
        assert!(s.tick(80).is_empty());
    }
}

#[test]
fn rust_plan_needs_cargo_toml() {
    let z = Zuu::new(Language::Rust);
    assert_eq!(z.markers(), vec!["Cargo.toml".to_string()]);
    assert!(z.plan(&vec![false]).is_none());
    let steps = z.plan(&vec![true]).unwrap();
    assert_eq!(steps.len(), 5);
    assert_eq!(steps[0].label, "Checking licenses");
    assert_eq!(steps[0].program, "cargo");
    assert_eq!(steps[0].args, vec!["deny".to_string(), "check".to_string()]);
    assert_eq!(steps[3].args, vec!["test".to_string(), "--no-fail-fast".to_string()]);
    assert_eq!(steps[4].log_name, "fmt");
    let rows: Vec<u16> = steps.iter().map(|s| s.row).collect();
    assert_eq!(rows, vec![1, 2, 3, 4, 5]);
}

#[test]
fn d_plan_accepts_either_marker() {
    let z = Zuu::new(Language::D);
    assert_eq!(z.markers(), vec!["dub.json".to_string(), "dub.sdl".to_string()]);
    assert!(z.plan(&vec![false, false]).is_none());
    let steps = z.plan(&vec![false, true]).unwrap();
    assert_eq!(steps.len(), 3);
    assert_eq!(steps[1].args, vec!["lint", "--nodeps", "--syntax-check"]);
}

#[test]
fn other_languages_use_make_targets() {
    let z = Zuu::new(Language::Fortran);
    assert_eq!(z.ecosystem(), Some(Ecosystem::Make));
    assert!(z.markers().is_empty());
    let steps = z.plan(&vec![]).unwrap();
    let targets: Vec<&str> = steps.iter().map(|s| s.args[0].as_str()).collect();
    assert_eq!(targets, vec!["zuu-license", "zuu-audit", "zuu-lint", "zuu-test", "zuu-fmt"]);
    assert!(steps.iter().all(|s| s.program == "make"));
    assert_eq!(Checked::Fmt.target(), "zuu-fmt");
}

#[test]
fn ecosystems_of_languages() {
    assert_eq!(Zuu::new(Language::TypeScript).ecosystem(), Some(Ecosystem::Js));
    assert_eq!(Zuu::new(Language::Nodejs).plan(&vec![true]).unwrap().len(), 7);
    assert_eq!(Zuu::new(Language::Php).plan(&vec![true]).unwrap().len(), 6);
    assert_eq!(Zuu::new(Language::Python).plan(&vec![true]).unwrap()[0].args, vec!["-r", "."]);
    assert_eq!(Zuu::new(Language::Unknown).ecosystem(), None);
    assert!(Zuu::new(Language::Unknown).plan(&vec![]).is_none());
}

#[test]
fn exit_codes() {
    assert_eq!(zuu_exit(&Ok(())), 0);
    assert_eq!(zuu_exit(&Err(GateError::StepsFailed)), 1);
    let z = Zuu::new(Language::Rust);
    assert_eq!(z.check(&None), 1);
    assert_eq!(z.check(&Some(Err(EnvFailure::TerminalSize))), 1);
    assert_eq!(z.check(&Some(Ok(RunReport { outcomes: vec![] }))), 0);
    let failing = run_all(vec![step("A", "a", "p", 1)], "zuu", &vec![ProcessEnd::Exited(1)]);
    assert_eq!(z.end(&failing), Err(GateError::StepsFailed));
    assert_eq!(z.check(&Some(Ok(failing))), 1);
}
