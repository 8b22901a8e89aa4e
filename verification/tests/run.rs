use vagrant_boxes::invocation::Invocation;
use vagrant_boxes::power::TemporaryPowerOn;
use vagrant_boxes::invocation::Vagrant;
use vagrant_boxes::run::{guest_command_text, run_title, Policy, RunError, RunStep};
use vagrant_boxes::status::BoxStatus;
use vagrant_boxes::topgrade_vagrant_box;
use vagrant_boxes::VagrantBox;

const TOOL: &str = "/usr/bin/vagrant";

fn policy(power_on: bool, always_suspend: bool, yes: bool) -> Policy {
    Policy { power_on, always_suspend, yes }
}

fn parts(i: &Invocation) -> (String, Vec<String>, Option<String>) {
    (i.program.clone(), i.args.clone(), i.dir.clone())
}

fn call(args: &[&str], dir: &str) -> (String, Vec<String>, Option<String>) {
    (TOOL.to_string(), args.iter().map(|a| a.to_string()).collect(), Some(dir.to_string()))
}

/// Feeds `answers` to the run one by one and gives back what was asked for
/// and how the run ended.
fn drive(p: &Policy, b: &VagrantBox, answers: &[bool]) -> (Vec<(String, Vec<String>, Option<String>)>, RunStep) {
    let mut results: Vec<bool> = Vec::new();
    let mut asked = Vec::new();
    loop {
        match topgrade_vagrant_box(Some(TOOL), p, b, &results) {
            RunStep::Execute(i, heading) => {
                let expected = if results.is_empty() { Some(run_title(b)) } else { None };
                assert_eq!(heading, expected);
                asked.push(parts(&i));
                results.push(answers[results.len()]);
            }
            end => return (asked, end),
        }
    }
}

#[test]
fn saved_box_is_resumed_and_suspended() {
    let b = VagrantBox::new("/vm", "web", BoxStatus::Saved);
    let (asked, end) = drive(&policy(true, false, false), &b, &[true, true, true]);
    assert_eq!(
        asked,
        vec![
            call(&["resume", "web"], "/vm"),
            call(&["ssh", "-c", "env TOPGRADE_PREFIX=web topgrade"], "/vm"),
            call(&["suspend", "web"], "/vm"),
        ]
    );
    assert!(matches!(end, RunStep::Completed));
}

#[test]
fn powered_off_box_is_brought_up_and_halted() {
    let b = VagrantBox::new("/vm", "default", BoxStatus::PowerOff);
    let (asked, end) = drive(&policy(true, false, true), &b, &[true, true, true]);
    assert_eq!(
        asked,
        vec![
            call(&["up", "default"], "/vm"),
            call(&["ssh", "-c", "env TOPGRADE_PREFIX=vm topgrade -y"], "/vm"),
            call(&["halt", "default"], "/vm"),
        ]
    );
    assert!(matches!(end, RunStep::Completed));
}

#[test]
fn aborted_box_is_brought_up_and_halted() {
    let b = VagrantBox::new("/vm", "db", BoxStatus::Aborted);
    let (asked, _) = drive(&policy(true, false, false), &b, &[true, true, true]);
    assert_eq!(asked[0], call(&["up", "db"], "/vm"));
    assert_eq!(asked[2], call(&["halt", "db"], "/vm"));
    assert_eq!(asked.len(), 3);
}

#[test]
fn always_suspend_overrides_the_initial_status() {
    for status in [BoxStatus::PowerOff, BoxStatus::Aborted, BoxStatus::Saved] {
        let b = VagrantBox::new("/vm", "db", status);
        let (asked, _) = drive(&policy(true, true, false), &b, &[true, true, true]);
        assert_eq!(asked.len(), 3);
        assert_eq!(asked[2], call(&["suspend", "db"], "/vm"));
    }
}

#[test]
fn restoration_runs_once_when_the_guest_command_fails() {
    let b = VagrantBox::new("/vm", "db", BoxStatus::PowerOff);
    let (asked, end) = drive(&policy(true, false, false), &b, &[true, false, true]);
    let downs = asked.iter().filter(|c| c.1[0] == "halt" || c.1[0] == "suspend").count();
    assert_eq!(downs, 1);
    assert_eq!(asked.len(), 3);
    assert_eq!(asked[2], call(&["halt", "db"], "/vm"));
    assert!(matches!(end, RunStep::Failed(RunError::GuestFailed)));
}

#[test]
fn restoration_failure_does_not_mask_the_outcome() {
    let b = VagrantBox::new("/vm", "db", BoxStatus::Saved);
    let (asked, end) = drive(&policy(true, false, false), &b, &[true, true, false]);
    assert_eq!(asked.len(), 3);
    assert!(matches!(end, RunStep::Completed));
    let (_, end) = drive(&policy(true, false, false), &b, &[true, false, false]);
    assert!(matches!(end, RunStep::Failed(RunError::GuestFailed)));
}

#[test]
fn failed_power_up_runs_nothing_else() {
    let b = VagrantBox::new("/vm", "db", BoxStatus::Saved);
    let (asked, end) = drive(&policy(true, false, false), &b, &[false]);
    assert_eq!(asked, vec![call(&["resume", "db"], "/vm")]);
    assert!(matches!(end, RunStep::Failed(RunError::PowerUpFailed)));
}

#[test]
fn running_box_gets_no_power_transition() {
    let b = VagrantBox::new("/srv/fleet", "web", BoxStatus::Running);
    for power_on in [true, false] {
        let (asked, end) = drive(&policy(power_on, true, false), &b, &[true]);
        assert_eq!(asked, vec![call(&["ssh", "-c", "env TOPGRADE_PREFIX=web topgrade"], "/srv/fleet")]);
        assert!(matches!(end, RunStep::Completed));
    }
    let (asked, end) = drive(&policy(true, false, false), &b, &[false]);
    assert_eq!(asked.len(), 1);
    assert!(matches!(end, RunStep::Failed(RunError::GuestFailed)));
}

#[test]
fn box_at_rest_is_skipped_when_power_on_is_disabled() {
    for status in [BoxStatus::PowerOff, BoxStatus::Aborted, BoxStatus::Saved] {
        let b = VagrantBox::new("/srv/fleet", "default", status);
        let (asked, end) = drive(&policy(false, false, true), &b, &[]);
        assert!(asked.is_empty());
        match end {
            RunStep::Skipped(name) => assert_eq!(name, "fleet"),
            other => panic!("not skipped: {:?}", other),
        }
    }
}

#[test]
fn missing_tool_fails_the_run() {
    let b = VagrantBox::new("/vm", "web", BoxStatus::Running);
    let step = topgrade_vagrant_box(None, &policy(true, false, false), &b, &Vec::new());
    assert!(matches!(step, RunStep::Failed(RunError::ToolMissing)));
}

#[test]
fn policy_defaults() {
    assert_eq!(Policy::from_settings(None, None, false), policy(true, false, false));
    assert_eq!(Policy::from_settings(Some(false), Some(true), true), policy(false, true, true));
    assert_eq!(Policy::from_settings(Some(true), Some(false), false), policy(true, false, false));
}

#[test]
fn guard_exists_only_after_a_successful_power_up() {
    let vagrant = Vagrant::new(TOOL);
    let b = VagrantBox::new("/vm", "db", BoxStatus::Aborted);
    assert_eq!(parts(&TemporaryPowerOn::power_up(&vagrant, &b)), call(&["up", "db"], "/vm"));
    assert!(TemporaryPowerOn::create(&vagrant, &b, false, false).is_none());
    let guard = TemporaryPowerOn::create(&vagrant, &b, false, true).unwrap();
    assert_eq!(parts(&guard.release()), call(&["halt", "db"], "/vm"));
    let guard = TemporaryPowerOn::create(&vagrant, &b, true, true).unwrap();
    assert_eq!(parts(&guard.release()), call(&["suspend", "db"], "/vm"));
}

#[test]
fn title_and_guest_command() {
    let b = VagrantBox::new("/srv/fleet", "default", BoxStatus::Saved);
    assert_eq!(run_title(&b), "Vagrant (fleet)");
    assert_eq!(guest_command_text(&b, false), "env TOPGRADE_PREFIX=fleet topgrade");
    assert_eq!(guest_command_text(&b, true), "env TOPGRADE_PREFIX=fleet topgrade -y");
}
