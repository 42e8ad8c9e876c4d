use snapmount::cli::{ArgsCommandMount, ArgsCommandRun, ArgsCommandUnmount};
use snapmount::command::{check_status, Command, ExitStatus, FakeRunner, Runner};
use snapmount::config::{Config, ConfigMount, ConfigSnapshot};
use snapmount::engine::{Action, Engine, Event};
use snapmount::error::Error;
use snapmount::mount::FileMeta;

/// A model of the system: which paths exist, which are mount points, which
/// programs fail, and what the workload ends with.
struct World {
    existing: Vec<String>,
    mounted: Vec<String>,
    symlinks: Vec<String>,
    unreadable: Vec<String>,
    failing: Vec<String>,
    missing: Vec<String>,
    workload: Result<ExitStatus, Error>,
    preview: bool,
}

fn world(existing: &[&str]) -> World {
    World {
        existing: existing.iter().map(|s| s.to_string()).collect(),
        mounted: vec![],
        symlinks: vec![],
        unreadable: vec![],
        failing: vec![],
        missing: vec![],
        workload: Ok(ExitStatus { code: Some(0) }),
        preview: false,
    }
}

fn command(program: &str, args: &[&str]) -> Command {
    Command { program: program.to_string(), args: args.iter().map(|a| a.to_string()).collect() }
}

fn forget(list: &mut Vec<String>, path: &str) {
    list.retain(|p| p != path);
}

impl World {
    fn meta(&self, path: &str) -> Result<FileMeta, Error> {
        if self.unreadable.iter().any(|p| p == path) {
            return Err(Error::Io(format!("cannot read {}", path)));
        }
        Ok(FileMeta { is_symlink: self.symlinks.iter().any(|p| p == path), device: self.device(path) })
    }

    /// The device of the innermost mount that holds `path`.
    fn device(&self, path: &str) -> u64 {
        let mut best = 0;
        let mut device = 1;
        for (i, m) in self.mounted.iter().enumerate() {
            if std::path::Path::new(path).starts_with(m) && m.len() >= best {
                best = m.len();
                device = i as u64 + 2;
            }
        }
        device
    }

    fn flush(&mut self, c: &Command) -> Result<ExitStatus, Error> {
        if !self.preview && self.failing.iter().any(|p| p == "sync") {
            return Err(Error::Launch("sync: not found".to_string()));
        }
        self.execute(c)
    }

    fn execute(&mut self, c: &Command) -> Result<ExitStatus, Error> {
        if self.preview {
            return FakeRunner.run(c);
        }
        if self.missing.iter().any(|p| *p == c.program) {
            return Err(Error::Launch(format!("{}: not found", c.program)));
        }
        if c.program != "sync" && self.failing.iter().any(|p| *p == c.program) {
            return Ok(ExitStatus { code: Some(5) });
        }
        let last = c.args.last().cloned().unwrap_or_default();
        match c.program.as_str() {
            "mount" => self.mounted.push(last),
            "umount" => forget(&mut self.mounted, &last),
            "lvcreate" => {
                let name = c.args[5].clone();
                let device = std::path::Path::new(&last).with_file_name(name);
                self.existing.push(device.to_string_lossy().into_owned());
            }
            "lvremove" => forget(&mut self.existing, &last),
            _ => {}
        }
        Ok(ExitStatus { code: Some(0) })
    }
}

/// Plays a workflow against the world; returns every action and the outcome.
fn play(begun: (Engine, Action), world: &mut World) -> (Vec<Action>, Result<i32, Error>) {
    let (mut engine, mut action) = begun;
    let mut seen = vec![];
    for _ in 0..1000 {
        let event = match &action {
            Action::Probe(path) => Event::Probed(world.existing.iter().any(|p| p == path)),
            Action::Stat(path) => Event::Stat(world.meta(path)),
            Action::CheckRun(c) => {
                let launched = world.execute(c);
                Event::Checked(check_status(c.clone(), launched))
            }
            Action::Run(c) => {
                if c.program == "sync" {
                    Event::Ran(world.flush(c))
                } else {
                    Event::Ran(world.workload.clone())
                }
            }
            Action::Finish => {
                seen.push(action);
                assert!(engine.is_finished());
                return (seen, engine.outcome().unwrap());
            }
        };
        let next = engine.advance(event);
        seen.push(action);
        engine = next.0;
        action = next.1;
    }
    unreachable!()
}

fn commands(seen: &[Action]) -> Vec<Command> {
    let mut out = vec![];
    for a in seen {
        match a {
            Action::CheckRun(c) => out.push(c.clone()),
            Action::Run(c) => out.push(c.clone()),
            _ => {}
        }
    }
    out
}

fn snapshot(source: &str, name: &str) -> ConfigSnapshot {
    ConfigSnapshot::lvm(source.to_string(), name.to_string())
}

fn mount_entry(source: &str, target: &str, type_: Option<&str>, options: &[&str]) -> ConfigMount {
    ConfigMount {
        source: source.to_string(),
        target: Some(target.to_string()),
        type_: type_.map(|t| t.to_string()),
        options: options.iter().map(|o| o.to_string()).collect(),
        if_exists: false,
    }
}

fn two_by_two() -> Config {
    Config {
        snapshots: vec![snapshot("/dev/vg0/root", "root-snap"), snapshot("/dev/vg0/var", "var-snap")],
        mounts: vec![
            mount_entry("/dev/vg0/root-snap", "/", Some("ext4"), &["ro"]),
            mount_entry("/dev/vg0/var-snap", "/var", None, &["ro", "noatime"]),
        ],
    }
}

fn setup_commands() -> Vec<Command> {
    vec![
        command("lvcreate", &["--quiet", "--snapshot", "--size", "1G", "--name", "root-snap", "/dev/vg0/root"]),
        command("lvcreate", &["--quiet", "--snapshot", "--size", "1G", "--name", "var-snap", "/dev/vg0/var"]),
        command("mount", &["--type", "ext4", "--options", "ro", "/dev/vg0/root-snap", "/mnt/root"]),
        command("mount", &["--options", "ro,noatime", "/dev/vg0/var-snap", "/mnt/root/var"]),
    ]
}

fn teardown_commands() -> Vec<Command> {
    vec![
        command("sync", &["/mnt/root/var"]),
        command("umount", &["/mnt/root/var"]),
        command("sync", &["/mnt/root"]),
        command("umount", &["/mnt/root"]),
        command("lvremove", &["--quiet", "--force", "/dev/vg0/var-snap"]),
        command("lvremove", &["--quiet", "--force", "/dev/vg0/root-snap"]),
    ]
}

fn base_world() -> World {
    world(&["/mnt", "/mnt/root", "/mnt/root/var", "/dev/vg0/root", "/dev/vg0/var"])
}

#[test]
fn mount_all_creates_snapshots_then_mounts_in_list_order() {
    let mut w = base_world();
    let (seen, outcome) = play(Engine::mount_all("/mnt/root".to_string(), two_by_two()), &mut w);
    assert_eq!(outcome, Ok(0));
    assert_eq!(commands(&seen), setup_commands());
    assert_eq!(w.mounted, vec!["/mnt/root".to_string(), "/mnt/root/var".to_string()]);
}

#[test]
fn unmount_all_unmounts_then_removes_in_reverse_order() {
    let mut w = base_world();
    play(Engine::mount_all("/mnt/root".to_string(), two_by_two()), &mut w);
    let (seen, outcome) = play(Engine::unmount_all("/mnt/root".to_string(), two_by_two()), &mut w);
    assert_eq!(outcome, Ok(0));
    assert_eq!(commands(&seen), teardown_commands());
    assert!(w.mounted.is_empty());
    assert!(!w.existing.iter().any(|p| p.ends_with("-snap")));
}

#[test]
fn unmount_all_asks_before_every_step() {
    let mut w = base_world();
    play(Engine::mount_all("/mnt/root".to_string(), two_by_two()), &mut w);
    let (seen, _) = play(Engine::unmount_all("/mnt/root".to_string(), two_by_two()), &mut w);
    assert_eq!(
        seen,
        vec![
            Action::Probe("/mnt/root/var".to_string()),
            Action::Stat("/mnt/root/var".to_string()),
            Action::Stat("/mnt/root".to_string()),
            Action::Run(command("sync", &["/mnt/root/var"])),
            Action::CheckRun(command("umount", &["/mnt/root/var"])),
            Action::Probe("/mnt/root".to_string()),
            Action::Stat("/mnt/root".to_string()),
            Action::Stat("/mnt".to_string()),
            Action::Run(command("sync", &["/mnt/root"])),
            Action::CheckRun(command("umount", &["/mnt/root"])),
            Action::Probe("/dev/vg0/var-snap".to_string()),
            Action::CheckRun(command("lvremove", &["--quiet", "--force", "/dev/vg0/var-snap"])),
            Action::Probe("/dev/vg0/root-snap".to_string()),
            Action::CheckRun(command("lvremove", &["--quiet", "--force", "/dev/vg0/root-snap"])),
            Action::Finish,
        ]
    );
}

#[test]
fn unmount_all_twice_is_a_no_op_the_second_time() {
    let mut w = base_world();
    play(Engine::mount_all("/mnt/root".to_string(), two_by_two()), &mut w);
    let (_, first) = play(Engine::unmount_all("/mnt/root".to_string(), two_by_two()), &mut w);
    assert_eq!(first, Ok(0));
    let mounted = w.mounted.clone();
    let existing = w.existing.clone();
    let (seen, second) = play(Engine::unmount_all("/mnt/root".to_string(), two_by_two()), &mut w);
    assert_eq!(second, Ok(0));
    assert_eq!(commands(&seen), vec![]);
    assert_eq!(w.mounted, mounted);
    assert_eq!(w.existing, existing);
}

#[test]
fn unmount_all_on_untouched_system_does_nothing() {
    let mut w = world(&[]);
    let (seen, outcome) = play(Engine::unmount_all("/mnt/root".to_string(), two_by_two()), &mut w);
    assert_eq!(outcome, Ok(0));
    assert_eq!(
        seen,
        vec![
            Action::Probe("/mnt/root/var".to_string()),
            Action::Probe("/mnt/root".to_string()),
            Action::Probe("/dev/vg0/var-snap".to_string()),
            Action::Probe("/dev/vg0/root-snap".to_string()),
            Action::Finish,
        ]
    );
}

#[test]
fn unmount_all_after_partial_setup_undoes_what_is_there() {
    let mut w = base_world();
    w.failing = vec!["mount".to_string()];
    let (seen, outcome) = play(Engine::mount_all("/mnt/root".to_string(), two_by_two()), &mut w);
    assert_eq!(outcome, Err(Error::Command(setup_commands()[2].clone())));
    assert_eq!(commands(&seen), setup_commands()[..3].to_vec());
    w.failing = vec![];
    let (seen, outcome) = play(Engine::unmount_all("/mnt/root".to_string(), two_by_two()), &mut w);
    assert_eq!(outcome, Ok(0));
    assert_eq!(commands(&seen), teardown_commands()[4..].to_vec());
}

#[test]
fn failing_flush_does_not_stop_the_unmount() {
    let mut w = base_world();
    play(Engine::mount_all("/mnt/root".to_string(), two_by_two()), &mut w);
    w.failing = vec!["sync".to_string()];
    let (seen, outcome) = play(Engine::unmount_all("/mnt/root".to_string(), two_by_two()), &mut w);
    assert_eq!(outcome, Ok(0));
    assert_eq!(commands(&seen), teardown_commands());
    assert!(w.mounted.is_empty());
}

#[test]
fn preview_of_teardown_changes_nothing() {
    let mut w = base_world();
    play(Engine::mount_all("/mnt/root".to_string(), two_by_two()), &mut w);
    let mounted = w.mounted.clone();
    let existing = w.existing.clone();
    w.preview = true;
    let (seen, outcome) = play(Engine::unmount_all("/mnt/root".to_string(), two_by_two()), &mut w);
    assert_eq!(outcome, Ok(0));
    assert_eq!(commands(&seen), teardown_commands());
    assert_eq!(w.mounted, mounted);
    assert_eq!(w.existing, existing);
}

#[test]
fn mount_all_stops_at_first_failure_without_rollback() {
    let mut w = base_world();
    w.failing = vec!["lvcreate".to_string()];
    let (seen, outcome) = play(Engine::mount_all("/mnt/root".to_string(), two_by_two()), &mut w);
    assert_eq!(outcome, Err(Error::Command(setup_commands()[0].clone())));
    assert_eq!(seen, vec![Action::CheckRun(setup_commands()[0].clone()), Action::Finish]);
}

#[test]
fn command_that_cannot_be_launched_stops_the_workflow() {
    let mut w = base_world();
    w.missing = vec!["mount".to_string()];
    let (seen, outcome) = play(Engine::mount_all("/mnt/root".to_string(), two_by_two()), &mut w);
    assert_eq!(outcome, Err(Error::Launch("mount: not found".to_string())));
    assert_eq!(commands(&seen), setup_commands()[..3].to_vec());
    assert_eq!(seen.last(), Some(&Action::Finish));
}

#[test]
fn unmount_all_stops_at_first_failure() {
    let mut w = base_world();
    play(Engine::mount_all("/mnt/root".to_string(), two_by_two()), &mut w);
    w.failing = vec!["umount".to_string()];
    let (seen, outcome) = play(Engine::unmount_all("/mnt/root".to_string(), two_by_two()), &mut w);
    assert_eq!(outcome, Err(Error::Command(teardown_commands()[1].clone())));
    assert_eq!(commands(&seen), teardown_commands()[..2].to_vec());
}

#[test]
fn missing_source_is_skipped_without_error_when_asked() {
    let mut config = two_by_two();
    config.snapshots.clear();
    config.mounts[0].if_exists = true;
    config.mounts[1].if_exists = true;
    let mut w = world(&["/dev/vg0/var-snap"]);
    let (seen, outcome) = play(Engine::mount_all("/mnt/root".to_string(), config), &mut w);
    assert_eq!(outcome, Ok(0));
    assert_eq!(
        seen,
        vec![
            Action::Probe("/dev/vg0/root-snap".to_string()),
            Action::Probe("/dev/vg0/var-snap".to_string()),
            Action::CheckRun(setup_commands()[3].clone()),
            Action::Finish,
        ]
    );
}

#[test]
fn missing_source_is_mounted_anyway_when_not_asked() {
    let mut config = two_by_two();
    config.snapshots.clear();
    let mut w = world(&[]);
    let (seen, outcome) = play(Engine::mount_all("/mnt/root".to_string(), config), &mut w);
    assert_eq!(outcome, Ok(0));
    assert_eq!(commands(&seen), setup_commands()[2..].to_vec());
}

#[test]
fn symlink_target_is_never_unmounted() {
    let mut w = base_world();
    w.mounted = vec!["/mnt/root/var".to_string(), "/mnt/root".to_string()];
    w.symlinks = vec!["/mnt/root/var".to_string()];
    let mut config = two_by_two();
    config.snapshots.clear();
    let (seen, outcome) = play(Engine::unmount_all("/mnt/root".to_string(), config), &mut w);
    assert_eq!(outcome, Ok(0));
    assert_eq!(commands(&seen), teardown_commands()[2..4].to_vec());
    assert!(!seen.contains(&Action::Stat("/mnt/root/var/..".to_string())));
}

#[test]
fn filesystem_root_is_never_unmounted() {
    let config = Config { snapshots: vec![], mounts: vec![mount_entry("/srv", "/", None, &[])] };
    let mut w = world(&["/"]);
    w.mounted = vec!["/".to_string()];
    let (seen, outcome) = play(Engine::unmount_all("/".to_string(), config), &mut w);
    assert_eq!(outcome, Ok(0));
    assert_eq!(
        seen,
        vec![Action::Probe("/".to_string()), Action::Stat("/".to_string()), Action::Finish]
    );
}

#[test]
fn unreadable_metadata_stops_teardown_with_io_error() {
    let mut w = base_world();
    w.unreadable = vec!["/mnt/root/var".to_string()];
    let (seen, outcome) = play(Engine::unmount_all("/mnt/root".to_string(), two_by_two()), &mut w);
    assert_eq!(outcome, Err(Error::Io("cannot read /mnt/root/var".to_string())));
    assert_eq!(commands(&seen), vec![]);
}

#[test]
fn unreadable_parent_metadata_stops_teardown_with_io_error() {
    let mut w = base_world();
    w.unreadable = vec!["/mnt/root".to_string()];
    let (seen, outcome) = play(Engine::unmount_all("/mnt/root".to_string(), two_by_two()), &mut w);
    assert_eq!(outcome, Err(Error::Io("cannot read /mnt/root".to_string())));
    assert_eq!(seen.len(), 4);
}

#[test]
fn preview_of_setup_issues_four_commands_and_changes_nothing() {
    let mut w = base_world();
    w.preview = true;
    let (seen, outcome) = play(Engine::mount_all("/mnt/root".to_string(), two_by_two()), &mut w);
    assert_eq!(outcome, Ok(0));
    assert_eq!(commands(&seen).len(), 4);
    assert_eq!(commands(&seen), setup_commands());
    assert!(w.mounted.is_empty());
    assert_eq!(w.existing.len(), 5);
}

#[test]
fn preview_succeeds_where_real_execution_fails() {
    let mut w = base_world();
    w.preview = true;
    w.failing = vec!["lvcreate".to_string(), "mount".to_string()];
    let (_, outcome) = play(Engine::mount_all("/mnt/root".to_string(), two_by_two()), &mut w);
    assert_eq!(outcome, Ok(0));
}

#[test]
fn unmount_before_mount_tears_down_first() {
    let mut w = base_world();
    play(Engine::mount_all("/mnt/root".to_string(), two_by_two()), &mut w);
    let (seen, outcome) = play(Engine::unmount_mount_all(true, "/mnt/root".to_string(), two_by_two()), &mut w);
    assert_eq!(outcome, Ok(0));
    let mut expected = teardown_commands();
    expected.extend(setup_commands());
    assert_eq!(commands(&seen), expected);
}

#[test]
fn unmount_before_tolerates_torn_down_state() {
    let mut w = base_world();
    let (seen, outcome) = play(Engine::unmount_mount_all(true, "/mnt/root".to_string(), two_by_two()), &mut w);
    assert_eq!(outcome, Ok(0));
    assert_eq!(commands(&seen), setup_commands());
}

#[test]
fn without_unmount_before_only_setup_runs() {
    let mut w = base_world();
    let (seen, outcome) = play(Engine::unmount_mount_all(false, "/mnt/root".to_string(), two_by_two()), &mut w);
    assert_eq!(outcome, Ok(0));
    assert_eq!(seen.len(), 5);
    assert_eq!(commands(&seen), setup_commands());
}

fn workload() -> Command {
    command("rsync", &["-a", "/mnt/root/", "/backup/"])
}

#[test]
fn run_with_mounts_tears_down_and_returns_exit_code_three() {
    let mut w = base_world();
    w.workload = Ok(ExitStatus { code: Some(3) });
    let begun = Engine::run_with_mounts(false, "/mnt/root".to_string(), two_by_two(), workload());
    let (seen, outcome) = play(begun, &mut w);
    assert_eq!(outcome, Ok(3));
    let mut expected = setup_commands();
    expected.push(workload());
    expected.extend(teardown_commands());
    assert_eq!(commands(&seen), expected);
    assert!(seen.contains(&Action::Run(workload())));
    assert!(w.mounted.is_empty());
    assert!(!w.existing.iter().any(|p| p.ends_with("-snap")));
}

#[test]
fn run_with_mounts_returns_zero_for_successful_workload() {
    let mut w = base_world();
    let begun = Engine::run_with_mounts(true, "/mnt/root".to_string(), two_by_two(), workload());
    let (_, outcome) = play(begun, &mut w);
    assert_eq!(outcome, Ok(0));
}

#[test]
fn run_with_mounts_reports_failure_code_for_killed_workload() {
    let mut w = base_world();
    w.workload = Ok(ExitStatus { code: None });
    let begun = Engine::run_with_mounts(false, "/mnt/root".to_string(), two_by_two(), workload());
    let (seen, outcome) = play(begun, &mut w);
    assert_eq!(outcome, Ok(1));
    assert_eq!(commands(&seen).len(), 11);
    assert!(w.mounted.is_empty());
}

#[test]
fn run_with_mounts_tears_down_when_workload_cannot_be_launched() {
    let mut w = base_world();
    w.workload = Err(Error::Launch("No such file or directory".to_string()));
    let begun = Engine::run_with_mounts(false, "/mnt/root".to_string(), two_by_two(), workload());
    let (seen, outcome) = play(begun, &mut w);
    assert_eq!(outcome, Err(Error::Launch("No such file or directory".to_string())));
    assert_eq!(commands(&seen)[5..].to_vec(), teardown_commands());
    assert!(w.mounted.is_empty());
}

#[test]
fn run_with_mounts_does_not_launch_when_setup_fails() {
    let mut w = base_world();
    w.failing = vec!["mount".to_string()];
    let begun = Engine::run_with_mounts(false, "/mnt/root".to_string(), two_by_two(), workload());
    let (seen, outcome) = play(begun, &mut w);
    assert_eq!(outcome, Err(Error::Command(setup_commands()[2].clone())));
    assert!(!seen.contains(&Action::Run(workload())));
}

#[test]
fn run_with_mounts_reports_teardown_failure() {
    let mut w = base_world();
    w.failing = vec!["lvremove".to_string()];
    w.workload = Ok(ExitStatus { code: Some(3) });
    let begun = Engine::run_with_mounts(false, "/mnt/root".to_string(), two_by_two(), workload());
    let (_, outcome) = play(begun, &mut w);
    assert_eq!(outcome, Err(Error::Command(teardown_commands()[4].clone())));
}

#[test]
fn empty_configuration_finishes_at_once() {
    let config = Config { snapshots: vec![], mounts: vec![] };
    let (engine, action) = Engine::mount_all("/mnt/root".to_string(), config.clone());
    assert_eq!(action, Action::Finish);
    assert!(engine.is_finished());
    assert_eq!(engine.outcome(), Some(Ok(0)));
    let (_, action) = Engine::unmount_all("/mnt/root".to_string(), config);
    assert_eq!(action, Action::Finish);
}

#[test]
fn outcome_is_absent_while_the_workflow_runs() {
    let (engine, action) = Engine::mount_all("/mnt/root".to_string(), two_by_two());
    assert_eq!(action, Action::CheckRun(setup_commands()[0].clone()));
    assert!(!engine.is_finished());
    assert_eq!(engine.pending(), action);
    assert_eq!(engine.outcome(), None);
}

#[test]
fn event_that_answers_nothing_changes_nothing() {
    let (engine, action) = Engine::mount_all("/mnt/root".to_string(), two_by_two());
    let (engine, again) = engine.advance(Event::Probed(true));
    assert_eq!(again, action);
    let (engine, again) = engine.advance(Event::Stat(Err(Error::Io("x".to_string()))));
    assert_eq!(again, action);
    let (engine, again) = engine.advance(Event::Ran(Ok(ExitStatus { code: Some(9) })));
    assert_eq!(again, action);
    let (engine, next) = engine.advance(Event::Checked(Ok(())));
    assert_eq!(next, Action::CheckRun(setup_commands()[1].clone()));
    assert!(!engine.is_finished());
}

#[test]
fn finished_engine_ignores_events() {
    let config = Config { snapshots: vec![], mounts: vec![] };
    let (engine, _) = Engine::mount_all("/mnt/root".to_string(), config);
    let (engine, action) = engine.advance(Event::Checked(Err(Error::Launch("late".to_string()))));
    assert_eq!(action, Action::Finish);
    assert_eq!(engine.outcome(), Some(Ok(0)));
}

#[test]
fn subcommands_start_their_workflows() {
    let mut w = base_world();
    let mount = ArgsCommandMount { unmount_before: false, target: "/mnt/root".to_string() };
    let (seen, outcome) = play(mount.run(two_by_two()), &mut w);
    assert_eq!(outcome, Ok(0));
    assert_eq!(commands(&seen), setup_commands());
    let unmount = ArgsCommandUnmount { target: "/mnt/root".to_string() };
    let (seen, outcome) = play(unmount.run(two_by_two()), &mut w);
    assert_eq!(outcome, Ok(0));
    assert_eq!(commands(&seen), teardown_commands());
    w.workload = Ok(ExitStatus { code: Some(3) });
    let run = ArgsCommandRun {
        unmount_before: true,
        target: "/mnt/root".to_string(),
        program: "rsync".to_string(),
        args: vec!["-a".to_string(), "/mnt/root/".to_string(), "/backup/".to_string()],
    };
    let (seen, outcome) = play(run.run(two_by_two()), &mut w);
    assert_eq!(outcome, Ok(3));
    assert_eq!(commands(&seen).len(), 11);
    assert_eq!(commands(&seen)[4], workload());
}
