use snapmount::command::{check_status, Command, ExitStatus, FakeRunner, Runner};
use snapmount::config::{default_lvm_snapshot_size, ConfigMount, ConfigSnapshot};
use snapmount::entry::{create_mount, create_snapshot, remove_mount, remove_snapshot, snapshot_device};
use snapmount::error::Error;
use snapmount::lvm::LogicalVolume;
use snapmount::mount::{get_mount_target, is_mount, join_options, mount, sync, unmount, FileMeta};

fn command(program: &str, args: &[&str]) -> Command {
    Command { program: program.to_string(), args: args.iter().map(|a| a.to_string()).collect() }
}

fn bind(source: &str, target: Option<&str>) -> ConfigMount {
    ConfigMount {
        source: source.to_string(),
        target: target.map(|t| t.to_string()),
        type_: None,
        options: vec![],
        if_exists: false,
    }
}

#[test]
fn command_new_has_no_arguments() {
    assert_eq!(Command::new("sync"), command("sync", &[]));
}

#[test]
fn command_arg_appends_in_order() {
    let mut c = Command::new("echo");
    c.arg("a");
    c.arg("b");
    assert_eq!(c, command("echo", &["a", "b"]));
}

#[test]
fn command_duplicate_is_equal() {
    let c = command("mount", &["--type", "ext4", "/a", "/b"]);
    assert_eq!(c.duplicate(), c);
}

#[test]
fn exit_status_success_only_for_zero() {
    assert!(ExitStatus::succeeded().success());
    assert!(ExitStatus { code: Some(0) }.success());
    assert!(!ExitStatus { code: Some(3) }.success());
    assert!(!ExitStatus { code: Some(-1) }.success());
    assert!(!ExitStatus { code: None }.success());
}

#[test]
fn check_status_passes_success() {
    assert_eq!(check_status(command("true", &[]), Ok(ExitStatus { code: Some(0) })), Ok(()));
}

#[test]
fn check_status_reports_failed_command() {
    let c = command("lvcreate", &["--quiet"]);
    assert_eq!(check_status(c.clone(), Ok(ExitStatus { code: Some(5) })), Err(Error::Command(c)));
}

#[test]
fn check_status_reports_signal_as_failure() {
    let c = command("umount", &["/mnt"]);
    assert_eq!(check_status(c.clone(), Ok(ExitStatus { code: None })), Err(Error::Command(c)));
}

#[test]
fn check_status_passes_launch_error_on() {
    let e = Error::Launch("No such file or directory".to_string());
    assert_eq!(check_status(command("nothere", &[]), Err(e.clone())), Err(e));
}

#[test]
fn fake_runner_reports_success_and_never_fails() {
    let runner = FakeRunner;
    assert_eq!(runner.run(&command("false", &[])), Ok(ExitStatus { code: Some(0) }));
    assert_eq!(runner.check_run(command("false", &[])), Ok(()));
}

#[test]
fn error_descriptions() {
    assert_eq!(Error::Command(command("x", &[])).describe(), "command failure");
    assert_eq!(Error::Io("permission denied".to_string()).describe(), "permission denied");
    assert_eq!(Error::Launch("not found".to_string()).describe(), "not found");
}

#[test]
fn default_snapshot_size_is_one_gigabyte() {
    assert_eq!(default_lvm_snapshot_size(), "1G");
    let s = ConfigSnapshot::lvm("/dev/vg0/root".to_string(), "backup".to_string());
    assert_eq!(
        s,
        ConfigSnapshot::Lvm {
            source: "/dev/vg0/root".to_string(),
            name: "backup".to_string(),
            size: "1G".to_string()
        }
    );
}

#[test]
fn logical_volume_from_path_keeps_path() {
    assert_eq!(LogicalVolume::from_path("/dev/vg0/root".to_string()).path, "/dev/vg0/root");
}

#[test]
fn logical_volume_with_name_stays_in_volume_group() {
    let lv = LogicalVolume::from_path("/dev/vg0/root".to_string());
    assert_eq!(lv.with_name("root-snap").path, "/dev/vg0/root-snap");
    let bare = LogicalVolume::from_path("root".to_string());
    assert_eq!(bare.with_name("snap").path, "snap");
}

#[test]
fn snapshot_command_shape() {
    let lv = LogicalVolume::from_path("/dev/vg0/root".to_string());
    assert_eq!(
        lv.snapshot("root-snap", "2G"),
        command(
            "lvcreate",
            &["--quiet", "--snapshot", "--size", "2G", "--name", "root-snap", "/dev/vg0/root"]
        )
    );
}

#[test]
fn remove_command_shape_and_idempotence() {
    let lv = LogicalVolume::from_path("/dev/vg0/root-snap".to_string());
    assert_eq!(lv.remove(true), Some(command("lvremove", &["--quiet", "--force", "/dev/vg0/root-snap"])));
    assert_eq!(lv.remove(false), None);
}

#[test]
fn join_options_uses_commas() {
    assert_eq!(join_options(&vec![]), "");
    assert_eq!(join_options(&vec!["ro".to_string()]), "ro");
    assert_eq!(join_options(&vec!["ro".to_string(), "bind".to_string(), "noatime".to_string()]), "ro,bind,noatime");
    assert_eq!(join_options(&vec!["".to_string(), "x".to_string()]), ",x");
}

#[test]
fn mount_command_without_type_and_options() {
    assert_eq!(mount("/srv/x", "/mnt/root/srv/x", None, &vec![]), command("mount", &["/srv/x", "/mnt/root/srv/x"]));
}

#[test]
fn mount_command_with_type_only() {
    assert_eq!(
        mount("/dev/vg0/snap", "/mnt/root", Some("ext4"), &vec![]),
        command("mount", &["--type", "ext4", "/dev/vg0/snap", "/mnt/root"])
    );
}

#[test]
fn mount_command_with_options_only() {
    assert_eq!(
        mount("/home", "/mnt/root/home", None, &vec!["bind".to_string(), "ro".to_string()]),
        command("mount", &["--options", "bind,ro", "/home", "/mnt/root/home"])
    );
}

#[test]
fn mount_command_with_type_and_options() {
    assert_eq!(
        mount("/dev/vg0/snap", "/mnt/root", Some("xfs"), &vec!["ro".to_string(), "nouuid".to_string()]),
        command("mount", &["--type", "xfs", "--options", "ro,nouuid", "/dev/vg0/snap", "/mnt/root"])
    );
}

#[test]
fn sync_command_names_the_target() {
    assert_eq!(sync("/mnt/root/var"), command("sync", &["/mnt/root/var"]));
}

#[test]
fn unmount_command_only_when_mounted() {
    assert_eq!(unmount("/mnt/root/var", true), Some(command("umount", &["/mnt/root/var"])));
    assert_eq!(unmount("/mnt/root/var", false), None);
}

#[test]
fn resolve_target_of_root_is_toplevel() {
    assert_eq!(get_mount_target("/mnt/root", &bind("/dev/vg0/snap", Some("/"))), "/mnt/root");
}

#[test]
fn resolve_target_of_absolute_path_is_below_toplevel() {
    assert_eq!(get_mount_target("/mnt/root", &bind("/dev/vg0/snap", Some("/var/data"))), "/mnt/root/var/data");
}

#[test]
fn resolve_target_defaults_to_source() {
    assert_eq!(get_mount_target("/mnt/root", &bind("/srv/x", None)), "/mnt/root/srv/x");
}

#[test]
fn resolve_target_of_relative_path_is_joined() {
    assert_eq!(get_mount_target("/mnt/root", &bind("/srv/x", Some("data/y"))), "/mnt/root/data/y");
}

#[test]
fn resolve_target_with_trailing_separator_on_toplevel() {
    assert_eq!(get_mount_target("/mnt/root/", &bind("/srv/x", Some("/var"))), "/mnt/root/var");
}

#[test]
fn resolve_target_of_source_root() {
    assert_eq!(get_mount_target("/mnt/root", &bind("/", None)), "/mnt/root");
}

#[test]
fn resolve_target_of_doubled_root_is_toplevel() {
    assert_eq!(get_mount_target("/mnt/root", &bind("/x", Some("//"))), "/mnt/root");
}

#[test]
fn is_mount_false_for_symlink_whatever_the_devices() {
    let link = FileMeta { is_symlink: true, device: 7 };
    assert!(!is_mount(link, Some(FileMeta { is_symlink: false, device: 1 })));
    assert!(!is_mount(link, Some(FileMeta { is_symlink: false, device: 7 })));
    assert!(!is_mount(link, None));
}

#[test]
fn is_mount_false_for_filesystem_root() {
    assert!(!is_mount(FileMeta { is_symlink: false, device: 1 }, None));
}

#[test]
fn is_mount_compares_devices() {
    let dir = FileMeta { is_symlink: false, device: 2 };
    assert!(is_mount(dir, Some(FileMeta { is_symlink: false, device: 1 })));
    assert!(!is_mount(dir, Some(FileMeta { is_symlink: false, device: 2 })));
}

#[test]
fn create_snapshot_uses_entry_fields() {
    let s = ConfigSnapshot::Lvm {
        source: "/dev/vg0/home".to_string(),
        name: "home-snap".to_string(),
        size: "512M".to_string(),
    };
    assert_eq!(
        create_snapshot(&s),
        command(
            "lvcreate",
            &["--quiet", "--snapshot", "--size", "512M", "--name", "home-snap", "/dev/vg0/home"]
        )
    );
    assert_eq!(snapshot_device(&s), "/dev/vg0/home-snap");
}

#[test]
fn remove_snapshot_only_when_present() {
    let s = ConfigSnapshot::lvm("/dev/vg0/home".to_string(), "home-snap".to_string());
    assert_eq!(remove_snapshot(&s, true), Some(command("lvremove", &["--quiet", "--force", "/dev/vg0/home-snap"])));
    assert_eq!(remove_snapshot(&s, false), None);
}

#[test]
fn create_mount_skips_missing_source_when_asked() {
    let mut m = bind("/srv/maybe", None);
    m.if_exists = true;
    assert_eq!(create_mount("/mnt/root", &m, false), None);
    assert_eq!(create_mount("/mnt/root", &m, true), Some(command("mount", &["/srv/maybe", "/mnt/root/srv/maybe"])));
}

#[test]
fn create_mount_ignores_missing_source_when_not_asked() {
    let m = bind("/srv/x", Some("/data"));
    assert_eq!(create_mount("/mnt/root", &m, false), Some(command("mount", &["/srv/x", "/mnt/root/data"])));
}

#[test]
fn remove_mount_only_when_mounted() {
    let m = bind("/srv/x", Some("/data"));
    assert_eq!(remove_mount("/mnt/root", &m, true), Some(command("umount", &["/mnt/root/data"])));
    assert_eq!(remove_mount("/mnt/root", &m, false), None);
}
