//! What has to be done for one entry of a configuration.

use vstd::prelude::*;
use crate::command::{optional_view, strings_view, Command, CommandView};
use crate::config::{ConfigMount, ConfigSnapshot};
use crate::lvm::{remove_command, snapshot_command, LogicalVolume};
use crate::mount::{get_mount_target, mount, mount_command, resolve_target, unmount, unmount_command};
use crate::path::path_with_file_name;

verus! {

/// The path of the block device of the snapshot that `snapshot` describes:
/// in the volume group of its origin, under the snapshot's name.
pub open spec fn snapshot_device_path(snapshot: ConfigSnapshot) -> Seq<char> {
    match snapshot {
        ConfigSnapshot::Lvm { source, name, size } => path_with_file_name(source@, name@),
    }
}

/// The command that creates the snapshot that `snapshot` describes.
pub open spec fn create_snapshot_command(snapshot: ConfigSnapshot) -> CommandView {
    match snapshot {
        ConfigSnapshot::Lvm { source, name, size } => snapshot_command(source@, name@, size@),
    }
}

/// The command that mounts `config_mount` below `toplevel`.
pub open spec fn create_mount_command(toplevel: Seq<char>, config_mount: ConfigMount) -> CommandView {
    mount_command(
        config_mount.source@,
        resolve_target(toplevel, config_mount.logical_target()),
        config_mount.type_view(),
        strings_view(config_mount.options@),
    )
}

/// Computes the path of the block device of a snapshot.
pub fn snapshot_device(snapshot: &ConfigSnapshot) -> (path: String)
    ensures
        path@ == snapshot_device_path(*snapshot),
{
    match snapshot {
        ConfigSnapshot::Lvm { source, name, size } => {
            let origin = LogicalVolume::from_path(source.clone());
            origin.with_name(name.as_str()).path
        },
    }
}

/// Builds the command that creates a snapshot.
pub fn create_snapshot(snapshot: &ConfigSnapshot) -> (command: Command)
    ensures
        command@ == create_snapshot_command(*snapshot),
{
    match snapshot {
        ConfigSnapshot::Lvm { source, name, size } => {
            let origin = LogicalVolume::from_path(source.clone());
            origin.snapshot(name.as_str(), size.as_str())
        },
    }
}

/// Builds the command that removes a snapshot, given whether its block
/// device exists; there is nothing to do when it does not.
pub fn remove_snapshot(snapshot: &ConfigSnapshot, present: bool) -> (command: Option<Command>)
    ensures
        optional_view(command) == (if present {
            Some(remove_command(snapshot_device_path(*snapshot)))
        } else {
            None
        }),
{
    let target = LogicalVolume::from_path(snapshot_device(snapshot));
    target.remove(present)
}

/// Builds the command that mounts an entry below `toplevel`, given whether
/// its source exists. An entry that asks to be skipped when its source is
/// missing gives no command then; that is no failure.
pub fn create_mount(toplevel: &str, config_mount: &ConfigMount, source_present: bool) -> (command: Option<
    Command,
>)
    ensures
        optional_view(command) == (if config_mount.if_exists && !source_present {
            None
        } else {
            Some(create_mount_command(toplevel@, *config_mount))
        }),
{
    if config_mount.if_exists && !source_present {
        return None;
    }
    let target = get_mount_target(toplevel, config_mount);
    let type_: Option<&str> = match &config_mount.type_ {
        Some(t) => Some(t.as_str()),
        None => None,
    };
    Some(mount(config_mount.source.as_str(), target.as_str(), type_, &config_mount.options))
}

/// Builds the command that unmounts an entry below `toplevel`, given
/// whether its target is mounted; there is nothing to do when it is not.
pub fn remove_mount(toplevel: &str, config_mount: &ConfigMount, mounted: bool) -> (command: Option<Command>)
    ensures
        optional_view(command) == (if mounted {
            Some(unmount_command(resolve_target(toplevel@, config_mount.logical_target())))
        } else {
            None
        }),
{
    let target = get_mount_target(toplevel, config_mount);
    unmount(target.as_str(), mounted)
}

} // verus!
