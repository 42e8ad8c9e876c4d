//! Logical volumes and the commands that snapshot and remove them.

use vstd::prelude::*;
use crate::command::{optional_view, Command, CommandView};
use crate::path::{path_with_file_name, with_file_name};

verus! {

/// The command that creates a snapshot called `name`, of capacity `size`, of
/// the logical volume at `path`.
pub open spec fn snapshot_command(path: Seq<char>, name: Seq<char>, size: Seq<char>) -> CommandView {
    CommandView {
        program: "lvcreate"@,
        args: seq!["--quiet"@, "--snapshot"@, "--size"@, size, "--name"@, name, path],
    }
}

/// The command that removes the logical volume at `path` without asking.
pub open spec fn remove_command(path: Seq<char>) -> CommandView {
    CommandView { program: "lvremove"@, args: seq!["--quiet"@, "--force"@, path] }
}

/// A logical volume, known by the path of its block device: the directory
/// is its volume group, the last component its name.
#[derive(Clone, Debug, PartialEq, Eq)]
pub struct LogicalVolume {
    pub path: String,
}

impl LogicalVolume {
    /// The logical volume whose block device is at `path`.
    pub fn from_path(path: String) -> (volume: LogicalVolume)
        ensures
            volume.path == path,
    {
        LogicalVolume { path }
    }

    /// The volume called `name` in the same volume group: the path with its
    /// last component replaced.
    pub fn with_name(&self, name: &str) -> (volume: LogicalVolume)
        ensures
            volume.path@ == path_with_file_name(self.path@, name@),
    {
        LogicalVolume::from_path(with_file_name(self.path.as_str(), name))
    }

    /// The command that snapshots this volume under `name` with capacity `size`.
    pub fn snapshot(&self, name: &str, size: &str) -> (command: Command)
        ensures
            command@ == snapshot_command(self.path@, name@, size@),
    {
        let mut command = Command::new("lvcreate");
        command.arg("--quiet");
        command.arg("--snapshot");
        command.arg("--size");
        command.arg(size);
        command.arg("--name");
        command.arg(name);
        command.arg(self.path.as_str());
        assert(command@.args =~= snapshot_command(self.path@, name@, size@).args);
        command
    }

    /// The command that removes this volume, given whether its block device
    /// exists: none when it does not, so that removal can be repeated.
    pub fn remove(&self, present: bool) -> (command: Option<Command>)
        ensures
            optional_view(command) == (if present {
                Some(remove_command(self.path@))
            } else {
                None
            }),
    {
        if present {
            let mut command = Command::new("lvremove");
            command.arg("--quiet");
            command.arg("--force");
            command.arg(self.path.as_str());
            assert(command@.args =~= remove_command(self.path@).args);
            Some(command)
        } else {
            None
        }
    }
}

} // verus!
