//! The declarative description of a mount tree.

use vstd::prelude::*;

verus! {

/// The capacity given to a snapshot whose configuration names none.
pub fn default_lvm_snapshot_size() -> (size: String)
    ensures
        size@ == "1G"@,
{
    "1G".to_owned()
}

/// A copy-on-write snapshot to create before mounting.
#[derive(Clone, Debug, PartialEq, Eq)]
pub enum ConfigSnapshot {
    /// A snapshot of the logical volume at `source`, called `name`, in the
    /// volume group of its origin. `size` is passed to the tool as it is.
    Lvm { source: String, name: String, size: String },
}

impl ConfigSnapshot {
    /// An LVM snapshot of the default size.
    pub fn lvm(source: String, name: String) -> (snapshot: ConfigSnapshot)
        ensures
            snapshot == (ConfigSnapshot::Lvm { source, name, size: snapshot->size }),
            snapshot->size@ == "1G"@,
    {
        ConfigSnapshot::Lvm { source, name, size: default_lvm_snapshot_size() }
    }
}

/// One mount to create below the toplevel directory.
#[derive(Clone, Debug, PartialEq, Eq)]
pub struct ConfigMount {
    /// What to mount.
    pub source: String,
    /// Where to mount it, as a path of the replayed tree; `source` when absent.
    pub target: Option<String>,
    /// The filesystem type handed to the mount tool, if any.
    pub type_: Option<String>,
    /// The mount options, in order.
    pub options: Vec<String>,
    /// Skip this mount, without error, when `source` does not exist.
    pub if_exists: bool,
}

impl ConfigMount {
    /// The path of the replayed tree at which this entry is mounted.
    pub open spec fn logical_target(&self) -> Seq<char> {
        match self.target {
            Some(target) => target@,
            None => self.source@,
        }
    }

    /// The filesystem type as a sequence of characters, if any.
    pub open spec fn type_view(&self) -> Option<Seq<char>> {
        match self.type_ {
            Some(t) => Some(t@),
            None => None,
        }
    }
}

/// A whole mount tree. The order of both lists is significant: entries are
/// set up in list order and torn down in reverse.
#[derive(Clone, Debug, PartialEq, Eq)]
pub struct Config {
    pub snapshots: Vec<ConfigSnapshot>,
    pub mounts: Vec<ConfigMount>,
}

} // verus!
