//! Mount points: how to recognise one, and the commands that make and undo one.

use vstd::prelude::*;
use crate::command::{optional_view, strings_view, Command, CommandView};
use crate::config::ConfigMount;
use crate::path::{join, path_eq, path_join, path_strip_prefix, same_path, strip_prefix};

verus! {

/// What the metadata of a path says, as far as mount detection reads it.
#[derive(Clone, Copy, Debug, PartialEq, Eq, Structural)]
pub struct FileMeta {
    /// The path is a symbolic link.
    pub is_symlink: bool,
    /// The identifier of the device that holds the path.
    pub device: u64,
}

/// Whether a path is an active mount point, judged by its own metadata and
/// by that of its parent directory (`None` for a path without parent).
pub open spec fn is_mount_point(meta: FileMeta, parent: Option<FileMeta>) -> bool {
    &&& !meta.is_symlink
    &&& parent matches Some(up)
    &&& up.device != meta.device
}

/// Decides whether a path is an active mount point. A symbolic link never
/// is one, nor is a path without parent; any other path is one exactly when
/// it lies on another device than its parent directory.
pub fn is_mount(meta: FileMeta, parent: Option<FileMeta>) -> (mounted: bool)
    ensures
        mounted == is_mount_point(meta, parent),
        meta.is_symlink ==> !mounted,
        parent is None ==> !mounted,
{
    if meta.is_symlink {
        return false;
    }
    match parent {
        Some(up) => up.device != meta.device,
        None => false,
    }
}

/// The items joined into one string, with a comma between neighbours.
pub open spec fn join_commas(items: Seq<Seq<char>>) -> Seq<char>
    decreases items.len(),
{
    if items.len() == 0 {
        Seq::empty()
    } else if items.len() == 1 {
        items[0]
    } else {
        join_commas(items.drop_last()) + seq![','] + items.last()
    }
}

/// Joins mount options into the single argument that the mount tool takes.
pub fn join_options(options: &Vec<String>) -> (joined: String)
    ensures
        joined@ == join_commas(strings_view(options@)),
{
    let mut joined = String::new();
    let mut i: usize = 0;
    let ghost items = strings_view(options@);
    while i < options.len()
        invariant
            i <= options.len(),
            items == strings_view(options@),
            joined@ == join_commas(items.take(i as int)),
        decreases options.len() - i,
    {
        proof {
            reveal_strlit(",");
            assert(items.take(i + 1).drop_last() =~= items.take(i as int));
            assert(","@ =~= seq![',']);
        }
        if i > 0 {
            joined.append(",");
        }
        joined.append(options[i].as_str());
        i = i + 1;
    }
    assert(items.take(i as int) =~= items);
    joined
}

/// The command that mounts `source` at `target`: the type flag only where a
/// type is given, the options flag only where there are options.
pub open spec fn mount_command(
    source: Seq<char>,
    target: Seq<char>,
    type_: Option<Seq<char>>,
    options: Seq<Seq<char>>,
) -> CommandView {
    let type_args = match type_ {
        Some(t) => seq!["--type"@, t],
        None => Seq::empty(),
    };
    let option_args = if options.len() > 0 {
        seq!["--options"@, join_commas(options)]
    } else {
        Seq::empty()
    };
    CommandView { program: "mount"@, args: type_args + option_args + seq![source, target] }
}

/// The command that unmounts `target`.
pub open spec fn unmount_command(target: Seq<char>) -> CommandView {
    CommandView { program: "umount"@, args: seq![target] }
}

/// The command that flushes pending writes for `target`.
pub open spec fn sync_command(target: Seq<char>) -> CommandView {
    CommandView { program: "sync"@, args: seq![target] }
}

/// Builds the command that flushes pending writes for `target`, to be run
/// before `target` is unmounted so that what was written is durable even if
/// the device below is removed right afterwards.
pub fn sync(target: &str) -> (command: Command)
    ensures
        command@ == sync_command(target@),
{
    let mut command = Command::new("sync");
    command.arg(target);
    assert(command@.args =~= sync_command(target@).args);
    command
}

/// Builds the command that mounts `source` at `target`.
pub fn mount(source: &str, target: &str, type_: Option<&str>, options: &Vec<String>) -> (command: Command)
    ensures
        command@ == mount_command(
            source@,
            target@,
            match type_ {
                Some(t) => Some(t@),
                None => None,
            },
            strings_view(options@),
        ),
{
    let mut command = Command::new("mount");
    if let Some(t) = type_ {
        command.arg("--type");
        command.arg(t);
    }
    if options.len() > 0 {
        command.arg("--options");
        let joined = join_options(options);
        command.arg(joined.as_str());
    }
    command.arg(source);
    command.arg(target);
    assert(command@.args =~= mount_command(
        source@,
        target@,
        match type_ {
            Some(t) => Some(t@),
            None => None,
        },
        strings_view(options@),
    ).args);
    command
}

/// The command that unmounts `target`, given whether it is mounted: none
/// when it is not, so that unmounting can be repeated.
pub fn unmount(target: &str, mounted: bool) -> (command: Option<Command>)
    ensures
        optional_view(command) == (if mounted {
            Some(unmount_command(target@))
        } else {
            None
        }),
{
    if mounted {
        let mut command = Command::new("umount");
        command.arg(target);
        assert(command@.args =~= unmount_command(target@).args);
        Some(command)
    } else {
        None
    }
}

/// Where a path of the replayed tree lies below `toplevel`: the root of the
/// tree is `toplevel` itself, any other path is joined onto `toplevel`
/// without its leading root.
pub open spec fn resolve_target(toplevel: Seq<char>, target: Seq<char>) -> Seq<char> {
    if target == "/"@ || path_eq(target, "/"@) {
        toplevel
    } else {
        match path_strip_prefix(target, "/"@) {
            Some(relative) => path_join(toplevel, relative),
            None => path_join(toplevel, target),
        }
    }
}

/// The concrete path at which `config_mount` is mounted below `toplevel`.
pub fn get_mount_target(toplevel: &str, config_mount: &ConfigMount) -> (path: String)
    ensures
        path@ == resolve_target(toplevel@, config_mount.logical_target()),
{
    let target: &str = match &config_mount.target {
        Some(target) => target.as_str(),
        None => config_mount.source.as_str(),
    };
    if same_path(target, "/") {
        toplevel.to_owned()
    } else {
        match strip_prefix(target, "/") {
            Some(relative) => join(toplevel, relative.as_str()),
            None => join(toplevel, target),
        }
    }
}

} // verus!
