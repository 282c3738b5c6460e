//! The snapshot manager's vocabulary: device and mount paths derived from
//! volume names, and the exact argument lists of the external commands that
//! create, mount, back up, unmount and remove a snapshot.

use vstd::prelude::*;

use crate::command::CommandSpec;
use crate::config::ResticConfig;

verus! {

/// A live, mounted copy-on-write snapshot. A value of this type stands for
/// an OS-level snapshot volume that exists and is mounted at `mount_path`;
/// it is produced by a successful acquire and consumed exactly once by the
/// release sequence.
pub struct Snapshot {
    pub vol_path: String,
    pub mount_path: String,
}

/// `base/segment`.
pub open spec fn joined_path(base: Seq<char>, segment: Seq<char>) -> Seq<char> {
    base + "/"@ + segment
}

/// The fixed device-namespace path of a logical volume: `/dev/{vg}/{lv}`.
pub open spec fn lv_path(vg: Seq<char>, lv: Seq<char>) -> Seq<char> {
    "/dev/"@ + vg + "/"@ + lv
}

/// A filesystem path as a string. Paths in this library are strings
/// throughout, so this never fails.
pub fn path_to_string(p: &str) -> (r: String)
    ensures
        r@ == p@,
{
    String::from_str(p)
}

/// Join one path segment onto a base path.
pub fn join_path(base: &str, segment: &str) -> (r: String)
    ensures
        r@ == joined_path(base@, segment@),
{
    String::from_str(base).concat("/").concat(segment)
}

/// Resolve a logical volume's device path from its group and name.
pub fn get_lv_path(vg: &str, lv: &str) -> (r: String)
    ensures
        r@ == lv_path(vg@, lv@),
{
    String::from_str("/dev/").concat(vg).concat("/").concat(lv)
}

/// The argument list that creates a copy-on-write snapshot.
pub open spec fn lvcreate_argv(size: Seq<char>, name: Seq<char>, src: Seq<char>) -> Seq<Seq<char>> {
    seq!["lvcreate"@, "--size"@, size, "--snapshot"@, "--name"@, name, src]
}

/// The argument list that mounts a device at a directory.
pub open spec fn mount_argv(device: Seq<char>, dir: Seq<char>) -> Seq<Seq<char>> {
    seq!["mount"@, device, dir]
}

/// The argument list that unmounts a directory.
pub open spec fn umount_argv(dir: Seq<char>) -> Seq<Seq<char>> {
    seq!["umount"@, dir]
}

/// The argument list that removes a snapshot volume without prompting.
pub open spec fn lvremove_argv(device: Seq<char>) -> Seq<Seq<char>> {
    seq!["lvremove"@, "--yes"@, device]
}

/// The argument list that asks for the effective user id.
pub open spec fn id_argv() -> Seq<Seq<char>> {
    seq!["id"@, "-u"@]
}

/// The argument list that runs the backup tool against a mounted snapshot,
/// restricted to that one filesystem and tagged.
pub open spec fn restic_argv(
    exe: Seq<char>,
    repo: Seq<char>,
    cache: Seq<char>,
    password_file: Seq<char>,
    mount_path: Seq<char>,
) -> Seq<Seq<char>> {
    seq![
        exe,
        "--quiet"@,
        "--repo"@,
        repo,
        "--cache-dir"@,
        cache,
        "--password-file"@,
        password_file,
        "backup"@,
        "--one-file-system"@,
        "--tag"@,
        "home"@,
        mount_path,
    ]
}

/// Build the snapshot-creation command.
pub fn lvcreate_cmd(size: &str, snapshot_name: &str, src_path: &str) -> (r: CommandSpec)
    ensures
        r.argv() == lvcreate_argv(size@, snapshot_name@, src_path@),
{
    let mut args: Vec<String> = Vec::new();
    args.push(String::from_str("--size"));
    args.push(String::from_str(size));
    args.push(String::from_str("--snapshot"));
    args.push(String::from_str("--name"));
    args.push(String::from_str(snapshot_name));
    args.push(String::from_str(src_path));
    let r = CommandSpec { program: String::from_str("lvcreate"), args };
    proof {
        assert(r.argv() =~~= lvcreate_argv(size@, snapshot_name@, src_path@));
    }
    r
}

/// Build the mount command.
pub fn mount_cmd(device: &str, dir: &str) -> (r: CommandSpec)
    ensures
        r.argv() == mount_argv(device@, dir@),
{
    let mut args: Vec<String> = Vec::new();
    args.push(String::from_str(device));
    args.push(String::from_str(dir));
    let r = CommandSpec { program: String::from_str("mount"), args };
    proof {
        assert(r.argv() =~~= mount_argv(device@, dir@));
    }
    r
}

/// Build the unmount command.
pub fn umount_cmd(dir: &str) -> (r: CommandSpec)
    ensures
        r.argv() == umount_argv(dir@),
{
    let mut args: Vec<String> = Vec::new();
    args.push(String::from_str(dir));
    let r = CommandSpec { program: String::from_str("umount"), args };
    proof {
        assert(r.argv() =~~= umount_argv(dir@));
    }
    r
}

/// Build the snapshot-removal command.
pub fn lvremove_cmd(device: &str) -> (r: CommandSpec)
    ensures
        r.argv() == lvremove_argv(device@),
{
    let mut args: Vec<String> = Vec::new();
    args.push(String::from_str("--yes"));
    args.push(String::from_str(device));
    let r = CommandSpec { program: String::from_str("lvremove"), args };
    proof {
        assert(r.argv() =~~= lvremove_argv(device@));
    }
    r
}

/// Build the privilege-check command.
pub fn id_cmd() -> (r: CommandSpec)
    ensures
        r.argv() == id_argv(),
{
    let mut args: Vec<String> = Vec::new();
    args.push(String::from_str("-u"));
    let r = CommandSpec { program: String::from_str("id"), args };
    proof {
        assert(r.argv() =~~= id_argv());
    }
    r
}

/// Build the backup-tool command against a mounted snapshot.
pub fn restic_cmd(restic: &ResticConfig, mount_path: &str) -> (r: CommandSpec)
    ensures
        r.argv() == restic_argv(
            restic.exe_path@,
            restic.repo_dir@,
            restic.cache_dir@,
            restic.password_file@,
            mount_path@,
        ),
{
    let mut args: Vec<String> = Vec::new();
    args.push(String::from_str("--quiet"));
    args.push(String::from_str("--repo"));
    args.push(restic.repo_dir.clone());
    args.push(String::from_str("--cache-dir"));
    args.push(restic.cache_dir.clone());
    args.push(String::from_str("--password-file"));
    args.push(restic.password_file.clone());
    args.push(String::from_str("backup"));
    args.push(String::from_str("--one-file-system"));
    args.push(String::from_str("--tag"));
    args.push(String::from_str("home"));
    args.push(String::from_str(mount_path));
    let r = CommandSpec { program: restic.exe_path.clone(), args };
    proof {
        assert(r.argv() =~~= restic_argv(
            restic.exe_path@,
            restic.repo_dir@,
            restic.cache_dir@,
            restic.password_file@,
            mount_path@,
        ));
    }
    r
}

} // verus!
