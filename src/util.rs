//! The computing half of the engine's utilities: the command lines of the XFS
//! tools, the outcome of a command that ran, and the choice of a disk's WWN
//! among the udev records.

use vstd::prelude::*;

use crate::api::strings_view;
use crate::errors::{EngineError, ErrorKind};
use crate::identity::{hyphenated, uuid_text};

verus! {

/// A program to run, its arguments, and the message that its failure reports.
pub struct CommandSpec {
    pub program: String,
    pub args: Vec<String>,
    pub error_msg: String,
}

/// The text that `from_utf8_lossy` makes of `b`.
pub uninterp spec fn lossy_text(b: Seq<u8>) -> Seq<char>;

/// Relies on std's `String::from_utf8_lossy`: the text of `b`, with each
/// invalid sequence replaced; the result depends on the bytes alone.
#[verifier::external_body]
fn utf8_lossy(b: &Vec<u8>) -> (r: String)
    ensures
        r@ == lossy_text(b@),
{
    String::from_utf8_lossy(b.as_slice()).into_owned()
}

/// The text that the `Debug` format of a `Path` makes of `s`.
pub uninterp spec fn path_debug(s: Seq<char>) -> Seq<char>;

/// Relies on std's `Debug` for `Path`: a quoted, escaped rendering of the
/// path that depends on its text alone.
#[verifier::external_body]
fn debug_path(s: &str) -> (r: String)
    ensures
        r@ == path_debug(s@),
{
    format!("{:?}", std::path::Path::new(s))
}

/// Whether std's `Path` equality holds of `a` and `b`.
pub uninterp spec fn same_path(a: Seq<char>, b: Seq<char>) -> bool;

/// Relies on std's `PartialEq for Path`, which compares two paths component
/// by component.
#[verifier::external_body]
fn paths_equal(a: &str, b: &str) -> (r: bool)
    ensures
        r == same_path(a@, b@),
{
    std::path::Path::new(a) == std::path::Path::new(b)
}

/// The message of a command that exited with failure.
pub open spec fn failure_message(error_msg: Seq<char>, stdout: Seq<u8>, stderr: Seq<u8>) -> Seq<
    char,
> {
    error_msg + " stdout: "@ + lossy_text(stdout) + " stderr: "@ + lossy_text(stderr)
}

/// The outcome of a command that ran: `Ok` where it exited with success,
/// else an error whose message holds `error_msg` and both outputs.
pub fn command_outcome(success: bool, stdout: &Vec<u8>, stderr: &Vec<u8>, error_msg: &str) -> (r:
    Result<(), EngineError>)
    ensures
        success ==> r is Ok,
        !success ==> (r matches Err(e) && e.kind == ErrorKind::Error && e.message@
            == failure_message(error_msg@, stdout@, stderr@)),
{
    if success {
        Ok(())
    } else {
        let mut message = String::from_str(error_msg);
        message.append(" stdout: ");
        message.append(utf8_lossy(stdout).as_str());
        message.append(" stderr: ");
        message.append(utf8_lossy(stderr).as_str());
        Err(EngineError::new(ErrorKind::Error, message))
    }
}

/// A string made of `prefix` and then `rest`.
fn joined(prefix: &str, rest: &str) -> (r: String)
    ensures
        r@ == prefix@ + rest@,
{
    let mut s = String::from_str(prefix);
    s.append(rest);
    s
}

/// The command that makes an XFS filesystem with identity `uuid` on
/// `devnode`.
pub fn create_fs_command(devnode: &str, uuid: u128) -> (r: CommandSpec)
    ensures
        r.program@ == "mkfs.xfs"@,
        strings_view(r.args@) == seq!["-f"@, "-q"@, devnode@, "-m"@, "uuid="@ + hyphenated(uuid)],
        r.error_msg@ == "Failed to create new filesystem at "@ + path_debug(devnode@),
{
    let mut args: Vec<String> = Vec::new();
    args.push(String::from_str("-f"));
    args.push(String::from_str("-q"));
    args.push(String::from_str(devnode));
    args.push(String::from_str("-m"));
    args.push(joined("uuid=", uuid_text(uuid).as_str()));
    let r = CommandSpec {
        program: String::from_str("mkfs.xfs"),
        args,
        error_msg: joined("Failed to create new filesystem at ", debug_path(devnode).as_str()),
    };
    assert(strings_view(r.args@) =~= seq![
        "-f"@,
        "-q"@,
        devnode@,
        "-m"@,
        "uuid="@ + hyphenated(uuid),
    ]);
    r
}

/// The command that grows the XFS filesystem mounted at `mount_point` to the
/// size of its device.
pub fn xfs_growfs_command(mount_point: &str) -> (r: CommandSpec)
    ensures
        r.program@ == "xfs_growfs"@,
        strings_view(r.args@) == seq![mount_point@, "-d"@],
        r.error_msg@ == "Failed to expand filesystem "@ + path_debug(mount_point@),
{
    let mut args: Vec<String> = Vec::new();
    args.push(String::from_str(mount_point));
    args.push(String::from_str("-d"));
    let r = CommandSpec {
        program: String::from_str("xfs_growfs"),
        args,
        error_msg: joined("Failed to expand filesystem ", debug_path(mount_point).as_str()),
    };
    assert(strings_view(r.args@) =~= seq![mount_point@, "-d"@]);
    r
}

/// The command that gives the XFS filesystem on `devnode` the identity
/// `uuid`.
pub fn set_uuid_command(devnode: &str, uuid: u128) -> (r: CommandSpec)
    ensures
        r.program@ == "xfs_admin"@,
        strings_view(r.args@) == seq!["-U"@, hyphenated(uuid), devnode@],
        r.error_msg@ == "Failed to set UUID for filesystem "@ + path_debug(devnode@),
{
    let mut args: Vec<String> = Vec::new();
    args.push(String::from_str("-U"));
    args.push(uuid_text(uuid));
    args.push(String::from_str(devnode));
    let r = CommandSpec {
        program: String::from_str("xfs_admin"),
        args,
        error_msg: joined("Failed to set UUID for filesystem ", debug_path(devnode).as_str()),
    };
    assert(strings_view(r.args@) =~= seq!["-U"@, hyphenated(uuid), devnode@]);
    r
}

/// The `ID_WWN` property of a disk as udev holds it.
pub enum Wwn {
    /// The property's text.
    Text(String),
    /// A value that is not UTF-8, in its `Debug` rendering.
    Undecodable(String),
}

/// What the WWN lookup reads of one udev block disk.
pub struct UdevDisk {
    pub devnode: Option<String>,
    pub wwn: Option<Wwn>,
}

/// Whether `disk` is the one whose device node is `search`.
pub open spec fn disk_matches(disk: UdevDisk, search: Seq<char>) -> bool {
    match disk.devnode {
        Some(d) => same_path(search, d@),
        None => false,
    }
}

/// What the lookup returns for the first matching disk, whose property is
/// `wwn`.
pub open spec fn wwn_outcome(wwn: Option<Wwn>, r: Result<Option<String>, EngineError>) -> bool {
    match wwn {
        None => r matches Ok(None),
        Some(Wwn::Text(s)) => r matches Ok(Some(x)) && x@ == s@,
        Some(Wwn::Undecodable(t)) => r matches Err(e) && e.kind == ErrorKind::Error && e.message@
            == "Unable to convert "@ + t@ + " to str"@,
    }
}

/// The WWN of the first disk whose device node is `dev_node_search`: `None`
/// where no disk matches or the match has no WWN, an error where its WWN is
/// not UTF-8.
pub fn find_wwn(disks: &Vec<UdevDisk>, dev_node_search: &str) -> (r: Result<
    Option<String>,
    EngineError,
>)
    ensures
        (forall|i: int| 0 <= i < disks.len() ==> !disk_matches(#[trigger] disks@[i], dev_node_search@))
            ==> r matches Ok(None),
        forall|i: int|
            0 <= i < disks.len() && #[trigger] disk_matches(disks@[i], dev_node_search@) && (forall|
                j: int,
            | 0 <= j < i ==> !disk_matches(#[trigger] disks@[j], dev_node_search@)) ==> wwn_outcome(
                disks@[i].wwn,
                r,
            ),
{
    let mut i: usize = 0;
    while i < disks.len()
        invariant
            i <= disks.len(),
            forall|j: int| 0 <= j < i ==> !disk_matches(#[trigger] disks@[j], dev_node_search@),
        decreases disks.len() - i,
    {
        let disk = &disks[i];
        let found = match &disk.devnode {
            Some(d) => paths_equal(dev_node_search, d.as_str()),
            None => false,
        };
        if found {
            return match &disk.wwn {
                None => Ok(None),
                Some(Wwn::Text(s)) => Ok(Some(s.clone())),
                Some(Wwn::Undecodable(t)) => {
                    let mut message = joined("Unable to convert ", t.as_str());
                    message.append(" to str");
                    Err(EngineError::new(ErrorKind::Error, message))
                },
            };
        }
        i = i + 1;
    }
    Ok(None)
}

} // verus!
