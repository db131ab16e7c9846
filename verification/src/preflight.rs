//! The checks that guard a destructive apply. Each takes what the host found
//! out (whether the caller is privileged, which tools exist, what `lsblk`
//! printed) and decides whether the apply may go on.

use vstd::prelude::*;
use vstd::string::*;
use crate::error::{ErrorCode, RecpartError, RecpartErrorModel};
use crate::number::{parse_unsigned, parsed, NumberFault};
use crate::text::{
    is_absolute, is_absolute_path, join_texts, joined, same_text, split_lines, split_text_on,
    split_text_words, split_words, text, trim_text, trimmed,
};
use crate::types::{DiskTarget, DiskTargetModel};

verus! {

/// The tools that an apply and its checks call, in the order in which they
/// are looked for.
pub open spec fn required_tool_names() -> Seq<Seq<char>> {
    seq![
        "lsblk"@,
        "sfdisk"@,
        "wipefs"@,
        "mkfs.vfat"@,
        "mkfs.ext4"@,
        "mount"@,
        "udevadm"@,
        "blkid"@,
    ]
}

/// What a query by an external command came to.
#[derive(Debug)]
pub enum QueryOutcome {
    /// The command could not be run.
    NotRun { reason: String },
    /// The command ended: whether with success, and all it wrote.
    Finished { success: bool, stdout: String, stderr: String },
}

/// What a query came to, with its texts as character sequences.
pub enum QueryOutcomeModel {
    NotRun { reason: Seq<char> },
    Finished { success: bool, stdout: Seq<char>, stderr: Seq<char> },
}

impl View for QueryOutcome {
    type V = QueryOutcomeModel;

    open spec fn view(&self) -> QueryOutcomeModel {
        match self {
            QueryOutcome::NotRun { reason } => QueryOutcomeModel::NotRun { reason: reason@ },
            QueryOutcome::Finished { success, stdout, stderr } => QueryOutcomeModel::Finished {
                success: *success,
                stdout: stdout@,
                stderr: stderr@,
            },
        }
    }
}

impl Clone for QueryOutcome {
    fn clone(&self) -> (r: Self)
        ensures
            r@ == self@,
    {
        match self {
            QueryOutcome::NotRun { reason } => QueryOutcome::NotRun { reason: reason.clone() },
            QueryOutcome::Finished { success, stdout, stderr } => QueryOutcome::Finished {
                success: *success,
                stdout: stdout.clone(),
                stderr: stderr.clone(),
            },
        }
    }
}

/// What a look at the disk's path came to.
#[derive(Debug)]
pub enum StatReport {
    /// The path could not be examined.
    Failed { reason: String },
    /// The path exists; it is a block device or it is not.
    Found { block_device: bool },
}

/// What a look at a path came to, with its text as a character sequence.
pub enum StatReportModel {
    Failed { reason: Seq<char> },
    Found { block_device: bool },
}

impl View for StatReport {
    type V = StatReportModel;

    open spec fn view(&self) -> StatReportModel {
        match self {
            StatReport::Failed { reason } => StatReportModel::Failed { reason: reason@ },
            StatReport::Found { block_device } => StatReportModel::Found {
                block_device: *block_device,
            },
        }
    }
}

impl Clone for StatReport {
    fn clone(&self) -> (r: Self)
        ensures
            r@ == self@,
    {
        match self {
            StatReport::Failed { reason } => StatReport::Failed { reason: reason.clone() },
            StatReport::Found { block_device } => StatReport::Found { block_device: *block_device },
        }
    }
}

/// A failure of the target disk, raised by the checks.
pub open spec fn disk_error(
    expectation: Seq<char>,
    observed: Seq<char>,
    remediation: Seq<char>,
) -> RecpartErrorModel {
    RecpartErrorModel {
        code: ErrorCode::InvalidTargetDisk,
        component: "preflight"@,
        expectation,
        observed,
        remediation,
    }
}

/// The first required tool that was not found. A tool without an answer
/// counts as not found.
pub open spec fn first_missing_tool(found: Seq<bool>, upto: int) -> Option<int>
    decreases upto,
{
    if upto <= 0 {
        None
    } else {
        match first_missing_tool(found, upto - 1) {
            Some(i) => Some(i),
            None => {
                if upto - 1 < found.len() && found[upto - 1] {
                    None
                } else {
                    Some(upto - 1)
                }
            },
        }
    }
}

/// The failure of a required tool that is missing.
pub open spec fn missing_tool_error(tool: Seq<char>) -> RecpartErrorModel {
    RecpartErrorModel {
        code: ErrorCode::MissingTool,
        component: "preflight"@,
        expectation: "required tool '"@ + tool + "' exists in PATH"@,
        observed: "'"@ + tool + "' is missing"@,
        remediation: "Install '"@ + tool + "' and re-run recpart."@,
    }
}

/// Why the tools do not suffice, if they do not.
pub open spec fn tools_error(found: Seq<bool>) -> Option<RecpartErrorModel> {
    match first_missing_tool(found, required_tool_names().len() as int) {
        Some(i) => Some(missing_tool_error(required_tool_names()[i])),
        None => None,
    }
}

/// The failure of a caller without privilege.
pub open spec fn not_root_error() -> RecpartErrorModel {
    RecpartErrorModel {
        code: ErrorCode::NotRoot,
        component: "preflight"@,
        expectation: "apply runs as root"@,
        observed: "effective uid is not root"@,
        remediation: "Re-run with root privileges (sudo)."@,
    }
}

/// Why the path is no block device, if it is none.
pub open spec fn block_device_error(path: Seq<char>, stat: StatReportModel) -> Option<
    RecpartErrorModel,
> {
    match stat {
        StatReportModel::Failed { reason } => Some(
            disk_error(
                "target disk path exists and is a block device"@,
                "failed to stat '"@ + path + "': "@ + reason,
                "Provide a valid block device path (for example /dev/sda)."@,
            ),
        ),
        StatReportModel::Found { block_device } => {
            if block_device {
                None
            } else {
                Some(
                    disk_error(
                        "target disk path is a block device"@,
                        "'"@ + path + "' is not a block device"@,
                        "Use lsblk to choose a disk path like /dev/sdX or /dev/nvme0n1."@,
                    ),
                )
            }
        },
    }
}

/// Why the mount root is refused, if it is: it is not absolute, or it is a
/// protected system path.
pub open spec fn mount_root_error(path: Seq<char>, protected: bool) -> Option<RecpartErrorModel> {
    if !is_absolute(path) {
        Some(
            RecpartErrorModel {
                code: ErrorCode::MountFailed,
                component: "preflight"@,
                expectation: "mount root path is absolute"@,
                observed: "'"@ + path + "' is not absolute"@,
                remediation: "Use an absolute mount root path such as /mnt."@,
            },
        )
    } else if protected {
        Some(
            RecpartErrorModel {
                code: ErrorCode::MountFailed,
                component: "preflight"@,
                expectation: "mount root is not a protected system path"@,
                observed: "'"@ + path + "' is protected"@,
                remediation: "Use a non-protected path such as /mnt or /mnt/recpart."@,
            },
        )
    } else {
        None
    }
}

/// The failure of a query that could not be run or did not succeed, if it
/// is one.
pub open spec fn query_failure(
    q: QueryOutcomeModel,
    can_run: Seq<char>,
    succeeds: Seq<char>,
    on_failure: Seq<char>,
) -> Option<RecpartErrorModel> {
    match q {
        QueryOutcomeModel::NotRun { reason } => Some(
            disk_error(
                can_run,
                "failed to execute lsblk: "@ + reason,
                "Ensure util-linux is installed and lsblk is available."@,
            ),
        ),
        QueryOutcomeModel::Finished { success, stdout, stderr } => {
            if success {
                None
            } else {
                Some(disk_error(succeeds, trimmed(stderr), on_failure))
            }
        },
    }
}

/// What a query printed, where it printed anything.
pub open spec fn query_stdout(q: QueryOutcomeModel) -> Seq<char> {
    match q {
        QueryOutcomeModel::NotRun { .. } => Seq::empty(),
        QueryOutcomeModel::Finished { stdout, .. } => stdout,
    }
}

/// Why the disk counts as read-only, if it does: the query failed, or its
/// answer is not `0`.
pub open spec fn writable_error(q: QueryOutcomeModel) -> Option<RecpartErrorModel> {
    match query_failure(
        q,
        "lsblk can query read-only status"@,
        "disk read-only status query succeeds"@,
        "Verify target disk path exists and is accessible."@,
    ) {
        Some(e) => Some(e),
        None => {
            let ro = trimmed(query_stdout(q));
            if ro == "0"@ {
                None
            } else {
                Some(
                    disk_error(
                        "target disk is writable (RO=0)"@,
                        "read-only flag is RO="@ + ro,
                        "Use a writable block device target and retry."@,
                    ),
                )
            }
        },
    }
}

/// The mount points among the lines: each line without the white space
/// around it, but for empty lines and lines that hold a dash only.
pub open spec fn mount_points(lines: Seq<Seq<char>>) -> Seq<Seq<char>>
    decreases lines.len(),
{
    if lines.len() == 0 {
        Seq::empty()
    } else {
        let before = mount_points(lines.drop_last());
        let line = trimmed(lines.last());
        if line.len() == 0 || line == "-"@ {
            before
        } else {
            before.push(line)
        }
    }
}

/// Why the disk counts as in use, if it does: the query failed, or it
/// listed a mount point.
pub open spec fn mounted_error(q: QueryOutcomeModel) -> Option<RecpartErrorModel> {
    match query_failure(
        q,
        "lsblk can inspect mounted descendants"@,
        "mounted-state query succeeds"@,
        "Verify target disk path exists and is accessible."@,
    ) {
        Some(e) => Some(e),
        None => {
            let points = mount_points(split_lines(query_stdout(q)));
            if points.len() == 0 {
                None
            } else {
                Some(
                    disk_error(
                        "target disk and child partitions are not mounted"@,
                        "mounted points detected: "@ + joined(points, ", "@),
                        "Unmount all target disk partitions before destructive apply."@,
                    ),
                )
            }
        },
    }
}

/// Why the device is no whole disk, if it is none: the query failed, or the
/// device's type is neither `disk` nor `loop`.
pub open spec fn whole_disk_error(q: QueryOutcomeModel) -> Option<RecpartErrorModel> {
    match query_failure(
        q,
        "lsblk can query target type"@,
        "target type query succeeds"@,
        "Verify target disk path exists and is accessible."@,
    ) {
        Some(e) => Some(e),
        None => {
            let kind = trimmed(query_stdout(q));
            if kind == "disk"@ || kind == "loop"@ {
                None
            } else {
                Some(
                    disk_error(
                        "target path resolves to whole-disk device type"@,
                        "device type is '"@ + kind + "'"@,
                        "Target a disk device (for example /dev/sda), not a partition like /dev/sda1."@,
                    ),
                )
            }
        },
    }
}

/// True when `r` is the verdict that `fault` calls for: success where there
/// is no fault, and the fault as the error otherwise.
pub open spec fn verdict_is(r: Result<(), RecpartError>, fault: Option<RecpartErrorModel>) -> bool {
    match r {
        Ok(_) => fault is None,
        Err(e) => fault == Some(e@),
    }
}

/// The tools that an apply and its checks call.
pub fn required_tools() -> (r: Vec<String>)
    ensures
        r.deep_view() == required_tool_names(),
{
    let mut out: Vec<String> = Vec::new();
    out.push(text("lsblk"));
    out.push(text("sfdisk"));
    out.push(text("wipefs"));
    out.push(text("mkfs.vfat"));
    out.push(text("mkfs.ext4"));
    out.push(text("mount"));
    out.push(text("udevadm"));
    out.push(text("blkid"));
    assert(out.deep_view() =~= required_tool_names());
    out
}

fn disk_failure(expectation: &str, observed: &str, remediation: &str) -> (r: RecpartError)
    ensures
        r@ == disk_error(expectation@, observed@, remediation@),
{
    RecpartError::new(ErrorCode::InvalidTargetDisk, "preflight", expectation, observed, remediation)
}

/// Checks that every required tool was found. `found` holds one answer per
/// tool, in the tools' order.
pub fn ensure_required_tools(found: &Vec<bool>) -> (r: Result<(), RecpartError>)
    ensures
        verdict_is(r, tools_error(found@)),
{
    let tools = required_tools();
    let n: usize = tools.len();
    let mut i: usize = 0;
    while i < n
        invariant
            i <= n,
            n == tools.len(),
            n == required_tool_names().len(),
            tools.deep_view() == required_tool_names(),
            first_missing_tool(found@, i as int) is None,
        decreases n - i,
    {
        let present = i < found.len() && found[i];
        if !present {
            let tool = tools[i].as_str();
            let mut expectation = text("required tool '");
            expectation.append(tool);
            expectation.append("' exists in PATH");
            let mut observed = text("'");
            observed.append(tool);
            observed.append("' is missing");
            let mut remediation = text("Install '");
            remediation.append(tool);
            remediation.append("' and re-run recpart.");
            proof {
                assert(first_missing_tool(found@, i as int + 1) == Some(i as int));
                lemma_first_missing_stays(found@, i as int + 1, n as int);
                assert(tools@[i as int]@ == required_tool_names()[i as int]);
            }
            return Err(
                RecpartError::new(
                    ErrorCode::MissingTool,
                    "preflight",
                    expectation.as_str(),
                    observed.as_str(),
                    remediation.as_str(),
                ),
            );
        }
        i += 1;
    }
    Ok(())
}

/// Once a tool is known to be the first that is missing, looking at more
/// tools does not change that.
proof fn lemma_first_missing_stays(found: Seq<bool>, from: int, upto: int)
    requires
        0 <= from <= upto,
        first_missing_tool(found, from) is Some,
    ensures
        first_missing_tool(found, upto) == first_missing_tool(found, from),
    decreases upto - from,
{
    if from < upto {
        lemma_first_missing_stays(found, from, upto - 1);
    }
}

/// Checks that the caller is privileged.
pub fn ensure_root_for_apply(is_root: bool) -> (r: Result<(), RecpartError>)
    ensures
        is_root ==> r is Ok,
        !is_root ==> r is Err && r->Err_0@ == not_root_error(),
{
    if is_root {
        return Ok(());
    }
    Err(
        RecpartError::new(
            ErrorCode::NotRoot,
            "preflight",
            "apply runs as root",
            "effective uid is not root",
            "Re-run with root privileges (sudo).",
        ),
    )
}

/// Checks that the disk's path is a block device.
pub fn ensure_block_device(path: &str, stat: &StatReport) -> (r: Result<(), RecpartError>)
    ensures
        verdict_is(r, block_device_error(path@, stat@)),
{
    match stat {
        StatReport::Failed { reason } => {
            let mut observed = text("failed to stat '");
            observed.append(path);
            observed.append("': ");
            observed.append(reason.as_str());
            Err(
                disk_failure(
                    "target disk path exists and is a block device",
                    observed.as_str(),
                    "Provide a valid block device path (for example /dev/sda).",
                ),
            )
        },
        StatReport::Found { block_device } => {
            if *block_device {
                return Ok(());
            }
            let mut observed = text("'");
            observed.append(path);
            observed.append("' is not a block device");
            Err(
                disk_failure(
                    "target disk path is a block device",
                    observed.as_str(),
                    "Use lsblk to choose a disk path like /dev/sdX or /dev/nvme0n1.",
                ),
            )
        },
    }
}

/// Checks that the mount root is absolute and no protected system path.
/// `protected` is what the protected-path check said of it.
pub fn ensure_mount_root_safe(path: &str, protected: bool) -> (r: Result<(), RecpartError>)
    ensures
        verdict_is(r, mount_root_error(path@, protected)),
        r is Ok <==> is_absolute(path@) && !protected,
        r is Err ==> r->Err_0.code == ErrorCode::MountFailed,
{
    if !is_absolute_path(path) {
        let mut observed = text("'");
        observed.append(path);
        observed.append("' is not absolute");
        return Err(
            RecpartError::new(
                ErrorCode::MountFailed,
                "preflight",
                "mount root path is absolute",
                observed.as_str(),
                "Use an absolute mount root path such as /mnt.",
            ),
        );
    }
    if protected {
        let mut observed = text("'");
        observed.append(path);
        observed.append("' is protected");
        return Err(
            RecpartError::new(
                ErrorCode::MountFailed,
                "preflight",
                "mount root is not a protected system path",
                observed.as_str(),
                "Use a non-protected path such as /mnt or /mnt/recpart.",
            ),
        );
    }
    Ok(())
}

/// What a query printed, unless it could not be run or did not succeed.
pub fn query_output(query: &QueryOutcome, can_run: &str, succeeds: &str, on_failure: &str) -> (r:
    Result<String, RecpartError>)
    ensures
        match r {
            Ok(out) => query_failure(query@, can_run@, succeeds@, on_failure@) is None && out@
                == query_stdout(query@),
            Err(e) => query_failure(query@, can_run@, succeeds@, on_failure@) == Some(e@),
        },
{
    match query {
        QueryOutcome::NotRun { reason } => {
            let mut observed = text("failed to execute lsblk: ");
            observed.append(reason.as_str());
            Err(
                disk_failure(
                    can_run,
                    observed.as_str(),
                    "Ensure util-linux is installed and lsblk is available.",
                ),
            )
        },
        QueryOutcome::Finished { success, stdout, stderr } => {
            if *success {
                Ok(stdout.clone())
            } else {
                Err(disk_failure(succeeds, trim_text(stderr.as_str()).as_str(), on_failure))
            }
        },
    }
}

/// Checks the answer to the question whether the disk is read-only.
pub fn ensure_disk_writable(query: &QueryOutcome) -> (r: Result<(), RecpartError>)
    ensures
        verdict_is(r, writable_error(query@)),
{
    let stdout = match query_output(
        query,
        "lsblk can query read-only status",
        "disk read-only status query succeeds",
        "Verify target disk path exists and is accessible.",
    ) {
        Err(e) => {
            return Err(e);
        },
        Ok(out) => out,
    };
    let ro = trim_text(stdout.as_str());
    if same_text(ro.as_str(), "0") {
        return Ok(());
    }
    let mut observed = text("read-only flag is RO=");
    observed.append(ro.as_str());
    Err(
        disk_failure(
            "target disk is writable (RO=0)",
            observed.as_str(),
            "Use a writable block device target and retry.",
        ),
    )
}

/// The pieces of `s` between line feeds.
pub fn split_text_lines(s: &str) -> (r: Vec<String>)
    ensures
        r.deep_view() == split_lines(s@),
{
    split_text_on(s, '\n')
}

/// The mount points among the lines.
pub fn collect_mount_points(lines: &Vec<String>) -> (r: Vec<String>)
    ensures
        r.deep_view() == mount_points(lines.deep_view()),
{
    let n: usize = lines.len();
    let ghost all = lines.deep_view();
    let mut out: Vec<String> = Vec::new();
    let mut i: usize = 0;
    assert(all.take(0) =~= Seq::<Seq<char>>::empty());
    assert(out.deep_view() =~= Seq::<Seq<char>>::empty());
    while i < n
        invariant
            i <= n,
            n == lines.len(),
            all == lines.deep_view(),
            out.deep_view() == mount_points(all.take(i as int)),
        decreases n - i,
    {
        proof {
            let next = all.take(i as int + 1);
            assert(next.drop_last() =~= all.take(i as int));
            assert(next.last() == lines@[i as int]@);
        }
        let line = trim_text(lines[i].as_str());
        let empty = line.as_str().unicode_len() == 0;
        if !empty && !same_text(line.as_str(), "-") {
            let ghost shown = out.deep_view();
            out.push(line);
            assert(out.deep_view() =~= shown.push(trimmed(lines@[i as int]@)));
        }
        i += 1;
    }
    assert(all.take(n as int) =~= all);
    out
}

/// Checks the answer to the question where the disk and its partitions are
/// mounted.
pub fn ensure_disk_not_mounted(query: &QueryOutcome) -> (r: Result<(), RecpartError>)
    ensures
        verdict_is(r, mounted_error(query@)),
{
    let stdout = match query_output(
        query,
        "lsblk can inspect mounted descendants",
        "mounted-state query succeeds",
        "Verify target disk path exists and is accessible.",
    ) {
        Err(e) => {
            return Err(e);
        },
        Ok(out) => out,
    };
    let lines = split_text_lines(stdout.as_str());
    let points = collect_mount_points(&lines);
    if points.len() == 0 {
        assert(points.deep_view().len() == 0);
        return Ok(());
    }
    assert(points.deep_view().len() == points.len());
    let mut observed = text("mounted points detected: ");
    observed.append(join_texts(&points, ", ").as_str());
    Err(
        disk_failure(
            "target disk and child partitions are not mounted",
            observed.as_str(),
            "Unmount all target disk partitions before destructive apply.",
        ),
    )
}

/// Checks the answer to the question what kind of device the path is.
pub fn ensure_whole_disk(query: &QueryOutcome) -> (r: Result<(), RecpartError>)
    ensures
        verdict_is(r, whole_disk_error(query@)),
{
    let stdout = match query_output(
        query,
        "lsblk can query target type",
        "target type query succeeds",
        "Verify target disk path exists and is accessible.",
    ) {
        Err(e) => {
            return Err(e);
        },
        Ok(out) => out,
    };
    let kind = trim_text(stdout.as_str());
    if same_text(kind.as_str(), "disk") || same_text(kind.as_str(), "loop") {
        return Ok(());
    }
    let mut observed = text("device type is '");
    observed.append(kind.as_str());
    observed.append("'");
    Err(
        disk_failure(
            "target path resolves to whole-disk device type",
            observed.as_str(),
            "Target a disk device (for example /dev/sda), not a partition like /dev/sda1.",
        ),
    )
}

/// The failure of a disk path that has no canonical form.
pub open spec fn canonical_error(path: Seq<char>, reason: Seq<char>) -> RecpartErrorModel {
    disk_error(
        "target disk path can be canonicalized"@,
        "failed to canonicalize '"@ + path + "': "@ + reason,
        "Use a valid disk path (for example /dev/sda or /dev/nvme0n1)."@,
    )
}

/// Takes what making the path canonical came to: the canonical path, or
/// the failure that names the reason.
pub fn resolve_disk_path(path: &str, canonical: &Result<String, String>) -> (r: Result<
    String,
    RecpartError,
>)
    ensures
        match *canonical {
            Ok(found) => r is Ok && r->Ok_0@ == found@,
            Err(reason) => r is Err && r->Err_0@ == canonical_error(path@, reason@),
        },
{
    match canonical {
        Ok(found) => Ok(found.clone()),
        Err(reason) => {
            let mut observed = text("failed to canonicalize '");
            observed.append(path);
            observed.append("': ");
            observed.append(reason.as_str());
            Err(
                disk_failure(
                    "target disk path can be canonicalized",
                    observed.as_str(),
                    "Use a valid disk path (for example /dev/sda or /dev/nvme0n1).",
                ),
            )
        },
    }
}

/// The arguments with which `lsblk` is asked for one column of one device.
pub open spec fn column_query(flags: Seq<char>, column: Seq<char>, disk: Seq<char>) -> Seq<
    Seq<char>,
> {
    seq![flags, "-o"@, column, disk]
}

/// The arguments with which `lsblk` is asked for a device's type.
pub fn type_query_args(disk: &str) -> (r: Vec<String>)
    ensures
        r.deep_view() == column_query("-dn"@, "TYPE"@, disk@),
{
    let mut args: Vec<String> = Vec::new();
    args.push(text("-dn"));
    args.push(text("-o"));
    args.push(text("TYPE"));
    args.push(text(disk));
    assert(args.deep_view() =~= column_query("-dn"@, "TYPE"@, disk@));
    args
}

/// The arguments with which `lsblk` is asked for a disk's size in bytes and
/// its sector sizes.
pub fn geometry_query_args(disk: &str) -> (r: Vec<String>)
    ensures
        r.deep_view() == seq!["-b"@, "-dn"@, "-o"@, "SIZE,LOG-SEC,PHY-SEC"@, disk@],
{
    let mut args: Vec<String> = Vec::new();
    args.push(text("-b"));
    args.push(text("-dn"));
    args.push(text("-o"));
    args.push(text("SIZE,LOG-SEC,PHY-SEC"));
    args.push(text(disk));
    assert(args.deep_view() =~= seq!["-b"@, "-dn"@, "-o"@, "SIZE,LOG-SEC,PHY-SEC"@, disk@]);
    args
}

/// The failure of an answer that lacks a column.
pub open spec fn column_missing_error(column: Seq<char>, stdout: Seq<char>) -> RecpartErrorModel {
    disk_error(
        "lsblk output contains "@ + column,
        trimmed(stdout),
        "Inspect 'lsblk -b -dn -o SIZE,LOG-SEC,PHY-SEC <disk>' output."@,
    )
}

/// The failure of a column that holds no number.
pub open spec fn column_invalid_error(column: Seq<char>, fault: NumberFault) -> RecpartErrorModel {
    disk_error(
        column + " is parseable as integer"@,
        "invalid "@ + column + " value: "@ + fault.words(),
        "Check lsblk output and locale settings."@,
    )
}

/// The number in the column with the given place among the words, or the
/// failure of the column.
pub open spec fn column_value(
    words: Seq<Seq<char>>,
    place: int,
    column: Seq<char>,
    stdout: Seq<char>,
    limit: int,
) -> Result<int, RecpartErrorModel> {
    if place >= words.len() {
        Err(column_missing_error(column, stdout))
    } else {
        match parsed(words[place], limit) {
            Ok(v) => Ok(v),
            Err(fault) => Err(column_invalid_error(column, fault)),
        }
    }
}

/// The disk that the answer to the geometry query describes, or the first
/// failure: of the query itself, then of the size, of the logical and of
/// the physical sector size, which are the first three words of the answer.
pub open spec fn geometry(path: Seq<char>, q: QueryOutcomeModel) -> Result<
    DiskTargetModel,
    RecpartErrorModel,
> {
    match query_failure(
        q,
        "lsblk can query disk geometry"@,
        "lsblk returns disk geometry"@,
        "Verify the disk path is valid and accessible."@,
    ) {
        Some(e) => Err(e),
        None => {
            let stdout = query_stdout(q);
            let words = split_words(stdout);
            match column_value(words, 0, "SIZE"@, stdout, u64::MAX as int) {
                Err(e) => Err(e),
                Ok(size) => match column_value(words, 1, "LOG-SEC"@, stdout, u32::MAX as int) {
                    Err(e) => Err(e),
                    Ok(logical) => match column_value(
                        words,
                        2,
                        "PHY-SEC"@,
                        stdout,
                        u32::MAX as int,
                    ) {
                        Err(e) => Err(e),
                        Ok(physical) => Ok(
                            DiskTargetModel {
                                path,
                                size_bytes: size as u64,
                                logical_sector_bytes: logical as u32,
                                physical_sector_bytes: physical as u32,
                            },
                        ),
                    },
                },
            }
        },
    }
}

fn read_column(words: &Vec<String>, place: usize, column: &str, stdout: &str, limit: u64) -> (r:
    Result<u64, RecpartError>)
    ensures
        match r {
            Ok(v) => column_value(words.deep_view(), place as int, column@, stdout@, limit as int)
                == Ok::<int, RecpartErrorModel>(v as int) && v <= limit,
            Err(e) => column_value(words.deep_view(), place as int, column@, stdout@, limit as int)
                == Err::<int, RecpartErrorModel>(e@),
        },
{
    assert(words.deep_view().len() == words.len());
    if place >= words.len() {
        let mut expectation = text("lsblk output contains ");
        expectation.append(column);
        return Err(
            disk_failure(
                expectation.as_str(),
                trim_text(stdout).as_str(),
                "Inspect 'lsblk -b -dn -o SIZE,LOG-SEC,PHY-SEC <disk>' output.",
            ),
        );
    }
    assert(words.deep_view()[place as int] == words@[place as int]@);
    match parse_unsigned(words[place].as_str(), limit) {
        Ok(v) => Ok(v),
        Err(fault) => {
            let mut expectation = text(column);
            expectation.append(" is parseable as integer");
            let mut observed = text("invalid ");
            observed.append(column);
            observed.append(" value: ");
            observed.append(fault.to_text().as_str());
            Err(
                disk_failure(
                    expectation.as_str(),
                    observed.as_str(),
                    "Check lsblk output and locale settings.",
                ),
            )
        },
    }
}

/// Reads the answer to the geometry query for the disk at `path`.
pub fn parse_disk_geometry(
    path: &str,
    query: &QueryOutcome,
) -> (r: Result<DiskTarget, RecpartError>)
    ensures
        match r {
            Ok(disk) => geometry(path@, query@) == Ok::<DiskTargetModel, RecpartErrorModel>(disk@),
            Err(e) => geometry(path@, query@) == Err::<DiskTargetModel, RecpartErrorModel>(e@),
        },
{
    let stdout = match query_output(
        query,
        "lsblk can query disk geometry",
        "lsblk returns disk geometry",
        "Verify the disk path is valid and accessible.",
    ) {
        Err(e) => {
            return Err(e);
        },
        Ok(out) => out,
    };
    let words = split_text_words(stdout.as_str());
    let size: u64 = match read_column(&words, 0, "SIZE", stdout.as_str(), u64::MAX) {
        Err(e) => {
            return Err(e);
        },
        Ok(v) => v,
    };
    let logical: u64 = match read_column(&words, 1, "LOG-SEC", stdout.as_str(), u32::MAX as u64) {
        Err(e) => {
            return Err(e);
        },
        Ok(v) => v,
    };
    let physical: u64 = match read_column(&words, 2, "PHY-SEC", stdout.as_str(), u32::MAX as u64) {
        Err(e) => {
            return Err(e);
        },
        Ok(v) => v,
    };
    Ok(
        DiskTarget {
            path: text(path),
            size_bytes: size,
            logical_sector_bytes: logical as u32,
            physical_sector_bytes: physical as u32,
        },
    )
}

/// All that the host found out about a disk path: its canonical form, what
/// a look at that came to, and the answers to the questions for the
/// device's type and for the disk's geometry.
#[derive(Debug)]
pub struct DiskProbe {
    pub canonical: Result<String, String>,
    pub stat: StatReport,
    pub kind: QueryOutcome,
    pub geometry: QueryOutcome,
}

/// The disk that a probe describes, or the first failure: of the canonical
/// path, of the block device, of the whole disk, of the geometry.
pub open spec fn queried(
    path: Seq<char>,
    canonical: Result<Seq<char>, Seq<char>>,
    stat: StatReportModel,
    kind: QueryOutcomeModel,
    answer: QueryOutcomeModel,
) -> Result<DiskTargetModel, RecpartErrorModel> {
    match canonical {
        Err(reason) => Err(canonical_error(path, reason)),
        Ok(found) => match block_device_error(found, stat) {
            Some(e) => Err(e),
            None => match whole_disk_error(kind) {
                Some(e) => Err(e),
                None => geometry(found, answer),
            },
        },
    }
}

/// The canonical path of a probe, or the reason for which there is none.
pub open spec fn probed_path(canonical: Result<String, String>) -> Result<Seq<char>, Seq<char>> {
    match canonical {
        Ok(found) => Ok(found@),
        Err(reason) => Err(reason@),
    }
}

/// Judges a probe of a disk path: the disk's description where the path is
/// a whole disk, and the first failure otherwise.
pub fn query_disk_target(path: &str, probe: &DiskProbe) -> (r: Result<DiskTarget, RecpartError>)
    ensures
        match r {
            Ok(disk) => queried(
                path@,
                probed_path(probe.canonical),
                probe.stat@,
                probe.kind@,
                probe.geometry@,
            ) == Ok::<DiskTargetModel, RecpartErrorModel>(disk@),
            Err(e) => queried(
                path@,
                probed_path(probe.canonical),
                probe.stat@,
                probe.kind@,
                probe.geometry@,
            ) == Err::<DiskTargetModel, RecpartErrorModel>(e@),
        },
        r is Err ==> r->Err_0.code == ErrorCode::InvalidTargetDisk,
{
    let canonical = match resolve_disk_path(path, &probe.canonical) {
        Err(e) => {
            return Err(e);
        },
        Ok(found) => found,
    };
    match ensure_block_device(canonical.as_str(), &probe.stat) {
        Err(e) => {
            return Err(e);
        },
        Ok(_) => {},
    }
    match ensure_whole_disk(&probe.kind) {
        Err(e) => {
            return Err(e);
        },
        Ok(_) => {},
    }
    parse_disk_geometry(canonical.as_str(), &probe.geometry)
}

/// True when the permission bits let someone execute the file.
pub fn mode_is_executable(mode: u32) -> (r: bool)
    ensures
        r == (mode & 0o111 != 0),
{
    mode & 0o111 != 0
}

} // verus!
