//! The list of disks that can be installed on: which rows of the device
//! list count, and what is recorded of each.

use vstd::prelude::*;
use vstd::string::*;
use crate::error::{RecpartError, RecpartErrorModel};
use crate::paths::{components, lemma_path_order, order_paths, path_order, Order};
use crate::preflight::{disk_error, query_failure, query_output, query_stdout, QueryOutcome};
use crate::text::{ascii_lowered, lower_text, same_text, text, trim_text, trimmed};
use crate::types::{DiskTarget, DiskTargetModel};

verus! {

/// The version of the disk list's layout.
pub const DISK_LIST_SCHEMA_VERSION: u32 = 1;

/// The read-only flag of a device as the device list writes it: a truth
/// value, a number or a text.
#[derive(Debug)]
pub enum LsblkReadOnly {
    Bool(bool),
    Num(u8),
    Text(String),
}

impl LsblkReadOnly {
    /// True where the flag says read-only: a true value, a number other
    /// than zero, or one of the texts `1`, `true` and `yes` in any case of
    /// letters and with any white space around it.
    pub open spec fn says_read_only(self) -> bool {
        match self {
            LsblkReadOnly::Bool(value) => value,
            LsblkReadOnly::Num(value) => value != 0,
            LsblkReadOnly::Text(value) => {
                let normalized = ascii_lowered(trimmed(value@));
                normalized == "1"@ || normalized == "true"@ || normalized == "yes"@
            },
        }
    }

    /// True where the flag says read-only.
    pub fn is_read_only(&self) -> (r: bool)
        ensures
            r == self.says_read_only(),
    {
        match self {
            LsblkReadOnly::Bool(value) => *value,
            LsblkReadOnly::Num(value) => *value != 0,
            LsblkReadOnly::Text(value) => {
                let normalized = lower_text(trim_text(value.as_str()).as_str());
                same_text(normalized.as_str(), "1") || same_text(normalized.as_str(), "true")
                    || same_text(normalized.as_str(), "yes")
            },
        }
    }
}

/// One row of the device list.
#[derive(Debug)]
pub struct LsblkDiskRow {
    pub path: Option<String>,
    pub dev_type: Option<String>,
    pub model: Option<String>,
    pub tran: Option<String>,
    pub ro: Option<LsblkReadOnly>,
}

/// A disk that can be installed on.
#[derive(Debug, PartialEq, Eq)]
pub struct DiskInventory {
    pub path: String,
    pub size_bytes: u64,
    pub logical_sector_bytes: u32,
    pub physical_sector_bytes: u32,
    pub model: String,
    pub transport: String,
    pub read_only: bool,
}

/// A disk of the list, with its texts as character sequences.
pub struct DiskInventoryModel {
    pub path: Seq<char>,
    pub size_bytes: u64,
    pub logical_sector_bytes: u32,
    pub physical_sector_bytes: u32,
    pub model: Seq<char>,
    pub transport: Seq<char>,
    pub read_only: bool,
}

impl View for DiskInventory {
    type V = DiskInventoryModel;

    open spec fn view(&self) -> DiskInventoryModel {
        DiskInventoryModel {
            path: self.path@,
            size_bytes: self.size_bytes,
            logical_sector_bytes: self.logical_sector_bytes,
            physical_sector_bytes: self.physical_sector_bytes,
            model: self.model@,
            transport: self.transport@,
            read_only: self.read_only,
        }
    }
}

impl DeepView for DiskInventory {
    type V = DiskInventoryModel;

    open spec fn deep_view(&self) -> DiskInventoryModel {
        self@
    }
}

impl DiskInventoryModel {
    /// The disk without what only the list knows of it.
    pub open spec fn target(self) -> DiskTargetModel {
        DiskTargetModel {
            path: self.path,
            size_bytes: self.size_bytes,
            logical_sector_bytes: self.logical_sector_bytes,
            physical_sector_bytes: self.physical_sector_bytes,
        }
    }
}

impl Clone for DiskInventory {
    fn clone(&self) -> (r: Self)
        ensures
            r@ == self@,
    {
        DiskInventory {
            path: self.path.clone(),
            size_bytes: self.size_bytes,
            logical_sector_bytes: self.logical_sector_bytes,
            physical_sector_bytes: self.physical_sector_bytes,
            model: self.model.clone(),
            transport: self.transport.clone(),
            read_only: self.read_only,
        }
    }
}

/// The disks that can be installed on.
#[derive(Debug, PartialEq, Eq)]
pub struct DiskListResult {
    pub schema_version: u32,
    pub disks: Vec<DiskInventory>,
}

/// True when the row describes a whole disk or a loop device.
pub open spec fn is_candidate(dev_type: Option<Seq<char>>) -> bool {
    dev_type == Some("disk"@) || dev_type == Some("loop"@)
}

/// The path of a row that counts: the row names a path and is a whole disk
/// or a loop device.
pub open spec fn candidate(path: Option<Seq<char>>, dev_type: Option<Seq<char>>) -> Option<
    Seq<char>,
> {
    if path is Some && is_candidate(dev_type) {
        path
    } else {
        None
    }
}

/// A description without the white space around it, or `unknown` where
/// there is none or nothing is left of it.
pub open spec fn described(value: Option<Seq<char>>) -> Seq<char> {
    match value {
        Some(v) => {
            if trimmed(v).len() == 0 {
                "unknown"@
            } else {
                trimmed(v)
            }
        },
        None => "unknown"@,
    }
}

/// True when the row's flag says read-only; a row without flag is not
/// read-only.
pub open spec fn row_read_only(ro: Option<LsblkReadOnly>) -> bool {
    match ro {
        Some(flag) => flag.says_read_only(),
        None => false,
    }
}

/// The path of the row if the row counts.
pub fn candidate_path(row: &LsblkDiskRow) -> (r: Option<String>)
    ensures
        r.deep_view() == candidate(row.path.deep_view(), row.dev_type.deep_view()),
{
    let path = match &row.path {
        None => {
            return None;
        },
        Some(p) => p,
    };
    let dev_type = match &row.dev_type {
        None => {
            return None;
        },
        Some(t) => t,
    };
    if same_text(dev_type.as_str(), "disk") || same_text(dev_type.as_str(), "loop") {
        Some(path.clone())
    } else {
        None
    }
}

fn describe(value: &Option<String>) -> (r: String)
    ensures
        r@ == described(value.deep_view()),
{
    match value {
        Some(v) => {
            let shown = trim_text(v.as_str());
            if shown.as_str().unicode_len() == 0 {
                text("unknown")
            } else {
                shown
            }
        },
        None => text("unknown"),
    }
}

/// What is recorded of a disk: what the disk query found, and the row's
/// model, transport and read-only flag.
pub fn inventory_entry(target: DiskTarget, row: &LsblkDiskRow) -> (r: DiskInventory)
    ensures
        r@.target() == target@,
        r.model@ == described(row.model.deep_view()),
        r.transport@ == described(row.tran.deep_view()),
        r.read_only == row_read_only(row.ro),
{
    let read_only = match &row.ro {
        Some(flag) => flag.is_read_only(),
        None => false,
    };
    DiskInventory {
        path: target.path,
        size_bytes: target.size_bytes,
        logical_sector_bytes: target.logical_sector_bytes,
        physical_sector_bytes: target.physical_sector_bytes,
        model: describe(&row.model),
        transport: describe(&row.tran),
        read_only,
    }
}

/// The disks of the list as targets, in the list's order.
pub fn list_candidate_disks(inventory: DiskListResult) -> (r: Vec<DiskTarget>)
    ensures
        r.len() == inventory.disks.len(),
        forall|i: int| 0 <= i < r.len() ==> (#[trigger] r@[i])@ == inventory.disks@[i]@.target(),
{
    let mut out: Vec<DiskTarget> = Vec::new();
    let n: usize = inventory.disks.len();
    let mut i: usize = 0;
    while i < n
        invariant
            i <= n,
            n == inventory.disks.len(),
            out.len() == i,
            forall|k: int| 0 <= k < i ==> (#[trigger] out@[k])@ == inventory.disks@[k]@.target(),
        decreases n - i,
    {
        let disk = &inventory.disks[i];
        out.push(
            DiskTarget {
                path: disk.path.clone(),
                size_bytes: disk.size_bytes,
                logical_sector_bytes: disk.logical_sector_bytes,
                physical_sector_bytes: disk.physical_sector_bytes,
            },
        );
        i += 1;
    }
    out
}

/// The arguments with which `lsblk` is asked for the device list.
pub fn inventory_query_args() -> (r: Vec<String>)
    ensures
        r.deep_view() == seq![
            "-J"@,
            "-b"@,
            "-d"@,
            "-o"@,
            "PATH,TYPE,SIZE,LOG-SEC,PHY-SEC,MODEL,TRAN,RO"@,
        ],
{
    let mut args: Vec<String> = Vec::new();
    args.push(text("-J"));
    args.push(text("-b"));
    args.push(text("-d"));
    args.push(text("-o"));
    args.push(text("PATH,TYPE,SIZE,LOG-SEC,PHY-SEC,MODEL,TRAN,RO"));
    assert(args.deep_view() =~= seq![
        "-J"@,
        "-b"@,
        "-d"@,
        "-o"@,
        "PATH,TYPE,SIZE,LOG-SEC,PHY-SEC,MODEL,TRAN,RO"@,
    ]);
    args
}

/// The device list as `lsblk` printed it, unless the query failed.
pub fn inventory_output(query: &QueryOutcome) -> (r: Result<String, RecpartError>)
    ensures
        match r {
            Ok(out) => query_failure(
                query@,
                "lsblk can enumerate block devices"@,
                "block device enumeration succeeds"@,
                "Verify the environment has a working lsblk."@,
            ) is None && out@ == query_stdout(query@),
            Err(e) => query_failure(
                query@,
                "lsblk can enumerate block devices"@,
                "block device enumeration succeeds"@,
                "Verify the environment has a working lsblk."@,
            ) == Some(e@),
        },
{
    query_output(
        query,
        "lsblk can enumerate block devices",
        "block device enumeration succeeds",
        "Verify the environment has a working lsblk.",
    )
}

/// The failure of a device list that could not be read.
pub open spec fn unreadable_list_error(reason: Seq<char>) -> RecpartErrorModel {
    disk_error(
        "lsblk JSON output is parseable"@,
        "failed to parse lsblk JSON: "@ + reason,
        "Inspect 'lsblk -J -b -d -o PATH,TYPE,SIZE,LOG-SEC,PHY-SEC,MODEL,TRAN,RO' output."@,
    )
}

/// The failure of a device list that could not be read.
pub fn unreadable_list(reason: &str) -> (r: RecpartError)
    ensures
        r@ == unreadable_list_error(reason@),
{
    let mut observed = text("failed to parse lsblk JSON: ");
    observed.append(reason);
    RecpartError::new(
        crate::error::ErrorCode::InvalidTargetDisk,
        "preflight",
        "lsblk JSON output is parseable",
        observed.as_str(),
        "Inspect 'lsblk -J -b -d -o PATH,TYPE,SIZE,LOG-SEC,PHY-SEC,MODEL,TRAN,RO' output.",
    )
}

/// The list with one more disk, put behind the disks whose paths do not
/// come after its own.
pub open spec fn inserted(list: Seq<DiskInventoryModel>, disk: DiskInventoryModel) -> Seq<
    DiskInventoryModel,
>
    decreases list.len(),
{
    if list.len() > 0 && path_order(list.last().path, disk.path) == Order::Greater {
        inserted(list.drop_last(), disk).push(list.last())
    } else {
        list.push(disk)
    }
}

/// The disks in the order of their paths; disks with the same path keep the
/// order in which they came.
pub open spec fn sorted_by_path(disks: Seq<DiskInventoryModel>) -> Seq<DiskInventoryModel>
    decreases disks.len(),
{
    if disks.len() == 0 {
        Seq::empty()
    } else {
        inserted(sorted_by_path(disks.drop_last()), disks.last())
    }
}

/// The disks without those that have the path of the disk before them.
pub open spec fn without_repeats(disks: Seq<DiskInventoryModel>) -> Seq<DiskInventoryModel>
    decreases disks.len(),
{
    if disks.len() == 0 {
        Seq::empty()
    } else {
        let before = without_repeats(disks.drop_last());
        if before.len() > 0 && path_order(before.last().path, disks.last().path) == Order::Equal {
            before
        } else {
            before.push(disks.last())
        }
    }
}

/// The disks as they are listed: in the order of their paths, one for each
/// path, which is the one that came first.
pub open spec fn listed(disks: Seq<DiskInventoryModel>) -> Seq<DiskInventoryModel> {
    without_repeats(sorted_by_path(disks))
}

/// True when no disk's path comes after the path of the disk behind it.
pub open spec fn ascending(disks: Seq<DiskInventoryModel>) -> bool {
    forall|i: int, j: int|
        0 <= i && j == i + 1 && j < disks.len() ==> path_order(
            (#[trigger] disks[i]).path,
            (#[trigger] disks[j]).path,
        ) != Order::Greater
}

/// True when every disk's path comes before the path of the disk behind
/// it.
pub open spec fn strictly_ascending(disks: Seq<DiskInventoryModel>) -> bool {
    forall|i: int, j: int|
        0 <= i && j == i + 1 && j < disks.len() ==> path_order(
            (#[trigger] disks[i]).path,
            (#[trigger] disks[j]).path,
        ) == Order::Less
}

proof fn lemma_inserted_shape(list: Seq<DiskInventoryModel>, disk: DiskInventoryModel)
    ensures
        inserted(list, disk).len() == list.len() + 1,
        inserted(list, disk).last() == disk || (list.len() > 0 && inserted(list, disk).last()
            == list.last() && path_order(list.last().path, disk.path) == Order::Greater),
    decreases list.len(),
{
    if list.len() > 0 && path_order(list.last().path, disk.path) == Order::Greater {
        lemma_inserted_shape(list.drop_last(), disk);
    }
}

proof fn lemma_inserted_ascends(list: Seq<DiskInventoryModel>, disk: DiskInventoryModel)
    requires
        ascending(list),
    ensures
        ascending(inserted(list, disk)),
    decreases list.len(),
{
    let r = inserted(list, disk);
    if list.len() > 0 && path_order(list.last().path, disk.path) == Order::Greater {
        let front = list.drop_last();
        assert forall|i: int, j: int| 0 <= i && j == i + 1 && j < front.len() implies path_order(
            (#[trigger] front[i]).path,
            (#[trigger] front[j]).path,
        ) != Order::Greater by {
            assert(front[i] == list[i]);
            assert(front[j] == list[j]);
        }
        lemma_inserted_ascends(front, disk);
        lemma_inserted_shape(front, disk);
        let inner = inserted(front, disk);
        lemma_path_order(list.last().path, disk.path);
        assert forall|i: int, j: int| 0 <= i && j == i + 1 && j < r.len() implies path_order(
            (#[trigger] r[i]).path,
            (#[trigger] r[j]).path,
        ) != Order::Greater by {
            if j < inner.len() {
                assert(r[i] == inner[i]);
                assert(r[j] == inner[j]);
            } else {
                assert(r[i] == inner.last());
                assert(r[j] == list.last());
                if inner.last() != disk {
                    assert(inner.last() == front.last());
                    let a = list.len() - 2;
                    let b = list.len() - 1;
                    assert(front.last() == list[a]);
                    assert(list.last() == list[b]);
                }
            }
        }
    } else {
        assert forall|i: int, j: int| 0 <= i && j == i + 1 && j < r.len() implies path_order(
            (#[trigger] r[i]).path,
            (#[trigger] r[j]).path,
        ) != Order::Greater by {
            if j < list.len() {
                assert(r[i] == list[i]);
                assert(r[j] == list[j]);
            } else {
                assert(r[i] == list.last());
                assert(r[j] == disk);
            }
        }
    }
}

proof fn lemma_sorted_ascends(disks: Seq<DiskInventoryModel>)
    ensures
        ascending(sorted_by_path(disks)),
        sorted_by_path(disks).len() == disks.len(),
    decreases disks.len(),
{
    if disks.len() > 0 {
        lemma_sorted_ascends(disks.drop_last());
        lemma_inserted_ascends(sorted_by_path(disks.drop_last()), disks.last());
        lemma_inserted_shape(sorted_by_path(disks.drop_last()), disks.last());
    }
}

proof fn lemma_without_repeats_ascends(disks: Seq<DiskInventoryModel>)
    requires
        ascending(disks),
    ensures
        strictly_ascending(without_repeats(disks)),
        disks.len() > 0 ==> without_repeats(disks).len() > 0 && path_order(
            without_repeats(disks).last().path,
            disks.last().path,
        ) == Order::Equal,
    decreases disks.len(),
{
    if disks.len() > 0 {
        let front = disks.drop_last();
        assert forall|i: int, j: int| 0 <= i && j == i + 1 && j < front.len() implies path_order(
            (#[trigger] front[i]).path,
            (#[trigger] front[j]).path,
        ) != Order::Greater by {
            assert(front[i] == disks[i]);
            assert(front[j] == disks[j]);
        }
        lemma_without_repeats_ascends(front);
        let before = without_repeats(front);
        let r = without_repeats(disks);
        lemma_path_order(disks.last().path, disks.last().path);
        if before.len() > 0 {
            let a = disks.len() - 2;
            let b = disks.len() - 1;
            assert(front.last() == disks[a]);
            assert(disks.last() == disks[b]);
            lemma_same_path_same_order(before.last().path, front.last().path, disks.last().path);
        }
        if before.len() > 0 && path_order(before.last().path, disks.last().path) == Order::Equal {
        } else {
            assert forall|i: int, j: int| 0 <= i && j == i + 1 && j < r.len() implies path_order(
                (#[trigger] r[i]).path,
                (#[trigger] r[j]).path,
            ) == Order::Less by {
                if j < before.len() {
                    assert(r[i] == before[i]);
                    assert(r[j] == before[j]);
                } else {
                    assert(r[i] == before.last());
                    assert(r[j] == disks.last());
                }
            }
        }
    }
}

/// Paths that stand equal stand alike to every other path.
proof fn lemma_same_path_same_order(a: Seq<char>, b: Seq<char>, c: Seq<char>)
    requires
        path_order(a, b) == Order::Equal,
    ensures
        path_order(a, c) == path_order(b, c),
{
    lemma_path_order(a, b);
    reveal(path_order);
}

/// The list of disks is in the strict order of the paths: every disk's path
/// comes before the path of the disk behind it, so that no path occurs
/// twice.
pub proof fn lemma_listed_is_strictly_ascending(disks: Seq<DiskInventoryModel>)
    ensures
        strictly_ascending(listed(disks)),
        listed(disks).len() <= disks.len(),
{
    lemma_sorted_ascends(disks);
    lemma_without_repeats_ascends(sorted_by_path(disks));
    lemma_without_repeats_is_shorter(sorted_by_path(disks));
}

proof fn lemma_without_repeats_is_shorter(disks: Seq<DiskInventoryModel>)
    ensures
        without_repeats(disks).len() <= disks.len(),
    decreases disks.len(),
{
    if disks.len() > 0 {
        lemma_without_repeats_is_shorter(disks.drop_last());
    }
}

fn comes_after(a: &DiskInventory, b: &DiskInventory) -> (r: bool)
    ensures
        r == (path_order(a.path@, b.path@) == Order::Greater),
{
    match order_paths(a.path.as_str(), b.path.as_str()) {
        Order::Greater => true,
        _ => false,
    }
}

fn same_path(a: &DiskInventory, b: &DiskInventory) -> (r: bool)
    ensures
        r == (path_order(a.path@, b.path@) == Order::Equal),
{
    match order_paths(a.path.as_str(), b.path.as_str()) {
        Order::Equal => true,
        _ => false,
    }
}

fn insert_by_path(list: &mut Vec<DiskInventory>, disk: DiskInventory)
    ensures
        final(list).deep_view() == inserted(old(list).deep_view(), disk@),
{
    let ghost all = list.deep_view();
    let mut pos: usize = list.len();
    assert(all.len() == list.len());
    assert(all.take(pos as int) =~= all);
    assert(all.skip(pos as int) =~= Seq::<DiskInventoryModel>::empty());
    assert(inserted(all, disk@) =~= inserted(all.take(pos as int), disk@) + all.skip(pos as int));
    while pos > 0 && comes_after(&list[pos - 1], &disk)
        invariant
            pos <= list.len(),
            all == list.deep_view(),
            all.len() == list.len(),
            inserted(all, disk@) == inserted(all.take(pos as int), disk@) + all.skip(pos as int),
        decreases pos,
    {
        proof {
            let head = all.take(pos as int);
            assert(head.last() == list@[pos - 1]@);
            assert(head.drop_last() =~= all.take(pos - 1));
            assert(inserted(head, disk@) == inserted(all.take(pos - 1), disk@).push(head.last()));
            assert(seq![head.last()] + all.skip(pos as int) =~= all.skip(pos - 1));
            assert(inserted(all.take(pos - 1), disk@).push(head.last()) + all.skip(pos as int)
                =~= inserted(all.take(pos - 1), disk@) + all.skip(pos - 1));
        }
        pos -= 1;
    }
    proof {
        let head = all.take(pos as int);
        if pos > 0 {
            assert(head.last() == list@[pos - 1]@);
        }
        assert(inserted(head, disk@) == head.push(disk@));
    }
    list.insert(pos, disk);
    assert(list.deep_view() =~= all.take(pos as int).push(disk@) + all.skip(pos as int)) by {
        let now = list.deep_view();
        let want = all.take(pos as int).push(disk@) + all.skip(pos as int);
        assert(now.len() == want.len());
        assert forall|i: int| 0 <= i < now.len() implies now[i] == want[i] by {
            if i < pos {
                assert(list@[i] == old(list)@[i]);
            } else if i > pos {
                assert(list@[i] == old(list)@[i - 1]);
            }
        }
    }
}

/// The disks in the order of their paths; disks with the same path keep the
/// order in which they came.
pub fn sort_by_path(disks: &Vec<DiskInventory>) -> (r: Vec<DiskInventory>)
    ensures
        r.deep_view() == sorted_by_path(disks.deep_view()),
{
    let mut out: Vec<DiskInventory> = Vec::new();
    let n: usize = disks.len();
    let ghost all = disks.deep_view();
    let mut i: usize = 0;
    assert(all.take(0) =~= Seq::<DiskInventoryModel>::empty());
    assert(out.deep_view() =~= sorted_by_path(all.take(0)));
    while i < n
        invariant
            i <= n,
            n == disks.len(),
            all == disks.deep_view(),
            out.deep_view() == sorted_by_path(all.take(i as int)),
        decreases n - i,
    {
        proof {
            let next = all.take(i as int + 1);
            assert(next.drop_last() =~= all.take(i as int));
            assert(next.last() == disks@[i as int]@);
        }
        insert_by_path(&mut out, disks[i].clone());
        i += 1;
    }
    assert(all.take(n as int) =~= all);
    out
}

/// The disks without those that have the path of the disk before them.
pub fn drop_repeats(disks: &Vec<DiskInventory>) -> (r: Vec<DiskInventory>)
    ensures
        r.deep_view() == without_repeats(disks.deep_view()),
{
    let mut out: Vec<DiskInventory> = Vec::new();
    let n: usize = disks.len();
    let ghost all = disks.deep_view();
    let mut i: usize = 0;
    assert(all.take(0) =~= Seq::<DiskInventoryModel>::empty());
    assert(out.deep_view() =~= without_repeats(all.take(0)));
    while i < n
        invariant
            i <= n,
            n == disks.len(),
            all == disks.deep_view(),
            out.deep_view() == without_repeats(all.take(i as int)),
        decreases n - i,
    {
        proof {
            let next = all.take(i as int + 1);
            assert(next.drop_last() =~= all.take(i as int));
            assert(next.last() == disks@[i as int]@);
        }
        let ghost shown = out.deep_view();
        assert(shown.len() == out.len());
        let repeats = if out.len() > 0 {
            assert(shown.last() == out@[out.len() - 1]@);
            same_path(&out[out.len() - 1], &disks[i])
        } else {
            false
        };
        if !repeats {
            out.push(disks[i].clone());
            assert(out.deep_view() =~= shown.push(disks@[i as int]@));
        }
        i += 1;
    }
    assert(all.take(n as int) =~= all);
    out
}

/// The list of the disks that were found: in the order of their paths, one
/// for each path.
pub fn finish_inventory(disks: &Vec<DiskInventory>) -> (r: DiskListResult)
    ensures
        r.schema_version == DISK_LIST_SCHEMA_VERSION,
        r.disks.deep_view() == listed(disks.deep_view()),
        strictly_ascending(r.disks.deep_view()),
{
    proof {
        lemma_listed_is_strictly_ascending(disks.deep_view());
    }
    let sorted = sort_by_path(disks);
    DiskListResult { schema_version: DISK_LIST_SCHEMA_VERSION, disks: drop_repeats(&sorted) }
}

} // verus!
