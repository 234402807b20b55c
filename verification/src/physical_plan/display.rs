//! Text that shows which parts of which files a scan reads.

use vstd::prelude::*;
use vstd::string::*;

use crate::physical_plan::scan_planning::{dealt, lemma_dealt_none, lemma_dealt_push};
use crate::table::bucketing::{
    buckets, destination, lemma_buckets_empty, lemma_buckets_push, PartitionKeysView,
};
use crate::task::{groups_view, FileScanTask};
use crate::text::{append_decimal, decimal};

verus! {

/// How much of a plan its text shows.
#[derive(Clone, Copy, Debug, PartialEq, Eq, Structural)]
pub enum DisplayFormatType {
    /// The first few entries of each list.
    Default,
    /// Everything.
    Verbose,
    /// The first few entries of each list, for a plan shown as a tree.
    TreeRender,
}

/// How many file groups are shown unless everything is.
pub const DEFAULT_FILE_GROUP_DISPLAY_LIMIT: usize = 5;

/// How many files of a group are shown unless everything is.
pub const DEFAULT_FILE_DISPLAY_LIMIT: usize = 5;

/// How many entries of a list are shown, out of a list that is cut to `limit`.
pub open spec fn shown(t: DisplayFormatType, limit: usize) -> usize {
    match t {
        DisplayFormatType::Verbose => usize::MAX,
        _ => limit,
    }
}

fn shown_entries(t: DisplayFormatType, limit: usize) -> (entries: usize)
    ensures
        entries == shown(t, limit),
{
    match t {
        DisplayFormatType::Verbose => usize::MAX,
        DisplayFormatType::Default | DisplayFormatType::TreeRender => limit,
    }
}

/// The entries of a list, each on a line of its own.
pub open spec fn lines(entries: Seq<Seq<char>>, indent: Seq<char>) -> Seq<char>
    decreases entries.len(),
{
    if entries.len() == 0 {
        ""@
    } else {
        lines(entries.drop_last(), indent) + (if entries.len() == 1 {
            "\n"@
        } else {
            ",\n"@
        }) + indent + entries.last()
    }
}

/// The first `limit` entries of a list, with a mark where there are more.
pub open spec fn listing(entries: Seq<Seq<char>>, limit: usize, indent: Seq<char>) -> Seq<char> {
    if entries.len() <= limit {
        lines(entries, indent)
    } else {
        lines(entries.take(limit as int), indent) + (if limit > 0 {
            ",\n"@
        } else {
            "\n"@
        }) + indent + "..."@
    }
}

/// Bytes that the planned ranges of these tasks have together.
pub open spec fn planned_scan_bytes(tasks: Seq<FileScanTask>) -> nat
    decreases tasks.len(),
{
    if tasks.len() == 0 {
        0
    } else {
        planned_scan_bytes(tasks.drop_last()) + tasks.last().length as nat
    }
}

/// Bytes that the planned ranges of all groups have together.
pub open spec fn total_planned_scan_bytes(groups: Seq<Seq<FileScanTask>>) -> nat
    decreases groups.len(),
{
    if groups.len() == 0 {
        0
    } else {
        total_planned_scan_bytes(groups.drop_last()) + planned_scan_bytes(groups.last())
    }
}

/// Byte after the range of a task.
pub open spec fn range_end(task: FileScanTask) -> nat {
    if task.start + task.length <= u64::MAX {
        (task.start + task.length) as nat
    } else {
        u64::MAX as nat
    }
}

/// The text of a task.
pub open spec fn task_text(task: FileScanTask) -> Seq<char> {
    "{path="@ + task.data_file_path@ + ", range="@ + decimal(task.start as nat) + ".."@ + decimal(
        range_end(task),
    ) + ", scan_bytes="@ + decimal(task.length as nat) + ", file_size_bytes="@ + decimal(
        task.file_size_in_bytes as nat,
    ) + "}"@
}

/// The text of a group of tasks.
pub open spec fn group_text(tasks: Seq<FileScanTask>, t: DisplayFormatType) -> Seq<char> {
    "{files=["@ + listing(
        tasks.map_values(|task: FileScanTask| task_text(task)),
        shown(t, DEFAULT_FILE_DISPLAY_LIMIT),
        "    "@,
    ) + (if tasks.len() > 0 {
        "\n  "@
    } else {
        ""@
    }) + "], planned_scan_bytes="@ + decimal(planned_scan_bytes(tasks)) + "}"@
}

/// The text of the groups of a scan, from the listing of the groups.
pub open spec fn groups_frame(count: nat, listing: Seq<char>, bytes: nat) -> Seq<char> {
    "{"@ + decimal(count) + (if count == 1 {
        " group: ["@
    } else {
        " groups: ["@
    }) + listing + (if count > 0 {
        "\n"@
    } else {
        ""@
    }) + "]}, planned_scan_bytes="@ + decimal(bytes)
}

/// The text of the groups of a scan.
pub open spec fn groups_text(groups: Seq<Seq<FileScanTask>>, t: DisplayFormatType) -> Seq<char> {
    groups_frame(
        groups.len(),
        listing(
            groups.map_values(|tasks: Seq<FileScanTask>| group_text(tasks, t)),
            shown(t, DEFAULT_FILE_GROUP_DISPLAY_LIMIT),
            "  "@,
        ),
        total_planned_scan_bytes(groups),
    )
}

/// The text of one task.
#[derive(Debug)]
pub struct FileTaskDisplay<'a>(pub &'a FileScanTask);

impl FileTaskDisplay<'_> {
    /// Appends the text of the task to `f`.
    pub fn fmt_as(&self, _t: DisplayFormatType, f: &mut String)
        ensures
            final(f)@ == old(f)@ + task_text(*self.0),
    {
        let task = self.0;
        let end = task.start.saturating_add(task.length);
        f.append("{path=");
        f.append(task.data_file_path.as_str());
        f.append(", range=");
        append_decimal(f, task.start as u128);
        f.append("..");
        append_decimal(f, end as u128);
        f.append(", scan_bytes=");
        append_decimal(f, task.length as u128);
        f.append(", file_size_bytes=");
        append_decimal(f, task.file_size_in_bytes as u128);
        f.append("}");
        assert(f@ =~= old(f)@ + task_text(*task));
    }
}

/// Starts the line of entry `k` of a list.
fn start_line(f: &mut String, k: usize, indent: &str)
    ensures
        final(f)@ == old(f)@ + (if k == 0 {
            "\n"@
        } else {
            ",\n"@
        }) + indent@,
{
    if k == 0 {
        f.append("\n");
    } else {
        f.append(",\n");
    }
    f.append(indent);
}

/// One more entry comes on a line of its own.
proof fn lemma_lines_push(entries: Seq<Seq<char>>, k: int, indent: Seq<char>)
    requires
        0 <= k < entries.len(),
    ensures
        lines(entries.take(k + 1), indent) == lines(entries.take(k), indent) + (if k == 0 {
            "\n"@
        } else {
            ",\n"@
        }) + indent + entries[k],
{
    assert(entries.take(k + 1).drop_last() =~= entries.take(k));
}

/// Appending a line piece by piece appends the line.
proof fn lemma_append_line(
    head: Seq<char>,
    done: Seq<char>,
    separator: Seq<char>,
    indent: Seq<char>,
    entry: Seq<char>,
)
    ensures
        head + done + separator + indent + entry == head + (done + separator + indent + entry),
{
    assert(head + done + separator + indent + entry =~= head + (done + separator + indent
        + entry));
}

/// Marks that a list goes on, where it does.
fn end_listing(f: &mut String, len: usize, limit: usize, indent: &str)
    ensures
        final(f)@ == old(f)@ + (if len > limit {
            (if limit > 0 {
                ",\n"@
            } else {
                "\n"@
            }) + indent@ + "..."@
        } else {
            ""@
        }),
{
    proof {
        reveal_strlit("");
    }
    if len > limit {
        if limit > 0 {
            f.append(",\n");
        } else {
            f.append("\n");
        }
        f.append(indent);
        f.append("...");
        assert(f@ =~= old(f)@ + ((if limit > 0 {
            ",\n"@
        } else {
            "\n"@
        }) + indent@ + "..."@));
    } else {
        assert(f@ =~= old(f)@ + ""@);
    }
}

/// A listing is its first lines and the mark at their end.
proof fn lemma_listing(entries: Seq<Seq<char>>, limit: usize, indent: Seq<char>, n: int)
    requires
        n == (if entries.len() <= limit {
            entries.len() as int
        } else {
            limit as int
        }),
    ensures
        listing(entries, limit, indent) == lines(entries.take(n), indent) + (if entries.len()
            > limit {
            (if limit > 0 {
                ",\n"@
            } else {
                "\n"@
            }) + indent + "..."@
        } else {
            ""@
        }),
{
    reveal_strlit("");
    if entries.len() <= limit {
        assert(entries.take(n) =~= entries);
        assert(lines(entries, indent) + ""@ =~= lines(entries, indent));
    } else {
        let mark = if limit > 0 {
            ",\n"@
        } else {
            "\n"@
        };
        assert(lines(entries.take(n), indent) + (mark + indent + "..."@) =~= lines(
            entries.take(n),
            indent,
        ) + mark + indent + "..."@);
    }
}

/// Sums the planned ranges of a group.
fn sum_planned_scan_bytes(tasks: &Vec<FileScanTask>) -> (sum: u128)
    ensures
        sum == planned_scan_bytes(tasks@),
{
    let mut sum: u128 = 0;
    for k in 0..tasks.len()
        invariant
            sum == planned_scan_bytes(tasks@.take(k as int)),
            sum <= k * u64::MAX,
            tasks@.len() <= usize::MAX,
    {
        assert(tasks@.take(k + 1).drop_last() =~= tasks@.take(k as int));
        assert((k + 1) * u64::MAX == k * u64::MAX + u64::MAX && (k + 1) * u64::MAX
            <= u64::MAX * u64::MAX) by (nonlinear_arith)
            requires
                k + 1 <= u64::MAX,
        ;
        sum = sum + tasks[k].length as u128;
    }
    assert(tasks@.take(tasks@.len() as int) =~= tasks@);
    sum
}

/// The text of a group of tasks.
#[derive(Debug)]
pub struct FileTaskGroupDisplay<'a>(pub &'a Vec<FileScanTask>);

impl FileTaskGroupDisplay<'_> {
    /// Appends the text of the group to `f`.
    pub fn fmt_as(&self, t: DisplayFormatType, f: &mut String)
        ensures
            final(f)@ == old(f)@ + group_text(self.0@, t),
    {
        let tasks = self.0;
        let ghost entries = tasks@.map_values(|task: FileScanTask| task_text(task));
        let planned_scan_bytes = sum_planned_scan_bytes(tasks);
        let file_limit = shown_entries(t, DEFAULT_FILE_DISPLAY_LIMIT);
        let shown_count: usize = if tasks.len() <= file_limit {
            tasks.len()
        } else {
            file_limit
        };
        f.append("{files=[");
        let ghost head = f@;
        proof {
            reveal_strlit("");
            assert(lines(entries.take(0), "    "@) =~= ""@);
            assert(f@ =~= head + ""@);
        }
        for k in 0..shown_count
            invariant
                shown_count <= tasks@.len(),
                entries == tasks@.map_values(|task: FileScanTask| task_text(task)),
                f@ == head + lines(entries.take(k as int), "    "@),
        {
            let ghost before = f@;
            start_line(f, k, "    ");
            FileTaskDisplay(&tasks[k]).fmt_as(t, f);
            proof {
                lemma_lines_push(entries, k as int, "    "@);
                lemma_append_line(
                    head,
                    lines(entries.take(k as int), "    "@),
                    if k == 0 {
                        "\n"@
                    } else {
                        ",\n"@
                    },
                    "    "@,
                    entries[k as int],
                );
            }
        }
        end_listing(f, tasks.len(), file_limit, "    ");
        proof {
            lemma_listing(entries, file_limit, "    "@, shown_count as int);
            assert(f@ =~= head + listing(entries, file_limit, "    "@));
        }
        if tasks.len() > 0 {
            f.append("\n  ");
        }
        f.append("], planned_scan_bytes=");
        append_decimal(f, planned_scan_bytes);
        f.append("}");
        assert(f@ =~= old(f)@ + group_text(tasks@, t));
    }
}

/// The first groups have no more planned bytes than all groups.
proof fn lemma_total_planned_grows(groups: Seq<Seq<FileScanTask>>, k: int)
    requires
        0 <= k <= groups.len(),
    ensures
        total_planned_scan_bytes(groups.take(k)) <= total_planned_scan_bytes(groups),
    decreases groups.len() - k,
{
    if k < groups.len() {
        lemma_total_planned_grows(groups, k + 1);
        assert(groups.take(k + 1).drop_last() =~= groups.take(k));
    } else {
        assert(groups.take(k) =~= groups);
    }
}

/// Sums the planned ranges of all groups.
fn sum_total_planned_scan_bytes(groups: &Vec<Vec<FileScanTask>>) -> (sum: u128)
    requires
        total_planned_scan_bytes(groups_view(groups@)) <= u128::MAX,
    ensures
        sum == total_planned_scan_bytes(groups_view(groups@)),
{
    let ghost all = groups_view(groups@);
    let mut sum: u128 = 0;
    for k in 0..groups.len()
        invariant
            all == groups_view(groups@),
            total_planned_scan_bytes(all) <= u128::MAX,
            sum == total_planned_scan_bytes(all.take(k as int)),
    {
        proof {
            lemma_total_planned_grows(all, k + 1);
            assert(all.take(k + 1).drop_last() =~= all.take(k as int));
        }
        sum = sum + sum_planned_scan_bytes(&groups[k]);
    }
    assert(all.take(all.len() as int) =~= all);
    sum
}

/// Appending two pieces one by one appends them together.
proof fn lemma_append(head: Seq<char>, a: Seq<char>, b: Seq<char>)
    ensures
        head + a + b == head + (a + b),
{
    assert(head + a + b =~= head + (a + b));
}

/// Appending the empty text changes nothing.
proof fn lemma_append_nothing(text: Seq<char>)
    ensures
        text + ""@ == text,
{
    reveal_strlit("");
    assert(text + ""@ =~= text);
}

/// Appending the text of the groups piece by piece appends that text.
proof fn lemma_groups_frame(start: Seq<char>, count: nat, list: Seq<char>, bytes: nat)
    ensures
        start + "{"@ + decimal(count) + (if count == 1 {
            " group: ["@
        } else {
            " groups: ["@
        }) + list + (if count > 0 {
            "\n"@
        } else {
            ""@
        }) + "]}, planned_scan_bytes="@ + decimal(bytes) == start + groups_frame(
            count,
            list,
            bytes,
        ),
{
    let label = if count == 1 {
        " group: ["@
    } else {
        " groups: ["@
    };
    let end = if count > 0 {
        "\n"@
    } else {
        ""@
    };
    assert(start + "{"@ + decimal(count) + label + list + end + "]}, planned_scan_bytes="@
        + decimal(bytes) =~= start + ("{"@ + decimal(count) + label + list + end
        + "]}, planned_scan_bytes="@ + decimal(bytes)));
}

/// Appends the text of the first `count` groups, each on a line of its own.
fn append_group_lines(
    groups: &Vec<Vec<FileScanTask>>,
    count: usize,
    t: DisplayFormatType,
    f: &mut String,
)
    requires
        count <= groups@.len(),
    ensures
        final(f)@ == old(f)@ + lines(
            groups_view(groups@).map_values(
                |tasks: Seq<FileScanTask>| group_text(tasks, t),
            ).take(count as int),
            "  "@,
        ),
{
    let ghost entries = groups_view(groups@).map_values(
        |tasks: Seq<FileScanTask>| group_text(tasks, t),
    );
    let ghost head = f@;
    proof {
        reveal_strlit("");
        assert(lines(entries.take(0), "  "@) =~= ""@);
        assert(f@ =~= head + ""@);
    }
    for k in 0..count
        invariant
            count <= groups@.len(),
            entries == groups_view(groups@).map_values(
                |tasks: Seq<FileScanTask>| group_text(tasks, t),
            ),
            f@ == head + lines(entries.take(k as int), "  "@),
    {
        start_line(f, k, "  ");
        let ghost started = f@;
        FileTaskGroupDisplay(&groups[k]).fmt_as(t, f);
        proof {
            assert(f@ == started + entries[k as int]);
            lemma_lines_push(entries, k as int, "  "@);
            lemma_append_line(
                head,
                lines(entries.take(k as int), "  "@),
                if k == 0 {
                    "\n"@
                } else {
                    ",\n"@
                },
                "  "@,
                entries[k as int],
            );
        }
    }
}

/// Displays file scan tasks in the shape and with the truncation rules of
/// DataFusion's file groups, enriched with Iceberg planning metadata.
///
/// The byte fields are planned values, not runtime I/O counters:
///
/// - `scan_bytes` is the length of a task's planned byte range.
/// - `planned_scan_bytes` is the sum of `scan_bytes` for a group or the
///   complete scan.
/// - `file_size_bytes` is the size of the complete data file recorded in
///   Iceberg metadata. It can be larger than `scan_bytes` when a task scans
///   only part of a file, and can be repeated when several tasks reference
///   different ranges of the same file.
///
/// Actual bytes read at runtime can differ from these values because of file
/// format metadata reads, pruning, caching, and reader access patterns.
#[derive(Debug)]
pub struct FileTaskGroupsDisplay<'a>(pub &'a Vec<Vec<FileScanTask>>);

impl FileTaskGroupsDisplay<'_> {
    /// Appends the text of the groups to `f`.
    pub fn fmt_as(&self, t: DisplayFormatType, f: &mut String)
        requires
            total_planned_scan_bytes(groups_view(self.0@)) <= u128::MAX,
        ensures
            final(f)@ == old(f)@ + groups_text(groups_view(self.0@), t),
    {
        let groups = self.0;
        let ghost all = groups_view(groups@);
        let ghost entries = all.map_values(|tasks: Seq<FileScanTask>| group_text(tasks, t));
        let group_count = groups.len();
        let planned_scan_bytes = sum_total_planned_scan_bytes(groups);
        f.append("{");
        append_decimal(f, group_count as u128);
        if group_count == 1 {
            f.append(" group: [");
        } else {
            f.append(" groups: [");
        }
        let group_limit = shown_entries(t, DEFAULT_FILE_GROUP_DISPLAY_LIMIT);
        let shown_count: usize = if group_count <= group_limit {
            group_count
        } else {
            group_limit
        };
        let ghost head = f@;
        append_group_lines(groups, shown_count, t, f);
        end_listing(f, group_count, group_limit, "  ");
        let ghost list = listing(entries, group_limit, "  "@);
        proof {
            lemma_listing(entries, group_limit, "  "@, shown_count as int);
            lemma_append(
                head,
                lines(entries.take(shown_count as int), "  "@),
                if entries.len() > group_limit {
                    (if group_limit > 0 {
                        ",\n"@
                    } else {
                        "\n"@
                    }) + "  "@ + "..."@
                } else {
                    ""@
                },
            );
            assert(f@ == head + list);
            lemma_append_nothing(f@);
        }
        if group_count > 0 {
            f.append("\n");
        }
        f.append("]}, planned_scan_bytes=");
        append_decimal(f, planned_scan_bytes);
        proof {
            lemma_groups_frame(old(f)@, group_count as nat, list, planned_scan_bytes as nat);
        }
    }
}

/// One more task in a group adds its planned bytes.
proof fn lemma_planned_push(groups: Seq<Seq<FileScanTask>>, g: int, task: FileScanTask)
    requires
        0 <= g < groups.len(),
    ensures
        total_planned_scan_bytes(groups.update(g, groups[g].push(task)))
            == total_planned_scan_bytes(groups) + task.length,
    decreases groups.len(),
{
    let updated = groups.update(g, groups[g].push(task));
    if g == groups.len() - 1 {
        assert(updated.drop_last() =~= groups.drop_last());
        assert(groups[g].push(task).drop_last() =~= groups[g]);
    } else {
        lemma_planned_push(groups.drop_last(), g, task);
        assert(updated.drop_last() =~= groups.drop_last().update(
            g,
            groups.drop_last()[g].push(task),
        ));
    }
}

/// Empty groups have no planned bytes.
proof fn lemma_planned_empty(groups: Seq<Seq<FileScanTask>>)
    requires
        forall|g: int| 0 <= g < groups.len() ==> (#[trigger] groups[g]).len() == 0,
    ensures
        total_planned_scan_bytes(groups) == 0,
    decreases groups.len(),
{
    if groups.len() > 0 {
        lemma_planned_empty(groups.drop_last());
    }
}

/// A scan plans as many bytes as its tasks do, however they are dealt to groups.
pub proof fn law_dealt_keeps_planned_bytes(tasks: Seq<FileScanTask>, n: nat)
    requires
        n > 0,
    ensures
        total_planned_scan_bytes(dealt(tasks, n)) == planned_scan_bytes(tasks),
    decreases tasks.len(),
{
    if tasks.len() == 0 {
        assert(tasks =~= Seq::<FileScanTask>::empty());
        lemma_dealt_none(n);
        assert forall|g: int| 0 <= g < n implies (#[trigger] dealt(tasks, n)[g]).len() == 0 by {}
        lemma_planned_empty(dealt(tasks, n));
    } else {
        let fewer = tasks.drop_last();
        law_dealt_keeps_planned_bytes(fewer, n);
        lemma_dealt_push(fewer, tasks.last(), n);
        vstd::arithmetic::div_mod::lemma_mod_bound(fewer.len() as int, n as int);
        lemma_planned_push(dealt(fewer, n), fewer.len() as int % n as int, tasks.last());
        assert(fewer.push(tasks.last()) =~= tasks);
    }
}

/// A scan plans as many bytes as its tasks do, whichever partitions their keys
/// send them to.
pub proof fn law_buckets_keep_planned_bytes(
    tasks: Seq<FileScanTask>,
    n: usize,
    keys: Option<PartitionKeysView>,
)
    requires
        n > 0,
    ensures
        total_planned_scan_bytes(buckets(tasks, n, keys)) == planned_scan_bytes(tasks),
    decreases tasks.len(),
{
    if tasks.len() == 0 {
        assert(tasks =~= Seq::<FileScanTask>::empty());
        lemma_buckets_empty(n, keys);
        assert forall|g: int| 0 <= g < n implies (#[trigger] buckets(tasks, n, keys)[g]).len()
            == 0 by {}
        lemma_planned_empty(buckets(tasks, n, keys));
    } else {
        let fewer = tasks.drop_last();
        law_buckets_keep_planned_bytes(fewer, n, keys);
        lemma_buckets_push(fewer, tasks.last(), n, keys);
        lemma_planned_push(
            buckets(fewer, n, keys),
            destination(tasks.last(), n, keys),
            tasks.last(),
        );
        assert(fewer.push(tasks.last()) =~= tasks);
    }
}

/// A scan of few groups with few files each reads the same in every format.
pub proof fn law_short_scan_shown_in_full(
    groups: Seq<Seq<FileScanTask>>,
    t: DisplayFormatType,
)
    requires
        groups.len() <= DEFAULT_FILE_GROUP_DISPLAY_LIMIT,
        forall|g: int|
            0 <= g < groups.len() ==> (#[trigger] groups[g]).len() <= DEFAULT_FILE_DISPLAY_LIMIT,
    ensures
        groups_text(groups, t) == groups_text(groups, DisplayFormatType::Verbose),
{
    let verbose = DisplayFormatType::Verbose;
    assert(groups.map_values(|tasks: Seq<FileScanTask>| group_text(tasks, t))
        =~= groups.map_values(|tasks: Seq<FileScanTask>| group_text(tasks, verbose))) by {
        assert forall|g: int| 0 <= g < groups.len() implies group_text(#[trigger] groups[g], t)
            == group_text(groups[g], verbose) by {}
    }
}

/// A range ends behind its last byte, and at the largest offset where that is out
/// of reach.
pub proof fn law_range_ends_behind_its_bytes(task: FileScanTask)
    ensures
        task.start + task.length <= u64::MAX ==> range_end(task) == task.start + task.length,
        task.start + task.length > u64::MAX ==> range_end(task) == u64::MAX,
{
}

/// Each task adds its length to the planned bytes of its group, and each group its
/// planned bytes to those of the scan.
pub proof fn law_planned_bytes_add_up(
    tasks: Seq<FileScanTask>,
    task: FileScanTask,
    groups: Seq<Seq<FileScanTask>>,
)
    ensures
        planned_scan_bytes(Seq::empty()) == 0,
        planned_scan_bytes(tasks.push(task)) == planned_scan_bytes(tasks) + task.length,
        total_planned_scan_bytes(Seq::empty()) == 0,
        total_planned_scan_bytes(groups.push(tasks)) == total_planned_scan_bytes(groups)
            + planned_scan_bytes(tasks),
{
    assert(tasks.push(task).drop_last() =~= tasks);
    assert(groups.push(tasks).drop_last() =~= groups);
}

/// Everything is shown on request, and else five entries of each list.
pub proof fn law_five_entries_unless_verbose(t: DisplayFormatType, limit: usize)
    ensures
        shown(DisplayFormatType::Verbose, limit) == usize::MAX,
        t != DisplayFormatType::Verbose ==> shown(t, limit) == limit,
        DEFAULT_FILE_GROUP_DISPLAY_LIMIT == 5,
        DEFAULT_FILE_DISPLAY_LIMIT == 5,
{
}

/// One more entry comes on a line of its own, behind a comma unless it is the
/// first.
pub proof fn law_entries_come_on_lines_of_their_own(
    entries: Seq<Seq<char>>,
    entry: Seq<char>,
    indent: Seq<char>,
)
    ensures
        lines(Seq::empty(), indent).len() == 0,
        entries.len() == 0 ==> lines(entries.push(entry), indent) == seq!['\n'] + indent + entry,
        entries.len() > 0 ==> lines(entries.push(entry), indent) == lines(entries, indent) + seq![
            ',',
            '\n',
        ] + indent + entry,
{
    reveal_strlit("");
    reveal_strlit("\n");
    reveal_strlit(",\n");
    assert("\n"@ =~= seq!['\n']);
    assert(",\n"@ =~= seq![',', '\n']);
    assert(entries.push(entry).drop_last() =~= entries);
    if entries.len() == 0 {
        assert(lines(entries, indent) =~= Seq::<char>::empty());
        assert(lines(entries.push(entry), indent) =~= seq!['\n'] + indent + entry);
    }
}

/// A list within the limit is shown whole. A longer one shows its first entries
/// and a mark, and does not depend on the entries that are left out.
pub proof fn law_long_list_is_cut(
    entries: Seq<Seq<char>>,
    other: Seq<Seq<char>>,
    limit: usize,
    indent: Seq<char>,
)
    ensures
        entries.len() <= limit ==> listing(entries, limit, indent) == lines(entries, indent),
        entries.len() > limit > 0 ==> listing(entries, limit, indent) == lines(
            entries.take(limit as int),
            indent,
        ) + seq![',', '\n'] + indent + seq!['.', '.', '.'],
        entries.len() > limit && other.len() > limit && entries.take(limit as int) == other.take(
            limit as int,
        ) ==> listing(entries, limit, indent) == listing(other, limit, indent),
{
    reveal_strlit(",\n");
    reveal_strlit("...");
    assert(",\n"@ =~= seq![',', '\n']);
    assert("..."@ =~= seq!['.', '.', '.']);
}

/// The text of a task shows its path, its range, its length and the size of its
/// file.
pub proof fn law_task_text_shows_its_numbers(task: FileScanTask)
    ensures
        task.start + task.length <= u64::MAX ==> task_text(task) == "{path="@
            + task.data_file_path@ + ", range="@ + decimal(task.start as nat) + ".."@ + decimal(
            (task.start + task.length) as nat,
        ) + ", scan_bytes="@ + decimal(task.length as nat) + ", file_size_bytes="@ + decimal(
            task.file_size_in_bytes as nat,
        ) + "}"@,
        task.start + task.length > u64::MAX ==> task_text(task) == "{path="@
            + task.data_file_path@ + ", range="@ + decimal(task.start as nat) + ".."@ + decimal(
            0xffff_ffff_ffff_ffff,
        ) + ", scan_bytes="@ + decimal(task.length as nat) + ", file_size_bytes="@ + decimal(
            task.file_size_in_bytes as nat,
        ) + "}"@,
{
}

/// The text of a group lists its tasks and shows their planned bytes, those of
/// the tasks that are left out among them.
pub proof fn law_group_text_lists_its_tasks(tasks: Seq<FileScanTask>, t: DisplayFormatType)
    ensures
        ({
            let limit = if t == DisplayFormatType::Verbose {
                usize::MAX
            } else {
                5
            };
            let entries = tasks.map_values(|task: FileScanTask| task_text(task));
            let close = if tasks.len() > 0 {
                "\n  "@
            } else {
                ""@
            };
            group_text(tasks, t) == "{files=["@ + listing(entries, limit, "    "@) + close
                + "], planned_scan_bytes="@ + decimal(planned_scan_bytes(tasks)) + "}"@
        }),
{
}

/// The text of a scan's groups counts them, lists them and shows the planned bytes
/// of all, those of the groups that are left out among them.
pub proof fn law_groups_text_lists_the_groups(
    groups: Seq<Seq<FileScanTask>>,
    t: DisplayFormatType,
)
    ensures
        ({
            let limit = if t == DisplayFormatType::Verbose {
                usize::MAX
            } else {
                5
            };
            let entries = groups.map_values(|tasks: Seq<FileScanTask>| group_text(tasks, t));
            let label = if groups.len() == 1 {
                " group: ["@
            } else {
                " groups: ["@
            };
            let close = if groups.len() > 0 {
                "\n"@
            } else {
                ""@
            };
            groups_text(groups, t) == "{"@ + decimal(groups.len()) + label + listing(
                entries,
                limit,
                "  "@,
            ) + close + "]}, planned_scan_bytes="@ + decimal(total_planned_scan_bytes(groups))
        }),
{
}

}
