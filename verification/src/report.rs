//! Classification of changed remote references after a fetch, and rendering
//! of the aligned synchronization report.
//!
//! Each changed reference is classified by kind (branch or tag), tracking
//! state, and import outcome; the report pads every reference name to the
//! widest display width so the status columns line up, and closes with a
//! count of commits abandoned by the synchronization.

use vstd::prelude::*;
use vstd::string::StringExecFns;

use crate::decimal::dec_str;
use crate::decimal::u64_to_string;

verus! {

/// Display width in columns of a rendered text, as the terminal shows it
/// (wide characters take two columns). A function of the characters alone.
pub uninterp spec fn display_width(s: Seq<char>) -> nat;

/// Relies on `unicode_width::UnicodeWidthStr::width`: the displayed width of
/// a string in columns, determined by its characters alone.
#[verifier::external_body]
pub(crate) fn str_width(s: &str) -> (w: usize)
    ensures
        w as nat == display_width(s@),
{
    unicode_width::UnicodeWidthStr::width(s)
}

/// What a changed reference names: a branch on a remote, a tag, or a purely
/// local branch.
pub enum RefName {
    RemoteBranch { branch: String, remote: String },
    Tag(String),
    LocalBranch(String),
}

#[derive(Clone, Copy, PartialEq, Eq, Structural, Debug)]
pub enum RefKind {
    Branch,
    Tag,
}

#[derive(Clone, Copy, PartialEq, Eq, Structural, Debug)]
pub enum TrackingStatus {
    Tracking,
    Untracked,
    NotApplicable,
}

#[derive(Clone, Copy, PartialEq, Eq, Structural, Debug)]
pub enum ImportStatus {
    New,
    Deleted,
    Updated,
}

/// One changed remote reference, as the fetch reported it: the reference
/// identifier, whether the previously tracked target was absent, whether the
/// newly observed target is absent, and the repository view's answer to
/// whether the local/remote branch pair is tracking (meaningful only for a
/// remote branch).
pub struct RefChangeRecord {
    pub name: RefName,
    pub prev_target_absent: bool,
    pub new_target_absent: bool,
    pub remote_tracking: bool,
}

/// How a reference renders: `branch@remote` for a remote branch, the bare
/// name otherwise.
pub open spec fn display_name_of(name: RefName) -> Seq<char> {
    match name {
        RefName::RemoteBranch { branch, remote } => branch@ + "@"@ + remote@,
        RefName::Tag(tag) => tag@,
        RefName::LocalBranch(branch) => branch@,
    }
}

pub open spec fn kind_of(name: RefName) -> RefKind {
    match name {
        RefName::RemoteBranch { .. } => RefKind::Branch,
        RefName::Tag(_) => RefKind::Tag,
        RefName::LocalBranch(_) => RefKind::Branch,
    }
}

/// A remote branch is tracked iff the view says so; a tag never carries a
/// tracking state; a local branch is always tracked.
pub open spec fn tracking_of(name: RefName, remote_tracking: bool) -> TrackingStatus {
    match name {
        RefName::RemoteBranch { .. } => if remote_tracking {
            TrackingStatus::Tracking
        } else {
            TrackingStatus::Untracked
        },
        RefName::Tag(_) => TrackingStatus::NotApplicable,
        RefName::LocalBranch(_) => TrackingStatus::Tracking,
    }
}

/// Import outcome from the two presence bits: `New` when a target appeared,
/// `Deleted` when it vanished, `Updated` for every other combination.
pub open spec fn import_of(prev_target_absent: bool, new_target_absent: bool) -> ImportStatus {
    if prev_target_absent && !new_target_absent {
        ImportStatus::New
    } else if !prev_target_absent && new_target_absent {
        ImportStatus::Deleted
    } else {
        ImportStatus::Updated
    }
}

/// Import classification is a total function of the two presence bits, and
/// the three outcomes are mutually exclusive: exactly one of them holds for
/// every combination. (A record whose target was absent before and after
/// would classify `Updated`, but such a reference never appears in a change
/// set, since nothing about it changed.)
pub proof fn lemma_import_classification(prev_target_absent: bool, new_target_absent: bool)
    ensures
        import_of(prev_target_absent, new_target_absent) is New <==> (prev_target_absent
            && !new_target_absent),
        import_of(prev_target_absent, new_target_absent) is Deleted <==> (!prev_target_absent
            && new_target_absent),
        import_of(prev_target_absent, new_target_absent) is Updated <==> (prev_target_absent
            == new_target_absent),
{
}

/// Tag records always classify `NotApplicable`, local-branch records always
/// classify `Tracking`, and `NotApplicable` arises exactly for tags.
pub proof fn lemma_tracking_classification(name: RefName, remote_tracking: bool)
    ensures
        kind_of(name) is Tag ==> tracking_of(name, remote_tracking) is NotApplicable,
        name is LocalBranch ==> tracking_of(name, remote_tracking) is Tracking,
        tracking_of(name, remote_tracking) is NotApplicable <==> kind_of(name) is Tag,
{
}

/// The derived status of one changed reference.
pub struct RefStatus {
    pub ref_kind: RefKind,
    pub ref_name: String,
    pub tracking_status: TrackingStatus,
    pub import_status: ImportStatus,
}

/// `status` is the classification of `record`.
pub open spec fn status_of(status: RefStatus, record: RefChangeRecord) -> bool {
    &&& status.ref_kind == kind_of(record.name)
    &&& status.ref_name@ == display_name_of(record.name)
    &&& status.tracking_status == tracking_of(record.name, record.remote_tracking)
    &&& status.import_status == import_of(record.prev_target_absent, record.new_target_absent)
}

pub open spec fn tracking_label(t: TrackingStatus) -> Seq<char> {
    match t {
        TrackingStatus::Tracking => "tracked"@,
        TrackingStatus::Untracked => "untracked"@,
        TrackingStatus::NotApplicable => ""@,
    }
}

pub open spec fn import_label(i: ImportStatus) -> Seq<char> {
    match i {
        ImportStatus::New => "new"@,
        ImportStatus::Deleted => "deleted"@,
        ImportStatus::Updated => "updated"@,
    }
}

/// The kind column: when both kinds appear in the set, the tag label is
/// padded to the branch label's width so the name columns align.
pub open spec fn kind_label(k: RefKind, has_both_ref_kinds: bool) -> Seq<char> {
    match k {
        RefKind::Branch => "branch: "@,
        RefKind::Tag => if has_both_ref_kinds {
            "tag:    "@
        } else {
            "tag: "@
        },
    }
}

pub open spec fn spaces(n: nat) -> Seq<char> {
    Seq::new(n, |i: int| ' ')
}

/// How many columns of padding a name of this width gets.
pub open spec fn pad_of(name: Seq<char>, max_width: nat) -> nat {
    if display_width(name) <= max_width {
        (max_width - display_width(name)) as nat
    } else {
        0
    }
}

pub open spec fn padded_name(name: Seq<char>, max_width: nat) -> Seq<char> {
    name + spaces(pad_of(name, max_width))
}

/// The tail of a report line: import status in brackets, then the tracking
/// status (empty for a tag).
pub open spec fn status_suffix(i: ImportStatus, t: TrackingStatus) -> Seq<char> {
    " ["@ + import_label(i) + "] "@ + tracking_label(t) + "\n"@
}

/// One full report line for a changed reference.
pub open spec fn render_ref_line(rec: RefChangeRecord, max_width: nat, has_both: bool) -> Seq<
    char,
> {
    kind_label(kind_of(rec.name), has_both) + padded_name(display_name_of(rec.name), max_width)
        + status_suffix(
        import_of(rec.prev_target_absent, rec.new_target_absent),
        tracking_of(rec.name, rec.remote_tracking),
    )
}

/// The widest display width among the records' rendered names.
pub open spec fn max_name_width(recs: Seq<RefChangeRecord>) -> nat
    decreases recs.len(),
{
    if recs.len() == 0 {
        0
    } else {
        let w = display_width(display_name_of(recs.last().name));
        let m = max_name_width(recs.drop_last());
        if w >= m {
            w
        } else {
            m
        }
    }
}

pub open spec fn has_branch(recs: Seq<RefChangeRecord>) -> bool
    decreases recs.len(),
{
    if recs.len() == 0 {
        false
    } else {
        kind_of(recs.last().name) is Branch || has_branch(recs.drop_last())
    }
}

pub open spec fn has_tag(recs: Seq<RefChangeRecord>) -> bool
    decreases recs.len(),
{
    if recs.len() == 0 {
        false
    } else {
        kind_of(recs.last().name) is Tag || has_tag(recs.drop_last())
    }
}

pub open spec fn render_ref_lines(recs: Seq<RefChangeRecord>, max_width: nat, has_both: bool) -> Seq<char>
    decreases recs.len(),
{
    if recs.len() == 0 {
        Seq::empty()
    } else {
        render_ref_lines(recs.drop_last(), max_width, has_both) + render_ref_line(
            recs.last(),
            max_width,
            has_both,
        )
    }
}

/// The closing line counting commits the synchronization abandoned.
pub open spec fn abandoned_line(n: nat) -> Seq<char> {
    "Abandoned "@ + dec_str(n) + " commits that are no longer reachable.\n"@
}

/// The whole report: one aligned line per changed reference (only when
/// reference statistics were requested and the change set is non-empty),
/// then the abandoned-commits count (only when it is non-zero).
pub open spec fn render_import_stats(
    recs: Seq<RefChangeRecord>,
    abandoned_commits: nat,
    show_ref_stats: bool,
) -> Seq<char> {
    let ref_part = if show_ref_stats && recs.len() > 0 {
        render_ref_lines(recs, max_name_width(recs), has_branch(recs) && has_tag(recs))
    } else {
        Seq::<char>::empty()
    };
    let abandoned_part = if abandoned_commits > 0 {
        abandoned_line(abandoned_commits)
    } else {
        Seq::<char>::empty()
    };
    ref_part + abandoned_part
}

/// What a fetch reports back: the changed remote references in the order the
/// change set supplied them, and how many commits became unreachable.
pub struct GitImportStats {
    pub changed_remote_refs: Vec<RefChangeRecord>,
    pub abandoned_commits: u64,
}

/// The three styled segments of one report line: the kind column, the
/// right-padded reference name (labeled for downstream styling), and the
/// status tail.
pub struct RenderedRefLine {
    pub kind_label: String,
    pub name_field: String,
    pub status_field: String,
}

fn append_spaces(out: &mut String, n: usize)
    ensures
        final(out)@ == old(out)@ + spaces(n as nat),
{
    let mut k: usize = 0;
    proof {
        reveal_strlit(" ");
        assert(out@ + spaces(0) =~= out@);
    }
    while k < n
        invariant
            k <= n,
            out@ == old(out)@ + spaces(k as nat),
        decreases n - k,
    {
        out.append(" ");
        proof {
            reveal_strlit(" ");
            assert(" "@ =~= seq![' ']);
            assert(spaces(k as nat) + seq![' '] =~= spaces((k + 1) as nat));
            assert(out@ =~= old(out)@ + spaces((k + 1) as nat));
        }
        k = k + 1;
    }
}

impl RefStatus {
    /// Classifies one changed reference: the rendered name and kind, the
    /// tracking state (`remote_tracking` is the repository view's answer for
    /// the local/remote branch pair), and the import outcome from the two
    /// presence bits.
    pub fn new(record: &RefChangeRecord) -> (s: RefStatus)
        ensures
            status_of(s, *record),
    {
        let (ref_name, ref_kind, tracking_status) = match &record.name {
            RefName::RemoteBranch { branch, remote } => {
                let mut n = branch.clone();
                n.append("@");
                n.append(remote.as_str());
                let t = if record.remote_tracking {
                    TrackingStatus::Tracking
                } else {
                    TrackingStatus::Untracked
                };
                (n, RefKind::Branch, t)
            },
            RefName::Tag(tag) => (tag.clone(), RefKind::Tag, TrackingStatus::NotApplicable),
            RefName::LocalBranch(branch) => (
                branch.clone(),
                RefKind::Branch,
                TrackingStatus::Tracking,
            ),
        };
        let import_status = if record.prev_target_absent && !record.new_target_absent {
            ImportStatus::New
        } else if !record.prev_target_absent && record.new_target_absent {
            ImportStatus::Deleted
        } else {
            ImportStatus::Updated
        };
        RefStatus { ref_kind, ref_name, tracking_status, import_status }
    }

    /// Renders this status as the three segments of its report line. The
    /// name field is the name followed by enough spaces to reach
    /// `max_ref_name_width` display columns (no padding when the name is
    /// already wider).
    pub fn output(&self, max_ref_name_width: usize, has_both_ref_kinds: bool) -> (r:
        RenderedRefLine)
        ensures
            r.kind_label@ == kind_label(self.ref_kind, has_both_ref_kinds),
            r.name_field@ == padded_name(self.ref_name@, max_ref_name_width as nat),
            r.status_field@ == status_suffix(self.import_status, self.tracking_status),
    {
        let kind_label: String = match self.ref_kind {
            RefKind::Branch => "branch: ".to_owned(),
            RefKind::Tag => if has_both_ref_kinds {
                "tag:    ".to_owned()
            } else {
                "tag: ".to_owned()
            },
        };
        let tracking: &str = match self.tracking_status {
            TrackingStatus::Tracking => "tracked",
            TrackingStatus::Untracked => "untracked",
            TrackingStatus::NotApplicable => "",
        };
        let import: &str = match self.import_status {
            ImportStatus::New => "new",
            ImportStatus::Deleted => "deleted",
            ImportStatus::Updated => "updated",
        };
        let width = str_width(self.ref_name.as_str());
        let pad = if max_ref_name_width >= width {
            max_ref_name_width - width
        } else {
            0
        };
        let mut name_field = self.ref_name.clone();
        append_spaces(&mut name_field, pad);
        let mut status_field = " [".to_owned();
        status_field.append(import);
        status_field.append("] ");
        status_field.append(tracking);
        status_field.append("\n");
        proof {
            assert(name_field@ =~= padded_name(self.ref_name@, max_ref_name_width as nat));
            assert(status_field@ =~= status_suffix(self.import_status, self.tracking_status));
        }
        RenderedRefLine { kind_label, name_field, status_field }
    }
}

/// Renders the synchronization report for `stats`: when `show_ref_stats` is
/// set and the change set is non-empty, one aligned line per changed
/// reference in the order supplied, followed by the abandoned-commits line
/// when any commit became unreachable.
pub fn print_git_import_stats(stats: &GitImportStats, show_ref_stats: bool) -> (r: String)
    ensures
        r@ == render_import_stats(
            stats.changed_remote_refs@,
            stats.abandoned_commits as nat,
            show_ref_stats,
        ),
{
    let recs = &stats.changed_remote_refs;
    let ghost grecs = recs@;
    let mut out = String::new();
    if show_ref_stats && recs.len() > 0 {
        let mut statuses: Vec<RefStatus> = Vec::new();
        let mut i: usize = 0;
        while i < recs.len()
            invariant
                i <= recs.len(),
                statuses.len() == i,
                forall|j: int| 0 <= j < i ==> status_of(#[trigger] statuses@[j], grecs[j]),
                grecs == recs@,
            decreases recs.len() - i,
        {
            let s = RefStatus::new(&recs[i]);
            statuses.push(s);
            i = i + 1;
        }
        let mut has_b = false;
        let mut has_t = false;
        let mut max_w: usize = 0;
        let mut i: usize = 0;
        proof {
            assert(grecs.take(0) =~= Seq::<RefChangeRecord>::empty());
        }
        while i < statuses.len()
            invariant
                i <= statuses.len(),
                statuses.len() == grecs.len(),
                forall|j: int| 0 <= j < statuses.len() ==> status_of(
                    #[trigger] statuses@[j],
                    grecs[j],
                ),
                has_b == has_branch(grecs.take(i as int)),
                has_t == has_tag(grecs.take(i as int)),
                max_w as nat == max_name_width(grecs.take(i as int)),
            decreases statuses.len() - i,
        {
            let ghost t1 = grecs.take(i as int + 1);
            proof {
                assert(t1.drop_last() =~= grecs.take(i as int));
                assert(t1.last() == grecs[i as int]);
            }
            match statuses[i].ref_kind {
                RefKind::Branch => {
                    has_b = true;
                },
                RefKind::Tag => {
                    has_t = true;
                },
            }
            let w = str_width(statuses[i].ref_name.as_str());
            if w > max_w {
                max_w = w;
            }
            i = i + 1;
        }
        let has_both = has_b && has_t;
        proof {
            assert(grecs.take(grecs.len() as int) =~= grecs);
        }
        let mut i: usize = 0;
        proof {
            assert(grecs.take(0) =~= Seq::<RefChangeRecord>::empty());
            assert(out@ + render_ref_lines(grecs.take(0), max_w as nat, has_both) =~= out@);
        }
        while i < statuses.len()
            invariant
                i <= statuses.len(),
                statuses.len() == grecs.len(),
                forall|j: int| 0 <= j < statuses.len() ==> status_of(
                    #[trigger] statuses@[j],
                    grecs[j],
                ),
                out@ == render_ref_lines(grecs.take(i as int), max_w as nat, has_both),
            decreases statuses.len() - i,
        {
            let ghost t1 = grecs.take(i as int + 1);
            proof {
                assert(t1.drop_last() =~= grecs.take(i as int));
                assert(t1.last() == grecs[i as int]);
            }
            let seg = statuses[i].output(max_w, has_both);
            out.append(seg.kind_label.as_str());
            out.append(seg.name_field.as_str());
            out.append(seg.status_field.as_str());
            proof {
                assert(out@ =~= render_ref_lines(t1, max_w as nat, has_both));
            }
            i = i + 1;
        }
        proof {
            assert(grecs.take(grecs.len() as int) =~= grecs);
        }
    }
    if stats.abandoned_commits > 0 {
        let ghost before = out@;
        out.append("Abandoned ");
        let count = u64_to_string(stats.abandoned_commits);
        out.append(count.as_str());
        out.append(" commits that are no longer reachable.\n");
        proof {
            assert(out@ =~= before + abandoned_line(stats.abandoned_commits as nat));
        }
    }
    proof {
        assert(out@ =~= render_import_stats(
            grecs,
            stats.abandoned_commits as nat,
            show_ref_stats,
        ));
    }
    out
}

} // verus!
