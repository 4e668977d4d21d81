//! Diagnostics for reference exports that the backing store rejected: each
//! failure renders as the reference name followed by its causal chain of
//! reasons, and a fixed hint is appended when any failure came from the
//! backend refusing to set the reference.

use vstd::prelude::*;
use vstd::string::StringExecFns;

verus! {

/// Why one reference export failed. `FailedToSet` is the case where the
/// backend refused to set the reference, the known common cause being a
/// reference name that is a path prefix of another.
#[derive(Clone, Copy, PartialEq, Eq, Structural, Debug)]
pub enum ExportFailureKind {
    FailedToSet,
    Other,
}

/// One failed reference export: the reference name, the failure kind, and
/// the causal chain of failure messages, outermost reason first, root cause
/// last.
pub struct FailedRefExport {
    pub name: String,
    pub kind: ExportFailureKind,
    pub reasons: Vec<String>,
}

/// The causal chain rendered as `": reason"` segments, in order.
pub open spec fn reason_chain(reasons: Seq<String>) -> Seq<char>
    decreases reasons.len(),
{
    if reasons.len() == 0 {
        Seq::empty()
    } else {
        reason_chain(reasons.drop_last()) + ": "@ + reasons.last()@
    }
}

/// The line printed for one failure.
pub open spec fn render_failed_ref(f: FailedRefExport) -> Seq<char> {
    "  "@ + f.name@ + reason_chain(f.reasons@) + "\n"@
}

pub open spec fn render_failed_lines(fs: Seq<FailedRefExport>) -> Seq<char>
    decreases fs.len(),
{
    if fs.len() == 0 {
        Seq::empty()
    } else {
        render_failed_lines(fs.drop_last()) + render_failed_ref(fs.last())
    }
}

pub open spec fn any_failed_to_set(fs: Seq<FailedRefExport>) -> bool
    decreases fs.len(),
{
    if fs.len() == 0 {
        false
    } else {
        fs.last().kind is FailedToSet || any_failed_to_set(fs.drop_last())
    }
}

/// The fixed hint shown when a `FailedToSet` failure is present.
pub open spec fn export_hint() -> Seq<char> {
    "Hint: Git doesn't allow a branch name that looks like a parent directory of\nanother (e.g. `foo` and `foo/bar`). Try to rename the branches that failed to\nexport or their \"parent\" branches.\n"@
}

/// The whole diagnostic: nothing for an empty list; otherwise a header, one
/// line per failure in the order given, and the hint when some failure was
/// the backend refusing to set the reference.
pub open spec fn render_failed_export(fs: Seq<FailedRefExport>) -> Seq<char> {
    if fs.len() == 0 {
        Seq::empty()
    } else {
        "Failed to export some branches:\n"@ + render_failed_lines(fs) + (if any_failed_to_set(
            fs,
        ) {
            export_hint()
        } else {
            Seq::<char>::empty()
        })
    }
}

/// Renders the failed-export diagnostic for the given failures.
pub fn print_failed_git_export(failed_branches: &Vec<FailedRefExport>) -> (r: String)
    ensures
        r@ == render_failed_export(failed_branches@),
{
    let ghost gfs = failed_branches@;
    let mut out = String::new();
    if failed_branches.len() == 0 {
        proof {
            assert(out@ =~= render_failed_export(gfs));
        }
        return out;
    }
    out.append("Failed to export some branches:\n");
    let mut any_set = false;
    let mut i: usize = 0;
    proof {
        assert(gfs.take(0) =~= Seq::<FailedRefExport>::empty());
        assert(out@ + render_failed_lines(gfs.take(0)) =~= out@);
    }
    while i < failed_branches.len()
        invariant
            i <= failed_branches.len(),
            gfs == failed_branches@,
            out@ == "Failed to export some branches:\n"@ + render_failed_lines(
                gfs.take(i as int),
            ),
            any_set == any_failed_to_set(gfs.take(i as int)),
        decreases failed_branches.len() - i,
    {
        let ghost t1 = gfs.take(i as int + 1);
        proof {
            assert(t1.drop_last() =~= gfs.take(i as int));
            assert(t1.last() == gfs[i as int]);
        }
        let f = &failed_branches[i];
        out.append("  ");
        out.append(f.name.as_str());
        let ghost before = out@;
        let mut j: usize = 0;
        proof {
            assert(f.reasons@.take(0) =~= Seq::<String>::empty());
            assert(before + reason_chain(f.reasons@.take(0)) =~= before);
        }
        while j < f.reasons.len()
            invariant
                j <= f.reasons.len(),
                out@ == before + reason_chain(f.reasons@.take(j as int)),
            decreases f.reasons.len() - j,
        {
            let ghost r1 = f.reasons@.take(j as int + 1);
            proof {
                assert(r1.drop_last() =~= f.reasons@.take(j as int));
                assert(r1.last() == f.reasons@[j as int]);
            }
            out.append(": ");
            out.append(f.reasons[j].as_str());
            proof {
                assert(out@ =~= before + reason_chain(r1));
            }
            j = j + 1;
        }
        proof {
            assert(f.reasons@.take(f.reasons@.len() as int) =~= f.reasons@);
        }
        out.append("\n");
        match f.kind {
            ExportFailureKind::FailedToSet => {
                any_set = true;
            },
            ExportFailureKind::Other => {},
        }
        proof {
            assert(out@ =~= "Failed to export some branches:\n"@ + render_failed_lines(t1));
        }
        i = i + 1;
    }
    proof {
        assert(gfs.take(gfs.len() as int) =~= gfs);
    }
    if any_set {
        out.append(
            "Hint: Git doesn't allow a branch name that looks like a parent directory of\nanother (e.g. `foo` and `foo/bar`). Try to rename the branches that failed to\nexport or their \"parent\" branches.\n",
        );
    }
    proof {
        assert(out@ =~= render_failed_export(gfs));
    }
    out
}

} // verus!
