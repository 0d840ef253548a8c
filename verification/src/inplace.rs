use vstd::prelude::*;
use crate::convert::convert_output;

verus! {

/// Where the in-place rewrite stands.  The first four phases still have an
/// action to perform; the rest are final.
#[derive(Clone, Copy, Debug, PartialEq, Eq, Structural)]
pub enum Phase {
    /// The archive sits untouched at its own path.
    Intact,
    /// The archive was renamed to the backup path; nothing is at the
    /// original path yet.
    BackedUp,
    /// The converted archive was written to the original path and the
    /// caller asked for no backup, so the backup still has to go.
    CleanupPending,
    /// The conversion failed; the backup still has to be renamed back.
    RestorePending,
    /// Finished: converted archive at the original path, backup retained.
    DoneKept,
    /// Finished: converted archive at the original path, backup removed.
    DoneRemoved,
    /// Finished with an error: the backup could not be removed, so the
    /// converted archive and the backup both remain.
    RemoveFailed,
    /// Finished with an error: the backup rename itself failed, before
    /// anything else was attempted; the original file is untouched.
    FailedIntact,
    /// Finished with an error: the conversion failed and the backup was
    /// renamed back; the original file is in place again.
    Restored,
    /// Finished with an error: the conversion failed and the restore rename
    /// failed too; the backup file is the durable copy of the original.
    BackupStranded,
}

/// What the driver must do next in a given phase.
#[derive(Clone, Copy, Debug, PartialEq, Eq, Structural)]
pub enum Action {
    /// Rename the archive from its own path to the backup path.
    Rename,
    /// Read the backup, convert it, and write the result to the original
    /// path.
    Convert,
    /// Delete the backup file.
    Remove,
    /// Rename the backup back to the original path.
    Restore,
    /// Nothing; the protocol is over.
    Stop,
}

/// The action each phase calls for.  `keep` is whether the caller asked to
/// retain the backup on success.
pub open spec fn action_spec(p: Phase, keep: bool) -> Action {
    match p {
        Phase::Intact => Action::Rename,
        Phase::BackedUp => Action::Convert,
        Phase::CleanupPending => Action::Remove,
        Phase::RestorePending => Action::Restore,
        _ => Action::Stop,
    }
}

/// The phase after the pending action reported `ok` or failed.
pub open spec fn step_spec(p: Phase, keep: bool, ok: bool) -> Phase {
    match p {
        Phase::Intact => if ok {
            Phase::BackedUp
        } else {
            Phase::FailedIntact
        },
        Phase::BackedUp => if ok {
            if keep {
                Phase::DoneKept
            } else {
                Phase::CleanupPending
            }
        } else {
            Phase::RestorePending
        },
        Phase::CleanupPending => if ok {
            Phase::DoneRemoved
        } else {
            Phase::RemoveFailed
        },
        Phase::RestorePending => if ok {
            Phase::Restored
        } else {
            Phase::BackupStranded
        },
        _ => p,
    }
}

/// The in-place conversion protocol, driven from outside: ask for the next
/// action, perform it, and report whether it succeeded.  The protocol
/// decides every step; the driver only executes.
pub struct InPlaceFlow {
    pub phase: Phase,
    pub keep_backup: bool,
}

impl InPlaceFlow {
    /// Start the protocol on an untouched archive.
    pub fn begin(keep_backup: bool) -> (r: InPlaceFlow)
        ensures
            r.phase == Phase::Intact,
            r.keep_backup == keep_backup,
    {
        InPlaceFlow { phase: Phase::Intact, keep_backup }
    }

    /// The action the driver must perform next.
    pub fn next_action(&self) -> (a: Action)
        ensures
            a == action_spec(self.phase, self.keep_backup),
    {
        match self.phase {
            Phase::Intact => Action::Rename,
            Phase::BackedUp => Action::Convert,
            Phase::CleanupPending => Action::Remove,
            Phase::RestorePending => Action::Restore,
            _ => Action::Stop,
        }
    }

    /// Record that the pending action succeeded (`ok`) or failed.
    pub fn on_event(&mut self, ok: bool)
        ensures
            final(self).phase == step_spec(old(self).phase, old(self).keep_backup, ok),
            final(self).keep_backup == old(self).keep_backup,
    {
        let next = match self.phase {
            Phase::Intact => if ok {
                Phase::BackedUp
            } else {
                Phase::FailedIntact
            },
            Phase::BackedUp => if ok {
                if self.keep_backup {
                    Phase::DoneKept
                } else {
                    Phase::CleanupPending
                }
            } else {
                Phase::RestorePending
            },
            Phase::CleanupPending => if ok {
                Phase::DoneRemoved
            } else {
                Phase::RemoveFailed
            },
            Phase::RestorePending => if ok {
                Phase::Restored
            } else {
                Phase::BackupStranded
            },
            other => other,
        };
        self.phase = next;
    }

    /// Whether the protocol has reached a final phase.
    pub fn finished(&self) -> (r: bool)
        ensures
            r == (action_spec(self.phase, self.keep_backup) == Action::Stop),
    {
        match self.phase {
            Phase::Intact | Phase::BackedUp | Phase::CleanupPending | Phase::RestorePending => false,
            _ => true,
        }
    }

    /// Whether the rewrite went through: the converted archive now sits at
    /// the original path with the backup handled as requested.
    pub fn succeeded(&self) -> (r: bool)
        ensures
            r == (self.phase == Phase::DoneKept || self.phase == Phase::DoneRemoved),
    {
        match self.phase {
            Phase::DoneKept | Phase::DoneRemoved => true,
            _ => false,
        }
    }
}

/// The two filesystem locations the protocol touches: the archive's own
/// path and its backup sibling.  `None` stands for no file at that path.
pub struct FsView {
    pub original: Option<Seq<u8>>,
    pub backup: Option<Seq<u8>>,
}

/// What performing `a` may do to the filesystem.  `conv` is the converted
/// archive's bytes.  A failed rename or delete leaves both paths as they
/// were; a failed conversion leaves the backup alone but promises nothing
/// of the original path, where a partial file may sit.
pub open spec fn action_allows(a: Action, ok: bool, pre: FsView, post: FsView, conv: Seq<u8>) -> bool {
    match a {
        Action::Rename => if ok {
            post.original is None && post.backup == pre.original
        } else {
            post == pre
        },
        Action::Convert => if ok {
            post.original == Some(conv) && post.backup == pre.backup
        } else {
            post.backup == pre.backup
        },
        Action::Remove => if ok {
            post.original == pre.original && post.backup is None
        } else {
            post == pre
        },
        Action::Restore => if ok {
            post.original == pre.backup && post.backup is None
        } else {
            post == pre
        },
        Action::Stop => post == pre,
    }
}

/// What each phase guarantees of the filesystem, for an archive whose
/// original bytes are `orig0` and whose converted bytes are `conv`.
pub open spec fn phase_inv(p: Phase, fs: FsView, orig0: Seq<u8>, conv: Seq<u8>) -> bool {
    match p {
        Phase::Intact => fs.original == Some(orig0),
        Phase::BackedUp => fs.backup == Some(orig0),
        Phase::CleanupPending => fs.original == Some(conv) && fs.backup == Some(orig0),
        Phase::RestorePending => fs.backup == Some(orig0),
        Phase::DoneKept => fs.original == Some(conv) && fs.backup == Some(orig0),
        Phase::DoneRemoved => fs.original == Some(conv) && fs.backup is None,
        Phase::RemoveFailed => fs.original == Some(conv) && fs.backup == Some(orig0),
        Phase::FailedIntact => fs.original == Some(orig0),
        Phase::Restored => fs.original == Some(orig0) && fs.backup is None,
        Phase::BackupStranded => fs.backup == Some(orig0),
    }
}

/// Each protocol step keeps its phase's filesystem guarantee: if the
/// filesystem obeyed the current phase and the performed action changed it
/// only as that action may, the next phase's guarantee holds of the result.
pub proof fn lemma_step_preserves_inv(
    p: Phase,
    keep: bool,
    ok: bool,
    pre: FsView,
    post: FsView,
    orig0: Seq<u8>,
    conv: Seq<u8>,
)
    requires
        phase_inv(p, pre, orig0, conv),
        action_allows(action_spec(p, keep), ok, pre, post, conv),
    ensures
        phase_inv(step_spec(p, keep, ok), post, orig0, conv),
{
}

/// Until the caller's own request removes the backup, the original bytes
/// survive at the original path or at the backup path — in every phase the
/// protocol can be in.
pub proof fn lemma_original_preserved(p: Phase, fs: FsView, orig0: Seq<u8>, conv: Seq<u8>)
    requires
        phase_inv(p, fs, orig0, conv),
        p != Phase::DoneRemoved,
    ensures
        fs.original == Some(orig0) || fs.backup == Some(orig0),
{
}

/// The failure exit with a successful restore puts the original bytes back
/// at the original path and leaves no backup sibling behind.
pub proof fn lemma_failure_restores(fs: FsView, orig0: Seq<u8>, conv: Seq<u8>)
    requires
        phase_inv(Phase::Restored, fs, orig0, conv),
    ensures
        fs.original == Some(orig0),
        fs.backup is None,
{
}

/// The success exits put the converted bytes at the original path, with the
/// backup retained exactly when retention was requested.
pub proof fn lemma_success_converts(p: Phase, fs: FsView, orig0: Seq<u8>, conv: Seq<u8>)
    requires
        phase_inv(p, fs, orig0, conv),
        p == Phase::DoneKept || p == Phase::DoneRemoved,
    ensures
        fs.original == Some(conv),
        p == Phase::DoneKept ==> fs.backup == Some(orig0),
        p == Phase::DoneRemoved ==> fs.backup is None,
{
}

/// The phase the protocol is in after the events of `events` (each one the
/// reported success of the action then pending), starting from an untouched
/// archive.
pub open spec fn phase_after(keep: bool, events: Seq<bool>) -> Phase
    decreases events.len(),
{
    if events.len() == 0 {
        Phase::Intact
    } else {
        step_spec(phase_after(keep, events.drop_last()), keep, events.last())
    }
}

/// The filesystem states `fss` form a run of the protocol under `events`:
/// one state more than there are events, each consecutive pair changed only
/// as the action pending at that point may change it.
pub open spec fn run_allowed(keep: bool, events: Seq<bool>, fss: Seq<FsView>, conv: Seq<u8>) -> bool {
    &&& fss.len() == events.len() + 1
    &&& forall|i: int|
        0 <= i < events.len() ==> action_allows(
            action_spec(phase_after(keep, #[trigger] events.take(i)), keep),
            events[i],
            fss[i],
            fss[i + 1],
            conv,
        )
}

/// Whatever outcomes the filesystem reports, every run of the protocol ends
/// in a state that obeys the reached phase's guarantee — so, applied to any
/// prefix of a run, the guarantee holds at every point of it.
pub proof fn lemma_run_maintains_inv(
    keep: bool,
    events: Seq<bool>,
    fss: Seq<FsView>,
    orig0: Seq<u8>,
    conv: Seq<u8>,
)
    requires
        run_allowed(keep, events, fss, conv),
        phase_inv(Phase::Intact, fss[0], orig0, conv),
    ensures
        phase_inv(phase_after(keep, events), fss.last(), orig0, conv),
    decreases events.len(),
{
    if events.len() > 0 {
        let shorter = events.drop_last();
        assert forall|i: int| 0 <= i < shorter.len() implies action_allows(
            action_spec(phase_after(keep, #[trigger] shorter.take(i)), keep),
            shorter[i],
            fss.drop_last()[i],
            fss.drop_last()[i + 1],
            conv,
        ) by {
            assert(shorter.take(i) =~= events.take(i));
        }
        lemma_run_maintains_inv(keep, shorter, fss.drop_last(), orig0, conv);
        assert(events.take(events.len() - 1) =~= shorter);
        lemma_step_preserves_inv(
            phase_after(keep, shorter),
            keep,
            events.last(),
            fss[events.len() - 1],
            fss[events.len() as int],
            orig0,
            conv,
        );
    }
}

/// When the driver wrote the conversion of the pre-rewrite bytes, the
/// success exits leave at the original path exactly the archive that a
/// conversion to a fresh destination would have produced from a copy of the
/// original — with the backup, when kept, holding that original byte for
/// byte.
pub proof fn lemma_in_place_matches_convert(
    p: Phase,
    fs: FsView,
    orig0: Seq<u8>,
    conv: Seq<u8>,
    enc: Seq<char>,
)
    requires
        phase_inv(p, fs, orig0, conv),
        convert_output(orig0, enc) == Some(conv),
        p == Phase::DoneKept || p == Phase::DoneRemoved,
    ensures
        fs.original == Some(convert_output(orig0, enc)->Some_0),
        p == Phase::DoneKept ==> fs.backup == Some(orig0),
        p == Phase::DoneRemoved ==> fs.backup is None,
{
}

} // verus!
