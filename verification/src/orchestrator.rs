//! Computes the deterministic clone location and the normalized clone URL
//! for a resolved reference, and decides every step of the
//! clone-with-overwrite-confirmation workflow as a state machine. The
//! surrounding program performs each requested action — filesystem checks,
//! the confirmation prompt, the git subprocesses — and reports what
//! happened back as an event.

use vstd::prelude::*;

use crate::resolver::{git_suffix, resolve_spec, ParseErrKind};
use crate::text::has_suffix;

verus! {

/// A resolved repository reference.
pub struct RepoRef {
    pub host: String,
    pub organization: String,
    pub project: String,
}

impl RepoRef {
    /// All three fields are non-empty and the project carries no trailing
    /// `.git` suffix, exactly what resolution guarantees.
    pub open spec fn wf(&self) -> bool {
        &&& self.host@.len() > 0
        &&& self.organization@.len() > 0
        &&& self.project@.len() > 0
        &&& !has_suffix(self.project@, git_suffix())
    }
}

/// Whatever form the accepted reference took, the resolved triple obeys
/// the reference invariants: no empty field, no trailing `.git` on the
/// project.
pub proof fn lemma_resolved_triple_wf(s: Seq<char>, h: Seq<char>, o: Seq<char>, p: Seq<char>)
    requires
        resolve_spec(s) == Ok::<(Seq<char>, Seq<char>, Seq<char>), ParseErrKind>((h, o, p)),
    ensures
        h.len() > 0,
        o.len() > 0,
        p.len() > 0,
        !has_suffix(p, git_suffix()),
{
    let at = crate::text::contains_char(s, '@') && crate::text::contains_char(s, ':');
    if at {
        let rest = s.subrange(crate::text::find_char(s, '@') + 1, s.len() as int);
        if crate::text::contains_char(rest, ':') {
            let path = rest.subrange(crate::text::find_char(rest, ':') + 1, rest.len() as int);
            if crate::text::contains_char(path, '/') {
                let tail = path.subrange(crate::text::find_char(path, '/') + 1, path.len() as int);
                crate::resolver::lemma_strip_git_clean(tail);
            }
        }
    } else if crate::resolver::strip_scheme(s) is Some || crate::text::has_prefix(
        s,
        crate::resolver::host_slash_prefix(),
    ) {
        match crate::resolver::strip_scheme(s) {
            Some(t) => {
                if crate::text::contains_char(t, '/') {
                    let rest = t.subrange(crate::text::find_char(t, '/') + 1, t.len() as int);
                    lemma_org_project_wf(rest);
                }
            },
            None => {
                let t = if crate::text::has_prefix(s, crate::resolver::host_slash_prefix()) {
                    s.subrange(crate::resolver::host_slash_prefix().len() as int, s.len() as int)
                } else {
                    s
                };
                lemma_org_project_wf(t);
            },
        }
    } else if crate::resolver::exactly_one_slash(s) {
        let raw = s.subrange(crate::text::find_char(s, '/') + 1, s.len() as int);
        crate::resolver::lemma_strip_git_clean(raw);
    }
}

/// A successful `org/project` extraction obeys the same invariants.
proof fn lemma_org_project_wf(rest: Seq<char>)
    ensures
        crate::resolver::org_project_spec(rest) matches Ok(t) ==> t.0.len() > 0 && t.1.len() > 0
            && !has_suffix(t.1, git_suffix()),
{
    if crate::text::contains_char(rest, '/') {
        let after = rest.subrange(crate::text::find_char(rest, '/') + 1, rest.len() as int);
        let projraw = if crate::text::contains_char(after, '/') {
            after.subrange(0, crate::text::find_char(after, '/'))
        } else {
            after
        };
        crate::resolver::lemma_strip_git_clean(projraw);
    }
}

/// Resolves a reference straight to a well-formed `RepoRef`: on success
/// the triple is exactly what resolution prescribes, and it already
/// satisfies the workflow's precondition.
pub fn resolve_reference(repo_url: String) -> (r: Result<RepoRef, crate::resolver::ParseRepoError>)
    ensures
        match r {
            Ok(rr) => {
                &&& rr.wf()
                &&& resolve_spec(repo_url@) == Ok::<(Seq<char>, Seq<char>, Seq<char>), ParseErrKind>(
                    (rr.host@, rr.organization@, rr.project@),
                )
            },
            Err(e) => {
                &&& resolve_spec(repo_url@) == Err::<(Seq<char>, Seq<char>, Seq<char>), _>(e.kind())
                &&& e.input() == repo_url@
            },
        },
{
    let ghost input = repo_url@;
    match crate::resolver::repository(repo_url) {
        Ok(t) => {
            proof {
                lemma_resolved_triple_wf(input, t.0@, t.1@, t.2@);
            }
            Ok(RepoRef { host: t.0, organization: t.1, project: t.2 })
        },
        Err(e) => Err(e),
    }
}

/// The deterministic clone location `{base}/{host}/{organization}/{project}`.
pub open spec fn target_path_seq(
    base: Seq<char>,
    host: Seq<char>,
    org: Seq<char>,
    proj: Seq<char>,
) -> Seq<char> {
    base + seq!['/'] + host + seq!['/'] + org + seq!['/'] + proj
}

/// The normalized SSH transport URL `git@{host}:{organization}/{project}.git`.
pub open spec fn clone_url_seq(host: Seq<char>, org: Seq<char>, proj: Seq<char>) -> Seq<char> {
    seq!['g', 'i', 't', '@'] + host + seq![':'] + org + seq!['/'] + proj + git_suffix()
}

/// Target-path computation is deterministic: the same reference and base
/// directory always give the same path.
pub proof fn lemma_target_path_deterministic(
    base1: Seq<char>,
    host1: Seq<char>,
    org1: Seq<char>,
    proj1: Seq<char>,
    base2: Seq<char>,
    host2: Seq<char>,
    org2: Seq<char>,
    proj2: Seq<char>,
)
    requires
        base1 == base2,
        host1 == host2,
        org1 == org2,
        proj1 == proj2,
    ensures
        target_path_seq(base1, host1, org1, proj1) == target_path_seq(base2, host2, org2, proj2),
{
}

/// Resolving and then rebuilding the clone URL always yields
/// `git@{host}:{org}/{project}.git`, whatever form the input reference
/// took.
pub proof fn lemma_clone_url_round_trip(s: Seq<char>, h: Seq<char>, o: Seq<char>, p: Seq<char>)
    requires
        resolve_spec(s) == Ok::<(Seq<char>, Seq<char>, Seq<char>), ParseErrKind>((h, o, p)),
    ensures
        clone_url_seq(h, o, p) == seq!['g', 'i', 't', '@'] + h + seq![':'] + o + seq!['/'] + p
            + git_suffix(),
{
}

/// Builds the clone location `{base}/{host}/{organization}/{project}`.
pub fn target_path(base_dir: &str, host: &str, organization: &str, project: &str) -> (r: String)
    ensures
        r@ == target_path_seq(base_dir@, host@, organization@, project@),
{
    let mut r = base_dir.to_owned();
    r.append("/");
    r.append(host);
    r.append("/");
    r.append(organization);
    r.append("/");
    r.append(project);
    proof {
        reveal_strlit("/");
        assert("/"@ =~= seq!['/']);
        assert(r@ =~= target_path_seq(base_dir@, host@, organization@, project@));
    }
    r
}

/// Builds the normalized clone URL `git@{host}:{organization}/{project}.git`.
pub fn clone_url(host: &str, organization: &str, project: &str) -> (r: String)
    ensures
        r@ == clone_url_seq(host@, organization@, project@),
{
    let mut r = String::new();
    r.append("git@");
    r.append(host);
    r.append(":");
    r.append(organization);
    r.append("/");
    r.append(project);
    r.append(".git");
    proof {
        reveal_strlit("git@");
        reveal_strlit(":");
        reveal_strlit("/");
        reveal_strlit(".git");
        assert("git@"@ =~= seq!['g', 'i', 't', '@']);
        assert(":"@ =~= seq![':']);
        assert("/"@ =~= seq!['/']);
        assert(".git"@ =~= git_suffix());
        assert(r@ =~= clone_url_seq(host@, organization@, project@));
    }
    r
}

/// Where the workflow stands.
#[derive(Clone, Copy, PartialEq, Eq, Structural, Debug)]
pub enum Phase {
    /// Asking whether the target path already exists.
    CheckingExists,
    /// Creating a fresh target directory.
    CreatingFresh,
    /// Waiting on the overwrite confirmation.
    Confirming,
    /// Deleting the pre-existing target directory.
    Deleting,
    /// Recreating the target directory after deletion.
    Recreating,
    /// Running the clone.
    Cloning,
    /// Running the branch checkout.
    CheckingOut,
    /// Finished successfully.
    Done,
    /// Stopped without error: the overwrite was declined.
    Stopped,
    /// Failed terminally.
    Failed,
}

/// What the surrounding program reports back after performing an action.
pub enum Event {
    /// Whether the target path already exists.
    Exists(bool),
    /// The overwrite confirmation was read: accepted or declined.
    Confirmed(bool),
    /// The confirmation could not be read at all.
    ConfirmFailed(String),
    /// The requested directory operation succeeded.
    FsOk,
    /// The requested directory operation failed, with the platform error.
    FsFailed(String),
    /// A git subprocess finished: its success flag and captured stderr.
    GitDone(bool, String),
}

/// A terminal workflow failure.
pub enum OperationError {
    /// The target directory could not be created.
    CantCreateTargetDir(String),
    /// The pre-existing target directory could not be deleted.
    CantDeleteTargetDir(String),
    /// The confirmation prompt could not be read.
    FailedCaptureInput(String),
    /// A git subprocess reported failure; carries its captured stderr.
    FailedGitOperation(String),
}

impl OperationError {
    /// The diagnostic line for this failure, carrying the underlying
    /// platform or git detail.
    pub open spec fn message_spec(&self) -> Seq<char> {
        match self {
            OperationError::CantCreateTargetDir(m) => "Cannot create target directory: "@ + m@,
            OperationError::CantDeleteTargetDir(m) => "Cannot delete target directory: "@ + m@,
            OperationError::FailedCaptureInput(m) => "Failed to capture prompt: "@ + m@,
            OperationError::FailedGitOperation(m) => "Failed git operation: "@ + m@,
        }
    }

    /// Renders the diagnostic line for this failure.
    pub fn message(&self) -> (r: String)
        ensures
            r@ == self.message_spec(),
    {
        match self {
            OperationError::CantCreateTargetDir(m) => crate::text::concat_parts(
                "Cannot create target directory: ",
                m.as_str(),
            ),
            OperationError::CantDeleteTargetDir(m) => crate::text::concat_parts(
                "Cannot delete target directory: ",
                m.as_str(),
            ),
            OperationError::FailedCaptureInput(m) => crate::text::concat_parts(
                "Failed to capture prompt: ",
                m.as_str(),
            ),
            OperationError::FailedGitOperation(m) => crate::text::concat_parts(
                "Failed git operation: ",
                m.as_str(),
            ),
        }
    }
}

/// The terminal success value: where the repository now lives, and which
/// branch was checked out, if one was requested.
pub struct CloneOutcome {
    pub target_path: String,
    pub branch_checked_out: Option<String>,
}

/// What the surrounding program must do next.
pub enum Action {
    /// Ask the filesystem whether this path exists.
    CheckExists(String),
    /// Create this directory and every missing parent.
    CreateDir(String),
    /// Ask for the overwrite confirmation.
    AskConfirm,
    /// Delete this directory tree.
    DeleteDir(String),
    /// Run `git clone <url> <path>` from the system temp directory.
    RunClone(String, String),
    /// Run `git checkout <branch>` inside the target path.
    RunCheckout(String, String),
    /// Success: print the outcome's target path on standard output.
    Finish(CloneOutcome),
    /// The overwrite was declined: stop without error.
    Stop,
    /// A terminal failure.
    Fail(OperationError),
}

/// The view of an optional string.
pub open spec fn opt_str_view(o: Option<String>) -> Option<Seq<char>> {
    match o {
        Some(s) => Some(s@),
        None => None,
    }
}

/// Which events can answer which phase.
pub open spec fn event_fits(phase: Phase, ev: Event) -> bool {
    match phase {
        Phase::CheckingExists => ev is Exists,
        Phase::CreatingFresh => ev is FsOk || ev is FsFailed,
        Phase::Confirming => ev is Confirmed || ev is ConfirmFailed,
        Phase::Deleting => ev is FsOk || ev is FsFailed,
        Phase::Recreating => ev is FsOk || ev is FsFailed,
        Phase::Cloning => ev is GitDone,
        Phase::CheckingOut => ev is GitDone,
        Phase::Done => false,
        Phase::Stopped => false,
        Phase::Failed => false,
    }
}

/// The workflow: one resolved reference, the configured base directory,
/// the optional branch, and how far the run has come.
pub struct Orchestrator {
    pub reference: RepoRef,
    pub base_dir: String,
    pub branch: Option<String>,
    pub target_path: String,
    pub clone_url: String,
    pub phase: Phase,
}

/// The single step `pre --ev--> (post, act)` of the workflow, exactly as
/// the overwrite policy demands: create fresh paths outright; touch a
/// pre-existing path only after an accepted confirmation, deleting and
/// recreating it; clone over SSH transport; check out only a requested
/// branch; stop silently on a declined confirmation; fail terminally on
/// any reported error.
pub open spec fn step_ok(pre: Orchestrator, ev: Event, post: Orchestrator, act: Action) -> bool {
    match (pre.phase, ev) {
        (Phase::CheckingExists, Event::Exists(ex)) => if ex {
            &&& post.phase == Phase::Confirming
            &&& act is AskConfirm
        } else {
            &&& post.phase == Phase::CreatingFresh
            &&& act matches Action::CreateDir(p) && p@ == pre.target_path@
        },
        (Phase::Confirming, Event::Confirmed(yes)) => if yes {
            &&& post.phase == Phase::Deleting
            &&& act matches Action::DeleteDir(p) && p@ == pre.target_path@
        } else {
            &&& post.phase == Phase::Stopped
            &&& act is Stop
        },
        (Phase::Confirming, Event::ConfirmFailed(m)) => {
            &&& post.phase == Phase::Failed
            &&& act matches Action::Fail(OperationError::FailedCaptureInput(mm)) && mm@ == m@
        },
        (Phase::CreatingFresh, Event::FsOk) => {
            &&& post.phase == Phase::Cloning
            &&& act matches Action::RunClone(u, p) && u@ == pre.clone_url@ && p@
                == pre.target_path@
        },
        (Phase::CreatingFresh, Event::FsFailed(m)) => {
            &&& post.phase == Phase::Failed
            &&& act matches Action::Fail(OperationError::CantCreateTargetDir(mm)) && mm@ == m@
        },
        (Phase::Deleting, Event::FsOk) => {
            &&& post.phase == Phase::Recreating
            &&& act matches Action::CreateDir(p) && p@ == pre.target_path@
        },
        (Phase::Deleting, Event::FsFailed(m)) => {
            &&& post.phase == Phase::Failed
            &&& act matches Action::Fail(OperationError::CantDeleteTargetDir(mm)) && mm@ == m@
        },
        (Phase::Recreating, Event::FsOk) => {
            &&& post.phase == Phase::Cloning
            &&& act matches Action::RunClone(u, p) && u@ == pre.clone_url@ && p@
                == pre.target_path@
        },
        (Phase::Recreating, Event::FsFailed(m)) => {
            &&& post.phase == Phase::Failed
            &&& act matches Action::Fail(OperationError::CantCreateTargetDir(mm)) && mm@ == m@
        },
        (Phase::Cloning, Event::GitDone(ok, err)) => if ok {
            match pre.branch {
                Some(b) => {
                    &&& post.phase == Phase::CheckingOut
                    &&& act matches Action::RunCheckout(bb, p) && bb@ == b@ && p@
                        == pre.target_path@
                },
                None => {
                    &&& post.phase == Phase::Done
                    &&& act matches Action::Finish(o) && o.target_path@ == pre.target_path@
                        && o.branch_checked_out is None
                },
            }
        } else {
            &&& post.phase == Phase::Failed
            &&& act matches Action::Fail(OperationError::FailedGitOperation(mm)) && mm@ == err@
        },
        (Phase::CheckingOut, Event::GitDone(ok, err)) => if ok {
            &&& post.phase == Phase::Done
            &&& act matches Action::Finish(o) && o.target_path@ == pre.target_path@
                && opt_str_view(o.branch_checked_out) == opt_str_view(pre.branch)
        } else {
            &&& post.phase == Phase::Failed
            &&& act matches Action::Fail(OperationError::FailedGitOperation(mm)) && mm@ == err@
        },
        _ => false,
    }
}

impl Orchestrator {
    /// The stored path and URL really are the ones computed from the
    /// reference and base directory, and the reference is well formed.
    pub open spec fn wf(&self) -> bool {
        &&& self.reference.wf()
        &&& self.target_path@ == target_path_seq(
            self.base_dir@,
            self.reference.host@,
            self.reference.organization@,
            self.reference.project@,
        )
        &&& self.clone_url@ == clone_url_seq(
            self.reference.host@,
            self.reference.organization@,
            self.reference.project@,
        )
    }

    /// Everything but the phase is fixed at construction.
    pub open spec fn same_config(&self, other: &Orchestrator) -> bool {
        &&& self.reference.host@ == other.reference.host@
        &&& self.reference.organization@ == other.reference.organization@
        &&& self.reference.project@ == other.reference.project@
        &&& self.base_dir@ == other.base_dir@
        &&& opt_str_view(self.branch) == opt_str_view(other.branch)
        &&& self.target_path@ == other.target_path@
        &&& self.clone_url@ == other.clone_url@
    }

    /// Sets up the workflow for one resolved reference. The first action
    /// asks whether the target path already exists.
    pub fn new(reference: RepoRef, base_dir: String, branch: Option<String>) -> (r: (
        Orchestrator,
        Action,
    ))
        requires
            reference.wf(),
        ensures
            r.0.wf(),
            r.0.phase == Phase::CheckingExists,
            r.0.reference.host@ == reference.host@,
            r.0.reference.organization@ == reference.organization@,
            r.0.reference.project@ == reference.project@,
            r.0.base_dir@ == base_dir@,
            opt_str_view(r.0.branch) == opt_str_view(branch),
            r.0.target_path@ == target_path_seq(
                base_dir@,
                reference.host@,
                reference.organization@,
                reference.project@,
            ),
            r.0.clone_url@ == clone_url_seq(
                reference.host@,
                reference.organization@,
                reference.project@,
            ),
            r.1 matches Action::CheckExists(p) && p@ == r.0.target_path@,
    {
        let tp = target_path(
            base_dir.as_str(),
            reference.host.as_str(),
            reference.organization.as_str(),
            reference.project.as_str(),
        );
        let cu = clone_url(
            reference.host.as_str(),
            reference.organization.as_str(),
            reference.project.as_str(),
        );
        let probe = tp.clone();
        let orch = Orchestrator {
            reference,
            base_dir,
            branch,
            target_path: tp,
            clone_url: cu,
            phase: Phase::CheckingExists,
        };
        (orch, Action::CheckExists(probe))
    }

    /// Advances the workflow by one step: consumes the outcome of the last
    /// requested action and hands back the next one.
    pub fn next(&mut self, ev: Event) -> (act: Action)
        requires
            old(self).wf(),
            event_fits(old(self).phase, ev),
        ensures
            final(self).wf(),
            final(self).same_config(old(self)),
            step_ok(*old(self), ev, *final(self), act),
    {
        match (self.phase, ev) {
            (Phase::CheckingExists, Event::Exists(ex)) => {
                if ex {
                    self.phase = Phase::Confirming;
                    Action::AskConfirm
                } else {
                    self.phase = Phase::CreatingFresh;
                    Action::CreateDir(self.target_path.clone())
                }
            },
            (Phase::Confirming, Event::Confirmed(yes)) => {
                if yes {
                    self.phase = Phase::Deleting;
                    Action::DeleteDir(self.target_path.clone())
                } else {
                    self.phase = Phase::Stopped;
                    Action::Stop
                }
            },
            (Phase::Confirming, Event::ConfirmFailed(m)) => {
                self.phase = Phase::Failed;
                Action::Fail(OperationError::FailedCaptureInput(m))
            },
            (Phase::CreatingFresh, Event::FsOk) => {
                self.phase = Phase::Cloning;
                Action::RunClone(self.clone_url.clone(), self.target_path.clone())
            },
            (Phase::CreatingFresh, Event::FsFailed(m)) => {
                self.phase = Phase::Failed;
                Action::Fail(OperationError::CantCreateTargetDir(m))
            },
            (Phase::Deleting, Event::FsOk) => {
                self.phase = Phase::Recreating;
                Action::CreateDir(self.target_path.clone())
            },
            (Phase::Deleting, Event::FsFailed(m)) => {
                self.phase = Phase::Failed;
                Action::Fail(OperationError::CantDeleteTargetDir(m))
            },
            (Phase::Recreating, Event::FsOk) => {
                self.phase = Phase::Cloning;
                Action::RunClone(self.clone_url.clone(), self.target_path.clone())
            },
            (Phase::Recreating, Event::FsFailed(m)) => {
                self.phase = Phase::Failed;
                Action::Fail(OperationError::CantCreateTargetDir(m))
            },
            (Phase::Cloning, Event::GitDone(ok, err)) => {
                if ok {
                    let b_opt: Option<String> = match &self.branch {
                        Some(b) => Some(b.clone()),
                        None => None,
                    };
                    match b_opt {
                        Some(b) => {
                            self.phase = Phase::CheckingOut;
                            Action::RunCheckout(b, self.target_path.clone())
                        },
                        None => {
                            self.phase = Phase::Done;
                            Action::Finish(
                                CloneOutcome {
                                    target_path: self.target_path.clone(),
                                    branch_checked_out: None,
                                },
                            )
                        },
                    }
                } else {
                    self.phase = Phase::Failed;
                    Action::Fail(OperationError::FailedGitOperation(err))
                }
            },
            (Phase::CheckingOut, Event::GitDone(ok, err)) => {
                if ok {
                    let b_opt: Option<String> = match &self.branch {
                        Some(b) => Some(b.clone()),
                        None => None,
                    };
                    self.phase = Phase::Done;
                    Action::Finish(
                        CloneOutcome {
                            target_path: self.target_path.clone(),
                            branch_checked_out: b_opt,
                        },
                    )
                } else {
                    self.phase = Phase::Failed;
                    Action::Fail(OperationError::FailedGitOperation(err))
                }
            },
            _ => vstd::pervasive::unreached(),
        }
    }
}

} // verus!
