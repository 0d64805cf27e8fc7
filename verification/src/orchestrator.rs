//! The update run as a state machine: from the state of a run and what has
//! just happened to the next state and what is to be done next. The caller
//! performs each action and reports how it ended.

use vstd::prelude::*;
use vstd::string::StringExecFns;
use crate::ledger::{release_views, Release, ReleaseView};
use crate::version::dotted;

verus! {

/// The tries that resolving and transferring one archive are given.
pub const MAX_ATTEMPTS: u8 = 3;

/// What stopped a run.
#[derive(Clone, Copy, Debug, PartialEq, Eq, Structural)]
pub enum FailureKind {
    /// No link could be had for an archive, on the last try.
    Resolve,
    /// An archive could not be fetched whole, on the last try.
    Transfer,
    /// An archive could not be extracted.
    Extract,
    /// The version marker could not be written.
    Io,
    /// The caller reported something that the run was not waiting for.
    Protocol,
}

/// How a run ended well.
#[derive(Clone, Copy, Debug, PartialEq, Eq, Structural)]
pub enum Completion {
    /// Every needed archive is applied and the marker is advanced.
    Updated,
    /// The full package is applied; the marker was not touched.
    Installed,
    /// The user declined the full package; nothing was fetched.
    Declined,
}

/// Where a run stands.
#[derive(Clone, Copy, Debug, PartialEq, Eq, Structural)]
pub enum Stage {
    Idle,
    Confirming,
    Resolving,
    Transferring,
    Extracting,
    Committing,
    Done(Completion),
    Failed(FailureKind),
}

/// What the caller reports.
#[derive(Clone, Debug, PartialEq, Eq)]
pub enum Event {
    /// The run is to begin.
    Started,
    /// The user's answer to the question whether to fetch the full package.
    Confirmed(bool),
    /// The link service answered with this URL.
    Resolved(String),
    ResolveFailed,
    Transferred,
    TransferFailed,
    Extracted,
    ExtractFailed,
    Committed,
    CommitFailed,
}

/// What the caller is to do next.
#[derive(Clone, Debug, PartialEq, Eq)]
pub enum Action {
    /// Ask the user whether to fetch the full package.
    Confirm,
    /// Ask the link service for a URL of `remote_path`.
    Resolve { remote_path: String },
    /// Fetch `url` into the file `destination`, resuming what is there.
    Transfer { url: String, destination: String },
    /// Extract the file `archive` into the directory `target`.
    Extract { archive: String, target: String },
    /// Replace the version marker in `install_dir` by `version`.
    Commit { install_dir: String, version: String },
    /// The run has ended well.
    Finish(Completion),
    /// The run has stopped.
    Abort(FailureKind),
}

/// An event in contracts.
pub enum EventView {
    Started,
    Confirmed(bool),
    Resolved(Seq<char>),
    ResolveFailed,
    Transferred,
    TransferFailed,
    Extracted,
    ExtractFailed,
    Committed,
    CommitFailed,
}

/// An action in contracts.
pub enum ActionView {
    Confirm,
    Resolve { remote_path: Seq<char> },
    Transfer { url: Seq<char>, destination: Seq<char> },
    Extract { archive: Seq<char>, target: Seq<char> },
    Commit { install_dir: Seq<char>, version: Seq<char> },
    Finish(Completion),
    Abort(FailureKind),
}

impl View for Event {
    type V = EventView;

    open spec fn view(&self) -> EventView {
        match self {
            Event::Started => EventView::Started,
            Event::Confirmed(yes) => EventView::Confirmed(*yes),
            Event::Resolved(url) => EventView::Resolved(url@),
            Event::ResolveFailed => EventView::ResolveFailed,
            Event::Transferred => EventView::Transferred,
            Event::TransferFailed => EventView::TransferFailed,
            Event::Extracted => EventView::Extracted,
            Event::ExtractFailed => EventView::ExtractFailed,
            Event::Committed => EventView::Committed,
            Event::CommitFailed => EventView::CommitFailed,
        }
    }
}

impl View for Action {
    type V = ActionView;

    open spec fn view(&self) -> ActionView {
        match self {
            Action::Confirm => ActionView::Confirm,
            Action::Resolve { remote_path } => ActionView::Resolve { remote_path: remote_path@ },
            Action::Transfer { url, destination } => ActionView::Transfer {
                url: url@,
                destination: destination@,
            },
            Action::Extract { archive, target } => ActionView::Extract {
                archive: archive@,
                target: target@,
            },
            Action::Commit { install_dir, version } => ActionView::Commit {
                install_dir: install_dir@,
                version: version@,
            },
            Action::Finish(completion) => ActionView::Finish(*completion),
            Action::Abort(kind) => ActionView::Abort(*kind),
        }
    }
}

/// The state of a run in contracts.
pub struct RunView {
    /// The needed releases, in the order in which they are applied; none
    /// where the full package is to be installed.
    pub releases: Seq<ReleaseView>,
    /// The directory that archives are extracted into and that holds the
    /// version marker.
    pub install_dir: Seq<char>,
    /// The remote path of the full package.
    pub full_remote: Seq<char>,
    /// The local file of the full package.
    pub full_local: Seq<char>,
    /// The position of the archive in hand.
    pub index: nat,
    /// The tries that have failed for the archive in hand.
    pub attempts: nat,
    pub stage: Stage,
}

/// The local file of an archive.
pub open spec fn destination_of(remote_path: Seq<char>) -> Seq<char> {
    "Download/"@ + remote_path
}

impl RunView {
    /// A run without needed archives installs the full package.
    pub open spec fn full_install(self) -> bool {
        self.releases.len() == 0
    }

    /// A run is sound if its position lies in its list while an archive is
    /// in hand, and on the last archive while the marker is written.
    pub open spec fn sound(self) -> bool {
        &&& self.attempts <= MAX_ATTEMPTS
        &&& self.index <= self.releases.len() <= usize::MAX
        &&& self.stage is Idle ==> self.index == 0 && self.attempts == 0
        &&& self.stage is Confirming ==> self.full_install() && self.index == 0 && self.attempts
            == 0
        &&& (self.stage is Resolving || self.stage is Transferring) ==> self.attempts
            < MAX_ATTEMPTS
        &&& (self.stage is Resolving || self.stage is Transferring || self.stage is Extracting)
            ==> (self.full_install() && self.index == 0) || self.index < self.releases.len()
        &&& self.stage is Committing ==> self.index + 1 == self.releases.len()
    }

    /// The remote path of the archive in hand.
    pub open spec fn remote(self) -> Seq<char> {
        if self.full_install() {
            self.full_remote
        } else {
            self.releases[self.index as int].archive
        }
    }

    /// The local file of the archive in hand.
    pub open spec fn local(self) -> Seq<char> {
        if self.full_install() {
            self.full_local
        } else {
            destination_of(self.releases[self.index as int].archive)
        }
    }

    /// This run at another stage.
    pub open spec fn at(self, stage: Stage) -> RunView {
        RunView { stage, ..self }
    }

    /// After a failed try: once more from a fresh link while tries are left,
    /// else the run stops.
    pub open spec fn after_failure(self, kind: FailureKind) -> (RunView, ActionView) {
        let attempts = (self.attempts + 1) as nat;
        if attempts < MAX_ATTEMPTS {
            (
                RunView { attempts, stage: Stage::Resolving, ..self },
                ActionView::Resolve { remote_path: self.remote() },
            )
        } else {
            (RunView { attempts, stage: Stage::Failed(kind), ..self }, ActionView::Abort(kind))
        }
    }

    /// After an archive is extracted: the full package ends the run, the
    /// last needed release has the marker written with its version, any
    /// other is followed by the next.
    pub open spec fn after_extraction(self) -> (RunView, ActionView) {
        if self.full_install() {
            (self.at(Stage::Done(Completion::Installed)), ActionView::Finish(Completion::Installed))
        } else if self.index + 1 < self.releases.len() {
            (
                RunView {
                    index: (self.index + 1) as nat,
                    attempts: 0,
                    stage: Stage::Resolving,
                    ..self
                },
                ActionView::Resolve { remote_path: self.releases[self.index as int + 1].archive },
            )
        } else {
            (
                self.at(Stage::Committing),
                ActionView::Commit {
                    install_dir: self.install_dir,
                    version: dotted(self.releases[self.index as int].version),
                },
            )
        }
    }

    /// The run stops as broken.
    pub open spec fn broken(self) -> (RunView, ActionView) {
        (self.at(Stage::Failed(FailureKind::Protocol)), ActionView::Abort(FailureKind::Protocol))
    }

    /// The state that follows an event, and what is to be done next.
    pub open spec fn next(self, event: EventView) -> (RunView, ActionView) {
        match self.stage {
            Stage::Idle => match event {
                EventView::Started => if self.full_install() {
                    (self.at(Stage::Confirming), ActionView::Confirm)
                } else {
                    (self.at(Stage::Resolving), ActionView::Resolve { remote_path: self.remote() })
                },
                _ => self.broken(),
            },
            Stage::Confirming => match event {
                EventView::Confirmed(true) => (
                    self.at(Stage::Resolving),
                    ActionView::Resolve { remote_path: self.remote() },
                ),
                EventView::Confirmed(false) => (
                    self.at(Stage::Done(Completion::Declined)),
                    ActionView::Finish(Completion::Declined),
                ),
                _ => self.broken(),
            },
            Stage::Resolving => match event {
                EventView::Resolved(url) => (
                    self.at(Stage::Transferring),
                    ActionView::Transfer { url, destination: self.local() },
                ),
                EventView::ResolveFailed => self.after_failure(FailureKind::Resolve),
                _ => self.broken(),
            },
            Stage::Transferring => match event {
                EventView::Transferred => (
                    self.at(Stage::Extracting),
                    ActionView::Extract { archive: self.local(), target: self.install_dir },
                ),
                EventView::TransferFailed => self.after_failure(FailureKind::Transfer),
                _ => self.broken(),
            },
            Stage::Extracting => match event {
                EventView::Extracted => self.after_extraction(),
                EventView::ExtractFailed => (
                    self.at(Stage::Failed(FailureKind::Extract)),
                    ActionView::Abort(FailureKind::Extract),
                ),
                _ => self.broken(),
            },
            Stage::Committing => match event {
                EventView::Committed => (
                    self.at(Stage::Done(Completion::Updated)),
                    ActionView::Finish(Completion::Updated),
                ),
                EventView::CommitFailed => (
                    self.at(Stage::Failed(FailureKind::Io)),
                    ActionView::Abort(FailureKind::Io),
                ),
                _ => self.broken(),
            },
            Stage::Done(completion) => (self, ActionView::Finish(completion)),
            Stage::Failed(kind) => (self, ActionView::Abort(kind)),
        }
    }
}

/// A run over the needed archives, or over the full package where none is
/// needed.
#[derive(Debug)]
pub struct Orchestrator {
    releases: Vec<Release>,
    install_dir: String,
    full_remote: String,
    full_local: String,
    index: usize,
    attempts: u8,
    stage: Stage,
}

impl View for Orchestrator {
    type V = RunView;

    closed spec fn view(&self) -> RunView {
        RunView {
            releases: release_views(self.releases@),
            install_dir: self.install_dir@,
            full_remote: self.full_remote@,
            full_local: self.full_local@,
            index: self.index as nat,
            attempts: self.attempts as nat,
            stage: self.stage,
        }
    }
}

/// The local file of an archive.
pub fn archive_destination(remote_path: &str) -> (destination: String)
    ensures
        destination@ == destination_of(remote_path@),
{
    let mut destination = String::from_str("Download/");
    destination.append(remote_path);
    destination
}

impl Orchestrator {
    #[verifier::type_invariant]
    spec fn is_sound(self) -> bool {
        self@.sound()
    }

    /// A run that has not begun: over `needed`, in that order, or over the
    /// full package where `needed` is empty.
    pub fn new(needed: Vec<Release>, install_dir: String, full_remote: String, full_local: String) -> (run:
        Orchestrator)
        ensures
            run@ == (RunView {
                releases: release_views(needed@),
                install_dir: install_dir@,
                full_remote: full_remote@,
                full_local: full_local@,
                index: 0,
                attempts: 0,
                stage: Stage::Idle,
            }),
            run@.sound(),
    {
        assert(release_views(needed@).len() == needed.len());
        Orchestrator {
            releases: needed,
            install_dir,
            full_remote,
            full_local,
            index: 0,
            attempts: 0,
            stage: Stage::Idle,
        }
    }

    /// Where the run stands.
    pub fn stage(&self) -> (stage: Stage)
        ensures
            stage == self@.stage,
    {
        self.stage
    }

    /// The tries that have failed for the archive in hand.
    pub fn attempts(&self) -> (attempts: u8)
        ensures
            attempts == self@.attempts,
    {
        self.attempts
    }

    /// The position of the archive in hand.
    pub fn position(&self) -> (index: usize)
        ensures
            index == self@.index,
    {
        self.index
    }

    /// The remote path of the archive in hand.
    fn remote(&self) -> (path: String)
        requires
            self@.full_install() || self@.index < self@.releases.len(),
        ensures
            path@ == self@.remote(),
    {
        if self.releases.len() == 0 {
            self.full_remote.clone()
        } else {
            self.releases[self.index].archive.clone()
        }
    }

    /// The local file of the archive in hand.
    fn local(&self) -> (path: String)
        requires
            self@.full_install() || self@.index < self@.releases.len(),
        ensures
            path@ == self@.local(),
    {
        if self.releases.len() == 0 {
            self.full_local.clone()
        } else {
            archive_destination(self.releases[self.index].archive.as_str())
        }
    }

    /// This run at another stage.
    fn moved(self, stage: Stage) -> (run: Orchestrator)
        requires
            self@.at(stage).sound(),
        ensures
            run@ == self@.at(stage),
    {
        Orchestrator {
            releases: self.releases,
            install_dir: self.install_dir,
            full_remote: self.full_remote,
            full_local: self.full_local,
            index: self.index,
            attempts: self.attempts,
            stage,
        }
    }

    /// The run stops as broken.
    fn broken(self) -> (next: (Orchestrator, Action))
        ensures
            (next.0@, next.1@) == self@.broken(),
    {
        proof {
            use_type_invariant(&self);
        }
        (self.moved(Stage::Failed(FailureKind::Protocol)), Action::Abort(FailureKind::Protocol))
    }

    /// After a failed try: once more from a fresh link while tries are left,
    /// else the run stops.
    fn after_failure(self, kind: FailureKind) -> (next: (Orchestrator, Action))
        requires
            self@.stage is Resolving || self@.stage is Transferring,
        ensures
            (next.0@, next.1@) == self@.after_failure(kind),
    {
        proof {
            use_type_invariant(&self);
        }
        let attempts: u8 = self.attempts + 1;
        if attempts < MAX_ATTEMPTS {
            let remote_path = self.remote();
            (
                Orchestrator {
                    releases: self.releases,
                    install_dir: self.install_dir,
                    full_remote: self.full_remote,
                    full_local: self.full_local,
                    index: self.index,
                    attempts,
                    stage: Stage::Resolving,
                },
                Action::Resolve { remote_path },
            )
        } else {
            (
                Orchestrator {
                    releases: self.releases,
                    install_dir: self.install_dir,
                    full_remote: self.full_remote,
                    full_local: self.full_local,
                    index: self.index,
                    attempts,
                    stage: Stage::Failed(kind),
                },
                Action::Abort(kind),
            )
        }
    }

    /// After an archive is extracted: the end of the run, the writing of the
    /// marker, or the next archive.
    fn after_extraction(self) -> (next: (Orchestrator, Action))
        requires
            self@.stage is Extracting,
        ensures
            (next.0@, next.1@) == self@.after_extraction(),
    {
        proof {
            use_type_invariant(&self);
        }
        if self.releases.len() == 0 {
            (self.moved(Stage::Done(Completion::Installed)), Action::Finish(Completion::Installed))
        } else if self.index + 1 < self.releases.len() {
            let remote_path = self.releases[self.index + 1].archive.clone();
            (
                Orchestrator {
                    releases: self.releases,
                    install_dir: self.install_dir,
                    full_remote: self.full_remote,
                    full_local: self.full_local,
                    index: self.index + 1,
                    attempts: 0,
                    stage: Stage::Resolving,
                },
                Action::Resolve { remote_path },
            )
        } else {
            let version = self.releases[self.index].version.text();
            let install_dir = self.install_dir.clone();
            (self.moved(Stage::Committing), Action::Commit { install_dir, version })
        }
    }

    /// Takes the run one step on: from its state and what has just happened
    /// to the state that follows and what is to be done next.
    pub fn step(self, event: Event) -> (next: (Orchestrator, Action))
        ensures
            (next.0@, next.1@) == self@.next(event@),
            next.0@.sound(),
    {
        proof {
            use_type_invariant(&self);
            next_keeps_sound(self@, event@);
        }
        match self.stage {
            Stage::Idle => match event {
                Event::Started => if self.releases.len() == 0 {
                    (self.moved(Stage::Confirming), Action::Confirm)
                } else {
                    let remote_path = self.remote();
                    (self.moved(Stage::Resolving), Action::Resolve { remote_path })
                },
                _ => self.broken(),
            },
            Stage::Confirming => match event {
                Event::Confirmed(true) => {
                    let remote_path = self.remote();
                    (self.moved(Stage::Resolving), Action::Resolve { remote_path })
                },
                Event::Confirmed(false) => (
                    self.moved(Stage::Done(Completion::Declined)),
                    Action::Finish(Completion::Declined),
                ),
                _ => self.broken(),
            },
            Stage::Resolving => match event {
                Event::Resolved(url) => {
                    let destination = self.local();
                    (self.moved(Stage::Transferring), Action::Transfer { url, destination })
                },
                Event::ResolveFailed => self.after_failure(FailureKind::Resolve),
                _ => self.broken(),
            },
            Stage::Transferring => match event {
                Event::Transferred => {
                    let archive = self.local();
                    let target = self.install_dir.clone();
                    (self.moved(Stage::Extracting), Action::Extract { archive, target })
                },
                Event::TransferFailed => self.after_failure(FailureKind::Transfer),
                _ => self.broken(),
            },
            Stage::Extracting => match event {
                Event::Extracted => self.after_extraction(),
                Event::ExtractFailed => (
                    self.moved(Stage::Failed(FailureKind::Extract)),
                    Action::Abort(FailureKind::Extract),
                ),
                _ => self.broken(),
            },
            Stage::Committing => match event {
                Event::Committed => (
                    self.moved(Stage::Done(Completion::Updated)),
                    Action::Finish(Completion::Updated),
                ),
                Event::CommitFailed => (
                    self.moved(Stage::Failed(FailureKind::Io)),
                    Action::Abort(FailureKind::Io),
                ),
                _ => self.broken(),
            },
            Stage::Done(completion) => (self, Action::Finish(completion)),
            Stage::Failed(kind) => (self, Action::Abort(kind)),
        }
    }
}

/// A sound run stays sound, whatever is reported to it.
pub proof fn next_keeps_sound(run: RunView, event: EventView)
    requires
        run.sound(),
    ensures
        run.next(event).0.sound(),
{
}

/// The state of a run after a sequence of events.
pub open spec fn state_after(run: RunView, events: Seq<EventView>) -> RunView
    decreases events.len(),
{
    if events.len() == 0 {
        run
    } else {
        state_after(run, events.drop_last()).next(events.last()).0
    }
}

/// The action that answers the event at position `i` of a sequence.
pub open spec fn answer_to(run: RunView, events: Seq<EventView>, i: int) -> ActionView
    recommends
        0 <= i < events.len(),
{
    state_after(run, events.take(i)).next(events[i]).1
}

/// The stages in which a run can be once the marker was to be written.
pub open spec fn past_commit(stage: Stage) -> bool {
    stage is Committing || stage == Stage::Done(Completion::Updated) || stage == Stage::Failed(
        FailureKind::Io,
    ) || stage == Stage::Failed(FailureKind::Protocol)
}

/// The marker is written only when the last needed archive has just been
/// extracted, with the version of that release, and never in a run over the
/// full package.
pub proof fn commit_follows_last_extraction(run: RunView, event: EventView)
    requires
        run.sound(),
        run.next(event).1 is Commit,
    ensures
        run.stage is Extracting,
        event is Extracted,
        !run.full_install(),
        run.index + 1 == run.releases.len(),
        run.next(event).1 == (ActionView::Commit {
            install_dir: run.install_dir,
            version: dotted(run.releases.last().version),
        }),
{
}

/// An archive is extracted only when it has just been fetched whole.
pub proof fn extraction_follows_transfer(run: RunView, event: EventView)
    requires
        run.sound(),
        run.next(event).1 is Extract,
    ensures
        run.stage is Transferring,
        event is Transferred,
{
}

/// A run that has ended stays as it is, whatever is reported to it.
pub proof fn ended_run_stays(run: RunView, event: EventView)
    requires
        run.stage is Done || run.stage is Failed,
    ensures
        run.next(event).0 == run,
        run.stage matches Stage::Done(completion) ==> run.next(event).1 == ActionView::Finish(
            completion,
        ),
        run.stage matches Stage::Failed(kind) ==> run.next(event).1 == ActionView::Abort(kind),
{
}

/// An archive whose transfer fails three times in a row stops the run: from
/// a run that is about to resolve an archive for the first time, three
/// links that each end in a failed transfer lead to `Failed`, with the
/// archive neither extracted nor passed over, and the marker never written.
pub proof fn three_failed_transfers_stop_the_run(
    run: RunView,
    first: Seq<char>,
    second: Seq<char>,
    third: Seq<char>,
)
    requires
        run.sound(),
        run.stage is Resolving,
        run.attempts == 0,
    ensures
        ({
            let events = seq![
                EventView::Resolved(first),
                EventView::TransferFailed,
                EventView::Resolved(second),
                EventView::TransferFailed,
                EventView::Resolved(third),
                EventView::TransferFailed,
            ];
            &&& state_after(run, events).stage == Stage::Failed(FailureKind::Transfer)
            &&& state_after(run, events).index == run.index
            &&& answer_to(run, events, 5) == ActionView::Abort(FailureKind::Transfer)
            &&& forall|i: int|
                0 <= i < 6 ==> !(#[trigger] answer_to(run, events, i) is Extract) && !(answer_to(
                    run,
                    events,
                    i,
                ) is Commit)
        }),
{
    let events = seq![
        EventView::Resolved(first),
        EventView::TransferFailed,
        EventView::Resolved(second),
        EventView::TransferFailed,
        EventView::Resolved(third),
        EventView::TransferFailed,
    ];
    let s0 = run;
    let s1 = s0.next(events[0]).0;
    let s2 = s1.next(events[1]).0;
    let s3 = s2.next(events[2]).0;
    let s4 = s3.next(events[3]).0;
    let s5 = s4.next(events[4]).0;
    let s6 = s5.next(events[5]).0;
    assert(state_after(run, events.take(0)) == s0);
    assert(events.take(1).drop_last() =~= events.take(0));
    assert(state_after(run, events.take(1)) == s1);
    assert(events.take(2).drop_last() =~= events.take(1));
    assert(state_after(run, events.take(2)) == s2);
    assert(events.take(3).drop_last() =~= events.take(2));
    assert(state_after(run, events.take(3)) == s3);
    assert(events.take(4).drop_last() =~= events.take(3));
    assert(state_after(run, events.take(4)) == s4);
    assert(events.take(5).drop_last() =~= events.take(4));
    assert(state_after(run, events.take(5)) == s5);
    assert(events.drop_last() =~= events.take(5));
    assert(state_after(run, events) == s6);
}

/// While the marker has not been written, a run is not past its writing; and
/// a run that is, stays so.
proof fn commit_is_remembered(run: RunView, events: Seq<EventView>, n: int)
    requires
        run.sound(),
        run.stage is Idle,
        0 <= n <= events.len(),
    ensures
        state_after(run, events.take(n)).sound(),
        (exists|i: int| 0 <= i < n && answer_to(run, events, i) is Commit) ==> past_commit(
            state_after(run, events.take(n)).stage,
        ),
    decreases n,
{
    if n == 0 {
        assert(events.take(0) =~= Seq::<EventView>::empty());
    } else {
        commit_is_remembered(run, events, n - 1);
        let before = state_after(run, events.take(n - 1));
        assert(events.take(n).drop_last() =~= events.take(n - 1));
        assert(events.take(n).last() == events[n - 1]);
        next_keeps_sound(before, events[n - 1]);
        if exists|i: int| 0 <= i < n && answer_to(run, events, i) is Commit {
            let i = choose|i: int| 0 <= i < n && answer_to(run, events, i) is Commit;
            if i == n - 1 {
                commit_follows_last_extraction(before, events[n - 1]);
            } else {
                assert(past_commit(before.stage));
            }
        }
    }
}

/// A run that stops because an archive could not be resolved, fetched or
/// extracted has not written the marker: from a run that has not begun, no
/// action on the way to such a failure is a `Commit`.
pub proof fn marker_untouched_by_failed_run(run: RunView, events: Seq<EventView>)
    requires
        run.sound(),
        run.stage is Idle,
        state_after(run, events).stage == Stage::Failed(FailureKind::Resolve) || state_after(
            run,
            events,
        ).stage == Stage::Failed(FailureKind::Transfer) || state_after(run, events).stage
            == Stage::Failed(FailureKind::Extract),
    ensures
        forall|i: int| 0 <= i < events.len() ==> !(#[trigger] answer_to(run, events, i) is Commit),
{
    commit_is_remembered(run, events, events.len() as int);
    assert(events.take(events.len() as int) =~= events);
}

} // verus!
