//! Driving a plan: a state machine that is told what the host observed and
//! answers with what to do next.
//!
//! The caller asks the session for its directive, carries it out (probe a
//! path, run a command), and reports the observation back with `advance`,
//! until the directive is `Finished` or `Failed`. A step that does not hold
//! (a failed probe, a command that cannot start or exits unsuccessfully)
//! ends the session with that step's error; nothing after it is asked for.

use vstd::prelude::*;
use crate::error::{ErrorView, ToolError};
use crate::plan::{Action, ActionView, CommandSpec, CommandView, Probe, ProbeView, actions_view};

verus! {

/// How a host command ended.
#[derive(Debug)]
pub struct Exit {
    /// Whether it exited successfully.
    pub success: bool,
    /// Its exit status as text.
    pub status: String,
    /// Its standard output as text.
    pub stdout: String,
    /// Its standard error as text.
    pub stderr: String,
}

/// What the host reports back for a directive.
#[derive(Debug)]
pub enum Observation {
    /// The answer to a `Probe` directive.
    Probed(bool),
    /// A command of a `Run` directive ran and ended.
    Exited(Exit),
    /// A command of a `Run` directive could not be started, for the reason
    /// given.
    SpawnFailed(String),
}

pub enum ObservationView {
    Probed(bool),
    Exited { success: bool, status: Seq<char>, stdout: Seq<char>, stderr: Seq<char> },
    SpawnFailed(Seq<char>),
}

impl View for Observation {
    type V = ObservationView;

    open spec fn view(&self) -> ObservationView {
        match self {
            Observation::Probed(b) => ObservationView::Probed(*b),
            Observation::Exited(e) => ObservationView::Exited {
                success: e.success,
                status: e.status@,
                stdout: e.stdout@,
                stderr: e.stderr@,
            },
            Observation::SpawnFailed(reason) => ObservationView::SpawnFailed(reason@),
        }
    }
}

/// What the session asks for next.
#[derive(Debug)]
pub enum Directive {
    /// Test this fact about the file system and report `Probed`.
    Probe(Probe),
    /// Run this command and report `Exited` or `SpawnFailed`.
    Run(CommandSpec),
    /// Every step held; `log` is the output of the last command run.
    Finished { log: String },
    /// A step did not hold.
    Failed(ToolError),
}

pub enum DirectiveView {
    Probe(ProbeView),
    Run(CommandView),
    Finished(Seq<char>),
    Failed(ErrorView),
}

impl View for Directive {
    type V = DirectiveView;

    open spec fn view(&self) -> DirectiveView {
        match self {
            Directive::Probe(p) => DirectiveView::Probe(p@),
            Directive::Run(c) => DirectiveView::Run(c@),
            Directive::Finished { log } => DirectiveView::Finished(log@),
            Directive::Failed(e) => DirectiveView::Failed(e@),
        }
    }
}

/// The state of a session driving a plan.
pub struct Session {
    actions: Vec<Action>,
    pos: usize,
    log: String,
    failure: Option<ToolError>,
}

/// A session as plain values: the plan, how many of its steps have held,
/// the output of the last command, and the error that ended it, if any.
pub struct SessionView {
    pub actions: Seq<ActionView>,
    pub pos: nat,
    pub log: Seq<char>,
    pub failure: Option<ErrorView>,
}

impl View for Session {
    type V = SessionView;

    closed spec fn view(&self) -> SessionView {
        SessionView {
            actions: actions_view(self.actions@),
            pos: self.pos as nat,
            log: self.log@,
            failure: match self.failure {
                Some(e) => Some(e@),
                None => None,
            },
        }
    }
}

/// A fresh session on a plan.
pub open spec fn start(actions: Seq<ActionView>) -> SessionView {
    SessionView { actions, pos: 0, log: Seq::empty(), failure: None }
}

/// What a pending step asks of the host.
pub open spec fn pending(a: ActionView) -> DirectiveView {
    match a {
        ActionView::Require { probe, unmet } => DirectiveView::Probe(probe),
        ActionView::Run(c) => DirectiveView::Run(c),
    }
}

/// Whether the session has ended, by failure or by running out of steps.
pub open spec fn halted(s: SessionView) -> bool {
    s.failure is Some || s.pos >= s.actions.len()
}

/// What a session in state `s` asks for.
pub open spec fn directive(s: SessionView) -> DirectiveView {
    match s.failure {
        Some(e) => DirectiveView::Failed(e),
        None => if s.pos < s.actions.len() {
            pending(s.actions[s.pos as int])
        } else {
            DirectiveView::Finished(s.log)
        },
    }
}

/// The next state after observing `o`. A halted session ignores what it is
/// told, and so does one that is told something unrelated to its pending
/// step (an exit while it waits for a probe, for instance).
pub open spec fn step(s: SessionView, o: ObservationView) -> SessionView {
    if halted(s) {
        s
    } else {
        match s.actions[s.pos as int] {
            ActionView::Require { probe, unmet } => match o {
                ObservationView::Probed(true) => SessionView { pos: s.pos + 1, ..s },
                ObservationView::Probed(false) => SessionView { failure: Some(unmet), ..s },
                _ => s,
            },
            ActionView::Run(_) => match o {
                ObservationView::Exited { success, status, stdout, stderr } => if success {
                    SessionView { pos: s.pos + 1, log: stdout, ..s }
                } else {
                    SessionView {
                        failure: Some(crate::error::command_failed(status, stderr)),
                        ..s
                    }
                },
                ObservationView::SpawnFailed(reason) => SessionView {
                    failure: Some(ErrorView::SpawnFailed { cause: reason }),
                    ..s
                },
                _ => s,
            },
        }
    }
}

impl Exit {
    /// A copy of this exit report.
    pub fn duplicate(&self) -> (e: Exit)
        ensures
            e.success == self.success,
            e.status@ == self.status@,
            e.stdout@ == self.stdout@,
            e.stderr@ == self.stderr@,
    {
        Exit {
            success: self.success,
            status: self.status.clone(),
            stdout: self.stdout.clone(),
            stderr: self.stderr.clone(),
        }
    }
}

impl Session {
    /// A session that has not yet taken any step of `actions`.
    pub fn new(actions: Vec<Action>) -> (s: Session)
        ensures
            s@ == start(actions_view(actions@)),
    {
        let s = Session { actions, pos: 0, log: String::new(), failure: None };
        assert(s@.log =~= Seq::<char>::empty());
        s
    }

    /// What this session asks for now.
    pub fn directive(&self) -> (d: Directive)
        ensures
            d@ == directive(self@),
    {
        match &self.failure {
            Some(e) => Directive::Failed(e.duplicate()),
            None => {
                if self.pos < self.actions.len() {
                    let ghost i = self.pos as int;
                    assert(self@.actions[i] == self.actions@[i]@);
                    match &self.actions[self.pos] {
                        Action::Require { probe, unmet } => Directive::Probe(probe.duplicate()),
                        Action::Run(c) => Directive::Run(c.duplicate()),
                    }
                } else {
                    Directive::Finished { log: self.log.clone() }
                }
            },
        }
    }

    /// Takes in what the host observed for the pending step, and answers
    /// with what to do next.
    pub fn advance(&mut self, o: Observation) -> (d: Directive)
        ensures
            final(self)@ == step(old(self)@, o@),
            d@ == directive(final(self)@),
    {
        if self.failure.is_none() && self.pos < self.actions.len() {
            let ghost i = self.pos as int;
            assert(self@.actions[i] == self.actions@[i]@);
            let mut next_failure: Option<ToolError> = None;
            let mut advanced = false;
            match &self.actions[self.pos] {
                Action::Require { probe, unmet } => {
                    match &o {
                        Observation::Probed(true) => {
                            advanced = true;
                        },
                        Observation::Probed(false) => {
                            next_failure = Some(unmet.duplicate());
                        },
                        _ => {},
                    }
                },
                Action::Run(_) => {
                    match &o {
                        Observation::Exited(e) => {
                            if e.success {
                                advanced = true;
                            } else {
                                next_failure = Some(
                                    ToolError::command_failed(e.status.as_str(), e.stderr.as_str()),
                                );
                            }
                        },
                        Observation::SpawnFailed(reason) => {
                            next_failure = Some(ToolError::SpawnFailed { cause: reason.clone() });
                        },
                        _ => {},
                    }
                },
            }
            if advanced {
                match o {
                    Observation::Exited(e) => {
                        self.log = e.stdout;
                    },
                    _ => {},
                }
                self.pos = self.pos + 1;
            } else {
                match next_failure {
                    Some(f) => {
                        self.failure = Some(f);
                    },
                    None => {},
                }
            }
        }
        self.directive()
    }
}

// ---------------------------------------------------------------------
// Laws of a session
// ---------------------------------------------------------------------

/// The state after observing each of `obs` in turn.
pub open spec fn run_all(s: SessionView, obs: Seq<ObservationView>) -> SessionView
    decreases obs.len(),
{
    if obs.len() == 0 {
        s
    } else {
        step(run_all(s, obs.drop_last()), obs.last())
    }
}

/// Whether `o` says that step `a` held.
pub open spec fn holds(a: ActionView, o: ObservationView) -> bool {
    match a {
        ActionView::Require { .. } => o == ObservationView::Probed(true),
        ActionView::Run(_) => o matches ObservationView::Exited { success: true, .. },
    }
}

/// Whether `o` reports a command that ran and exited successfully.
pub open spec fn succeeded(o: ObservationView) -> bool {
    o matches ObservationView::Exited { success: true, .. }
}

/// The error `o` ends the session with when it says that step `a` did not
/// hold, if it says so.
pub open spec fn refusal(a: ActionView, o: ObservationView) -> Option<ErrorView> {
    match a {
        ActionView::Require { probe, unmet } => match o {
            ObservationView::Probed(false) => Some(unmet),
            _ => None,
        },
        ActionView::Run(_) => match o {
            ObservationView::Exited { success, status, stdout, stderr } => if success {
                None
            } else {
                Some(crate::error::command_failed(status, stderr))
            },
            ObservationView::SpawnFailed(reason) => Some(ErrorView::SpawnFailed { cause: reason }),
            _ => None,
        },
    }
}

/// The standard output of the last command among `obs`, empty if none ran.
pub open spec fn last_log(obs: Seq<ObservationView>) -> Seq<char>
    decreases obs.len(),
{
    if obs.len() == 0 {
        Seq::empty()
    } else {
        match obs.last() {
            ObservationView::Exited { stdout, .. } => stdout,
            _ => last_log(obs.drop_last()),
        }
    }
}

/// Whether the first `k` observations each say that their step held.
pub open spec fn held_through(a: Seq<ActionView>, obs: Seq<ObservationView>, k: int) -> bool {
    &&& 0 <= k <= obs.len()
    &&& k <= a.len()
    &&& forall|i: int| 0 <= i < k ==> holds(#[trigger] a[i], obs[i])
}

proof fn lemma_held_prefix(a: Seq<ActionView>, obs: Seq<ObservationView>, k: int)
    requires
        held_through(a, obs, k),
    ensures
        run_all(start(a), obs.take(k)) == (SessionView {
            actions: a,
            pos: k as nat,
            log: last_log(obs.take(k)),
            failure: None,
        }),
    decreases k,
{
    if k == 0 {
        assert(obs.take(0) =~= Seq::<ObservationView>::empty());
    } else {
        lemma_held_prefix(a, obs, k - 1);
        let prefix = obs.take(k);
        assert(prefix.drop_last() =~= obs.take(k - 1));
        assert(prefix.last() == obs[k - 1]);
        assert(holds(a[k - 1], obs[k - 1]));
    }
}

/// A halted session stays as it is, whatever it is told next: once it has
/// failed it keeps reporting that failure, and once it has finished it asks
/// for nothing more.
pub proof fn halted_session_is_unmoved(s: SessionView, o: ObservationView)
    requires
        halted(s),
    ensures
        step(s, o) == s,
        directive(step(s, o)) == directive(s),
{
}

/// Halted sessions stay halted and unchanged through any further run of
/// observations.
pub proof fn halted_session_ignores_all(s: SessionView, obs: Seq<ObservationView>)
    requires
        halted(s),
    ensures
        run_all(s, obs) == s,
    decreases obs.len(),
{
    if obs.len() > 0 {
        halted_session_ignores_all(s, obs.drop_last());
    }
}

/// When every step holds, a session asks for the steps of its plan one by
/// one and in order, and then finishes with the output of the last command.
pub proof fn session_runs_plan_in_order(a: Seq<ActionView>, obs: Seq<ObservationView>)
    requires
        obs.len() == a.len(),
        forall|i: int| 0 <= i < a.len() ==> holds(#[trigger] a[i], obs[i]),
    ensures
        forall|k: int|
            0 <= k < a.len() ==> directive(#[trigger] run_all(start(a), obs.take(k))) == pending(
                a[k],
            ),
        directive(run_all(start(a), obs)) == DirectiveView::Finished(last_log(obs)),
{
    assert forall|k: int| 0 <= k < a.len() implies directive(
        #[trigger] run_all(start(a), obs.take(k)),
    ) == pending(a[k]) by {
        lemma_held_prefix(a, obs, k);
    }
    lemma_held_prefix(a, obs, a.len() as int);
    assert(obs.take(a.len() as int) =~= obs);
}

/// When the steps before step `k` hold and the observation for step `k`
/// says it did not, the session fails with that step's error and keeps
/// failing with it, and no step after `k` is asked for.
pub proof fn session_stops_at_refused_step(
    a: Seq<ActionView>,
    obs: Seq<ObservationView>,
    k: int,
)
    requires
        held_through(a, obs, k),
        k < a.len(),
        k < obs.len(),
        refusal(a[k], obs[k]) is Some,
    ensures
        forall|m: int|
            k < m <= obs.len() ==> directive(#[trigger] run_all(start(a), obs.take(m)))
                == DirectiveView::Failed(refusal(a[k], obs[k])->0),
{
    lemma_held_prefix(a, obs, k);
    let failed = run_all(start(a), obs.take(k + 1));
    assert(obs.take(k + 1).drop_last() =~= obs.take(k));
    assert(failed.failure == Some(refusal(a[k], obs[k])->0));
    assert forall|m: int| k < m <= obs.len() implies directive(
        #[trigger] run_all(start(a), obs.take(m)),
    ) == DirectiveView::Failed(refusal(a[k], obs[k])->0) by {
        lemma_run_all_split(start(a), obs.take(m), k + 1);
        assert(obs.take(m).take(k + 1) =~= obs.take(k + 1));
        halted_session_ignores_all(failed, obs.take(m).skip(k + 1));
    }
}

proof fn lemma_run_all_split(s: SessionView, obs: Seq<ObservationView>, j: int)
    requires
        0 <= j <= obs.len(),
    ensures
        run_all(s, obs) == run_all(run_all(s, obs.take(j)), obs.skip(j)),
    decreases obs.len(),
{
    if obs.len() == j {
        assert(obs.take(j) =~= obs);
        assert(obs.skip(j) =~= Seq::<ObservationView>::empty());
    } else {
        lemma_run_all_split(s, obs.drop_last(), j);
        assert(obs.drop_last().take(j) =~= obs.take(j));
        assert(obs.skip(j).drop_last() =~= obs.drop_last().skip(j));
        assert(obs.skip(j).last() == obs.last());
    }
}

/// The observations that moved the session on, in the order they came:
/// one for each step that held.
pub open spec fn progress(a: Seq<ActionView>, obs: Seq<ObservationView>) -> Seq<ObservationView>
    decreases obs.len(),
{
    if obs.len() == 0 {
        Seq::empty()
    } else {
        let before = run_all(start(a), obs.drop_last());
        let p = progress(a, obs.drop_last());
        if !halted(before) && holds(before.actions[before.pos as int], obs.last()) {
            p.push(obs.last())
        } else {
            p
        }
    }
}

proof fn lemma_progress(a: Seq<ActionView>, obs: Seq<ObservationView>)
    ensures
        ({
            let s = run_all(start(a), obs);
            let p = progress(a, obs);
            &&& s.actions == a
            &&& s.pos == p.len()
            &&& s.pos <= a.len()
            &&& s.log == last_log(p)
            &&& forall|i: int| 0 <= i < p.len() ==> holds(#[trigger] a[i], p[i])
            &&& forall|i: int| 0 <= i < p.len() ==> obs.contains(#[trigger] p[i])
        }),
    decreases obs.len(),
{
    if obs.len() > 0 {
        let init = obs.drop_last();
        lemma_progress(a, init);
        let before = run_all(start(a), init);
        let p0 = progress(a, init);
        let o = obs.last();
        let p = progress(a, obs);
        assert forall|i: int| 0 <= i < p.len() implies obs.contains(#[trigger] p[i]) by {
            if i < p0.len() {
                assert(init.contains(p0[i]));
                let k = choose|k: int| 0 <= k < init.len() && init[k] == p0[i];
                assert(obs[k] == init[k]);
            } else {
                assert(obs[obs.len() - 1] == o);
            }
        }
        if !halted(before) && holds(before.actions[before.pos as int], o) {
            assert(p == p0.push(o));
            assert(p.drop_last() =~= p0);
            assert forall|i: int| 0 <= i < p.len() implies holds(#[trigger] a[i], p[i]) by {
                if i < p0.len() {
                    assert(p[i] == p0[i]);
                }
            }
        }
    }
}

/// A session that finishes has had every step of its plan hold, one after
/// the other, each on an observation it was told; and its log is the
/// output of the last command among them.
pub proof fn finished_session_ran_every_step(a: Seq<ActionView>, obs: Seq<ObservationView>)
    requires
        directive(run_all(start(a), obs)) is Finished,
    ensures
        ({
            let p = progress(a, obs);
            &&& p.len() == a.len()
            &&& forall|i: int| 0 <= i < a.len() ==> holds(#[trigger] a[i], p[i])
            &&& forall|i: int| 0 <= i < p.len() ==> obs.contains(#[trigger] p[i])
            &&& directive(run_all(start(a), obs)) == DirectiveView::Finished(last_log(p))
        }),
{
    lemma_progress(a, obs);
}

} // verus!
