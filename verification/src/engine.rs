use vstd::prelude::*;
use crate::error::OuraError;
use crate::types::{ActionLog, FeedbackEntry, FeedbackKind};

verus! {

/// The status of a loop.
#[derive(PartialEq, Eq, Structural, Debug, Clone, Copy)]
pub enum LoopStatus {
    Running,
    Completed,
    Failed,
    Stopped,
}

impl LoopStatus {
    /// The name under which the status is reported (`"running"`, ...).
    pub fn as_str(&self) -> (s: &'static str)
        ensures
            s@ == self.spec_name(),
    {
        match self {
            LoopStatus::Running => "running",
            LoopStatus::Completed => "completed",
            LoopStatus::Failed => "failed",
            LoopStatus::Stopped => "stopped",
        }
    }

    pub open spec fn spec_name(&self) -> Seq<char> {
        match self {
            LoopStatus::Running => "running"@,
            LoopStatus::Completed => "completed"@,
            LoopStatus::Failed => "failed"@,
            LoopStatus::Stopped => "stopped"@,
        }
    }
}

/// The settings a loop was started with.
///
/// Scores are whole numbers from 0 to 100, so a convergence threshold is kept as
/// `min_score`: the least score that counts as converged.
#[derive(Debug)]
pub struct OuraConfig {
    pub max_iterations: u32,
    pub min_score: u32,
    pub max_runtime_secs: u64,
    pub working_directory: Option<String>,
}

impl Clone for OuraConfig {
    fn clone(&self) -> (r: Self)
        ensures
            r == *self,
    {
        OuraConfig {
            max_iterations: self.max_iterations,
            min_score: self.min_score,
            max_runtime_secs: self.max_runtime_secs,
            working_directory: self.working_directory.clone(),
        }
    }
}

impl Default for OuraConfig {
    fn default() -> (r: Self)
        ensures
            r.max_iterations == 20,
            r.min_score == 90,
            r.max_runtime_secs == 3600,
            r.working_directory is None,
    {
        OuraConfig { max_iterations: 20, min_score: 90, max_runtime_secs: 3600, working_directory: None }
    }
}

/// The outcome of one iteration.
#[derive(Debug)]
pub struct IterationResult {
    pub iteration: u32,
    pub status: LoopStatus,
    pub started_at: String,
    pub completed_at: Option<String>,
    pub actions: Vec<ActionLog>,
    pub feedback: Vec<FeedbackEntry>,
    pub score: u32,
}

/// The mathematical value of an iteration result.
pub struct IterationResultView {
    pub iteration: u32,
    pub status: LoopStatus,
    pub started_at: String,
    pub completed_at: Option<String>,
    pub actions: Seq<ActionLog>,
    pub feedback: Seq<FeedbackEntry>,
    pub score: u32,
}

impl View for IterationResult {
    type V = IterationResultView;

    open spec fn view(&self) -> IterationResultView {
        IterationResultView {
            iteration: self.iteration,
            status: self.status,
            started_at: self.started_at,
            completed_at: self.completed_at,
            actions: self.actions@,
            feedback: self.feedback@,
            score: self.score,
        }
    }
}

impl Clone for IterationResult {
    fn clone(&self) -> (r: Self)
        ensures
            r@ == self@,
    {
        let actions = self.actions.clone();
        assert(actions@ =~= self.actions@);
        let feedback = self.feedback.clone();
        assert(feedback@ =~= self.feedback@);
        IterationResult {
            iteration: self.iteration,
            status: self.status,
            started_at: self.started_at.clone(),
            completed_at: self.completed_at.clone(),
            actions,
            feedback,
            score: self.score,
        }
    }
}

/// The state of a loop.
#[derive(Debug)]
pub struct LoopState {
    pub id: String,
    pub goal: String,
    pub config: OuraConfig,
    pub current_iteration: u32,
    pub history: Vec<IterationResult>,
    pub status: LoopStatus,
    pub start_time: String,
}

/// The mathematical value of a loop state.
pub struct LoopStateView {
    pub id: String,
    pub goal: String,
    pub config: OuraConfig,
    pub current_iteration: u32,
    pub history: Seq<IterationResultView>,
    pub status: LoopStatus,
    pub start_time: String,
}

pub open spec fn history_view(h: Seq<IterationResult>) -> Seq<IterationResultView> {
    h.map_values(|r: IterationResult| r@)
}

impl View for LoopState {
    type V = LoopStateView;

    open spec fn view(&self) -> LoopStateView {
        LoopStateView {
            id: self.id,
            goal: self.goal,
            config: self.config,
            current_iteration: self.current_iteration,
            history: history_view(self.history@),
            status: self.status,
            start_time: self.start_time,
        }
    }
}

impl Clone for LoopState {
    fn clone(&self) -> (r: Self)
        ensures
            r@ == self@,
    {
        let history = self.history.clone();
        assert(history_view(history@) =~= history_view(self.history@));
        LoopState {
            id: self.id.clone(),
            goal: self.goal.clone(),
            config: self.config.clone(),
            current_iteration: self.current_iteration,
            history,
            status: self.status,
            start_time: self.start_time.clone(),
        }
    }
}

/// Number of entries of the given kind.
pub open spec fn count_kind(fb: Seq<FeedbackEntry>, kind: FeedbackKind) -> nat
    decreases fb.len(),
{
    if fb.len() == 0 {
        0
    } else {
        count_kind(fb.drop_last(), kind) + if fb.last().kind == kind { 1nat } else { 0nat }
    }
}

/// The score of an iteration with the given numbers of errors and warnings:
/// 100, less 15 per error and 5 per warning, kept within 0 to 100.
pub open spec fn spec_score(errors: int, warnings: int) -> int {
    let raw = 100 - 15 * errors - 5 * warnings;
    if raw < 0 {
        0
    } else if raw > 100 {
        100
    } else {
        raw
    }
}

/// The score of an iteration that collected the given feedback.
pub open spec fn feedback_score(fb: Seq<FeedbackEntry>) -> int {
    spec_score(count_kind(fb, FeedbackKind::Error) as int, count_kind(fb, FeedbackKind::Warning) as int)
}

/// The status an iteration ends in.
pub open spec fn spec_outcome(score: int, min_score: int, iteration: int, max_iterations: int) -> LoopStatus {
    if score >= min_score {
        LoopStatus::Completed
    } else if iteration >= max_iterations {
        LoopStatus::Failed
    } else {
        LoopStatus::Running
    }
}

/// Counts the entries of the given kind.
pub fn count_feedback(fb: &Vec<FeedbackEntry>, kind: FeedbackKind) -> (n: usize)
    ensures
        n == count_kind(fb@, kind),
{
    let mut n: usize = 0;
    let mut i: usize = 0;
    while i < fb.len()
        invariant
            i <= fb.len(),
            n == count_kind(fb@.take(i as int), kind),
            n <= i,
        decreases fb.len() - i,
    {
        assert(fb@.take(i + 1).drop_last() =~= fb@.take(i as int));
        if fb[i].kind == kind {
            n = n + 1;
        }
        i = i + 1;
    }
    assert(fb@.take(fb.len() as int) =~= fb@);
    n
}

/// The score of an iteration with the given numbers of errors and warnings.
pub fn score_counts(errors: usize, warnings: usize) -> (s: u32)
    ensures
        s == spec_score(errors as int, warnings as int),
        s <= 100,
{
    if errors >= 7 || warnings >= 20 {
        0
    } else {
        let penalty: u32 = 15 * (errors as u32) + 5 * (warnings as u32);
        if penalty >= 100 {
            0
        } else {
            100 - penalty
        }
    }
}

/// The score of an iteration that collected the given feedback.
pub fn score_feedback(fb: &Vec<FeedbackEntry>) -> (s: u32)
    ensures
        s == feedback_score(fb@),
        s <= 100,
{
    let errors = count_feedback(fb, FeedbackKind::Error);
    let warnings = count_feedback(fb, FeedbackKind::Warning);
    score_counts(errors, warnings)
}

/// The status an iteration ends in: completed when the score reaches `min_score`,
/// failed when it does not and the iteration limit is reached, running otherwise.
pub fn iteration_outcome(score: u32, min_score: u32, iteration: u32, max_iterations: u32) -> (st: LoopStatus)
    ensures
        st == spec_outcome(score as int, min_score as int, iteration as int, max_iterations as int),
{
    if score >= min_score {
        LoopStatus::Completed
    } else if iteration >= max_iterations {
        LoopStatus::Failed
    } else {
        LoopStatus::Running
    }
}

/// Whether a background run has run out of time: a limit of 0 means none, and the
/// limit is passed once more whole seconds than it allows have elapsed.
pub fn runtime_exceeded(max_runtime_secs: u64, elapsed_secs: u64) -> (r: bool)
    ensures
        r == (max_runtime_secs > 0 && elapsed_secs > max_runtime_secs),
{
    max_runtime_secs > 0 && elapsed_secs > max_runtime_secs
}

/// Whether an iteration may begin: a loop exists, it is running, and no background
/// task drives it.
pub open spec fn can_begin(st: Option<LoopStateView>, background_active: bool) -> bool {
    &&& !background_active
    &&& st matches Some(s) && s.status == LoopStatus::Running
}

/// The loop after an iteration began: its counter moved on by one (saturating).
pub open spec fn after_begin(s: LoopStateView) -> LoopStateView {
    LoopStateView {
        current_iteration: if s.current_iteration < u32::MAX {
            (s.current_iteration + 1) as u32
        } else {
            s.current_iteration
        },
        ..s
    }
}

/// The result of an iteration numbered `iteration` that collected `feedback`.
pub open spec fn spec_iteration_result(
    iteration: u32,
    feedback: Seq<FeedbackEntry>,
    min_score: u32,
    max_iterations: u32,
    started_at: String,
    completed_at: String,
) -> IterationResultView {
    IterationResultView {
        iteration,
        status: spec_outcome(feedback_score(feedback), min_score as int, iteration as int, max_iterations as int),
        started_at,
        completed_at: Some(completed_at),
        actions: Seq::empty(),
        feedback,
        score: feedback_score(feedback) as u32,
    }
}

/// The loop after the result `r` was recorded: the result joins the history, and a
/// completed or failed iteration ends the loop with that status.
pub open spec fn after_record(s: LoopStateView, r: IterationResultView) -> LoopStateView {
    LoopStateView {
        status: if r.status == LoopStatus::Completed || r.status == LoopStatus::Failed {
            r.status
        } else {
            s.status
        },
        history: s.history.push(r),
        ..s
    }
}

/// The loop after a stop: a loop, if any, is marked stopped.
pub open spec fn after_stop(st: Option<LoopStateView>) -> Option<LoopStateView> {
    match st {
        Some(s) => Some(LoopStateView { status: LoopStatus::Stopped, ..s }),
        None => None,
    }
}

/// The loop after the run time ran out: a loop, if any, is marked failed.
pub open spec fn after_timeout(st: Option<LoopStateView>) -> Option<LoopStateView> {
    match st {
        Some(s) => Some(LoopStateView { status: LoopStatus::Failed, ..s }),
        None => None,
    }
}

/// The number of iterations a stop reports.
pub open spec fn stopped_iterations(st: Option<LoopStateView>) -> u32 {
    match st {
        Some(s) => s.current_iteration,
        None => 0,
    }
}

/// A loop whose history holds iterations 1, 2, ... up to its counter, and whose
/// counter can still move on while it runs.
pub open spec fn well_numbered(s: LoopStateView) -> bool {
    &&& s.history.len() == s.current_iteration
    &&& forall|i: int| 0 <= i < s.history.len() ==> #[trigger] s.history[i].iteration == i + 1
    &&& s.status == LoopStatus::Running ==> s.current_iteration < u32::MAX
}

/// The decisions of the loop engine: when a loop may start, iterate and stop, how an
/// iteration is scored and what status it leaves the loop in. Collecting feedback,
/// timing and events are left to the caller.
pub struct LoopCore {
    state: Option<LoopState>,
    max_iterations: u32,
    min_score: u32,
    max_runtime_secs: u64,
}

impl LoopCore {
    pub closed spec fn spec_state(&self) -> Option<LoopStateView> {
        match self.state {
            Some(s) => Some(s@),
            None => None,
        }
    }

    pub closed spec fn spec_max_iterations(&self) -> u32 {
        self.max_iterations
    }

    pub closed spec fn spec_min_score(&self) -> u32 {
        self.min_score
    }

    pub closed spec fn spec_max_runtime_secs(&self) -> u64 {
        self.max_runtime_secs
    }

    /// An engine with no loop and the given settings.
    pub fn new(max_iterations: u32, min_score: u32, max_runtime_secs: u64) -> (r: Self)
        ensures
            r.spec_state() is None,
            r.spec_max_iterations() == max_iterations,
            r.spec_min_score() == min_score,
            r.spec_max_runtime_secs() == max_runtime_secs,
    {
        LoopCore { state: None, max_iterations, min_score, max_runtime_secs }
    }

    /// Starts a loop, unless a loop is running (or the background task still runs):
    /// then `LoopAlreadyRunning` and nothing changes. The new loop has the given id,
    /// goal and start time, iteration 0, no history, status running, and the engine's
    /// settings, with `max_iterations` in place of the engine's limit when given.
    pub fn start(
        &mut self,
        id: String,
        goal: String,
        start_time: String,
        max_iterations: Option<u32>,
        background_active: bool,
    ) -> (r: Result<LoopState, OuraError>)
        ensures
            (background_active || (old(self).spec_state() matches Some(s) && s.status == LoopStatus::Running))
                ==> (r matches Err(OuraError::LoopAlreadyRunning) && *final(self) == *old(self)),
            !(background_active || (old(self).spec_state() matches Some(s) && s.status == LoopStatus::Running))
                ==> {
                &&& r matches Ok(st)
                &&& final(self).spec_state() == Some(st@)
                &&& st.id == id
                &&& st.goal == goal
                &&& st.start_time == start_time
                &&& st.current_iteration == 0
                &&& st@.history.len() == 0
                &&& st.status == LoopStatus::Running
                &&& st.config.max_iterations == (match max_iterations {
                    Some(m) => m,
                    None => old(self).spec_max_iterations(),
                })
                &&& st.config.min_score == old(self).spec_min_score()
                &&& st.config.max_runtime_secs == old(self).spec_max_runtime_secs()
                &&& st.config.working_directory is None
                &&& final(self).spec_max_iterations() == old(self).spec_max_iterations()
                &&& final(self).spec_min_score() == old(self).spec_min_score()
                &&& final(self).spec_max_runtime_secs() == old(self).spec_max_runtime_secs()
            },
    {
        if background_active {
            return Err(OuraError::LoopAlreadyRunning);
        }
        if let Some(st) = &self.state {
            if st.status == LoopStatus::Running {
                return Err(OuraError::LoopAlreadyRunning);
            }
        }
        let max_iter = match max_iterations {
            Some(m) => m,
            None => self.max_iterations,
        };
        let initial = LoopState {
            id,
            goal,
            config: OuraConfig {
                max_iterations: max_iter,
                min_score: self.min_score,
                max_runtime_secs: self.max_runtime_secs,
                working_directory: None,
            },
            current_iteration: 0,
            history: Vec::new(),
            status: LoopStatus::Running,
            start_time,
        };
        let copy = initial.clone();
        self.state = Some(initial);
        Ok(copy)
    }
    /// Begins an iteration: `BackgroundLoopRunning` while a background task drives the
    /// loop, `NoActiveLoop` without a loop, `LoopNotRunning` with the loop's status when
    /// it does not run; otherwise the counter moves on and its new value is returned.
    pub fn begin_iteration(&mut self, background_active: bool) -> (r: Result<u32, OuraError>)
        ensures
            background_active ==> r matches Err(OuraError::BackgroundLoopRunning),
            !background_active && old(self).spec_state() is None ==> r matches Err(OuraError::NoActiveLoop),
            !background_active && (old(self).spec_state() matches Some(s) && s.status != LoopStatus::Running)
                ==> (r matches Err(OuraError::LoopNotRunning(msg))
                    && msg@ == old(self).spec_state()->0.status.spec_name()),
            r is Err ==> *final(self) == *old(self),
            can_begin(old(self).spec_state(), background_active) ==> {
                &&& r matches Ok(n)
                &&& final(self).spec_state() == Some(after_begin(old(self).spec_state()->0))
                &&& n == after_begin(old(self).spec_state()->0).current_iteration
                &&& final(self).spec_max_iterations() == old(self).spec_max_iterations()
                &&& final(self).spec_min_score() == old(self).spec_min_score()
                &&& final(self).spec_max_runtime_secs() == old(self).spec_max_runtime_secs()
            },
    {
        if background_active {
            return Err(OuraError::BackgroundLoopRunning);
        }
        match &mut self.state {
            None => Err(OuraError::NoActiveLoop),
            Some(st) => {
                if st.status != LoopStatus::Running {
                    let name = st.status.as_str();
                    return Err(OuraError::LoopNotRunning(String::from_str(name)));
                }
                st.current_iteration = st.current_iteration.saturating_add(1);
                Ok(st.current_iteration)
            },
        }
    }

    fn record(
        &mut self,
        iteration: u32,
        feedback: Vec<FeedbackEntry>,
        max_iterations: u32,
        started_at: String,
        completed_at: String,
    ) -> (r: Result<IterationResult, OuraError>)
        ensures
            old(self).spec_state() is None ==> (r matches Err(OuraError::NoActiveLoop) && *final(self) == *old(self)),
            old(self).spec_state() is Some ==> {
                let res = spec_iteration_result(iteration, feedback@, old(self).spec_min_score(),
                    max_iterations, started_at, completed_at);
                &&& r matches Ok(out)
                &&& out@ == res
                &&& final(self).spec_state() == Some(after_record(old(self).spec_state()->0, res))
                &&& final(self).spec_max_iterations() == old(self).spec_max_iterations()
                &&& final(self).spec_min_score() == old(self).spec_min_score()
                &&& final(self).spec_max_runtime_secs() == old(self).spec_max_runtime_secs()
            },
    {
        let score = score_feedback(&feedback);
        let status = iteration_outcome(score, self.min_score, iteration, max_iterations);
        match &mut self.state {
            None => Err(OuraError::NoActiveLoop),
            Some(st) => {
                let result = IterationResult {
                    iteration,
                    status,
                    started_at,
                    completed_at: Some(completed_at),
                    actions: Vec::new(),
                    feedback,
                    score,
                };
                assert(result@.actions =~= Seq::<ActionLog>::empty());
                if status == LoopStatus::Completed || status == LoopStatus::Failed {
                    st.status = status;
                }
                let copy = result.clone();
                let ghost before = st.history@;
                st.history.push(result);
                assert(history_view(st.history@) =~= history_view(before).push(copy@));
                Ok(copy)
            },
        }
    }

    /// Records an iteration, whether driven by hand or by a background run, judged
    /// against the iteration limit the loop was started with and the engine's
    /// current convergence score.
    pub fn complete_iteration(
        &mut self,
        iteration: u32,
        feedback: Vec<FeedbackEntry>,
        started_at: String,
        completed_at: String,
    ) -> (r: Result<IterationResult, OuraError>)
        ensures
            old(self).spec_state() is None ==> (r matches Err(OuraError::NoActiveLoop) && *final(self) == *old(self)),
            old(self).spec_state() is Some ==> {
                let res = spec_iteration_result(iteration, feedback@, old(self).spec_min_score(),
                    old(self).spec_state()->0.config.max_iterations, started_at, completed_at);
                &&& r matches Ok(out)
                &&& out@ == res
                &&& final(self).spec_state() == Some(after_record(old(self).spec_state()->0, res))
                &&& final(self).spec_max_iterations() == old(self).spec_max_iterations()
                &&& final(self).spec_min_score() == old(self).spec_min_score()
                &&& final(self).spec_max_runtime_secs() == old(self).spec_max_runtime_secs()
            },
    {
        let max = match &self.state {
            Some(st) => st.config.max_iterations,
            None => 0,
        };
        self.record(iteration, feedback, max, started_at, completed_at)
    }

    /// Stops the loop: a loop, if any, is marked stopped; returns its iteration count,
    /// or 0 without a loop.
    pub fn stop(&mut self) -> (n: u32)
        ensures
            final(self).spec_state() == after_stop(old(self).spec_state()),
            n == stopped_iterations(old(self).spec_state()),
            final(self).spec_max_iterations() == old(self).spec_max_iterations(),
            final(self).spec_min_score() == old(self).spec_min_score(),
            final(self).spec_max_runtime_secs() == old(self).spec_max_runtime_secs(),
    {
        match &mut self.state {
            Some(st) => {
                st.status = LoopStatus::Stopped;
                st.current_iteration
            },
            None => 0,
        }
    }

    /// Marks a loop whose run time ran out as failed.
    pub fn time_out(&mut self)
        ensures
            final(self).spec_state() == after_timeout(old(self).spec_state()),
            final(self).spec_max_iterations() == old(self).spec_max_iterations(),
            final(self).spec_min_score() == old(self).spec_min_score(),
            final(self).spec_max_runtime_secs() == old(self).spec_max_runtime_secs(),
    {
        if let Some(st) = &mut self.state {
            st.status = LoopStatus::Failed;
        }
    }

    /// A copy of the loop's state, if there is a loop.
    pub fn get_state(&self) -> (r: Option<LoopState>)
        ensures
            match r {
                Some(st) => self.spec_state() == Some(st@),
                None => self.spec_state() is None,
            },
    {
        match &self.state {
            Some(st) => Some(st.clone()),
            None => None,
        }
    }

    /// The results of all iterations of the loop, oldest first; none without a loop.
    pub fn get_results(&self) -> (r: Vec<IterationResult>)
        ensures
            history_view(r@) == match self.spec_state() {
                Some(s) => s.history,
                None => Seq::empty(),
            },
    {
        match &self.state {
            Some(st) => {
                let h = st.history.clone();
                assert(history_view(h@) =~= history_view(st.history@));
                h
            },
            None => {
                let h: Vec<IterationResult> = Vec::new();
                assert(history_view(h@) =~= Seq::<IterationResultView>::empty());
                h
            },
        }
    }

    /// Sets the iteration limit of loops started and iterated from now on.
    pub fn update_max_iterations(&mut self, max: u32)
        ensures
            final(self).spec_max_iterations() == max,
            final(self).spec_state() == old(self).spec_state(),
            final(self).spec_min_score() == old(self).spec_min_score(),
            final(self).spec_max_runtime_secs() == old(self).spec_max_runtime_secs(),
    {
        self.max_iterations = max;
    }

    /// Sets the least score that counts as converged.
    pub fn update_min_score(&mut self, min_score: u32)
        ensures
            final(self).spec_min_score() == min_score,
            final(self).spec_state() == old(self).spec_state(),
            final(self).spec_max_iterations() == old(self).spec_max_iterations(),
            final(self).spec_max_runtime_secs() == old(self).spec_max_runtime_secs(),
    {
        self.min_score = min_score;
    }

    pub fn max_iterations(&self) -> (r: u32)
        ensures
            r == self.spec_max_iterations(),
    {
        self.max_iterations
    }

    pub fn min_score(&self) -> (r: u32)
        ensures
            r == self.spec_min_score(),
    {
        self.min_score
    }

    pub fn max_runtime_secs(&self) -> (r: u64)
        ensures
            r == self.spec_max_runtime_secs(),
    {
        self.max_runtime_secs
    }
}

} // verus!

verus! {

/// A score lies between 0 and 100, and is 100 exactly when the feedback holds no
/// error and no warning.
pub proof fn law_score_range(fb: Seq<FeedbackEntry>)
    ensures
        0 <= feedback_score(fb) <= 100,
        feedback_score(fb) == 100 <==> (count_kind(fb, FeedbackKind::Error) == 0 && count_kind(
            fb,
            FeedbackKind::Warning,
        ) == 0),
{
}

/// One more error or warning never raises the score.
pub proof fn law_score_monotone(errors: nat, warnings: nat)
    ensures
        spec_score(errors + 1int, warnings as int) <= spec_score(errors as int, warnings as int),
        spec_score(errors as int, warnings + 1int) <= spec_score(errors as int, warnings as int),
{
}

/// Feedback of another kind than error or warning leaves the score as it is.
pub proof fn law_other_feedback_neutral(fb: Seq<FeedbackEntry>, e: FeedbackEntry)
    requires
        e.kind != FeedbackKind::Error,
        e.kind != FeedbackKind::Warning,
    ensures
        feedback_score(fb.push(e)) == feedback_score(fb),
{
    assert(fb.push(e).drop_last() =~= fb);
}

/// A stopped loop keeps its history and counter, and no iteration begins on it.
pub proof fn law_stop_ends_loop(s: LoopStateView, background_active: bool)
    ensures
        after_stop(Some(s)) matches Some(t) && t.status == LoopStatus::Stopped && t.history
            == s.history && t.current_iteration == s.current_iteration,
        !can_begin(after_stop(Some(s)), background_active),
        stopped_iterations(Some(s)) == s.current_iteration,
{
}

/// An iteration whose score reaches the convergence score completes the loop, and
/// no iteration begins after it.
pub proof fn law_convergence_completes(
    s: LoopStateView,
    iteration: u32,
    feedback: Seq<FeedbackEntry>,
    min_score: u32,
    max_iterations: u32,
    started_at: String,
    completed_at: String,
    background_active: bool,
)
    requires
        feedback_score(feedback) >= min_score,
    ensures
        ({
            let r = spec_iteration_result(iteration, feedback, min_score, max_iterations, started_at, completed_at);
            &&& r.status == LoopStatus::Completed
            &&& after_record(s, r).status == LoopStatus::Completed
            &&& !can_begin(Some(after_record(s, r)), background_active)
        }),
{
}

/// An iteration that does not converge and reaches the iteration limit fails the
/// loop; one that does neither leaves the loop as it was.
pub proof fn law_limit_fails(
    s: LoopStateView,
    iteration: u32,
    feedback: Seq<FeedbackEntry>,
    min_score: u32,
    max_iterations: u32,
    started_at: String,
    completed_at: String,
)
    requires
        feedback_score(feedback) < min_score,
    ensures
        ({
            let r = spec_iteration_result(iteration, feedback, min_score, max_iterations, started_at, completed_at);
            &&& iteration >= max_iterations ==> after_record(s, r).status == LoopStatus::Failed
            &&& iteration < max_iterations ==> after_record(s, r).status == s.status
        }),
{
}

/// Starting gives a well numbered loop, and so does each of begin-and-record, stop
/// and time-out applied to one: the history always holds iterations 1, 2, ... up to
/// the counter.
pub proof fn law_numbering_kept(
    s: LoopStateView,
    feedback: Seq<FeedbackEntry>,
    min_score: u32,
    max_iterations: u32,
    started_at: String,
    completed_at: String,
)
    requires
        well_numbered(s),
    ensures
        s.status == LoopStatus::Running ==> ({
            let b = after_begin(s);
            let r = spec_iteration_result(b.current_iteration, feedback, min_score, max_iterations,
                started_at, completed_at);
            well_numbered(after_record(b, r))
        }),
        well_numbered(after_stop(Some(s))->0),
        well_numbered(after_timeout(Some(s))->0),
        well_numbered(LoopStateView { current_iteration: 0, history: Seq::empty(), status: LoopStatus::Running, ..s }),
{
    if s.status == LoopStatus::Running {
        let b = after_begin(s);
        let r = spec_iteration_result(b.current_iteration, feedback, min_score, max_iterations,
            started_at, completed_at);
        let t = after_record(b, r);
        assert forall|i: int| 0 <= i < t.history.len() implies #[trigger] t.history[i].iteration == i + 1 by {
            if i < s.history.len() {
                assert(t.history[i] == s.history[i]);
            }
        }
    }
}

/// A loop records at most as many iterations as the limit it was started with (at
/// least one), and stops running once it reaches the limit.
pub proof fn law_background_bounded(
    s: LoopStateView,
    feedback: Seq<FeedbackEntry>,
    min_score: u32,
    started_at: String,
    completed_at: String,
)
    requires
        well_numbered(s),
        s.status == LoopStatus::Running,
        s.current_iteration < if s.config.max_iterations > 1 { s.config.max_iterations } else { 1 },
    ensures
        ({
            let b = after_begin(s);
            let r = spec_iteration_result(b.current_iteration, feedback, min_score, s.config.max_iterations,
                started_at, completed_at);
            let t = after_record(b, r);
            let cap: int = if s.config.max_iterations > 1 { s.config.max_iterations as int } else { 1 };
            &&& t.history.len() <= cap
            &&& t.status == LoopStatus::Running ==> t.current_iteration < cap
        }),
{
}

/// The most iterations a loop started with the limit `max_iterations` records.
pub open spec fn iteration_cap(max_iterations: u32) -> int {
    if max_iterations > 1 { max_iterations as int } else { 1 }
}

/// The loop after a run: while it is running, each step begins an iteration and
/// records it with the step's feedback and timestamps, judged against the limit the
/// loop was started with; once it no longer runs, the remaining steps are left out.
pub open spec fn run_steps(
    s: LoopStateView,
    steps: Seq<(Seq<FeedbackEntry>, String, String)>,
    min_score: u32,
) -> LoopStateView
    decreases steps.len(),
{
    if steps.len() == 0 || s.status != LoopStatus::Running {
        s
    } else {
        let b = after_begin(s);
        let r = spec_iteration_result(b.current_iteration, steps[0].0, min_score, s.config.max_iterations,
            steps[0].1, steps[0].2);
        run_steps(after_record(b, r), steps.drop_first(), min_score)
    }
}

/// The loop's state between steps of a run from a fresh start.
pub open spec fn run_invariant(s: LoopStateView, min_score: u32) -> bool {
    &&& well_numbered(s)
    &&& s.current_iteration <= iteration_cap(s.config.max_iterations)
    &&& s.status == LoopStatus::Running ==> s.current_iteration < iteration_cap(s.config.max_iterations)
    &&& (s.status == LoopStatus::Running || s.status == LoopStatus::Completed || s.status == LoopStatus::Failed)
    &&& (s.status == LoopStatus::Completed <==> (s.history.len() > 0 && s.history.last().score >= min_score))
}

proof fn lemma_run_steps(s: LoopStateView, steps: Seq<(Seq<FeedbackEntry>, String, String)>, min_score: u32)
    requires
        run_invariant(s, min_score),
    ensures
        ({
            let t = run_steps(s, steps, min_score);
            let n = s.history.len();
            &&& run_invariant(t, min_score)
            &&& t.config == s.config
            &&& n <= t.history.len() <= n + steps.len()
            &&& t.history.subrange(0, n as int) == s.history
            &&& forall|k: int| n <= k < t.history.len() ==> #[trigger] t.history[k] == spec_iteration_result(
                (k + 1) as u32, steps[k - n].0, min_score, s.config.max_iterations, steps[k - n].1, steps[k - n].2)
            &&& t.status == LoopStatus::Running ==> t.history.len() == n + steps.len()
            &&& s.status != LoopStatus::Running ==> t == s
        }),
    decreases steps.len(),
{
    if steps.len() == 0 || s.status != LoopStatus::Running {
        assert(s.history.subrange(0, s.history.len() as int) =~= s.history);
    } else {
        let b = after_begin(s);
        let r = spec_iteration_result(b.current_iteration, steps[0].0, min_score, s.config.max_iterations,
            steps[0].1, steps[0].2);
        let u = after_record(b, r);
        let rest = steps.drop_first();
        law_numbering_kept(s, steps[0].0, min_score, s.config.max_iterations, steps[0].1, steps[0].2);
        assert(u.history.last() == r);
        lemma_run_steps(u, rest, min_score);
        let t = run_steps(u, rest, min_score);
        let n = s.history.len();
        assert(t == run_steps(s, steps, min_score));
        assert(u.history.subrange(0, n as int) =~= s.history);
        assert(t.history.subrange(0, n as int) =~= t.history.subrange(0, (n + 1) as int).subrange(0, n as int));
        assert forall|k: int| n <= k < t.history.len() implies #[trigger] t.history[k] == spec_iteration_result(
            (k + 1) as u32, steps[k - n].0, min_score, s.config.max_iterations, steps[k - n].1, steps[k - n].2) by {
            if k == n {
                assert(t.history.subrange(0, (n + 1) as int)[k] == t.history[k]);
                assert(u.history[k] == r);
            } else {
                assert(rest[k - (n + 1)] == steps[k - n]);
            }
        }
    }
}

/// A loop started afresh and run to its end iteration by iteration: its history
/// holds iterations 1, 2, ... in order, each scored by the feedback of its step; it
/// records at most as many iterations as the limit it was started with (at least
/// one) and no longer runs once that many steps were offered; and it ends completed
/// exactly when its last iteration reached the convergence score.
pub proof fn law_run(s: LoopStateView, steps: Seq<(Seq<FeedbackEntry>, String, String)>, min_score: u32)
    requires
        s.current_iteration == 0,
        s.history.len() == 0,
        s.status == LoopStatus::Running,
    ensures
        ({
            let t = run_steps(s, steps, min_score);
            let cap = iteration_cap(s.config.max_iterations);
            &&& well_numbered(t)
            &&& t.history.len() <= cap
            &&& t.history.len() <= steps.len()
            &&& steps.len() >= cap ==> t.status != LoopStatus::Running
            &&& t.status == LoopStatus::Running ==> t.history.len() == steps.len()
            &&& forall|k: int| 0 <= k < t.history.len() ==> {
                &&& #[trigger] t.history[k].iteration == k + 1
                &&& t.history[k].feedback == steps[k].0
                &&& t.history[k].score == feedback_score(steps[k].0)
            }
            &&& t.status != LoopStatus::Stopped
            &&& (t.status == LoopStatus::Completed <==> (t.history.len() > 0 && t.history.last().score
                >= min_score))
        }),
{
    lemma_run_steps(s, steps, min_score);
    let t = run_steps(s, steps, min_score);
    assert forall|k: int| 0 <= k < t.history.len() implies {
        &&& #[trigger] t.history[k].iteration == k + 1
        &&& t.history[k].feedback == steps[k].0
        &&& t.history[k].score == feedback_score(steps[k].0)
    } by {
        assert(t.history[k] == spec_iteration_result((k + 1) as u32, steps[k].0, min_score, s.config.max_iterations,
            steps[k].1, steps[k].2));
        law_score_range(steps[k].0);
    }
}

} // verus!
