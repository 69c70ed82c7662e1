use vstd::prelude::*;

verus! {

/// One HTTP request descriptor: an absolute target URL and an HTTP method,
/// both stored exactly as the caller provided them. No validation happens at
/// construction time; a malformed method surfaces only when the step is
/// executed.
pub struct Step {
    pub url: String,
    pub method: String,
}

/// The mathematical content of a `Step`: its URL and its method as character
/// sequences.
pub ghost struct StepView {
    pub url: Seq<char>,
    pub method: Seq<char>,
}

impl View for Step {
    type V = StepView;

    open spec fn view(&self) -> StepView {
        StepView { url: self.url@, method: self.method@ }
    }
}

/// Whether `c` may appear in an HTTP method: the `tchar` set of RFC 9110
/// (token characters).
pub open spec fn is_tchar(c: char) -> bool {
    ||| c == '!' || c == '#' || c == '$' || c == '%' || c == '&' || c == '\'' || c == '*'
    ||| c == '+' || c == '-' || c == '.' || c == '^' || c == '_' || c == '`' || c == '|'
    ||| c == '~'
    ||| '0' <= c && c <= '9'
    ||| 'a' <= c && c <= 'z'
    ||| 'A' <= c && c <= 'Z'
}

/// Whether `s` is a valid HTTP method: a non-empty token of `tchar`s. A step
/// whose method fails this test can never turn into a well-formed request, so
/// executing it yields a result with an absent status instead of a response.
pub open spec fn is_method_token(s: Seq<char>) -> bool {
    s.len() > 0 && (forall|i: int| 0 <= i < s.len() ==> is_tchar(s[i]))
}

/// Executable form of `is_tchar`.
fn tchar(c: char) -> (r: bool)
    ensures
        r == is_tchar(c),
{
    c == '!' || c == '#' || c == '$' || c == '%' || c == '&' || c == '\'' || c == '*'
        || c == '+' || c == '-' || c == '.' || c == '^' || c == '_' || c == '`' || c == '|'
        || c == '~' || ('0' <= c && c <= '9') || ('a' <= c && c <= 'z')
        || ('A' <= c && c <= 'Z')
}

impl Step {
    /// Stores the URL and the method verbatim.
    pub fn new(url: String, method: String) -> (s: Step)
        ensures
            s@.url == url@,
            s@.method == method@,
    {
        Step { url, method }
    }

    /// Whether this step's method string is a valid HTTP method token. A step
    /// that fails this test must be recorded as a failed call (absent status)
    /// rather than dispatched.
    pub fn method_is_valid(&self) -> (r: bool)
        ensures
            r == is_method_token(self@.method),
    {
        let m: &str = self.method.as_str();
        let len: usize = m.unicode_len();
        if len == 0 {
            return false;
        }
        let mut i: usize = 0;
        while i < len
            invariant
                i <= len,
                len == m@.len(),
                m@ == self.method@,
                forall|j: int| 0 <= j < i ==> is_tchar(m@[j]),
            decreases len - i,
        {
            let c = m.get_char(i);
            if !tchar(c) {
                assert(!is_tchar(self.method@[i as int]));
                return false;
            }
            i += 1;
        }
        true
    }
}

impl Clone for Step {
    fn clone(&self) -> (s: Self)
        ensures
            s == *self,
    {
        Step { url: self.url.clone(), method: self.method.clone() }
    }
}

/// An ordered list of steps plus a total wall-clock run budget, in
/// nanoseconds. The list's order is the replay order; the duration bounds the
/// whole run, not a single step. An empty list is legal: such a scenario
/// produces no results and merely waits out its duration.
pub struct Scenario {
    pub duration: u64,
    pub steps: Vec<Step>,
}

impl Scenario {
    /// Stores both fields verbatim.
    pub fn new(duration: u64, steps: Vec<Step>) -> (s: Scenario)
        ensures
            s.duration == duration,
            s.steps == steps,
    {
        Scenario { duration, steps }
    }
}

/// The outcome of executing one step once: the response's status code, absent
/// exactly when the call failed before a response was obtained, and the
/// wall-clock latency of the attempt in nanoseconds, present regardless of
/// outcome.
#[derive(Clone, Copy, Debug)]
pub struct StepResult {
    pub status: Option<u16>,
    pub duration: u64,
}

/// What the consumer driving a [`Run`] must do next.
pub enum Directive {
    /// Perform one HTTP call for this step, then report its outcome through
    /// [`Run::record`] before asking again.
    Dispatch(Step),
    /// A pass over an empty step list completed with no results; re-read the
    /// clock and ask again.
    Idle,
    /// The duration guard fired: the run is over and no further step executes.
    Done,
}

/// A scenario being replayed: the pull-driven sequence of step results. The
/// consumer alternates [`Run::advance`], which checks the duration guard at
/// pass boundaries and names the next step to call, with [`Run::record`],
/// which turns the call's outcome into the next `StepResult` of the sequence.
/// No work happens between those calls, so the consumer gets one result at a
/// time, in step order, with natural backpressure.
pub struct Run {
    pub steps: Vec<Step>,
    pub duration: u64,
    /// Index of the next step to dispatch within the current pass.
    pub pos: usize,
    /// A call has been handed out by `advance` and not yet recorded.
    pub awaiting: bool,
    /// The duration guard has fired; terminal.
    pub finished: bool,
    /// Every result produced so far, in production order.
    pub history: Ghost<Seq<StepResult>>,
    /// Every step dispatched so far, in dispatch order.
    pub calls: Ghost<Seq<StepView>>,
    /// Number of completed passes over the step list.
    pub passes: Ghost<nat>,
}

impl Run {
    /// Well-formedness: the bookkeeping of a run always relates its calls,
    /// its results and its position as one sequential replay of the list.
    pub open spec fn wf(self) -> bool {
        &&& (self.steps@.len() == 0 ==> self.pos == 0)
        &&& (self.steps@.len() > 0 ==> self.pos < self.steps@.len())
        &&& (self.awaiting ==> self.pos < self.steps@.len() && !self.finished)
        &&& (self.finished ==> !self.awaiting && self.pos == 0)
        &&& self.history@.len() == self.passes@ * self.steps@.len() + self.pos
        &&& self.calls@.len() == self.history@.len() + (if self.awaiting {
            1int
        } else {
            0int
        })
        &&& forall|k: int|
            0 <= k < self.calls@.len() ==> self.calls@[k] == self.steps@[k % (
            self.steps@.len() as int)]@
    }

    /// Ask for the next piece of work, given the wall-clock time elapsed since
    /// the run began, in nanoseconds. The duration guard is checked only here,
    /// and only at a pass boundary: once a pass has begun, every step of that
    /// pass is dispatched even if the deadline passes meanwhile, so the run
    /// can overshoot its duration by at most one pass.
    pub fn advance(&mut self, elapsed: u64) -> (d: Directive)
        requires
            old(self).wf(),
            !old(self).awaiting,
        ensures
            final(self).wf(),
            final(self).steps == old(self).steps,
            final(self).duration == old(self).duration,
            final(self).history@ == old(self).history@,
            (d is Done) <==> (old(self).finished || (old(self).pos == 0 && elapsed > old(
                self,
            ).duration)),
            d is Done ==> final(self).finished && !final(self).awaiting && final(self).calls@
                == old(self).calls@ && final(self).passes@ == old(self).passes@,
            (d is Idle) <==> (!(d is Done) && old(self).steps@.len() == 0),
            d is Idle ==> !final(self).finished && !final(self).awaiting && final(self).calls@
                == old(self).calls@ && final(self).passes@ == old(self).passes@ + 1,
            (d is Dispatch) <==> (!(d is Done) && old(self).steps@.len() > 0),
            d matches Directive::Dispatch(s) ==> s == old(self).steps@[old(self).pos as int]
                && final(self).awaiting && !final(self).finished && final(self).pos == old(
                self,
            ).pos && final(self).calls@ == old(self).calls@.push(
                old(self).steps@[old(self).pos as int]@,
            ) && final(self).passes@ == old(self).passes@,
    {
        if self.finished {
            return Directive::Done;
        }
        if self.pos == 0 && elapsed > self.duration {
            self.finished = true;
            return Directive::Done;
        }
        if self.steps.len() == 0 {
            proof {
                assert(self.passes@ * self.steps@.len() == (self.passes@ + 1)
                    * self.steps@.len()) by (nonlinear_arith)
                    requires self.steps@.len() == 0;
            }
            self.passes = Ghost(self.passes@ + 1);
            return Directive::Idle;
        }
        let step = (&self.steps[self.pos]).clone();
        proof {
            let n = self.steps@.len() as int;
            let k = self.calls@.len() as int;
            vstd::arithmetic::div_mod::lemma_mod_multiples_vanish(
                self.passes@ as int,
                self.pos as int,
                n,
            );
            vstd::arithmetic::div_mod::lemma_small_mod(self.pos as nat, n as nat);
            assert(k % n == self.pos as int);
        }
        self.calls = Ghost(self.calls@.push(step@));
        self.awaiting = true;
        Directive::Dispatch(step)
    }

    /// Report the outcome of the call that the last `advance` dispatched: the
    /// response's status code, or `None` when the call failed before a
    /// response was obtained (connection error, timeout, malformed method),
    /// and the measured latency of the attempt in nanoseconds. Produces the
    /// next result of the sequence, which carries exactly that outcome; a
    /// failed call never aborts the run.
    pub fn record(&mut self, status: Option<u16>, duration: u64) -> (r: StepResult)
        requires
            old(self).wf(),
            old(self).awaiting,
        ensures
            final(self).wf(),
            r.status == status,
            r.duration == duration,
            final(self).history@ == old(self).history@.push(r),
            final(self).calls@ == old(self).calls@,
            final(self).steps == old(self).steps,
            final(self).duration == old(self).duration,
            !final(self).awaiting,
            !final(self).finished,
            final(self).pos == (if old(self).pos + 1 == old(self).steps@.len() {
                0int
            } else {
                old(self).pos + 1
            }),
            final(self).passes@ == (if old(self).pos + 1 == old(self).steps@.len() {
                old(self).passes@ + 1
            } else {
                old(self).passes@
            }),
    {
        let r = StepResult { status, duration };
        self.history = Ghost(self.history@.push(r));
        self.awaiting = false;
        let n = self.steps.len();
        assert(self.pos < n);
        if self.pos == n - 1 {
            proof {
                let p = self.passes@;
                let n = self.steps@.len();
                assert(p * n + n == (p + 1) * n) by (nonlinear_arith);
            }
            self.pos = 0;
            self.passes = Ghost(self.passes@ + 1);
        } else {
            self.pos = self.pos + 1;
        }
        r
    }
}

/// The content of a step list: each step's URL and method, in list order.
pub open spec fn step_views(steps: Seq<Step>) -> Seq<StepView> {
    steps.map_values(|s: Step| s@)
}

/// One result per step, in list order: in a well-formed run over a non-empty
/// step list, the k-th call ever dispatched (and hence the k-th result) is
/// for the step at index k modulo the list length, and every completed pass
/// has contributed exactly one result per step.
pub proof fn lemma_one_result_per_step_in_order(r: Run)
    requires
        r.wf(),
        r.steps@.len() > 0,
    ensures
        r.history@.len() == r.passes@ * r.steps@.len() + r.pos,
        forall|k: int|
            0 <= k < r.calls@.len() ==> r.calls@[k] == r.steps@[k % (r.steps@.len() as int)]@,
{
}

/// A scenario with an empty step list produces nothing: a well-formed run
/// over it has never dispatched a call and its result sequence is empty,
/// however many passes its duration let it spin through.
pub proof fn lemma_empty_steps_no_results(r: Run)
    requires
        r.wf(),
        r.steps@.len() == 0,
    ensures
        r.history@.len() == 0,
        r.calls@.len() == 0,
{
}

/// Ordering determinism: two runs over step lists with the same content
/// dispatch their calls in the same order, for as long as both run — whatever
/// statuses or latencies the targets returned in either run, and whenever
/// either duration guard fires.
pub proof fn lemma_call_order_deterministic(r1: Run, r2: Run)
    requires
        r1.wf(),
        r2.wf(),
        step_views(r1.steps@) == step_views(r2.steps@),
    ensures
        forall|k: int|
            0 <= k < r1.calls@.len() && k < r2.calls@.len() ==> r1.calls@[k] == r2.calls@[k],
{
    let n = r1.steps@.len() as int;
    assert(step_views(r1.steps@).len() == r1.steps@.len());
    assert(step_views(r2.steps@).len() == r2.steps@.len());
    assert(r2.steps@.len() == n);
    if n == 0 {
        lemma_empty_steps_no_results(r1);
    } else {
        assert forall|k: int|
            0 <= k < r1.calls@.len() && k < r2.calls@.len() implies r1.calls@[k] == r2.calls@[k] by {
            vstd::arithmetic::div_mod::lemma_mod_bound(k, n);
            assert(r1.steps@[k % n]@ == step_views(r1.steps@)[k % n]);
            assert(r2.steps@[k % n]@ == step_views(r2.steps@)[k % n]);
        }
    }
}

/// The execution engine. The HTTP client that actually performs the calls is
/// the caller's: the executer only decides, through the [`Run`] it hands out,
/// which call to make next and what each outcome means.
pub struct Executer {}

impl Executer {
    pub fn new() -> (e: Executer) {
        Executer {}
    }

    /// Begin a duration-bounded replay of the scenario. The returned [`Run`]
    /// is the lazy result sequence: nothing has been dispatched yet, and the
    /// consumer drives it to exhaustion, which happens only when the duration
    /// guard fires at a pass boundary.
    pub fn execute_scenario(&self, scenario: Scenario) -> (r: Run)
        ensures
            r.wf(),
            r.steps == scenario.steps,
            r.duration == scenario.duration,
            r.history@ == Seq::<StepResult>::empty(),
            r.calls@ == Seq::<StepView>::empty(),
            r.passes@ == 0,
            !r.awaiting,
            !r.finished,
            r.pos == 0,
    {
        Run {
            steps: scenario.steps,
            duration: scenario.duration,
            pos: 0,
            awaiting: false,
            finished: false,
            history: Ghost(Seq::empty()),
            calls: Ghost(Seq::empty()),
            passes: Ghost(0nat),
        }
    }
}

} // verus!
