//! Confirmation of a submission by bounded polling.
//!
//! Polling and sleeping are the caller's work. The confirmer says when to
//! poll, how long to wait before the next poll, and when the matter is
//! settled.

use vstd::prelude::*;

verus! {

/// How long to wait for a submission, and how often to ask.
#[derive(Debug, Clone, Copy, PartialEq, Eq, Structural)]
pub struct PollingBudget {
    pub max_wait_seconds: u32,
    pub check_interval_seconds: u32,
}

impl PollingBudget {
    /// A budget asks at a positive interval.
    pub open spec fn wf(&self) -> bool {
        self.check_interval_seconds > 0
    }

    /// The number of waits that fit into the budget.
    pub open spec fn spec_max_attempts(&self) -> nat {
        (self.max_wait_seconds / self.check_interval_seconds) as nat
    }

    /// A budget, unless the interval is zero.
    pub fn new(max_wait_seconds: u32, check_interval_seconds: u32) -> (r: Option<PollingBudget>)
        ensures
            check_interval_seconds == 0 <==> r is None,
            r is Some ==> r->Some_0.wf() && r->Some_0 == (PollingBudget {
                max_wait_seconds,
                check_interval_seconds,
            }),
    {
        if check_interval_seconds == 0 {
            None
        } else {
            Some(PollingBudget { max_wait_seconds, check_interval_seconds })
        }
    }

    /// The number of waits that fit into the budget, rounded down.
    pub fn max_attempts(&self) -> (r: u32)
        requires
            self.wf(),
        ensures
            r == self.spec_max_attempts(),
            r == self.max_wait_seconds / self.check_interval_seconds,
    {
        self.max_wait_seconds / self.check_interval_seconds
    }
}

/// What one status query brought back.
#[derive(Debug)]
pub enum PollAnswer {
    /// The backend reports success, with its details.
    Succeeded(String),
    /// The backend reports failure, with its reason.
    Rejected(String),
    /// The backend is still processing the submission.
    Processing,
    /// The query itself failed in transport.
    TransportFailed(String),
}

/// What is known of a submission when polling ends.
#[derive(Debug)]
pub enum ConfirmationOutcome {
    Confirmed(String),
    /// The budget ran out before the backend gave a final answer: the
    /// submission may still complete later.
    StillPending,
    Failed(String),
}

/// The budget ran out and status queries had failed in transport.
#[derive(Debug)]
pub enum ConfirmError {
    /// Carries the last transport error and the number of queries made.
    TransportFailed { message: String, attempts: u64 },
}

/// What the confirmer asks of its caller, or what it has settled on.
#[derive(Debug)]
pub enum ConfirmStep {
    /// Query the backend now and report the answer.
    Poll,
    /// Sleep this many seconds, then query and report the answer.
    SleepThenPoll(u32),
    /// Polling is over.
    Done(Result<ConfirmationOutcome, ConfirmError>),
}

/// Whether an answer ends the polling by itself.
pub open spec fn is_terminal(answer: PollAnswer) -> bool {
    answer is Succeeded || answer is Rejected
}

/// The outcome that a terminal answer stands for.
pub open spec fn terminal_outcome(answer: PollAnswer) -> ConfirmationOutcome {
    match answer {
        PollAnswer::Succeeded(details) => ConfirmationOutcome::Confirmed(details),
        PollAnswer::Rejected(reason) => ConfirmationOutcome::Failed(reason),
        _ => ConfirmationOutcome::StillPending,
    }
}

/// The outcome when the budget runs out after `attempts` queries.
pub open spec fn timed_out(attempts: nat, last_error: Option<String>) -> Result<
    ConfirmationOutcome,
    ConfirmError,
> {
    match last_error {
        None => Ok(ConfirmationOutcome::StillPending),
        Some(message) => Err(ConfirmError::TransportFailed { message, attempts: attempts as u64 }),
    }
}

/// The transport error to remember after an answer: the answer's own where
/// it is one, else the one remembered before.
pub open spec fn error_after(previous: Option<String>, answer: PollAnswer) -> Option<String> {
    match answer {
        PollAnswer::TransportFailed(message) => Some(message),
        _ => previous,
    }
}

/// The first position, from `from` on, of a terminal answer; the number of
/// answers where there is none.
pub open spec fn first_terminal(answers: Seq<PollAnswer>, from: int) -> int
    decreases answers.len() - from,
{
    if from < 0 || from >= answers.len() {
        answers.len() as int
    } else if is_terminal(answers[from]) {
        from
    } else {
        first_terminal(answers, from + 1)
    }
}

/// The last transport error among the first `upto` answers.
pub open spec fn last_transport_error(answers: Seq<PollAnswer>, upto: int) -> Option<String>
    decreases upto,
{
    if upto <= 0 || upto > answers.len() {
        None
    } else {
        error_after(last_transport_error(answers, upto - 1), answers[upto - 1])
    }
}

/// The number of queries made when the backend gives these answers in turn:
/// up to the first terminal answer, and no more than one beyond the number
/// of waits in the budget.
pub open spec fn polls_made(max_attempts: nat, answers: Seq<PollAnswer>) -> nat {
    let t = first_terminal(answers, 0);
    if t < answers.len() && t <= max_attempts {
        (t + 1) as nat
    } else if answers.len() > max_attempts {
        max_attempts + 1
    } else {
        answers.len()
    }
}

/// How polling ends when the backend gives these answers in turn; `None`
/// where the answers run out before it ends.
pub open spec fn confirmation(max_attempts: nat, answers: Seq<PollAnswer>) -> Option<
    Result<ConfirmationOutcome, ConfirmError>,
> {
    let t = first_terminal(answers, 0);
    if t < answers.len() && t <= max_attempts {
        Some(Ok(terminal_outcome(answers[t])))
    } else if answers.len() > max_attempts {
        Some(timed_out(max_attempts + 1, last_transport_error(answers, max_attempts + 1 as int)))
    } else {
        None
    }
}

/// Before the first terminal answer none is terminal; at it, one is.
pub proof fn lemma_first_terminal(answers: Seq<PollAnswer>, from: int)
    requires
        0 <= from <= answers.len(),
    ensures
        from <= first_terminal(answers, from) <= answers.len(),
        first_terminal(answers, from) < answers.len() ==> is_terminal(
            answers[first_terminal(answers, from)],
        ),
        forall|j: int|
            from <= j < first_terminal(answers, from) ==> !is_terminal(#[trigger] answers[j]),
    decreases answers.len() - from,
{
    if from < answers.len() && !is_terminal(answers[from]) {
        lemma_first_terminal(answers, from + 1);
    }
}

/// A confirmation in progress.
pub struct Confirmer {
    budget: PollingBudget,
    attempts: u64,
    last_error: Option<String>,
    finished: bool,
}

impl Confirmer {
    /// The budget that bounds this confirmation.
    pub closed spec fn budget(&self) -> PollingBudget {
        self.budget
    }

    /// The number of answers so far that did not end the polling.
    pub closed spec fn attempts(&self) -> nat {
        self.attempts as nat
    }

    /// The last transport error reported so far.
    pub closed spec fn last_error(&self) -> Option<String> {
        self.last_error
    }

    /// Whether polling is over.
    pub closed spec fn finished(&self) -> bool {
        self.finished
    }

    /// While polling goes on, the counter is within the budget.
    pub closed spec fn wf(&self) -> bool {
        &&& self.budget.wf()
        &&& !self.finished ==> self.attempts <= self.budget.spec_max_attempts()
    }

    /// Starts a confirmation. The first query is always made, whatever the
    /// budget.
    pub fn start(budget: PollingBudget) -> (r: (Confirmer, ConfirmStep))
        requires
            budget.wf(),
        ensures
            r.0.wf(),
            r.0.budget() == budget,
            r.0.attempts() == 0,
            r.0.last_error() is None,
            !r.0.finished(),
            r.1 is Poll,
    {
        (Confirmer { budget, attempts: 0, last_error: None, finished: false }, ConfirmStep::Poll)
    }

    /// Whether polling is over.
    pub fn is_finished(&self) -> (r: bool)
        ensures
            r == self.finished(),
    {
        self.finished
    }

    /// The number of queries answered so far without ending the polling.
    pub fn attempts_made(&self) -> (r: u64)
        ensures
            r == self.attempts(),
    {
        self.attempts
    }

    /// Takes the answer to the outstanding query.
    ///
    /// A terminal answer ends the polling at once, whatever is left of the
    /// budget. Any other answer counts as an attempt, and a transport failure
    /// is remembered. When the counter passes the number of waits in the
    /// budget, polling ends as timed out; until then the caller sleeps for
    /// the interval and asks again.
    pub fn on_answer(&mut self, answer: PollAnswer) -> (step: ConfirmStep)
        requires
            old(self).wf(),
            !old(self).finished(),
        ensures
            final(self).wf(),
            final(self).budget() == old(self).budget(),
            is_terminal(answer) ==> step == ConfirmStep::Done(Ok(terminal_outcome(answer)))
                && final(self).finished() && final(self).attempts() == old(self).attempts(),
            !is_terminal(answer) ==> {
                &&& final(self).attempts() == old(self).attempts() + 1
                &&& final(self).finished() == (final(self).attempts() > final(
                    self
                ).budget().spec_max_attempts())
                &&& final(self).finished() ==> step == ConfirmStep::Done(
                    timed_out(final(self).attempts(), error_after(old(self).last_error(), answer)),
                )
                &&& !final(self).finished() ==> final(self).last_error() == error_after(
                    old(self).last_error(),
                    answer,
                ) && step == ConfirmStep::SleepThenPoll(final(self).budget().check_interval_seconds)
            },
    {
        match answer {
            PollAnswer::Succeeded(details) => {
                self.finished = true;
                ConfirmStep::Done(Ok(ConfirmationOutcome::Confirmed(details)))
            },
            PollAnswer::Rejected(reason) => {
                self.finished = true;
                ConfirmStep::Done(Ok(ConfirmationOutcome::Failed(reason)))
            },
            PollAnswer::Processing => self.count_attempt(),
            PollAnswer::TransportFailed(message) => {
                self.last_error = Some(message);
                self.count_attempt()
            },
        }
    }

    fn count_attempt(&mut self) -> (step: ConfirmStep)
        requires
            old(self).wf(),
            !old(self).finished(),
        ensures
            final(self).wf(),
            final(self).budget() == old(self).budget(),
            final(self).attempts() == old(self).attempts() + 1,
            final(self).finished() == (final(self).attempts() > final(
                self
            ).budget().spec_max_attempts()),
            final(self).finished() ==> step == ConfirmStep::Done(
                timed_out(final(self).attempts(), old(self).last_error()),
            ),
            !final(self).finished() ==> final(self).last_error() == old(self).last_error() && step
                == ConfirmStep::SleepThenPoll(old(self).budget().check_interval_seconds),
    {
        self.attempts = self.attempts + 1;
        let limit: u64 = self.budget.max_attempts().into();
        if self.attempts > limit {
            self.finished = true;
            match self.last_error.take() {
                None => ConfirmStep::Done(Ok(ConfirmationOutcome::StillPending)),
                Some(message) => ConfirmStep::Done(
                    Err(ConfirmError::TransportFailed { message, attempts: self.attempts }),
                ),
            }
        } else {
            ConfirmStep::SleepThenPoll(self.budget.check_interval_seconds)
        }
    }
}

/// Runs a whole confirmation against the answers that the backend gives to
/// successive queries. Returns how polling ended, or `None` where the answers
/// ran out first, and the number of queries made.
pub fn confirm_submission(budget: PollingBudget, answers: Vec<PollAnswer>) -> (r: (
    Option<Result<ConfirmationOutcome, ConfirmError>>,
    usize,
))
    requires
        budget.wf(),
    ensures
        r.0 == confirmation(budget.spec_max_attempts(), answers@),
        r.1 == polls_made(budget.spec_max_attempts(), answers@),
{
    let ghost all = answers@;
    let ghost limit = budget.spec_max_attempts();
    let total: usize = answers.len();
    let mut rest = answers;
    let (mut confirmer, _) = Confirmer::start(budget);
    let mut polls: usize = 0;
    loop
        invariant
            all == answers@,
            all.len() == total,
            limit == budget.spec_max_attempts(),
            confirmer.wf(),
            confirmer.budget() == budget,
            !confirmer.finished(),
            polls <= all.len(),
            polls <= limit,
            rest@ == all.subrange(polls as int, all.len() as int),
            confirmer.attempts() == polls,
            confirmer.last_error() == last_transport_error(all, polls as int),
            first_terminal(all, 0) == first_terminal(all, polls as int),
        decreases all.len() - polls,
    {
        proof {
            lemma_first_terminal(all, polls as int);
        }
        if rest.len() == 0 {
            return (None, polls);
        }
        let answer = rest.remove(0);
        assert(answer == all[polls as int]);
        assert(rest@ == all.subrange(polls + 1, all.len() as int));
        polls = polls + 1;
        proof {
            lemma_first_terminal(all, polls as int);
        }
        match confirmer.on_answer(answer) {
            ConfirmStep::Done(outcome) => {
                return (Some(outcome), polls);
            },
            _ => {},
        }
    }
}

/// The first terminal answer ends the polling at once with its outcome,
/// whatever is left of the budget.
pub proof fn lemma_terminal_answer_ends_polling(
    max_attempts: nat,
    answers: Seq<PollAnswer>,
    at: int,
)
    requires
        0 <= at < answers.len(),
        at <= max_attempts,
        is_terminal(answers[at]),
        forall|j: int| 0 <= j < at ==> !is_terminal(#[trigger] answers[j]),
    ensures
        confirmation(max_attempts, answers) == Some(
            Ok::<ConfirmationOutcome, ConfirmError>(terminal_outcome(answers[at])),
        ),
        polls_made(max_attempts, answers) == at + 1,
{
    lemma_first_terminal(answers, 0);
}

/// Polling is bounded: no more queries are made than one beyond the number
/// of waits in the budget. Where the backend never gives a terminal answer,
/// exactly that many are made and polling ends as timed out.
pub proof fn lemma_polling_is_bounded(max_attempts: nat, answers: Seq<PollAnswer>)
    ensures
        polls_made(max_attempts, answers) <= max_attempts + 1,
        polls_made(max_attempts, answers) <= answers.len(),
        answers.len() > max_attempts && (forall|j: int|
            0 <= j < answers.len() ==> !is_terminal(#[trigger] answers[j])) ==> polls_made(
            max_attempts,
            answers,
        ) == max_attempts + 1 && confirmation(max_attempts, answers) == Some(
            timed_out(max_attempts + 1, last_transport_error(answers, max_attempts + 1 as int)),
        ),
{
    lemma_first_terminal(answers, 0);
}

/// A budget without any time to wait still buys one query: polling ends
/// after exactly one, whatever the backend answers.
pub proof fn lemma_zero_wait_polls_once(budget: PollingBudget, answers: Seq<PollAnswer>)
    requires
        budget.wf(),
        budget.max_wait_seconds == 0,
        answers.len() >= 1,
    ensures
        budget.spec_max_attempts() == 0,
        polls_made(budget.spec_max_attempts(), answers) == 1,
        confirmation(budget.spec_max_attempts(), answers) is Some,
{
    lemma_first_terminal(answers, 0);
}

/// Polling never ends without a query: where the backend answers at all, at
/// least one query is made.
pub proof fn lemma_never_zero_polls(max_attempts: nat, answers: Seq<PollAnswer>)
    requires
        answers.len() >= 1,
    ensures
        polls_made(max_attempts, answers) >= 1,
{
    lemma_first_terminal(answers, 0);
}

} // verus!
