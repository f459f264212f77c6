//! The reply-decision engine: a bounded retry loop that asks the judge model
//! for a well-formed judgment object and self-repairs on malformed output.

use vstd::prelude::*;

verus! {

use vstd::string::StringExecFns;
use crate::judgment::judgment_of;
use crate::prompt::{PromptMessage, Role};

/// What one observed judge response leads to.
#[derive(Clone, Copy, Debug, PartialEq, Eq, Structural)]
pub enum JudgeStep {
    /// The response parsed: the verdict is final; no attempt was consumed.
    Decided(bool),
    /// The response was malformed but budget remains: a corrective
    /// instruction was appended and the request is to be repeated.
    Retry,
    /// The response was malformed and the budget is exhausted.
    Failed,
}

/// The outcome of driving the engine over a sequence of responses.
#[derive(Clone, Copy, Debug, PartialEq, Eq, Structural)]
pub enum JudgeOutcome {
    /// A well-formed verdict arrived within the budget.
    Decided(bool),
    /// Every budgeted attempt returned malformed output.
    Failed,
    /// The responses ran out before the engine reached a terminal state.
    NeedMore,
}

/// The corrective system-role text appended after a malformed response.
pub open spec fn repair_text() -> Seq<char> {
    "Failed to parse JSON\nTry again, and ensure your response is valid JSON"@
}

/// Builds the corrective system turn appended after a malformed response.
pub fn repair_message() -> (r: PromptMessage)
    ensures
        r.role == Role::System,
        r.content@ == repair_text(),
{
    PromptMessage {
        role: Role::System,
        content: String::from_str(
            "Failed to parse JSON\nTry again, and ensure your response is valid JSON",
        ),
    }
}

/// What one response does to an engine holding `attempts` remaining attempts.
pub open spec fn observe_step(attempts: int, response: Seq<char>) -> JudgeStep {
    match judgment_of(response) {
        Some(b) => JudgeStep::Decided(b),
        None => if attempts - 1 <= 0 {
            JudgeStep::Failed
        } else {
            JudgeStep::Retry
        },
    }
}

/// The judge's state: the remaining attempt budget and the judge context the
/// next request is made with (grown by one corrective turn per retry).
pub struct JudgeEngine {
    pub attempts_left: i64,
    pub context: Vec<PromptMessage>,
}

impl JudgeEngine {
    /// Starts a decision flow with the configured attempt budget over the
    /// judge context.
    pub fn new(max_attempts: i64, context: Vec<PromptMessage>) -> (r: JudgeEngine)
        ensures
            r.attempts_left == max_attempts,
            r.context == context,
    {
        JudgeEngine { attempts_left: max_attempts, context }
    }

    /// Feeds one judge response to the engine. A well-formed response decides
    /// without consuming an attempt; a malformed one consumes an attempt and
    /// either exhausts the budget or appends the corrective instruction for
    /// the next request.
    pub fn observe(&mut self, response: &str) -> (r: JudgeStep)
        requires
            old(self).attempts_left > i64::MIN,
        ensures
            r == observe_step(old(self).attempts_left as int, response@),
            r is Decided ==> *final(self) == *old(self),
            !(r is Decided) ==> final(self).attempts_left == old(self).attempts_left - 1,
            r is Failed ==> final(self).context == old(self).context,
            r is Retry ==> {
                &&& final(self).context@.len() == old(self).context@.len() + 1
                &&& final(self).context@.subrange(0, old(self).context@.len() as int) == old(
                    self,
                ).context@
                &&& final(self).context@.last().role == Role::System
                &&& final(self).context@.last().content@ == repair_text()
            },
    {
        match crate::judgment::parse_judgment(response) {
            Some(verdict) => JudgeStep::Decided(verdict.should_reply),
            None => {
                self.attempts_left = self.attempts_left - 1;
                if self.attempts_left <= 0 {
                    JudgeStep::Failed
                } else {
                    self.context.push(repair_message());
                    proof {
                        assert(self.context@.subrange(0, old(self).context@.len() as int) =~= old(
                            self,
                        ).context@);
                    }
                    JudgeStep::Retry
                }
            },
        }
    }
}

/// The outcome, and the number of attempts consumed, of feeding `responses`
/// in order to an engine with `attempts` remaining attempts.
pub open spec fn spec_judge_run(attempts: int, responses: Seq<Seq<char>>) -> (JudgeOutcome, int)
    decreases responses.len(),
{
    if responses.len() == 0 {
        (JudgeOutcome::NeedMore, 0)
    } else {
        match judgment_of(responses[0]) {
            Some(b) => (JudgeOutcome::Decided(b), 1),
            None => if attempts - 1 <= 0 {
                (JudgeOutcome::Failed, 1)
            } else {
                let rest = spec_judge_run(attempts - 1, responses.drop_first());
                (rest.0, rest.1 + 1)
            },
        }
    }
}

/// Drives a decision flow over a fixed sequence of judge responses, starting
/// from the given judge context with the configured attempt budget. Returns
/// the outcome and the number of attempts made.
pub fn judge_run(context: Vec<PromptMessage>, max_attempts: i64, responses: &Vec<String>) -> (r: (
    JudgeOutcome,
    usize,
))
    requires
        max_attempts - responses@.len() > i64::MIN,
    ensures
        (r.0, r.1 as int) == spec_judge_run(
            max_attempts as int,
            responses@.map_values(|s: String| s@),
        ),
        r.1 <= responses@.len(),
{
    let ghost rs = responses@.map_values(|s: String| s@);
    let mut engine = JudgeEngine::new(max_attempts, context);
    let mut j: usize = 0;
    proof {
        assert(rs.skip(0) =~= rs);
    }
    while j < responses.len()
        invariant
            j <= responses@.len(),
            rs == responses@.map_values(|s: String| s@),
            engine.attempts_left == max_attempts - j,
            max_attempts - responses@.len() > i64::MIN,
            spec_judge_run(max_attempts as int, rs) == {
                let rest = spec_judge_run(engine.attempts_left as int, rs.skip(j as int));
                (rest.0, rest.1 + j as int)
            },
        decreases responses@.len() - j,
    {
        let step = engine.observe(responses[j].as_str());
        proof {
            assert(rs.skip(j as int)[0] == rs[j as int]);
            assert(rs.skip(j as int).drop_first() =~= rs.skip(j + 1 as int));
        }
        match step {
            JudgeStep::Decided(b) => {
                return (JudgeOutcome::Decided(b), j + 1);
            },
            JudgeStep::Failed => {
                return (JudgeOutcome::Failed, j + 1);
            },
            JudgeStep::Retry => {},
        }
        j += 1;
    }
    (JudgeOutcome::NeedMore, j)
}

/// Retry bound, exhaustion half: with an attempt budget of `attempts` and a
/// provider whose first `attempts` responses are all malformed, the flow
/// makes exactly `attempts` attempts and then fails.
pub proof fn lemma_judge_exhaustion(attempts: int, responses: Seq<Seq<char>>)
    requires
        1 <= attempts,
        attempts <= responses.len(),
        forall|i: int| 0 <= i < attempts ==> judgment_of(#[trigger] responses[i]) is None,
    ensures
        spec_judge_run(attempts, responses) == (JudgeOutcome::Failed, attempts),
    decreases attempts,
{
    if attempts == 1 {
    } else {
        assert(forall|i: int|
            0 <= i < attempts - 1 ==> judgment_of(#[trigger] responses.drop_first()[i]) is None);
        lemma_judge_exhaustion(attempts - 1, responses.drop_first());
    }
}

/// Retry bound, success half: if the first well-formed response is the
/// `j`-th one with `j` within the budget, the flow succeeds with its verdict
/// after exactly `j` attempts and no more.
pub proof fn lemma_judge_success(attempts: int, responses: Seq<Seq<char>>, j: int, b: bool)
    requires
        1 <= j <= attempts,
        j <= responses.len(),
        forall|i: int| 0 <= i < j - 1 ==> judgment_of(#[trigger] responses[i]) is None,
        judgment_of(responses[j - 1]) == Some(b),
    ensures
        spec_judge_run(attempts, responses) == (JudgeOutcome::Decided(b), j),
    decreases j,
{
    if j == 1 {
    } else {
        assert(forall|i: int|
            0 <= i < j - 2 ==> judgment_of(#[trigger] responses.drop_first()[i]) is None);
        assert(responses.drop_first()[j - 2] == responses[j - 1]);
        lemma_judge_success(attempts - 1, responses.drop_first(), j - 1, b);
    }
}

} // verus!
