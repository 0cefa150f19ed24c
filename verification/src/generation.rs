//! Generation with retries: which prompt to send next, and when to stop.
//!
//! The caller sends every request to the language model and hands back what
//! came of it; the decisions are made here.

use vstd::prelude::*;
use crate::error::Error;
use crate::ratio::Ratio;
use crate::text::strings;
use crate::watsonx::{assess_quality, enhance_prompt_with_feedback, feedback_prompt, generation_points};

verus! {

/// How generation is retried.
#[derive(Debug)]
pub struct RetryConfig {
    /// The most requests that are sent.
    pub max_attempts: u32,
    /// The time allowed for the first request, in seconds.
    pub base_timeout_secs: u64,
    /// Whether later prompts are made more urgent.
    pub enable_progressive_prompts: bool,
    /// The quality from which a result is taken at once.
    pub quality_threshold: Ratio,
}

impl Default for RetryConfig {
    fn default() -> (c: Self)
        ensures
            c.max_attempts == 3,
            c.base_timeout_secs == 30,
            c.enable_progressive_prompts,
            c.quality_threshold == (Ratio { num: 7, den: 10 }),
    {
        RetryConfig {
            max_attempts: 3,
            base_timeout_secs: 30,
            enable_progressive_prompts: true,
            quality_threshold: Ratio { num: 7, den: 10 },
        }
    }
}

/// One generation with its quality.
#[derive(Debug)]
pub struct GenerationAttempt {
    pub prompt: String,
    pub result: String,
    pub quality_score: Ratio,
    pub attempt_number: u32,
}

/// A generation, as mathematical values.
pub struct AttemptModel {
    pub prompt: Seq<char>,
    pub result: Seq<char>,
    pub quality_score: Ratio,
    pub attempt_number: u32,
}

impl View for GenerationAttempt {
    type V = AttemptModel;

    open spec fn view(&self) -> AttemptModel {
        AttemptModel {
            prompt: self.prompt@,
            result: self.result@,
            quality_score: self.quality_score,
            attempt_number: self.attempt_number,
        }
    }
}

/// A request that is to be sent to the language model.
#[derive(Debug)]
pub struct GenerationRequest {
    pub prompt: String,
    /// The time allowed for the request, in seconds.
    pub timeout_secs: u64,
    pub attempt_number: u32,
}

/// What is to be done next.
#[derive(Debug)]
pub enum GenerationStep {
    /// Send this request, and hand back its outcome.
    Request(GenerationRequest),
    /// Generation is over, with this result.
    Done(GenerationAttempt),
    /// Generation is over, without a result.
    Failed(Error),
}

/// What is said where no request gave a result.
pub open spec fn all_failed_message() -> Seq<char> {
    "All generation attempts failed"@
}

/// The time allowed for the request of an attempt: ten seconds more with
/// every attempt, up to the largest number of seconds.
pub open spec fn timeout_for(base: u64, attempt: u32) -> u64 {
    if base + (attempt - 1) * 10 > u64::MAX {
        u64::MAX
    } else {
        (base + (attempt - 1) * 10) as u64
    }
}

/// The quality of a generated text.
pub open spec fn quality_of(text: Seq<char>) -> Ratio {
    Ratio { num: generation_points(text) as u64, den: 100 }
}

/// The better of the best attempt so far and a new one: the new one only
/// where there was none or its quality is higher.
pub open spec fn better(best: Option<AttemptModel>, new: AttemptModel) -> AttemptModel {
    match best {
        Some(b) => if new.quality_score.gt(b.quality_score) {
            new
        } else {
            b
        },
        None => new,
    }
}

/// A generation with retries, between two requests.
pub struct FeedbackGeneration {
    base_prompt: String,
    failures: Vec<String>,
    config: RetryConfig,
    attempt: u32,
    best: Option<GenerationAttempt>,
    done: bool,
}

/// The model of an optional attempt.
pub open spec fn attempt_model(a: Option<GenerationAttempt>) -> Option<AttemptModel> {
    match a {
        Some(x) => Some(x@),
        None => None,
    }
}

impl FeedbackGeneration {
    /// The number of the request that was sent last.
    pub closed spec fn attempt(&self) -> u32 {
        self.attempt
    }

    /// The best attempt so far that did not reach the threshold.
    pub closed spec fn best(&self) -> Option<AttemptModel> {
        attempt_model(self.best)
    }

    /// Whether generation is over.
    pub closed spec fn finished(&self) -> bool {
        self.done
    }

    /// The prompt that every request starts from.
    pub closed spec fn base(&self) -> Seq<char> {
        self.base_prompt@
    }

    /// The failures that the prompts tell of.
    pub closed spec fn told_failures(&self) -> Seq<Seq<char>> {
        strings(self.failures@)
    }

    /// The most requests that are sent.
    pub closed spec fn max_attempts(&self) -> u32 {
        self.config.max_attempts
    }

    /// The time allowed for the first request.
    pub closed spec fn base_timeout(&self) -> u64 {
        self.config.base_timeout_secs
    }

    /// The quality from which a result is taken at once.
    pub closed spec fn threshold(&self) -> Ratio {
        self.config.quality_threshold
    }

    /// While generation goes on, a request has been sent, and no more
    /// requests than allowed.
    pub closed spec fn well_formed(&self) -> bool {
        !self.done ==> 1 <= self.attempt <= self.config.max_attempts
    }

    /// The request with the number `attempt`.
    pub open spec fn request_model(&self, attempt: u32) -> (Seq<char>, u64, u32) {
        (
            feedback_prompt(self.base(), self.told_failures(), attempt),
            timeout_for(self.base_timeout(), attempt),
            attempt,
        )
    }

    /// The request with the number `attempt`.
    fn request(&self, attempt: u32) -> (r: GenerationRequest)
        requires
            attempt >= 1,
        ensures
            (r.prompt@, r.timeout_secs, r.attempt_number) == self.request_model(attempt),
    {
        let extra: u64 = ((attempt - 1) as u64) * 10;
        let timeout_secs = if extra > u64::MAX - self.config.base_timeout_secs {
            u64::MAX
        } else {
            self.config.base_timeout_secs + extra
        };
        GenerationRequest {
            prompt: enhance_prompt_with_feedback(
                self.base_prompt.as_str(),
                &self.failures,
                attempt,
            ),
            timeout_secs,
            attempt_number: attempt,
        }
    }

    /// Begins a generation. The step is the first request, or a failure
    /// where no request is allowed.
    pub fn start(base_prompt: &str, previous_failures: Vec<String>, config: RetryConfig) -> (r: (
        Self,
        GenerationStep,
    ))
        ensures
            r.0.well_formed(),
            r.0.base() == base_prompt@,
            r.0.told_failures() == strings(previous_failures@),
            r.0.max_attempts() == config.max_attempts,
            r.0.base_timeout() == config.base_timeout_secs,
            r.0.threshold() == config.quality_threshold,
            r.0.best() is None,
            r.0.finished() == (config.max_attempts == 0),
            config.max_attempts == 0 ==> (r.1 matches GenerationStep::Failed(e) && e
                matches Error::LLMProvider(m) && m@ == all_failed_message()),
            config.max_attempts > 0 ==> r.0.attempt() == 1 && (
            r.1 matches GenerationStep::Request(q) && (q.prompt@, q.timeout_secs, q.attempt_number)
                == r.0.request_model(1)),
    {
        let none = config.max_attempts == 0;
        let state = FeedbackGeneration {
            base_prompt: base_prompt.to_owned(),
            failures: previous_failures,
            config,
            attempt: if none {
                0
            } else {
                1
            },
            best: None,
            done: none,
        };
        if none {
            (state, GenerationStep::Failed(Error::LLMProvider("All generation attempts failed".to_owned())))
        } else {
            let q = state.request(1);
            (state, GenerationStep::Request(q))
        }
    }

    /// Takes the outcome of the request that was sent last, and decides the
    /// next step.
    ///
    /// A text whose quality reaches the threshold ends the generation with
    /// that text. Another text is kept where it is the best so far. An error
    /// of the last allowed request ends the generation with that error.
    /// After the last allowed request, the best text ends the generation, or
    /// a failure where there is none. Otherwise the next request follows.
    /// Once the generation is over, every outcome gives a failure.
    pub fn advance(&mut self, outcome: Result<String, Error>) -> (step: GenerationStep)
        requires
            old(self).well_formed(),
        ensures
            final(self).well_formed(),
            final(self).base() == old(self).base(),
            final(self).told_failures() == old(self).told_failures(),
            final(self).max_attempts() == old(self).max_attempts(),
            final(self).base_timeout() == old(self).base_timeout(),
            final(self).threshold() == old(self).threshold(),
            old(self).finished() ==> final(self).finished(),
            old(self).finished() ==> (step matches GenerationStep::Failed(e) && e
                matches Error::LLMProvider(m) && m@ == all_failed_message()),
            !old(self).finished() ==> ({
                let before = *old(self);
                let after = *final(self);
                let n = before.attempt();
                let last = n == before.max_attempts();
                let next = before.request_model((n + 1) as u32);
                match outcome {
                    Ok(text) => {
                        let current = AttemptModel {
                            prompt: feedback_prompt(before.base(), before.told_failures(), n),
                            result: text@,
                            quality_score: quality_of(text@),
                            attempt_number: n,
                        };
                        if quality_of(text@).ge(before.threshold()) {
                            after.finished() && (step matches GenerationStep::Done(a) && a@
                                == current)
                        } else if last {
                            after.finished() && (step matches GenerationStep::Done(a) && a@
                                == better(before.best(), current))
                        } else {
                            !after.finished() && after.attempt() == n + 1 && after.best() == Some(
                                better(before.best(), current),
                            ) && (step matches GenerationStep::Request(q) && (
                                q.prompt@,
                                q.timeout_secs,
                                q.attempt_number,
                            ) == next)
                        }
                    },
                    Err(e) => {
                        if last {
                            after.finished() && step == GenerationStep::Failed(e)
                        } else {
                            !after.finished() && after.attempt() == n + 1 && after.best()
                                == before.best() && (step matches GenerationStep::Request(q) && (
                                q.prompt@,
                                q.timeout_secs,
                                q.attempt_number,
                            ) == next)
                        }
                    },
                }
            }),
    {
        if self.done {
            return GenerationStep::Failed(
                Error::LLMProvider("All generation attempts failed".to_owned()),
            );
        }
        let n = self.attempt;
        let last = n == self.config.max_attempts;
        match outcome {
            Ok(text) => {
                let quality = assess_quality(text.as_str(), self.base_prompt.as_str());
                let current = GenerationAttempt {
                    prompt: enhance_prompt_with_feedback(
                        self.base_prompt.as_str(),
                        &self.failures,
                        n,
                    ),
                    result: text,
                    quality_score: quality,
                    attempt_number: n,
                };
                if quality.at_least(&self.config.quality_threshold) {
                    self.done = true;
                    return GenerationStep::Done(current);
                }
                let replace = match &self.best {
                    Some(b) => quality.exceeds(&b.quality_score),
                    None => true,
                };
                let kept: Option<GenerationAttempt> = if replace {
                    Some(current)
                } else {
                    self.best.take()
                };
                if last {
                    self.done = true;
                    match kept {
                        Some(a) => GenerationStep::Done(a),
                        None => GenerationStep::Failed(
                            Error::LLMProvider("All generation attempts failed".to_owned()),
                        ),
                    }
                } else {
                    self.best = kept;
                    self.attempt = n + 1;
                    GenerationStep::Request(self.request(n + 1))
                }
            },
            Err(e) => {
                if last {
                    self.done = true;
                    GenerationStep::Failed(e)
                } else {
                    self.attempt = n + 1;
                    GenerationStep::Request(self.request(n + 1))
                }
            },
        }
    }
}

} // verus!
