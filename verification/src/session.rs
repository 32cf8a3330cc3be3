//! The conversation session loop, as a state machine the driver steps.
//!
//! The driver feeds it three kinds of events: a submitted line arrives, the
//! loop is asked to start work, and an in-flight completion attempt resolves.
//! Every transition is pinned, value for value, to the specification
//! function [`step`]: what enters the transcript, what is rendered, and when
//! a completion request may be started.

use vstd::prelude::*;
use vstd::string::*;
use crate::history::{history_inv, History};
use crate::msg::{assistant_msg, msgs_view, system_msg, user_msg, Message, MsgV};
use crate::render::{
    echo_commands, echo_renders, error_commands, error_renders, no_choice_commands,
    no_choice_renders, renders_view, reply_commands, reply_renders, timeout_commands,
    timeout_renders, RenderCommand, RenderV,
};
use crate::text::{trim_spec, trim_ws};

verus! {

/// Seconds a completion request may take before its result is abandoned.
pub const REQUEST_TIMEOUT_SECS: u64 = 60;

/// How one completion attempt ended, as the driver observed it.
pub enum Outcome {
    /// The client answered in time; the candidate replies' texts, in the
    /// order the client listed them.
    Completed(Vec<String>),
    /// The client failed before the timeout; a human-readable description.
    Failed(String),
    /// The timeout elapsed first; any later result is ignored.
    TimedOut,
}

/// The mathematical value of an outcome.
pub ghost enum OutcomeV {
    Completed(Seq<Seq<char>>),
    Failed(Seq<char>),
    TimedOut,
}

/// The strings of a vector, as sequences of characters, in the same order.
pub open spec fn strs_view(ss: Seq<String>) -> Seq<Seq<char>> {
    ss.map_values(|s: String| s@)
}

impl View for Outcome {
    type V = OutcomeV;

    open spec fn view(&self) -> OutcomeV {
        match self {
            Outcome::Completed(cands) => OutcomeV::Completed(strs_view(cands@)),
            Outcome::Failed(desc) => OutcomeV::Failed(desc@),
            Outcome::TimedOut => OutcomeV::TimedOut,
        }
    }
}

/// One completion request: the model and the full transcript snapshot taken
/// when the request was started.
pub struct CompletionRequest {
    pub model: String,
    pub messages: Vec<Message>,
}

/// The mathematical value of one completion request.
#[verifier::ext_equal]
pub ghost struct RequestV {
    pub model: Seq<char>,
    pub history: Seq<MsgV>,
}

impl View for CompletionRequest {
    type V = RequestV;

    open spec fn view(&self) -> RequestV {
        RequestV { model: self.model@, history: msgs_view(self.messages@) }
    }
}

/// The whole session as a mathematical value: the transcript, the lines
/// still waiting their turn, whether a request is in flight, and the model.
#[verifier::ext_equal]
pub ghost struct SessionV {
    pub model: Seq<char>,
    pub history: Seq<MsgV>,
    pub queue: Seq<Seq<char>>,
    pub in_flight: bool,
}

/// One event the driver feeds the session.
pub ghost enum EventV {
    /// The user submitted a line.
    Submitted(Seq<char>),
    /// The driver asks whether the next queued line can be worked on.
    StartNext,
    /// The in-flight completion attempt resolved.
    Resolved(OutcomeV),
}

/// What one step does: the state after it, what it renders, and the
/// completion request it starts, if any.
#[verifier::ext_equal]
pub ghost struct StepV {
    pub next: SessionV,
    pub renders: Seq<RenderV>,
    pub request: Option<RequestV>,
}

/// The rendering each outcome gets: a reply line, an error line, a
/// timeout-specific line, or the empty-candidate defect line.
pub open spec fn outcome_renders(o: OutcomeV) -> Seq<RenderV> {
    match o {
        OutcomeV::Completed(cands) => if cands.len() == 0 {
            no_choice_renders()
        } else {
            reply_renders(trim_spec(cands[0]))
        },
        OutcomeV::Failed(d) => error_renders(d),
        OutcomeV::TimedOut => timeout_renders(),
    }
}

/// What each outcome appends to the transcript: the trimmed first candidate
/// as one assistant turn on success, nothing otherwise.
pub open spec fn outcome_appends(h: Seq<MsgV>, o: OutcomeV) -> Seq<MsgV> {
    match o {
        OutcomeV::Completed(cands) => if cands.len() == 0 {
            h
        } else {
            h.push(assistant_msg(trim_spec(cands[0])))
        },
        OutcomeV::Failed(d) => h,
        OutcomeV::TimedOut => h,
    }
}

/// The session loop's transition function.
///
/// A submitted line is only queued. Starting work does nothing while a
/// request is in flight or nothing is queued; otherwise it takes the oldest
/// queued line, appends it to the transcript as a user turn, echoes it, and
/// starts exactly one request carrying the model and the new transcript.
/// A resolution renders its outcome, appends the trimmed reply on success,
/// and leaves the loop idle again.
pub open spec fn step(s: SessionV, e: EventV) -> StepV {
    match e {
        EventV::Submitted(t) => StepV {
            next: SessionV {
                model: s.model,
                history: s.history,
                queue: s.queue.push(t),
                in_flight: s.in_flight,
            },
            renders: Seq::empty(),
            request: None,
        },
        EventV::StartNext => if s.in_flight || s.queue.len() == 0 {
            StepV { next: s, renders: Seq::empty(), request: None }
        } else {
            let t = s.queue[0];
            let h = s.history.push(user_msg(t));
            StepV {
                next: SessionV {
                    model: s.model,
                    history: h,
                    queue: s.queue.drop_first(),
                    in_flight: true,
                },
                renders: echo_renders(t),
                request: Some(RequestV { model: s.model, history: h }),
            }
        },
        EventV::Resolved(o) => StepV {
            next: SessionV {
                model: s.model,
                history: outcome_appends(s.history, o),
                queue: s.queue,
                in_flight: false,
            },
            renders: outcome_renders(o),
            request: None,
        },
    }
}

/// A session is well formed when its transcript is.
pub open spec fn session_inv(s: SessionV) -> bool {
    history_inv(s.history)
}

/// What one executable step asks the driver to do.
pub struct StepResult {
    pub renders: Vec<RenderCommand>,
    pub request: Option<CompletionRequest>,
}

/// The session loop: sole owner of the transcript and of the submitted-line
/// queue, and the only place a completion request is ever started.
pub struct Session {
    model: String,
    history: History,
    queue: Vec<String>,
    in_flight: bool,
}

impl View for Session {
    type V = SessionV;

    closed spec fn view(&self) -> SessionV {
        SessionV {
            model: self.model@,
            history: self.history@,
            queue: strs_view(self.queue@),
            in_flight: self.in_flight,
        }
    }
}

impl Session {
    /// Start a session for the given model: the transcript holds only the
    /// system message, nothing is queued, and nothing is in flight.
    pub fn new(model: String) -> (s: Session)
        ensures
            s@ == (SessionV {
                model: model@,
                history: seq![system_msg()],
                queue: Seq::empty(),
                in_flight: false,
            }),
            session_inv(s@),
    {
        let s = Session {
            model,
            history: History::new(),
            queue: Vec::new(),
            in_flight: false,
        };
        proof {
            assert(s@ =~= (SessionV {
                model: s.model@,
                history: seq![system_msg()],
                queue: Seq::empty(),
                in_flight: false,
            }));
        }
        s
    }

    /// Whether no completion request is in flight.
    pub fn is_idle(&self) -> (r: bool)
        ensures
            r == !self@.in_flight,
    {
        !self.in_flight
    }

    /// Read the transcript.
    pub fn transcript(&self) -> (h: &History)
        ensures
            h@ == self@.history,
    {
        &self.history
    }

    /// Take one submitted line into the queue, in arrival order. The line is
    /// not yet a transcript turn: it becomes one when its turn comes.
    pub fn submit_line(&mut self, text: String)
        ensures
            final(self)@ == step(old(self)@, EventV::Submitted(text@)).next,
    {
        let ghost old_queue = self.queue@;
        self.queue.push(text);
        proof {
            assert(strs_view(self.queue@) =~= strs_view(old_queue).push(text@));
            assert(final(self)@ =~= step(old(self)@, EventV::Submitted(text@)).next);
        }
    }

    /// Start work on the oldest queued line, if the loop is idle and a line
    /// is waiting: append it as a user turn, echo it, and hand back the one
    /// completion request to issue. Otherwise do nothing.
    pub fn start_next(&mut self) -> (r: StepResult)
        ensures
            ({
                let out = step(old(self)@, EventV::StartNext);
                &&& final(self)@ == out.next
                &&& renders_view(r.renders@) == out.renders
                &&& (r.request is Some) == (out.request is Some)
                &&& (r.request matches Some(req) ==> out.request matches Some(rv) && req@ == rv)
            }),
    {
        if self.in_flight || self.queue.len() == 0 {
            let r = StepResult { renders: Vec::new(), request: None };
            proof {
                assert(renders_view(r.renders@) =~= Seq::<RenderV>::empty());
            }
            r
        } else {
            let ghost old_queue = self.queue@;
            let text: String = self.queue.remove(0);
            let echo: Vec<RenderCommand> = echo_commands(text.as_str());
            self.history.append_user(text);
            self.in_flight = true;
            let req = CompletionRequest {
                model: self.model.clone(),
                messages: self.history.snapshot(),
            };
            proof {
                let out = step(old(self)@, EventV::StartNext);
                assert(strs_view(self.queue@) =~= strs_view(old_queue).drop_first());
                assert(final(self)@ =~= out.next);
                assert(req@ =~= out.request->0);
            }
            StepResult { renders: echo, request: Some(req) }
        }
    }

    /// Record how the in-flight completion attempt ended. On a reply, its
    /// first candidate is trimmed of leading and trailing whitespace and
    /// appended as one assistant turn; an error, a timeout, or an empty
    /// candidate list appends nothing. Each outcome is rendered exactly
    /// once, and the loop is idle again afterwards.
    pub fn resolve(&mut self, outcome: Outcome) -> (r: Vec<RenderCommand>)
        ensures
            ({
                let out = step(old(self)@, EventV::Resolved(outcome@));
                &&& final(self)@ == out.next
                &&& renders_view(r@) == out.renders
            }),
    {
        self.in_flight = false;
        let r = match outcome {
            Outcome::Completed(cands) => {
                if cands.len() == 0 {
                    no_choice_commands()
                } else {
                    let trimmed: String = trim_ws(cands[0].as_str());
                    let cmds = reply_commands(trimmed.as_str());
                    self.history.append_assistant(trimmed);
                    cmds
                }
            },
            Outcome::Failed(desc) => error_commands(desc.as_str()),
            Outcome::TimedOut => timeout_commands(),
        };
        proof {
            let out = step(old(self)@, EventV::Resolved(outcome@));
            assert(final(self)@ =~= out.next);
        }
        r
    }
}

} // verus!
