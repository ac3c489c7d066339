use vstd::prelude::*;

use crate::error::{stream_expired, CursorError, Result};
use crate::types::{
    clone_opt_string, is_terminal_status, opt_view, Duration, Run, RunStreamMessage,
    WaitForRunOptions, WaitForRunResult, NANOS_PER_MILLI,
};

verus! {

/// The id to resume a run's stream from after `msgs` were received, having
/// started from `initial`: the id of the last message that carried one.
pub open spec fn latest_event_id(
    initial: Option<Seq<char>>,
    msgs: Seq<RunStreamMessage>,
) -> Option<Seq<char>>
    decreases msgs.len(),
{
    if msgs.len() == 0 {
        initial
    } else {
        match msgs.last().id {
            Some(id) => Some(id@),
            None => latest_event_id(initial, msgs.drop_last()),
        }
    }
}

/// The stream position to resume from is the id of the last received
/// message that carried one; where no message carried one, it is the
/// position the wait started from.
pub proof fn lemma_latest_event_id(initial: Option<Seq<char>>, msgs: Seq<RunStreamMessage>)
    ensures
        (forall|i: int| 0 <= i < msgs.len() ==> #[trigger] msgs[i].id is None) ==> latest_event_id(
            initial,
            msgs,
        ) == initial,
        forall|i: int|
            0 <= i < msgs.len() && (#[trigger] msgs[i]).id is Some && (forall|j: int|
                i < j < msgs.len() ==> msgs[j].id is None) ==> latest_event_id(initial, msgs)
                == opt_view(msgs[i].id),
    decreases msgs.len(),
{
    if msgs.len() > 0 {
        let rest = msgs.drop_last();
        lemma_latest_event_id(initial, rest);
        assert forall|i: int| 0 <= i < rest.len() implies rest[i] == msgs[i] by {}
        if msgs.last().id is None {
            assert forall|i: int|
                0 <= i < msgs.len() && (#[trigger] msgs[i]).id is Some && (forall|j: int|
                    i < j < msgs.len() ==> msgs[j].id is None) implies latest_event_id(
                initial,
                msgs,
            ) == opt_view(msgs[i].id) by {
                assert(i < msgs.len() - 1);
                assert(rest[i] == msgs[i]);
                assert forall|j: int| i < j < rest.len() implies rest[j].id is None by {
                    assert(rest[j] == msgs[j]);
                }
            }
        }
    }
}

/// Where a wait for a run stands.
#[derive(Debug, PartialEq, Eq, Structural)]
pub enum WaitPhase {
    /// The run's event stream is being opened.
    Opening,
    /// Events of the stream are being read.
    Streaming,
    /// The run is being fetched to learn its status.
    Fetching,
    /// The waiter pauses before fetching the run again.
    Sleeping,
}

/// What happened since the waiter last decided.
pub enum WaitEvent {
    /// The event stream was opened.
    StreamOpened,
    /// The event stream could not be opened.
    StreamFailed(CursorError),
    /// The stream yielded an item.
    StreamItem(Result<RunStreamMessage>),
    /// The stream ended.
    StreamEnded,
    /// The run was fetched; the time since the wait began comes with it.
    RunFetched(Result<Run>, Duration),
    /// The pause before the next fetch is over.
    Slept,
}

/// What the waiter asks to be done next.
#[derive(Debug)]
pub enum WaitAction {
    /// Read the next item of the event stream.
    ReadStream,
    /// Fetch the run.
    FetchRun,
    /// Pause for the given time, then report `Slept`.
    Sleep(Duration),
}

/// The waiter's decision: go on with an action, or stop with an outcome.
pub enum WaitStep {
    Continue(RunWaiter, WaitAction),
    Finished(Result<WaitForRunResult>),
}

/// The decisions of waiting for a run to finish: follow its event stream
/// while it lasts, then poll the run until it reaches a terminal status,
/// within an optional time limit and an optional number of polls.
pub struct RunWaiter {
    pub agent_id: String,
    pub run_id: String,
    /// The stream position that the wait resumed from.
    pub resumed_from: Ghost<Option<Seq<char>>>,
    pub last_event_id: Option<String>,
    pub poll_interval: Duration,
    pub timeout: Option<Duration>,
    pub max_poll_attempts: Option<u32>,
    pub stream_messages: Vec<RunStreamMessage>,
    pub used_polling_fallback: bool,
    pub poll_attempts: u32,
    pub phase: WaitPhase,
}

impl RunWaiter {
    /// The waiter's invariant: it resumes from the id of the last message
    /// that carried one, and never polls more often than allowed.
    pub open spec fn wf(&self) -> bool {
        &&& opt_view(self.last_event_id) == latest_event_id(
            self.resumed_from@,
            self.stream_messages@,
        )
        &&& (self.max_poll_attempts matches Some(m) ==> {
            &&& self.poll_attempts <= m
            &&& (self.phase == WaitPhase::Sleeping ==> self.poll_attempts < m)
        })
        &&& (self.phase == WaitPhase::Opening ==> {
            &&& self.stream_messages@.len() == 0
            &&& !self.used_polling_fallback
            &&& self.poll_attempts == 0
        })
        &&& (self.phase == WaitPhase::Streaming ==> {
            &&& !self.used_polling_fallback
            &&& self.poll_attempts == 0
        })
        &&& (self.phase == WaitPhase::Sleeping ==> self.used_polling_fallback)
    }

    /// How many more steps polling may take at most when the number of polls
    /// is capped: two per poll left, one more while a fetch is pending.
    pub open spec fn polls_left(&self) -> int {
        match self.max_poll_attempts {
            Some(m) => 2 * (m - self.poll_attempts) + if self.phase == WaitPhase::Fetching {
                1int
            } else {
                0int
            },
            None => 0,
        }
    }

    /// Which events can come in the current phase.
    pub open spec fn accepts(&self, event: WaitEvent) -> bool {
        match self.phase {
            WaitPhase::Opening => event is StreamOpened || event is StreamFailed,
            WaitPhase::Streaming => event is StreamItem || event is StreamEnded,
            WaitPhase::Fetching => event is RunFetched,
            WaitPhase::Sleeping => event is Slept,
        }
    }

    /// `next` is `self` with nothing changed but the phase.
    pub open spec fn same_progress(self, next: RunWaiter) -> bool {
        &&& next.stream_messages@ == self.stream_messages@
        &&& next.last_event_id == self.last_event_id
        &&& next.used_polling_fallback == self.used_polling_fallback
        &&& next.poll_attempts == self.poll_attempts
    }

    /// `next` keeps the identity and the settings of `self`.
    pub open spec fn same_settings(self, next: RunWaiter) -> bool {
        &&& next.agent_id == self.agent_id
        &&& next.run_id == self.run_id
        &&& next.resumed_from == self.resumed_from
        &&& next.poll_interval == self.poll_interval
        &&& next.timeout == self.timeout
        &&& next.max_poll_attempts == self.max_poll_attempts
    }

    /// What one step does, event by event.
    pub open spec fn step_spec(self, event: WaitEvent, out: WaitStep) -> bool {
        match event {
            WaitEvent::StreamOpened => out matches WaitStep::Continue(w, a) && a is ReadStream
                && w.phase == WaitPhase::Streaming && self.same_progress(w),
            WaitEvent::StreamFailed(e) => if stream_expired(e) {
                out matches WaitStep::Continue(w, a) && a is FetchRun && w.phase
                    == WaitPhase::Fetching && w.used_polling_fallback && w.stream_messages@
                    == self.stream_messages@ && w.last_event_id == self.last_event_id
                    && w.poll_attempts == self.poll_attempts
            } else {
                out == WaitStep::Finished(Err(e))
            },
            WaitEvent::StreamItem(Ok(m)) => out matches WaitStep::Continue(w, a) && a is ReadStream
                && w.phase == WaitPhase::Streaming && w.stream_messages@
                == self.stream_messages@.push(m) && opt_view(w.last_event_id) == (if m.id is Some {
                opt_view(m.id)
            } else {
                opt_view(self.last_event_id)
            }) && w.used_polling_fallback == self.used_polling_fallback && w.poll_attempts
                == self.poll_attempts,
            WaitEvent::StreamItem(Err(e)) => out == WaitStep::Finished(Err(e)),
            WaitEvent::StreamEnded => out matches WaitStep::Continue(w, a) && a is FetchRun
                && w.phase == WaitPhase::Fetching && self.same_progress(w),
            WaitEvent::RunFetched(Err(e), _) => out == WaitStep::Finished(Err(e)),
            WaitEvent::RunFetched(Ok(run), elapsed) => if is_terminal_status(run.status@) {
                out matches WaitStep::Finished(Ok(r)) && r.run == run && r.stream_messages@
                    == self.stream_messages@ && r.last_event_id == self.last_event_id
                    && r.used_polling_fallback == self.used_polling_fallback
            } else if self.timeout matches Some(t) && elapsed@ >= t@ {
                out matches WaitStep::Finished(
                    Err(CursorError::WaitTimeout { agent_id, run_id, timeout_ms }),
                ) && agent_id@ == self.agent_id@ && run_id@ == self.run_id@ && timeout_ms == self.timeout.unwrap()@
                    / (NANOS_PER_MILLI as nat)
            } else if self.max_poll_attempts matches Some(m) && self.poll_attempts >= m {
                out matches WaitStep::Finished(
                    Err(CursorError::MaxPollAttemptsExceeded { agent_id, run_id, max_attempts }),
                ) && agent_id@ == self.agent_id@ && run_id@ == self.run_id@ && max_attempts == self.max_poll_attempts.unwrap()
            } else {
                out matches WaitStep::Continue(w, WaitAction::Sleep(d)) && d == self.poll_interval
                    && w.phase == WaitPhase::Sleeping && w.used_polling_fallback
                    && w.stream_messages@ == self.stream_messages@ && w.last_event_id
                    == self.last_event_id && w.poll_attempts == self.poll_attempts
            },
            WaitEvent::Slept => out matches WaitStep::Continue(w, a) && a is FetchRun && w.phase
                == WaitPhase::Fetching && w.stream_messages@ == self.stream_messages@
                && w.last_event_id == self.last_event_id && w.used_polling_fallback
                == self.used_polling_fallback && w.poll_attempts == (if self.poll_attempts
                < u32::MAX {
                (self.poll_attempts + 1) as u32
            } else {
                self.poll_attempts
            }),
        }
    }

    /// A run that has reached a terminal status (`FINISHED`, `ERROR`,
    /// `CANCELLED` or `EXPIRED`) ends the wait successfully with that run,
    /// however late it came and however many polls were made. A wait times
    /// out only on a run that is still going and only once the time since
    /// it began has reached the limit; it exhausts its polls only on a run
    /// that is still going, once every allowed poll was made.
    pub proof fn law_fetched_run_decides(self, run: Run, elapsed: Duration, out: WaitStep)
        requires
            self.step_spec(WaitEvent::RunFetched(Ok(run), elapsed), out),
        ensures
            run.status@ == "FINISHED"@ || run.status@ == "ERROR"@ || run.status@ == "CANCELLED"@
                || run.status@ == "EXPIRED"@ ==> (out matches WaitStep::Finished(Ok(r)) && r.run
                == run && r.stream_messages@ == self.stream_messages@ && r.last_event_id
                == self.last_event_id && r.used_polling_fallback == self.used_polling_fallback),
            out matches WaitStep::Finished(Err(CursorError::WaitTimeout { timeout_ms, .. }))
                ==> {
                &&& run.status@ != "FINISHED"@ && run.status@ != "ERROR"@
                &&& run.status@ != "CANCELLED"@ && run.status@ != "EXPIRED"@
                &&& self.timeout matches Some(t) && elapsed@ >= t@ && timeout_ms == t@
                    / (NANOS_PER_MILLI as nat)
            },
            out matches WaitStep::Finished(Err(CursorError::MaxPollAttemptsExceeded { .. }))
                ==> {
                &&& run.status@ != "FINISHED"@ && run.status@ != "ERROR"@
                &&& run.status@ != "CANCELLED"@ && run.status@ != "EXPIRED"@
                &&& self.max_poll_attempts matches Some(m) && self.poll_attempts >= m
            },
            out matches WaitStep::Continue(w, a) ==> {
                &&& a == WaitAction::Sleep(self.poll_interval)
                &&& w.used_polling_fallback
                &&& w.poll_attempts == self.poll_attempts
            },
    {
    }

    /// How the stream side of a wait goes: an opened stream is read; each
    /// streamed message is kept, in order, and a message with an id becomes
    /// the position to resume from; a failed item or a stream that cannot be
    /// opened ends the wait with that error, except an expired stream, which
    /// turns the wait to polling; a stream that ends leads to fetching the
    /// run; a finished pause leads to the next fetch, one poll later.
    pub proof fn law_stream_side(self, event: WaitEvent, out: WaitStep)
        requires
            self.step_spec(event, out),
        ensures
            event is StreamOpened ==> (out matches WaitStep::Continue(w, a) && a
                == WaitAction::ReadStream && w.stream_messages@ == self.stream_messages@),
            event matches WaitEvent::StreamItem(Ok(m)) ==> (out matches WaitStep::Continue(w, a)
                && a == WaitAction::ReadStream && w.stream_messages@.len()
                == self.stream_messages@.len() + 1 && w.stream_messages@.last() == m
                && w.stream_messages@.drop_last() == self.stream_messages@ && (m.id matches Some(
                i) ==> opt_view(w.last_event_id) == Some(i@)) && (m.id is None ==> opt_view(
                w.last_event_id) == opt_view(self.last_event_id))),
            event matches WaitEvent::StreamItem(Err(e)) ==> out == WaitStep::Finished(
                Err(e),
            ),
            event matches WaitEvent::StreamFailed(e) ==> (if e matches CursorError::Api {
                status,
                code,
                ..
            } && status == 410 && opt_view(code) == Some("stream_expired"@) {
                out matches WaitStep::Continue(w, a) && a == WaitAction::FetchRun
                    && w.used_polling_fallback && w.stream_messages@ == self.stream_messages@
            } else {
                out == WaitStep::Finished(Err(e))
            }),
            event is StreamEnded ==> (out matches WaitStep::Continue(w, a) && a
                == WaitAction::FetchRun && w.stream_messages@ == self.stream_messages@),
            event is Slept && self.poll_attempts < u32::MAX ==> (out matches WaitStep::Continue(
                w,
                a,
            ) && a == WaitAction::FetchRun && w.poll_attempts == self.poll_attempts + 1),
    {
        if let WaitEvent::StreamItem(Ok(m)) = event {
            if let WaitStep::Continue(w, _) = out {
                assert(w.stream_messages@.drop_last() =~= self.stream_messages@);
            }
        }
    }

    /// A waiter for run `run_id` of agent `agent_id`, about to open the
    /// run's event stream from `options.last_event_id`.
    pub fn new(agent_id: &str, run_id: &str, options: WaitForRunOptions) -> (w: RunWaiter)
        ensures
            w.wf(),
            w.phase == WaitPhase::Opening,
            w.agent_id@ == agent_id@,
            w.run_id@ == run_id@,
            w.resumed_from@ == opt_view(options.last_event_id),
            w.last_event_id == options.last_event_id,
            w.poll_interval == options.poll_interval,
            w.timeout == options.timeout,
            w.max_poll_attempts == options.max_poll_attempts,
    {
        let ghost initial = opt_view(options.last_event_id);
        RunWaiter {
            agent_id: String::from_str(agent_id),
            run_id: String::from_str(run_id),
            resumed_from: Ghost(initial),
            last_event_id: options.last_event_id,
            poll_interval: options.poll_interval,
            timeout: options.timeout,
            max_poll_attempts: options.max_poll_attempts,
            stream_messages: Vec::new(),
            used_polling_fallback: false,
            poll_attempts: 0,
            phase: WaitPhase::Opening,
        }
    }

    /// Decides what to do after `event`.
    pub fn step(self, event: WaitEvent) -> (out: WaitStep)
        requires
            self.wf(),
            self.accepts(event),
        ensures
            self.step_spec(event, out),
            out matches WaitStep::Continue(w, _) ==> w.wf() && self.same_settings(w),
            out matches WaitStep::Finished(Ok(r)) ==> {
                &&& is_terminal_status(r.run.status@)
                &&& opt_view(r.last_event_id) == latest_event_id(
                    self.resumed_from@,
                    r.stream_messages@,
                )
            },
            (event matches WaitEvent::RunFetched(Ok(_), _)) && (out matches WaitStep::Finished(
                Err(CursorError::MaxPollAttemptsExceeded { .. }),
            )) ==> self.max_poll_attempts == Some(self.poll_attempts),
            self.max_poll_attempts is Some && (self.phase == WaitPhase::Fetching || self.phase
                == WaitPhase::Sleeping) ==> (out matches WaitStep::Continue(w, _) ==> 0
                <= w.polls_left() < self.polls_left()),
    {
        let mut w = self;
        match event {
            WaitEvent::StreamOpened => {
                w.phase = WaitPhase::Streaming;
                WaitStep::Continue(w, WaitAction::ReadStream)
            },
            WaitEvent::StreamFailed(e) => {
                if e.is_stream_expired() {
                    w.used_polling_fallback = true;
                    w.phase = WaitPhase::Fetching;
                    WaitStep::Continue(w, WaitAction::FetchRun)
                } else {
                    WaitStep::Finished(Err(e))
                }
            },
            WaitEvent::StreamItem(Ok(m)) => {
                let ghost before = w.stream_messages@;
                if m.id.is_some() {
                    w.last_event_id = clone_opt_string(&m.id);
                }
                w.stream_messages.push(m);
                proof {
                    assert(w.stream_messages@.drop_last() =~= before);
                    assert(w.stream_messages@.last() == m);
                }
                WaitStep::Continue(w, WaitAction::ReadStream)
            },
            WaitEvent::StreamItem(Err(e)) => WaitStep::Finished(Err(e)),
            WaitEvent::StreamEnded => {
                w.phase = WaitPhase::Fetching;
                WaitStep::Continue(w, WaitAction::FetchRun)
            },
            WaitEvent::RunFetched(Err(e), _) => WaitStep::Finished(Err(e)),
            WaitEvent::RunFetched(Ok(run), elapsed) => {
                if run.is_terminal() {
                    return WaitStep::Finished(
                        Ok(
                            WaitForRunResult {
                                run,
                                stream_messages: w.stream_messages,
                                last_event_id: w.last_event_id,
                                used_polling_fallback: w.used_polling_fallback,
                            },
                        ),
                    );
                }
                w.used_polling_fallback = true;
                if let Some(t) = w.timeout {
                    if elapsed.at_least(&t) {
                        return WaitStep::Finished(
                            Err(
                                CursorError::WaitTimeout {
                                    agent_id: w.agent_id,
                                    run_id: w.run_id,
                                    timeout_ms: t.as_millis(),
                                },
                            ),
                        );
                    }
                }
                if let Some(m) = w.max_poll_attempts {
                    if w.poll_attempts >= m {
                        return WaitStep::Finished(
                            Err(
                                CursorError::MaxPollAttemptsExceeded {
                                    agent_id: w.agent_id,
                                    run_id: w.run_id,
                                    max_attempts: m,
                                },
                            ),
                        );
                    }
                }
                w.phase = WaitPhase::Sleeping;
                let interval = w.poll_interval;
                WaitStep::Continue(w, WaitAction::Sleep(interval))
            },
            WaitEvent::Slept => {
                if w.poll_attempts < u32::MAX {
                    w.poll_attempts = w.poll_attempts + 1;
                }
                w.phase = WaitPhase::Fetching;
                WaitStep::Continue(w, WaitAction::FetchRun)
            },
        }
    }
}

} // verus!
