//! The interactive loop: one exchange per line of input, until the input ends.
//!
//! The loop is a state machine. The caller performs what a [`Step`] asks for
//! (write, read a line, send a request, exit) and reports what happened as
//! the next [`Event`]. Within a step, `stderr` is written before `stdout`, and
//! `stdout` is flushed before the action is performed.

use crate::chat::{
    reply_of, ChatClient, ChatClientConfig, ChatClientConfigView, ChatRequest, ChatRequestView,
    Delivery, DeliveryView, Session,
};
use crate::config::{ConfigError, ConfigFault, ConfigFile, ConfigFileView, Origin};
use crate::settings::{initialized, AppConfiguration, Args, ArgsView, Settings};
use crate::style::{Span, SpanView, Style, ESCAPE};
use vstd::prelude::*;

verus! {

/// The marker that asks the user to speak.
pub const PROMPT_LABEL: &'static str = "You:";

/// The marker in front of a reply.
pub const ASSISTANT_LABEL: &'static str = "Assistant:";

/// The marker in front of the report of a failed exchange.
pub const ERROR_LABEL: &'static str = "Error:";

/// Exit status of a run that ended with the end of the input.
pub const EXIT_SUCCESS: u8 = 0;

/// Exit status of a run that ended before the loop began.
pub const EXIT_FAILURE: u8 = 1;

/// Where the loop stands.
#[derive(Debug, Clone, Copy, PartialEq, Eq, Structural)]
pub enum Phase {
    /// The prompt is out; the next event is a line or the end of the input.
    AwaitingInput,
    /// A request is out; the next event is its delivery.
    Processing,
    /// The input has ended. No event is accepted any more.
    Finished,
}

/// What happened outside since the last step.
#[derive(Debug, Clone, PartialEq, Eq)]
pub enum Event {
    /// A line was read, without its line break. It may be empty.
    Line(String),
    /// The input has ended.
    EndOfInput,
    /// The request that was sent has come to an end.
    Delivered(Delivery),
}

/// Mathematical model of [`Event`].
pub enum EventView {
    Line(Seq<char>),
    EndOfInput,
    Delivered(DeliveryView),
}

impl View for Event {
    type V = EventView;

    open spec fn view(&self) -> EventView {
        match self {
            Event::Line(text) => EventView::Line(text@),
            Event::EndOfInput => EventView::EndOfInput,
            Event::Delivered(delivery) => EventView::Delivered(delivery@),
        }
    }
}

/// What the caller does next, after it has written the output of the step.
#[derive(Debug, Clone, PartialEq, Eq)]
pub enum Action {
    /// Read a line of input and report it, or the end of the input.
    ReadLine,
    /// Send the request and report its delivery.
    Send(ChatRequest),
    /// End the process with this status.
    Exit { status: u8 },
}

/// Mathematical model of [`Action`].
pub enum ActionView {
    ReadLine,
    Send(ChatRequestView),
    Exit { status: u8 },
}

impl View for Action {
    type V = ActionView;

    open spec fn view(&self) -> ActionView {
        match self {
            Action::ReadLine => ActionView::ReadLine,
            Action::Send(request) => ActionView::Send(request@),
            Action::Exit { status } => ActionView::Exit { status: *status },
        }
    }
}

/// The reaction to an event: what to write and what to do next.
#[derive(Debug, Clone, PartialEq, Eq)]
pub struct Step {
    /// Written to the error stream, first.
    pub stderr: Vec<Span>,
    /// Written to the output stream, then flushed.
    pub stdout: Vec<Span>,
    pub action: Action,
}

/// Mathematical model of [`Step`].
pub struct StepView {
    pub stderr: Seq<SpanView>,
    pub stdout: Seq<SpanView>,
    pub action: ActionView,
}

impl View for Step {
    type V = StepView;

    open spec fn view(&self) -> StepView {
        StepView {
            stderr: self.stderr.deep_view(),
            stdout: self.stdout.deep_view(),
            action: self.action@,
        }
    }
}

impl DeepView for Step {
    type V = StepView;

    open spec fn deep_view(&self) -> StepView {
        self@
    }
}

/// A span that is written as it is.
pub open spec fn plain(text: Seq<char>) -> SpanView {
    SpanView { style: Style::Plain, text }
}

/// The prompt: the marker and a space.
pub open spec fn prompt() -> Seq<SpanView> {
    seq![SpanView { style: Style::Prompt, text: PROMPT_LABEL@ }, plain(" "@)]
}

/// What a reply puts on the output stream: an empty line, the marker and the
/// reply on one line, an empty line, and a fresh prompt.
pub open spec fn reply_output(reply: Seq<char>) -> Seq<SpanView> {
    seq![
        plain("\n"@),
        SpanView { style: Style::Assistant, text: ASSISTANT_LABEL@ },
        plain(" "@),
        plain(reply),
        plain("\n\n"@),
    ] + prompt()
}

/// What a failed exchange puts on the error stream: the marker and the
/// description of the fault, on one line.
pub open spec fn error_output(message: Seq<char>) -> Seq<SpanView> {
    seq![
        SpanView { style: Style::Warning, text: ERROR_LABEL@ },
        plain(" "@),
        SpanView { style: Style::Warning, text: message },
        plain("\n"@),
    ]
}

/// Mathematical model of [`Repl`].
pub struct ReplView {
    pub chat: Session,
    pub phase: Phase,
}

/// The loop at its start, with the step that opens it: the prompt goes out
/// and a line is awaited.
pub open spec fn opening(chat: Session) -> (ReplView, StepView) {
    (
        ReplView { chat, phase: Phase::AwaitingInput },
        StepView { stderr: Seq::empty(), stdout: prompt(), action: ActionView::ReadLine },
    )
}

/// The state after an event and the reaction to it, or `None` where the
/// event does not fit the phase.
///
/// A line starts an exchange: the user's turn joins the history and the
/// request goes out. A delivery ends it, with the reply or a report of the
/// fault, and in both cases with a fresh prompt. The end of the input ends
/// the loop with a line break and the status of success.
pub open spec fn transition(state: ReplView, event: EventView) -> Option<(ReplView, StepView)> {
    match (state.phase, event) {
        (Phase::AwaitingInput, EventView::Line(text)) => {
            let chat = state.chat.with_user(text);
            Some(
                (
                    ReplView { chat, phase: Phase::Processing },
                    StepView {
                        stderr: Seq::empty(),
                        stdout: Seq::empty(),
                        action: ActionView::Send(chat.request()),
                    },
                ),
            )
        },
        (Phase::AwaitingInput, EventView::EndOfInput) => Some(
            (
                ReplView { chat: state.chat, phase: Phase::Finished },
                StepView {
                    stderr: Seq::empty(),
                    stdout: seq![plain("\n"@)],
                    action: ActionView::Exit { status: EXIT_SUCCESS },
                },
            ),
        ),
        (Phase::Processing, EventView::Delivered(delivery)) => Some(
            (
                ReplView { chat: state.chat.settled(delivery), phase: Phase::AwaitingInput },
                match reply_of(delivery) {
                    Ok(reply) => StepView {
                        stderr: Seq::empty(),
                        stdout: reply_output(reply),
                        action: ActionView::ReadLine,
                    },
                    Err(fault) => StepView {
                        stderr: error_output(fault.message()),
                        stdout: prompt(),
                        action: ActionView::ReadLine,
                    },
                },
            ),
        ),
        _ => None,
    }
}

/// The session that settings start.
pub open spec fn session_of(settings: Settings) -> Session {
    Session::start(
        settings.api_key,
        ChatClientConfigView {
            api_url: settings.api_url,
            model: settings.model,
            system_message: settings.system_message,
        },
    )
}

/// The interactive loop around a chat session.
pub struct Repl {
    chat: ChatClient,
    phase: Phase,
}

impl View for Repl {
    type V = ReplView;

    closed spec fn view(&self) -> ReplView {
        ReplView { chat: self.chat@, phase: self.phase }
    }
}

/// The spans of the prompt.
fn prompt_spans() -> (spans: Vec<Span>)
    ensures
        spans.deep_view() == prompt(),
{
    let mut spans: Vec<Span> = Vec::new();
    spans.push(Span::new(Style::Prompt, PROMPT_LABEL));
    spans.push(Span::new(Style::Plain, " "));
    assert(spans.deep_view() =~= prompt());
    spans
}

/// The spans that show a reply.
fn reply_spans(reply: &str) -> (spans: Vec<Span>)
    ensures
        spans.deep_view() == reply_output(reply@),
{
    let mut spans: Vec<Span> = Vec::new();
    spans.push(Span::new(Style::Plain, "\n"));
    spans.push(Span::new(Style::Assistant, ASSISTANT_LABEL));
    spans.push(Span::new(Style::Plain, " "));
    spans.push(Span::new(Style::Plain, reply));
    spans.push(Span::new(Style::Plain, "\n\n"));
    spans.push(Span::new(Style::Prompt, PROMPT_LABEL));
    spans.push(Span::new(Style::Plain, " "));
    assert(spans.deep_view() =~= reply_output(reply@));
    spans
}

/// The spans that report a failed exchange.
fn error_spans(message: &str) -> (spans: Vec<Span>)
    ensures
        spans.deep_view() == error_output(message@),
{
    let mut spans: Vec<Span> = Vec::new();
    spans.push(Span::new(Style::Warning, ERROR_LABEL));
    spans.push(Span::new(Style::Plain, " "));
    spans.push(Span::new(Style::Warning, message));
    spans.push(Span::new(Style::Plain, "\n"));
    assert(spans.deep_view() =~= error_output(message@));
    spans
}

/// No spans.
fn nothing() -> (spans: Vec<Span>)
    ensures
        spans.deep_view() == Seq::<SpanView>::empty(),
{
    let spans: Vec<Span> = Vec::new();
    assert(spans.deep_view() =~= Seq::<SpanView>::empty());
    spans
}

impl Repl {
    /// Opens the loop around a session: the prompt goes out and a line is
    /// awaited.
    pub fn start(chat: ChatClient) -> (opened: (Repl, Step))
        ensures
            opened.0@ == opening(chat@).0,
            opened.1@ == opening(chat@).1,
    {
        (
            Repl { chat, phase: Phase::AwaitingInput },
            Step { stderr: nothing(), stdout: prompt_spans(), action: Action::ReadLine },
        )
    }

    /// Where the loop stands.
    pub fn phase(&self) -> (phase: Phase)
        ensures
            phase == self@.phase,
    {
        self.phase
    }

    /// The session inside the loop.
    pub fn chat(&self) -> (chat: &ChatClient)
        ensures
            chat@ == self@.chat,
    {
        &self.chat
    }

    /// Takes an event and returns the reaction to it. An event that does not
    /// fit the phase is refused: the result is `None` and nothing changes.
    pub fn step(&mut self, event: Event) -> (step: Option<Step>)
        ensures
            (match transition(old(self)@, event@) {
                Some((next, reaction)) => final(self)@ == next && step.deep_view() == Some(
                    reaction,
                ),
                None => final(self)@ == old(self)@ && step is None,
            }),
    {
        match self.phase {
            Phase::AwaitingInput => match event {
                Event::Line(text) => {
                    let request = self.chat.begin(text);
                    self.phase = Phase::Processing;
                    Some(Step { stderr: nothing(), stdout: nothing(), action: Action::Send(request) })
                },
                Event::EndOfInput => {
                    self.phase = Phase::Finished;
                    let mut stdout: Vec<Span> = Vec::new();
                    stdout.push(Span::new(Style::Plain, "\n"));
                    assert(stdout.deep_view() =~= seq![plain("\n"@)]);
                    Some(
                        Step {
                            stderr: nothing(),
                            stdout,
                            action: Action::Exit { status: EXIT_SUCCESS },
                        },
                    )
                },
                Event::Delivered(_) => None,
            },
            Phase::Processing => match event {
                Event::Delivered(delivery) => {
                    let outcome = self.chat.finish(delivery);
                    self.phase = Phase::AwaitingInput;
                    match outcome {
                        Ok(reply) => Some(
                            Step {
                                stderr: nothing(),
                                stdout: reply_spans(reply.as_str()),
                                action: Action::ReadLine,
                            },
                        ),
                        Err(error) => {
                            let message = error.message();
                            Some(
                                Step {
                                    stderr: error_spans(message.as_str()),
                                    stdout: prompt_spans(),
                                    action: Action::ReadLine,
                                },
                            )
                        },
                    }
                },
                _ => None,
            },
            Phase::Finished => None,
        }
    }
}

/// A launch that opened no loop: why, and the status to end the process with.
#[derive(Debug, Clone, PartialEq, Eq)]
pub struct Abort {
    pub error: ConfigError,
    pub status: u8,
}

/// Mathematical model of [`Abort`].
pub struct AbortView {
    pub fault: ConfigFault,
    pub status: u8,
}

impl View for Abort {
    type V = AbortView;

    open spec fn view(&self) -> AbortView {
        AbortView { fault: self.error@, status: self.status }
    }
}

/// The model of the outcome of a launch.
pub open spec fn launched_view(outcome: Result<(Repl, Step), Abort>) -> Result<
    (ReplView, StepView),
    AbortView,
> {
    match outcome {
        Ok((repl, step)) => Ok((repl@, step@)),
        Err(abort) => Err(abort@),
    }
}

/// What a launch amounts to: with settings, the loop opened around the
/// session that they start; without, the fault, the status of failure, and
/// no loop.
pub open spec fn launched(settings: Result<Settings, ConfigFault>) -> Result<
    (ReplView, StepView),
    AbortView,
> {
    match settings {
        Ok(settings) => Ok(opening(session_of(settings))),
        Err(fault) => Err(AbortView { fault, status: EXIT_FAILURE }),
    }
}

/// Start of the program: resolves the settings, starts the session and opens
/// the loop. Where the settings cannot be resolved there is no loop, and the
/// process is to end with [`EXIT_FAILURE`].
pub fn launch(args: Args, file: Option<ConfigFile>, env_api_key: Option<String>) -> (outcome:
    Result<(Repl, Step), Abort>)
    ensures
        launched_view(outcome) == launched(
            initialized(args@, file.deep_view(), env_api_key.deep_view()),
        ),
{
    match AppConfiguration::init(args, file, env_api_key) {
        Ok(settings) => {
            let AppConfiguration { api_key, api_url, model, system_message } = settings;
            let chat = ChatClient::new(api_key, ChatClientConfig { api_url, model, system_message });
            Ok(Repl::start(chat))
        },
        Err(error) => Err(Abort { error, status: EXIT_FAILURE }),
    }
}

/// Without settings there is no loop: a launch fails exactly if the settings
/// cannot be resolved, and then with the fault of the resolution and a status
/// other than that of success. Where the environment holds no API key, and no
/// configuration file was looked for or the per-user file is not there, that
/// fault is the missing key.
pub proof fn lemma_no_loop_without_settings(
    args: ArgsView,
    file: Option<ConfigFileView>,
    env_api_key: Option<Seq<char>>,
)
    ensures
        launched(initialized(args, file, env_api_key)) is Err <==> initialized(
            args,
            file,
            env_api_key,
        ) is Err,
        initialized(args, file, env_api_key) matches Err(fault) ==> (launched(
            initialized(args, file, env_api_key),
        ) matches Err(abort) && abort.fault == fault && abort.status != EXIT_SUCCESS),
        env_api_key is None && (file matches Some(f) ==> f.location.origin == Origin::Default
            && f.read is NotFound) ==> (launched(initialized(args, file, env_api_key)) matches Err(
            abort,
        ) && abort.fault == ConfigFault::MissingApiKey),
{
}

/// The three markers hold no [`ESCAPE`]: painted in whatever style, each is
/// there in what is written.
pub proof fn lemma_markers_are_plain_text()
    ensures
        !PROMPT_LABEL@.contains(ESCAPE),
        !ASSISTANT_LABEL@.contains(ESCAPE),
        !ERROR_LABEL@.contains(ESCAPE),
{
    reveal_strlit("You:");
    reveal_strlit("Assistant:");
    reveal_strlit("Error:");
}

/// An exchange always comes to an end: whatever is delivered while a request
/// is out, the loop awaits input again, asks for a line, and has a fresh
/// prompt at the end of its output.
pub proof fn lemma_prompt_resumes(state: ReplView, delivery: DeliveryView)
    requires
        state.phase == Phase::Processing,
    ensures
        (transition(state, EventView::Delivered(delivery)) matches Some((next, reaction)) && {
            &&& next.phase == Phase::AwaitingInput
            &&& reaction.action == ActionView::ReadLine
            &&& reaction.stdout.len() >= 2
            &&& reaction.stdout.subrange(reaction.stdout.len() - 2, reaction.stdout.len() as int)
                == prompt()
        }),
{
    let (_, reaction) = transition(state, EventView::Delivered(delivery)).unwrap();
    assert(reaction.stdout.subrange(reaction.stdout.len() - 2, reaction.stdout.len() as int)
        =~= prompt());
}

/// The API key reaches no output: with another key in the session, every
/// event is accepted or refused alike and puts the same on both streams.
pub proof fn lemma_output_hides_api_key(state: ReplView, other_key: Seq<char>, event: EventView)
    ensures
        ({
            let other = ReplView { chat: Session { api_key: other_key, ..state.chat }, ..state };
            match transition(state, event) {
                Some((_, reaction)) => transition(other, event) matches Some((_, same))
                    && same.stdout == reaction.stdout && same.stderr == reaction.stderr,
                None => transition(other, event) is None,
            }
        }),
{
}

/// A step leaves the session sound: the system turn stays in first place,
/// what was said stays in the history, and the key, the endpoint and the
/// model stay what they were.
pub proof fn lemma_step_keeps_session(state: ReplView, event: EventView)
    ensures
        (transition(state, event) matches Some((next, _)) ==> {
            &&& state.chat.well_formed() ==> next.chat.well_formed()
            &&& state.chat.history.is_prefix_of(next.chat.history)
            &&& next.chat.api_key == state.chat.api_key
            &&& next.chat.api_url == state.chat.api_url
            &&& next.chat.model == state.chat.model
        }),
{
}

} // verus!
