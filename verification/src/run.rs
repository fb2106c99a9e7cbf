//! One run, from the revisions asked for to a delivered message.
//!
//! The run is a machine that a driver steps: each step takes the answer to
//! the last request and says what to ask next. The driver talks to the
//! outside; every decision is taken here.

use crate::bot::{delivery_result, outcome_view, verdict, ParseMode, TelegramResponse};
use crate::commit_log::{log_text, render_log, LogFormat};
use crate::diff::{analysis, classify, diff, paths_of, pick_phrase, render_analysis, Phrase};
use crate::error::{Collaborator, Error, ErrorView};
use crate::github::checks::{last_checked, last_checked_commit, CheckSuites};
use crate::github::compare::Compare;
use crate::text::{text_of, trim, trimmed};
use vstd::prelude::*;

verus! {

/// The revision that stands for the parent of the current one.
pub const PARENT_OF_HEAD: &'static str = "HEAD^";

/// The revision that stands for the current one.
pub const CURRENT_HEAD: &'static str = "HEAD";

/// The line that parts the enrichment from what stands before it.
pub const SEPARATOR: &'static str = "\n";

/// The two revisions whose difference is reported.
#[derive(Debug)]
pub struct RevisionRange {
    pub base: String,
    pub head: String,
}

/// A range as plain values.
pub struct RangeView {
    pub base: Seq<char>,
    pub head: Seq<char>,
}

impl View for RevisionRange {
    type V = RangeView;

    open spec fn view(&self) -> RangeView {
        RangeView { base: self.base@, head: self.head@ }
    }
}

/// The base of the range: the one asked for, else the commit that was
/// checked last, else the parent of the current revision.
pub open spec fn base_of(base: Option<Seq<char>>, checked: Option<Seq<char>>) -> Seq<char> {
    match base {
        Some(base) => base,
        None => match checked {
            Some(checked) => checked,
            None => PARENT_OF_HEAD@,
        },
    }
}

/// The head of the range: the one asked for, else the current revision.
pub open spec fn head_of(head: Option<Seq<char>>) -> Seq<char> {
    match head {
        Some(head) => head,
        None => CURRENT_HEAD@,
    }
}

/// Settles the range. What is asked for is taken as it is.
pub fn resolve(base: Option<String>, head: Option<String>, checked: Option<String>) -> (range:
    RevisionRange)
    ensures
        range@.base == base_of(text_of(base), text_of(checked)),
        range@.head == head_of(text_of(head)),
{
    let base = match base {
        Some(base) => base,
        None => match checked {
            Some(checked) => checked,
            None => String::from_str(PARENT_OF_HEAD),
        },
    };
    let head = match head {
        Some(head) => head,
        None => String::from_str(CURRENT_HEAD),
    };
    RevisionRange { base, head }
}

/// What the enrichment adds to a message: the separator, then the body
/// without the white space around it.
pub open spec fn enrichment_block(body: Seq<char>) -> Seq<char> {
    SEPARATOR@ + trimmed(body)
}

/// The body of an enrichment that may have failed: none where it did,
/// whatever the failure.
pub open spec fn body_of(enrichment: Result<String, String>) -> Option<Seq<char>> {
    match enrichment {
        Ok(body) => Some(body@),
        Err(_) => None,
    }
}

/// What is appended for an enrichment that may have failed: nothing where
/// it did.
pub open spec fn appendix(enrichment: Option<Seq<char>>) -> Seq<char> {
    match enrichment {
        Some(body) => enrichment_block(body),
        None => Seq::empty(),
    }
}

/// The message of a run: the log, a line feed, what the maintainers are
/// told to do, and the enrichment where there is one.
pub open spec fn message(
    compare: Compare,
    enrichment: Option<Seq<char>>,
    format: LogFormat,
    phrase: Phrase,
) -> Seq<char> {
    log_text(compare.commits@, format) + "\n"@ + analysis(
        classify(paths_of(compare.files@)),
        phrase,
    ) + appendix(enrichment)
}

/// Writes what the enrichment adds to a message.
pub fn enrich(body: &str) -> (block: String)
    ensures
        block@ == enrichment_block(body@),
{
    let mut block = String::from_str(SEPARATOR);
    let body = trim(body);
    block.append(body.as_str());
    block
}

/// Writes the message of a run, with `phrase` where nothing has to be
/// done. A failed enrichment is left out.
pub fn compose_with(
    compare: &Compare,
    enrichment: &Result<String, String>,
    format: &LogFormat,
    phrase: Phrase,
) -> (text: String)
    ensures
        text@ == message(*compare, body_of(*enrichment), *format, phrase),
{
    let mut text = render_log(compare.commits.as_slice(), format);
    text.append("\n");
    let advice = render_analysis(diff(compare.files.as_slice()), phrase);
    text.append(advice.as_str());
    if let Ok(body) = enrichment {
        let block = enrich(body.as_str());
        text.append(block.as_str());
    }
    text
}

/// Writes the message of a run. Where nothing has to be done, the phrase
/// is drawn at random.
pub fn compose(compare: &Compare, enrichment: &Result<String, String>, format: &LogFormat) -> (text:
    String)
    ensures
        exists|phrase: Phrase| text@ == message(*compare, body_of(*enrichment), *format, phrase),
{
    compose_with(compare, enrichment, format, pick_phrase())
}

/// Where a run stands.
#[derive(Debug)]
pub enum State {
    /// The last checked commit has been asked for.
    AwaitingBase { head: String, format: LogFormat },
    /// The comparison and the enrichment have been asked for.
    Gathering { format: LogFormat },
    /// The message has been handed over for delivery.
    Delivering,
    /// The run is over.
    Finished,
}

/// A state as plain values.
pub enum StateView {
    AwaitingBase { head: Seq<char>, format: LogFormat },
    Gathering { format: LogFormat },
    Delivering,
    Finished,
}

impl View for State {
    type V = StateView;

    open spec fn view(&self) -> StateView {
        match *self {
            State::AwaitingBase { head, format } => StateView::AwaitingBase { head: head@, format },
            State::Gathering { format } => StateView::Gathering { format },
            State::Delivering => StateView::Delivering,
            State::Finished => StateView::Finished,
        }
    }
}

/// What the driver is to do next.
#[derive(Debug)]
pub enum Action {
    /// Ask the repository for the check suites of the tracked branch.
    LookUpBase,
    /// Ask the repository to compare the range, and fetch the enrichment;
    /// neither waits for the other.
    Gather { range: RevisionRange },
    /// Deliver the message.
    Deliver { text: String, parse_mode: ParseMode },
    /// Stop, with this outcome.
    Finish { outcome: Result<(), Error> },
}

/// An action as plain values.
pub enum ActionView {
    LookUpBase,
    Gather { range: RangeView },
    Deliver { text: Seq<char>, parse_mode: ParseMode },
    Finish { outcome: Result<(), ErrorView> },
}

impl View for Action {
    type V = ActionView;

    open spec fn view(&self) -> ActionView {
        match *self {
            Action::LookUpBase => ActionView::LookUpBase,
            Action::Gather { range } => ActionView::Gather { range: range@ },
            Action::Deliver { text, parse_mode } => ActionView::Deliver { text: text@, parse_mode },
            Action::Finish { outcome } => ActionView::Finish { outcome: outcome_view(outcome) },
        }
    }
}

/// The answer to what the driver was asked to do. A request that failed is
/// answered by the words of its failure.
#[derive(Debug)]
pub enum Event {
    /// The answer to `LookUpBase`.
    BaseLookedUp { suites: Result<CheckSuites, String> },
    /// The answers to `Gather`.
    Gathered { comparison: Result<Compare, String>, enrichment: Result<String, String> },
    /// The answer to `Deliver`.
    Delivered { receipt: Result<TelegramResponse, String> },
}

/// A failed request to `collaborator`, as the end of a run.
pub open spec fn failed(collaborator: Collaborator, detail: Seq<char>) -> (StateView, ActionView) {
    (
        StateView::Finished,
        ActionView::Finish { outcome: Err(ErrorView::Transport { collaborator, detail }) },
    )
}

/// How a run begins. With a base, the range is settled at once; without
/// one, the last checked commit is asked for first.
pub open spec fn begin(base: Option<Seq<char>>, head: Option<Seq<char>>, format: LogFormat) -> (
    StateView,
    ActionView,
) {
    match base {
        Some(base) => (
            StateView::Gathering { format },
            ActionView::Gather { range: RangeView { base, head: head_of(head) } },
        ),
        None => (StateView::AwaitingBase { head: head_of(head), format }, ActionView::LookUpBase),
    }
}

/// How a run goes on from `state` when `event` arrives. A failed request to
/// the repository or to the channel ends the run, and so does a refusal by
/// the channel. A failed enrichment ends nothing.
pub open spec fn react(state: StateView, event: Event, phrase: Phrase) -> (StateView, ActionView) {
    match (state, event) {
        (StateView::AwaitingBase { head, format }, Event::BaseLookedUp { suites: Ok(suites) }) => (
            StateView::Gathering { format },
            ActionView::Gather {
                range: RangeView { base: base_of(None, last_checked(suites)), head },
            },
        ),
        (StateView::AwaitingBase { .. }, Event::BaseLookedUp { suites: Err(detail) }) => failed(
            Collaborator::Repository,
            detail@,
        ),
        (StateView::Gathering { format }, Event::Gathered { comparison: Ok(compare), enrichment }) => (
            StateView::Delivering,
            ActionView::Deliver {
                text: message(compare, body_of(enrichment), format, phrase),
                parse_mode: ParseMode::Html,
            },
        ),
        (StateView::Gathering { .. }, Event::Gathered { comparison: Err(detail), .. }) => failed(
            Collaborator::Repository,
            detail@,
        ),
        (StateView::Delivering, Event::Delivered { receipt: Ok(response) }) => (
            StateView::Finished,
            ActionView::Finish { outcome: verdict(response) },
        ),
        (StateView::Delivering, Event::Delivered { receipt: Err(detail) }) => failed(
            Collaborator::Notifier,
            detail@,
        ),
        _ => (StateView::Finished, ActionView::Finish { outcome: Err(ErrorView::OutOfTurn) }),
    }
}

/// Begins a run.
pub fn start(base: Option<String>, head: Option<String>, format: LogFormat) -> (next: (
    State,
    Action,
))
    ensures
        (next.0@, next.1@) == begin(text_of(base), text_of(head), format),
{
    match base {
        Some(base) => {
            let range = resolve(Some(base), head, None);
            (State::Gathering { format }, Action::Gather { range })
        },
        None => {
            let head = match head {
                Some(head) => head,
                None => String::from_str(CURRENT_HEAD),
            };
            (State::AwaitingBase { head, format }, Action::LookUpBase)
        },
    }
}

/// The end of a run on an answer that nothing waited for.
fn out_of_turn() -> (next: (State, Action))
    ensures
        next.0@ == StateView::Finished,
        next.1@ == (ActionView::Finish { outcome: Err(ErrorView::OutOfTurn) }),
{
    (State::Finished, Action::Finish { outcome: Err(Error::OutOfTurn) })
}

/// The end of a run on a failed request.
fn transport_failure(collaborator: Collaborator, detail: String) -> (next: (State, Action))
    ensures
        (next.0@, next.1@) == failed(collaborator, detail@),
{
    (State::Finished, Action::Finish { outcome: Err(Error::Transport { collaborator, detail }) })
}

/// Takes one step of a run, with `phrase` where the message says that
/// nothing has to be done.
pub fn step_with(state: State, event: Event, phrase: Phrase) -> (next: (State, Action))
    ensures
        (next.0@, next.1@) == react(state@, event, phrase),
{
    match state {
        State::AwaitingBase { head, format } => match event {
            Event::BaseLookedUp { suites: Ok(suites) } => {
                let checked = last_checked_commit(&suites);
                let range = resolve(None, Some(head), checked);
                (State::Gathering { format }, Action::Gather { range })
            },
            Event::BaseLookedUp { suites: Err(detail) } => transport_failure(
                Collaborator::Repository,
                detail,
            ),
            _ => out_of_turn(),
        },
        State::Gathering { format } => match event {
            Event::Gathered { comparison: Ok(compare), enrichment } => {
                let text = compose_with(&compare, &enrichment, &format, phrase);
                (State::Delivering, Action::Deliver { text, parse_mode: ParseMode::Html })
            },
            Event::Gathered { comparison: Err(detail), .. } => transport_failure(
                Collaborator::Repository,
                detail,
            ),
            _ => out_of_turn(),
        },
        State::Delivering => match event {
            Event::Delivered { receipt: Ok(response) } => {
                let outcome = delivery_result(response);
                (State::Finished, Action::Finish { outcome })
            },
            Event::Delivered { receipt: Err(detail) } => transport_failure(
                Collaborator::Notifier,
                detail,
            ),
            _ => out_of_turn(),
        },
        State::Finished => out_of_turn(),
    }
}

/// Takes one step of a run. Where the message says that nothing has to be
/// done, the phrase is drawn at random.
pub fn step(state: State, event: Event) -> (next: (State, Action))
    ensures
        exists|phrase: Phrase| (next.0@, next.1@) == react(state@, event, phrase),
{
    step_with(state, event, pick_phrase())
}

/// The exit code of a run: zero after a confirmed delivery, one after any
/// failure.
pub fn exit_code(outcome: &Result<(), Error>) -> (code: i32)
    ensures
        code == if outcome is Ok {
            0i32
        } else {
            1i32
        },
{
    match outcome {
        Ok(_) => 0,
        Err(_) => 1,
    }
}

/// A resolved range names two revisions: where the revisions that were
/// asked for or looked up are not empty, neither end of the range is.
pub proof fn lemma_resolved_range_is_not_empty(
    base: Option<Seq<char>>,
    head: Option<Seq<char>>,
    checked: Option<Seq<char>>,
)
    requires
        base matches Some(b) ==> b.len() > 0,
        head matches Some(h) ==> h.len() > 0,
        checked matches Some(c) ==> c.len() > 0,
    ensures
        base_of(base, checked).len() > 0,
        head_of(head).len() > 0,
{
    reveal_strlit("HEAD^");
    reveal_strlit("HEAD");
}

/// Without a base, and with no commit known to have been checked, the range
/// starts at the parent of the current revision.
pub proof fn lemma_unchecked_branch_falls_back_to_parent(
    head: Option<Seq<char>>,
    format: LogFormat,
    suites: CheckSuites,
    phrase: Phrase,
)
    requires
        last_checked(suites) is None,
    ensures
        begin(None, head, format).1 == ActionView::LookUpBase,
        react(begin(None, head, format).0, Event::BaseLookedUp { suites: Ok(suites) }, phrase).1
            == (ActionView::Gather {
            range: RangeView { base: PARENT_OF_HEAD@, head: head_of(head) },
        }),
{
}

/// With a base, the repository is never asked for its check suites: the run
/// begins by gathering over that base, and no step, in whatever state and
/// on whatever event, asks for them.
pub proof fn lemma_given_base_is_never_looked_up(
    base: Seq<char>,
    head: Option<Seq<char>>,
    format: LogFormat,
    state: StateView,
    event: Event,
    phrase: Phrase,
)
    ensures
        begin(Some(base), head, format) == (
            StateView::Gathering { format },
            ActionView::Gather { range: RangeView { base, head: head_of(head) } },
        ),
        !(react(state, event, phrase).1 is LookUpBase),
{
}

/// A failed enrichment takes nothing from the message: without it the
/// message is the log and the advice, and with it the same message with the
/// enrichment appended.
pub proof fn lemma_enrichment_only_appends(
    compare: Compare,
    body: Seq<char>,
    format: LogFormat,
    phrase: Phrase,
)
    ensures
        message(compare, None, format, phrase) == log_text(compare.commits@, format) + "\n"@
            + analysis(classify(paths_of(compare.files@)), phrase),
        message(compare, Some(body), format, phrase) == message(compare, None, format, phrase)
            + enrichment_block(body),
{
}

/// Whether and how the enrichment failed decides nothing about the outcome
/// of a run: the next state is the same, the run ends in the same cases and
/// with the same outcome, and a comparison that arrived is delivered.
pub proof fn lemma_enrichment_never_ends_a_run(
    state: StateView,
    comparison: Result<Compare, String>,
    one: Result<String, String>,
    other: Result<String, String>,
    phrase: Phrase,
)
    ensures
        ({
            let with_one = react(state, Event::Gathered { comparison, enrichment: one }, phrase);
            let with_other = react(
                state,
                Event::Gathered { comparison, enrichment: other },
                phrase,
            );
            &&& with_one.0 == with_other.0
            &&& with_one.1 is Finish <==> with_other.1 is Finish
            &&& with_one.1 is Finish ==> with_one.1 == with_other.1
            &&& state is Gathering && comparison is Ok ==> with_one.1 is Deliver
        }),
{
}

/// How far a run has come.
pub open spec fn stage(state: StateView) -> nat {
    match state {
        StateView::AwaitingBase { .. } => 0,
        StateView::Gathering { .. } => 1,
        StateView::Delivering => 2,
        StateView::Finished => 3,
    }
}

/// A run only moves forward, so that no request is made twice: each step
/// leaves the run further on or over, and the action of a step is the
/// request that the next state waits for.
pub proof fn lemma_run_moves_forward(state: StateView, event: Event, phrase: Phrase)
    ensures
        ({
            let next = react(state, event, phrase);
            &&& stage(next.0) > stage(state) || next.0 is Finished
            &&& next.0 is Gathering <==> next.1 is Gather
            &&& next.0 is Delivering <==> next.1 is Deliver
            &&& next.0 is Finished <==> next.1 is Finish
        }),
{
}

} // verus!
