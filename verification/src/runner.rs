//! One diagnostic pass against the origin chain: connect, ask for the
//! accounts, report them.
//!
//! The pass itself talks to nothing. It is a sequence of states, each of which
//! names the one piece of outside work that is due; whoever drives the pass
//! performs that work and hands back what happened as an `Event`.

use vstd::prelude::*;
use crate::config::Config;

verus! {

/// The line that opens the report.
pub const REPORT_HEADER: &'static str = "Accounts:";

/// Why a pass failed, with the chain client's own message.
#[derive(Debug, PartialEq, Eq)]
pub enum RunError {
    /// The endpoint could not be reached, or its address is malformed.
    Connect(String),
    /// The call for the accounts failed.
    Query(String),
}

/// What happened to the work that a state asked for.
#[derive(Debug, PartialEq, Eq)]
pub enum Event {
    /// The connection stands.
    Connected,
    /// The connection failed, with the chain client's message.
    ConnectFailed(String),
    /// The endpoint's accounts, in the order in which it gave them.
    Accounts(Vec<String>),
    /// The call for the accounts failed, with the chain client's message.
    QueryFailed(String),
    /// The lines were written.
    Written,
}

/// A state of the pass, named by the work that is due in it.
#[derive(Debug, PartialEq, Eq)]
pub enum Runner {
    /// Due: connect to the endpoint at this address.
    Connect(String),
    /// Due: ask the connected endpoint for its accounts.
    Query,
    /// Due: write these lines to the output, each on a line of its own, in
    /// this order.
    Write(Vec<String>),
    /// Nothing is due: the pass has ended with this outcome.
    Finished(Result<(), RunError>),
}

pub enum RunErrorView {
    Connect(Seq<char>),
    Query(Seq<char>),
}

pub enum EventView {
    Connected,
    ConnectFailed(Seq<char>),
    Accounts(Seq<Seq<char>>),
    QueryFailed(Seq<char>),
    Written,
}

pub enum RunnerView {
    Connect(Seq<char>),
    Query,
    Write(Seq<Seq<char>>),
    Finished(Result<(), RunErrorView>),
}

impl View for RunError {
    type V = RunErrorView;

    open spec fn view(&self) -> RunErrorView {
        match self {
            RunError::Connect(message) => RunErrorView::Connect(message@),
            RunError::Query(message) => RunErrorView::Query(message@),
        }
    }
}

impl View for Event {
    type V = EventView;

    open spec fn view(&self) -> EventView {
        match self {
            Event::Connected => EventView::Connected,
            Event::ConnectFailed(message) => EventView::ConnectFailed(message@),
            Event::Accounts(accounts) => EventView::Accounts(accounts.deep_view()),
            Event::QueryFailed(message) => EventView::QueryFailed(message@),
            Event::Written => EventView::Written,
        }
    }
}

impl View for Runner {
    type V = RunnerView;

    open spec fn view(&self) -> RunnerView {
        match self {
            Runner::Connect(address) => RunnerView::Connect(address@),
            Runner::Query => RunnerView::Query,
            Runner::Write(lines) => RunnerView::Write(lines.deep_view()),
            Runner::Finished(Ok(())) => RunnerView::Finished(Ok(())),
            Runner::Finished(Err(error)) => RunnerView::Finished(Err(error@)),
        }
    }
}

/// The report on a list of accounts: the header, then one line per account,
/// in the order given and with nothing added.
pub open spec fn report(accounts: Seq<Seq<char>>) -> Seq<Seq<char>> {
    seq![REPORT_HEADER@] + accounts
}

/// The state in which a pass starts: the origin chain's endpoint is to be
/// connected to. The auxiliary address plays no part.
pub open spec fn start(origin_address: Seq<char>) -> RunnerView {
    RunnerView::Connect(origin_address)
}

/// The state that follows `state` once `event` has come in.
///
/// A connection that stands leads to the query, accounts lead to their
/// report, and a written report ends the pass with success. A failure ends
/// it at once with the client's message, so that nothing is written. An event
/// that does not answer the work that is due changes nothing, and a finished
/// pass stays as it is.
pub open spec fn next(state: RunnerView, event: EventView) -> RunnerView {
    match (state, event) {
        (RunnerView::Connect(_), EventView::Connected) => RunnerView::Query,
        (RunnerView::Connect(_), EventView::ConnectFailed(message)) => RunnerView::Finished(
            Err(RunErrorView::Connect(message)),
        ),
        (RunnerView::Query, EventView::Accounts(accounts)) => RunnerView::Write(report(accounts)),
        (RunnerView::Query, EventView::QueryFailed(message)) => RunnerView::Finished(
            Err(RunErrorView::Query(message)),
        ),
        (RunnerView::Write(_), EventView::Written) => RunnerView::Finished(Ok(())),
        _ => state,
    }
}

/// The lines that report `accounts`.
pub fn report_lines(accounts: Vec<String>) -> (lines: Vec<String>)
    ensures
        lines.deep_view() == report(accounts.deep_view()),
{
    let mut lines: Vec<String> = accounts;
    lines.insert(0, REPORT_HEADER.to_owned());
    proof {
        assert(lines.deep_view() =~= report(accounts.deep_view()));
    }
    lines
}

/// Runs a mosaic node with the given configuration: starts the pass that
/// reports all accounts of the origin blockchain.
pub fn run(config: Config) -> (runner: Runner)
    ensures
        runner@ == start(config@.origin_address),
{
    Runner::Connect(config.origin_address().to_owned())
}

impl Runner {
    /// Takes in what happened to the work that was due and moves on.
    pub fn step(self, event: Event) -> (after: Runner)
        ensures
            after@ == next(self@, event@),
    {
        match (self, event) {
            (Runner::Connect(_), Event::Connected) => Runner::Query,
            (Runner::Connect(_), Event::ConnectFailed(message)) => Runner::Finished(
                Err(RunError::Connect(message)),
            ),
            (Runner::Query, Event::Accounts(accounts)) => Runner::Write(report_lines(accounts)),
            (Runner::Query, Event::QueryFailed(message)) => Runner::Finished(
                Err(RunError::Query(message)),
            ),
            (Runner::Write(_), Event::Written) => Runner::Finished(Ok(())),
            (state, _) => state,
        }
    }
}

/// A report has one line more than there are accounts: the header comes
/// first, and each account follows at its own place.
pub proof fn lemma_report_shape(accounts: Seq<Seq<char>>)
    ensures
        report(accounts).len() == accounts.len() + 1,
        report(accounts)[0] == REPORT_HEADER@,
        forall|i: int| 0 <= i < accounts.len() ==> #[trigger] report(accounts)[i + 1] == accounts[i],
{
}

/// Against an endpoint that can be connected to and gives `accounts`, a
/// pass asks for the connection to the origin address, then for the
/// accounts, then for their report to be written, and ends with success.
pub proof fn lemma_pass_succeeds(origin_address: Seq<char>, accounts: Seq<Seq<char>>)
    ensures
        ({
            let connecting = start(origin_address);
            let querying = next(connecting, EventView::Connected);
            let writing = next(querying, EventView::Accounts(accounts));
            let finished = next(writing, EventView::Written);
            &&& connecting == RunnerView::Connect(origin_address)
            &&& querying == RunnerView::Query
            &&& writing == RunnerView::Write(report(accounts))
            &&& finished == RunnerView::Finished(Ok(()))
        }),
{
}

/// A pass whose connection fails, or whose call for the accounts fails, ends
/// with that failure and the client's message without a report having been
/// due.
pub proof fn lemma_pass_fails(origin_address: Seq<char>, message: Seq<char>)
    ensures
        next(start(origin_address), EventView::ConnectFailed(message)) == RunnerView::Finished(
            Err(RunErrorView::Connect(message)),
        ),
        next(
            next(start(origin_address), EventView::Connected),
            EventView::QueryFailed(message),
        ) == RunnerView::Finished(Err(RunErrorView::Query(message))),
{
}

/// A pass that has ended stays ended, with the outcome it had: in
/// particular, after a failure no report is ever due.
pub proof fn lemma_finished_is_final(outcome: Result<(), RunErrorView>, event: EventView)
    ensures
        next(RunnerView::Finished(outcome), event) == RunnerView::Finished(outcome),
{
}

/// A report is due only in answer to the accounts, and is then the report
/// on exactly those accounts.
pub proof fn lemma_report_follows_accounts(state: RunnerView, event: EventView)
    requires
        !(state is Write),
        next(state, event) is Write,
    ensures
        state is Query,
        event is Accounts,
        next(state, event) == RunnerView::Write(report(event->Accounts_0)),
{
}

} // verus!
