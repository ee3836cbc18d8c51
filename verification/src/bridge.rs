//! The remote bridge, as the decisions of one connection.
//!
//! Every connection is served by a task of its own, which takes what arrives
//! one at a time: a text is dispatched and answered with one text, anything
//! else that is no failure is passed over, and a failure of the transport ends
//! this connection and no other. The tasks share nothing in this library; what
//! they share is the working directory of the process.

use vstd::prelude::*;
use crate::dispatch::{dispatched, planned, run_command};
use crate::step::{Step, StepModel};
use crate::text::concat;

verus! {

/// What arrived on a connection.
#[derive(Debug, PartialEq, Eq)]
pub enum Incoming {
    /// A text frame: one command line.
    Text(String),
    /// A frame of any other kind.
    Other,
    /// The transport failed, with this description.
    Failed(String),
    /// The other side is gone: nothing more will arrive.
    Closed,
}

/// What arrived on a connection, as a mathematical value.
pub enum IncomingModel {
    Text(Seq<char>),
    Other,
    Failed(Seq<char>),
    Closed,
}

impl View for Incoming {
    type V = IncomingModel;

    open spec fn view(&self) -> IncomingModel {
        match self {
            Incoming::Text(line) => IncomingModel::Text(line@),
            Incoming::Other => IncomingModel::Other,
            Incoming::Failed(cause) => IncomingModel::Failed(cause@),
            Incoming::Closed => IncomingModel::Closed,
        }
    }
}

/// What the task of a connection does next.
#[derive(Debug, PartialEq, Eq)]
pub enum Reaction {
    /// Carry this step out, send the command's result back as one text frame,
    /// and hand the outcome of the sending to `on_sent`.
    Run(Step),
    /// Wait for what arrives next.
    Continue,
    /// End this connection. The text, if there is one, is for the operator's
    /// log.
    Close(Option<String>),
}

/// A reaction as a mathematical value.
pub enum ReactionModel {
    Run(StepModel),
    Continue,
    Close(Option<Seq<char>>),
}

impl View for Reaction {
    type V = ReactionModel;

    open spec fn view(&self) -> ReactionModel {
        match self {
            Reaction::Run(step) => ReactionModel::Run(step@),
            Reaction::Continue => ReactionModel::Continue,
            Reaction::Close(log) => ReactionModel::Close(
                match log {
                    Some(text) => Some(text@),
                    None => None,
                },
            ),
        }
    }
}

/// The address that the bridge listens on.
pub open spec fn listen_address() -> Seq<char> {
    "127.0.0.1:8080"@
}

/// The address that the bridge listens on.
pub fn address() -> (text: &'static str)
    ensures
        text@ == listen_address(),
{
    "127.0.0.1:8080"
}

/// What the bridge says once it listens.
pub fn announcement() -> (text: String)
    ensures
        text@ == "WebSocket server running on ws://"@ + listen_address(),
{
    concat("WebSocket server running on ws://", address())
}

/// The reaction to what arrived, given what the local clock shows.
pub open spec fn reaction_of(incoming: IncomingModel, clock: Seq<char>) -> ReactionModel {
    match incoming {
        IncomingModel::Text(line) => ReactionModel::Run(planned(line, clock)),
        IncomingModel::Other => ReactionModel::Continue,
        IncomingModel::Failed(cause) => ReactionModel::Close(Some("Error: "@ + cause)),
        IncomingModel::Closed => ReactionModel::Close(None),
    }
}

/// Whether `reaction` is a reaction to `incoming`: a text is dispatched as it
/// stands, and everything else has one reaction only.
pub open spec fn reacts(incoming: IncomingModel, reaction: ReactionModel) -> bool {
    match incoming {
        IncomingModel::Text(line) => reaction matches ReactionModel::Run(step) && dispatched(
            line,
            step,
        ),
        _ => reaction == reaction_of(incoming, Seq::empty()),
    }
}

/// Decides what to do with what arrived on a connection.
pub fn on_incoming(incoming: Incoming) -> (reaction: Reaction)
    ensures
        reacts(incoming@, reaction@),
{
    match incoming {
        Incoming::Text(line) => Reaction::Run(run_command(line.as_str())),
        Incoming::Other => Reaction::Continue,
        Incoming::Failed(cause) => Reaction::Close(Some(concat("Error: ", cause.as_str()))),
        Incoming::Closed => Reaction::Close(None),
    }
}

/// The reaction to the outcome of sending a result back.
pub open spec fn reaction_to_sending(sent: Result<(), Seq<char>>) -> ReactionModel {
    match sent {
        Ok(_) => ReactionModel::Continue,
        Err(cause) => ReactionModel::Close(Some("Send error: "@ + cause)),
    }
}

/// Decides what to do after a result was sent back, or could not be.
pub fn on_sent(sent: Result<(), String>) -> (reaction: Reaction)
    ensures
        reaction@ == reaction_to_sending(
            match sent {
                Ok(_) => Ok(()),
                Err(cause) => Err(cause@),
            },
        ),
{
    match sent {
        Ok(_) => Reaction::Continue,
        Err(cause) => Reaction::Close(Some(concat("Send error: ", cause.as_str()))),
    }
}

/// One arrival in the life of the bridge: the connection that it came on,
/// what came, and what the local clock showed when it was taken up.
pub struct Arrival {
    pub connection: nat,
    pub incoming: IncomingModel,
    pub clock: Seq<char>,
}

/// The arrivals of one connection among all that the bridge takes up, in
/// their order.
pub open spec fn arrivals_on(schedule: Seq<Arrival>, connection: nat) -> Seq<Arrival>
    decreases schedule.len(),
{
    if schedule.len() == 0 {
        Seq::empty()
    } else {
        let before = arrivals_on(schedule.drop_last(), connection);
        if schedule.last().connection == connection {
            before.push(schedule.last())
        } else {
            before
        }
    }
}

/// The reactions of one connection while the bridge takes up the arrivals of
/// all connections in the order of `schedule`, each by the task of its own
/// connection.
pub open spec fn reactions_on(schedule: Seq<Arrival>, connection: nat) -> Seq<ReactionModel>
    decreases schedule.len(),
{
    if schedule.len() == 0 {
        Seq::empty()
    } else {
        let before = reactions_on(schedule.drop_last(), connection);
        let arrival = schedule.last();
        if arrival.connection == connection {
            before.push(reaction_of(arrival.incoming, arrival.clock))
        } else {
            before
        }
    }
}

/// However the arrivals of several connections are interleaved, a connection
/// reacts to its own arrivals one for one and in their order: the reaction
/// at each place is the reaction to the arrival at that place, and what
/// arrives on other connections adds nothing and moves nothing.
pub proof fn lemma_interleaving_keeps_each_order(schedule: Seq<Arrival>, connection: nat)
    ensures
        reactions_on(schedule, connection).len() == arrivals_on(schedule, connection).len(),
        forall|i: int|
            0 <= i < arrivals_on(schedule, connection).len() ==> #[trigger] reactions_on(
                schedule,
                connection,
            )[i] == reaction_of(
                arrivals_on(schedule, connection)[i].incoming,
                arrivals_on(schedule, connection)[i].clock,
            ),
    decreases schedule.len(),
{
    if schedule.len() > 0 {
        lemma_interleaving_keeps_each_order(schedule.drop_last(), connection);
    }
}

/// The arrivals of one connection are the same whether or not one more
/// arrival on another connection is taken up at any place in between.
pub proof fn lemma_other_connections_do_not_matter(
    schedule: Seq<Arrival>,
    at: int,
    other: Arrival,
    connection: nat,
)
    requires
        0 <= at <= schedule.len(),
        other.connection != connection,
    ensures
        arrivals_on(schedule.insert(at, other), connection) == arrivals_on(schedule, connection),
        reactions_on(schedule.insert(at, other), connection) == reactions_on(
            schedule,
            connection,
        ),
    decreases schedule.len() - at,
{
    let longer = schedule.insert(at, other);
    if at == schedule.len() {
        assert(longer.drop_last() =~= schedule);
    } else {
        assert(longer.drop_last() =~= schedule.drop_last().insert(at, other));
        assert(longer.last() == schedule.last());
        lemma_other_connections_do_not_matter(schedule.drop_last(), at, other, connection);
    }
}

} // verus!
