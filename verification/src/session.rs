//! A whole synchronisation run: select the interface, open it, shake hands.
//!
//! Like the handshake, the run is a state machine that decides while the
//! caller acts. The first error anywhere ends the run and is the one error
//! that the run reports.

use vstd::prelude::*;
use crate::codec::CalendarFields;
use crate::error::SyncError;
use crate::selector::{DeviceIdentity, InterfaceDescriptor};
use crate::sequencer::{
    lemma_done_iff_all_transfers_completed, run, transfers_completed, Action, ActionModel, Outcome,
    SequencerState,
};

verus! {

/// Where a run stands.
#[derive(Clone, Copy, Debug, PartialEq, Eq, Structural)]
pub enum Session {
    /// The interface at this place of the enumeration is to be opened.
    Opening(usize),
    /// The interface is open and the handshake is in this state.
    Handshake(SequencerState),
    /// The run ended before the handshake began.
    Stopped(SyncError),
}

/// What the caller has to do next.
#[derive(Debug, PartialEq, Eq)]
pub enum Directive {
    /// Open the interface at this place of the enumeration.
    Open { interface: usize },
    /// Perform the action on the open interface, or end the run as it says.
    Perform(Action),
}

/// A directive with its buffer taken as a sequence of bytes.
pub ghost enum DirectiveModel {
    Open { interface: usize },
    Perform(ActionModel),
}

impl View for Directive {
    type V = DirectiveModel;

    open spec fn view(&self) -> DirectiveModel {
        match *self {
            Directive::Open { interface } => DirectiveModel::Open { interface },
            Directive::Perform(action) => DirectiveModel::Perform(action@),
        }
    }
}

impl Session {
    /// The state in which a run for the identity starts on the enumeration.
    pub open spec fn opening(
        identity: DeviceIdentity,
        interfaces: Seq<InterfaceDescriptor>,
    ) -> Session {
        match identity.selection(interfaces) {
            Ok(i) => Session::Opening(i as usize),
            Err(error) => Session::Stopped(error),
        }
    }

    /// The state that follows when the pending directive ended with `outcome`.
    pub open spec fn next(self, outcome: Outcome) -> Session {
        match self {
            Session::Opening(_) => match outcome {
                Outcome::Completed => Session::Handshake(SequencerState::initial()),
                Outcome::Failed => Session::Stopped(SyncError::DeviceOpenError),
            },
            Session::Handshake(state) => Session::Handshake(state.next(outcome)),
            Session::Stopped(error) => Session::Stopped(error),
        }
    }

    /// The directive that is due in this state.
    pub open spec fn pending(self, fields: CalendarFields) -> DirectiveModel {
        match self {
            Session::Opening(interface) => DirectiveModel::Open { interface },
            Session::Handshake(state) => DirectiveModel::Perform(state.pending(fields)),
            Session::Stopped(error) => DirectiveModel::Perform(ActionModel::Abort(error)),
        }
    }

    /// What the run reports once it is over.
    pub open spec fn verdict(self) -> Option<Result<(), SyncError>> {
        match self {
            Session::Opening(_) => None,
            Session::Handshake(state) => state.verdict(),
            Session::Stopped(error) => Some(Err(error)),
        }
    }

    /// The directive that is due in this state embeds the calendar fields.
    pub open spec fn reads_fields(self) -> bool {
        self matches Session::Handshake(state) && state.reads_fields()
    }

    /// The run is over, in success or in failure.
    pub open spec fn terminal(self) -> bool {
        self.verdict() is Some
    }

    /// Starts a run: selects the interface of the identity in the enumeration.
    /// With a single match the run goes on to open it; otherwise it is over
    /// and reports why no interface was selected.
    pub fn begin(identity: &DeviceIdentity, interfaces: &Vec<InterfaceDescriptor>) -> (session:
        Session)
        ensures
            session == Self::opening(*identity, interfaces@),
            session matches Session::Opening(i) ==> identity.unique_match(interfaces@, i as int),
            session is Opening <==> identity.has_unique_match(interfaces@),
            session matches Session::Stopped(e) ==> e == SyncError::DeviceNotFound(
                identity.not_found_reason(interfaces@),
            ),
            !(session is Handshake),
    {
        match identity.select_interface(interfaces) {
            Ok(i) => Session::Opening(i),
            Err(error) => Session::Stopped(error),
        }
    }

    /// Tells whether the run is over.
    pub fn is_terminal(&self) -> (over: bool)
        ensures
            over == self.terminal(),
    {
        self.result().is_some()
    }

    /// What the run reports once it is over, and `None` while it is under way.
    pub fn result(&self) -> (verdict: Option<Result<(), SyncError>>)
        ensures
            verdict == self.verdict(),
    {
        match self {
            Session::Opening(_) => None,
            Session::Handshake(state) => state.result(),
            Session::Stopped(error) => Some(Err(*error)),
        }
    }

    /// The directive that is due in this state.
    pub fn directive(&self, fields: &CalendarFields) -> (directive: Directive)
        requires
            self.reads_fields() ==> fields.encodable(),
        ensures
            directive@ == self.pending(*fields),
    {
        match self {
            Session::Opening(interface) => Directive::Open { interface: *interface },
            Session::Handshake(state) => Directive::Perform(state.action(fields)),
            Session::Stopped(error) => Directive::Perform(Action::Abort(*error)),
        }
    }

    /// The state that follows when the pending directive ended with `outcome`.
    ///
    /// An interface that cannot be opened ends the run with
    /// `DeviceOpenError`; an open interface starts the handshake, which then
    /// moves as the sequencer says. A run that is over stays as it is.
    pub fn advance(self, outcome: Outcome) -> (session: Session)
        ensures
            session == self.next(outcome),
    {
        match self {
            Session::Opening(_) => match outcome {
                Outcome::Completed => Session::Handshake(SequencerState::start()),
                Outcome::Failed => Session::Stopped(SyncError::DeviceOpenError),
            },
            Session::Handshake(state) => Session::Handshake(state.advance(outcome)),
            Session::Stopped(error) => Session::Stopped(error),
        }
    }
}

/// The state of a run after the given outcomes, the oldest first.
pub open spec fn session_after(start: Session, outcomes: Seq<Outcome>) -> Session
    decreases outcomes.len(),
{
    if outcomes.len() == 0 {
        start
    } else {
        session_after(start, outcomes.drop_last()).next(outcomes.last())
    }
}

/// A run that is over stays over with the same verdict, whatever is reported
/// to it afterwards: an error is reported once and never turns into success,
/// and no transfer is started after it.
pub proof fn lemma_verdict_is_final(start: Session, outcomes: Seq<Outcome>)
    requires
        start.terminal(),
    ensures
        session_after(start, outcomes) == start,
    decreases outcomes.len(),
{
    if outcomes.len() > 0 {
        lemma_verdict_is_final(start, outcomes.drop_last());
    }
}

/// Success is reported only by a run whose handshake is done, and every run
/// that ended otherwise reports an error.
pub proof fn lemma_success_needs_the_handshake(session: Session)
    ensures
        session.verdict() == Some(Ok::<(), SyncError>(())) <==> session == Session::Handshake(
            SequencerState::Done,
        ),
        session matches Session::Stopped(error) ==> session.verdict() == Some(
            Err::<(), SyncError>(error),
        ),
        session matches Session::Handshake(SequencerState::Failed(stage)) ==> session.verdict()
            == Some(Err::<(), SyncError>(SyncError::TransferError { stage })),
{
}

/// A run whose enumeration holds no single match is over before it starts,
/// with `DeviceNotFound`; one that holds a single match opens that interface.
pub proof fn lemma_no_selection_no_run(
    identity: DeviceIdentity,
    interfaces: Seq<InterfaceDescriptor>,
)
    ensures
        !identity.has_unique_match(interfaces) ==> Session::opening(identity, interfaces)
            == Session::Stopped(
            SyncError::DeviceNotFound(identity.not_found_reason(interfaces)),
        ),
        forall|i: int|
            #![trigger identity.unique_match(interfaces, i)]
            identity.unique_match(interfaces, i) && i <= usize::MAX ==> Session::opening(
                identity,
                interfaces,
            ) == Session::Opening(i as usize),
{
    assert forall|i: int|
        #![trigger identity.unique_match(interfaces, i)]
        identity.unique_match(interfaces, i) && i <= usize::MAX implies Session::opening(
        identity,
        interfaces,
    ) == Session::Opening(i as usize) by {
        identity.lemma_unique_match_is_selected(interfaces, i);
    }
}

/// Once the interface is open, the run is the handshake: after any outcomes
/// it stands where the sequencer stands after them.
pub proof fn lemma_session_follows_the_handshake(outcomes: Seq<Outcome>)
    ensures
        session_after(Session::Handshake(SequencerState::initial()), outcomes)
            == Session::Handshake(run(outcomes)),
    decreases outcomes.len(),
{
    if outcomes.len() > 0 {
        lemma_session_follows_the_handshake(outcomes.drop_last());
    }
}

/// A run on an open interface reports success exactly when the SET and GET
/// transfers of all four stages completed and each stage's pause was taken.
pub proof fn lemma_session_succeeds_iff_all_transfers_completed(outcomes: Seq<Outcome>)
    ensures
        session_after(Session::Handshake(SequencerState::initial()), outcomes).verdict() == Some(
            Ok::<(), SyncError>(()),
        ) <==> (outcomes.len() >= 12 && transfers_completed(outcomes, 12)),
{
    lemma_session_follows_the_handshake(outcomes);
    lemma_done_iff_all_transfers_completed(outcomes);
}

} // verus!
