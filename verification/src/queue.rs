//! The polling loop as a state machine.
//!
//! The driver performs one action at a time and reports what came of it;
//! [`QueueConsumer::step`] answers with the next action.  The machine
//! never stops: every state has a next action.  Messages of one batch are
//! taken in order and each on its own, so that one failure does not fail
//! the batch.

use vstd::prelude::*;

verus! {

/// How long, in seconds, the queue may hold a receive call open.
pub const POLL_WAIT_SECONDS: i32 = 20;

/// How many messages one receive call asks for at most.
pub const POLL_BATCH_SIZE: i32 = 10;

/// How long, in seconds, the loop rests after a receive call that brought
/// nothing.
pub const IDLE_BACKOFF_SECONDS: u64 = 1;

/// One message as the queue delivers it.  The receipt handle is what a
/// delete call names; it is good for this delivery only.
#[derive(Debug)]
pub struct QueueMessage {
    pub message_id: Option<String>,
    pub body: Option<String>,
    pub receipt_handle: Option<String>,
}

/// A delivered message as a mathematical value.
pub struct Delivery {
    pub message_id: Option<Seq<char>>,
    pub body: Option<Seq<char>>,
    pub receipt_handle: Option<Seq<char>>,
}

/// The text that an optional string holds.
pub open spec fn text_of(value: Option<String>) -> Option<Seq<char>> {
    match value {
        Some(text) => Some(text@),
        None => None,
    }
}

impl View for QueueMessage {
    type V = Delivery;

    open spec fn view(&self) -> Delivery {
        Delivery {
            message_id: text_of(self.message_id),
            body: text_of(self.body),
            receipt_handle: text_of(self.receipt_handle),
        }
    }
}

/// The deliveries that a batch of messages stands for.
pub open spec fn deliveries(batch: Seq<QueueMessage>) -> Seq<Delivery> {
    batch.map_values(|m: QueueMessage| m@)
}

/// What the driver is to do next.
#[derive(Debug)]
pub enum QueueAction {
    /// Long-poll the queue and report [`QueueEvent::Received`].
    Receive { wait_time_seconds: i32, max_number_of_messages: i32 },
    /// Run the handler on this body and report [`QueueEvent::Handled`].
    Handle { body: String },
    /// Delete the message with this receipt handle and report
    /// [`QueueEvent::Deleted`].
    Delete { receipt_handle: String },
    /// Rest and report [`QueueEvent::Woke`].
    Sleep { seconds: u64 },
}

/// An action as a mathematical value.
pub enum Action {
    Receive { wait_time_seconds: i32, max_number_of_messages: i32 },
    Handle { body: Seq<char> },
    Delete { receipt_handle: Seq<char> },
    Sleep { seconds: u64 },
}

impl View for QueueAction {
    type V = Action;

    open spec fn view(&self) -> Action {
        match self {
            QueueAction::Receive { wait_time_seconds, max_number_of_messages } => Action::Receive {
                wait_time_seconds: *wait_time_seconds,
                max_number_of_messages: *max_number_of_messages,
            },
            QueueAction::Handle { body } => Action::Handle { body: body@ },
            QueueAction::Delete { receipt_handle } => Action::Delete {
                receipt_handle: receipt_handle@,
            },
            QueueAction::Sleep { seconds } => Action::Sleep { seconds: *seconds },
        }
    }
}

/// What came of the last action.
#[derive(Debug)]
pub enum QueueEvent {
    /// The receive call returned these messages, possibly none.
    Received(Vec<QueueMessage>),
    /// The handler ran, and went through or failed.
    Handled { success: bool },
    /// The message was deleted.
    Deleted,
    /// The rest is over.
    Woke,
}

/// An event as a mathematical value.
pub enum Outcome {
    Received(Seq<Delivery>),
    Handled { success: bool },
    Deleted,
    Woke,
}

impl View for QueueEvent {
    type V = Outcome;

    open spec fn view(&self) -> Outcome {
        match self {
            QueueEvent::Received(batch) => Outcome::Received(deliveries(batch@)),
            QueueEvent::Handled { success } => Outcome::Handled { success: *success },
            QueueEvent::Deleted => Outcome::Deleted,
            QueueEvent::Woke => Outcome::Woke,
        }
    }
}

/// Where the loop stands.
pub enum LoopState {
    /// A receive call is under way.
    Polling,
    /// The loop rests after an empty receive call.
    Sleeping,
    /// The handler runs on message `index` of `batch`.
    Handling { batch: Seq<Delivery>, index: int },
    /// Message `index` of `batch` is being deleted.
    Deleting { batch: Seq<Delivery>, index: int },
}

impl LoopState {
    /// A state that holds a message holds one that is there, with the body
    /// that is handled or the receipt handle that is deleted.
    pub open spec fn well_formed(self) -> bool {
        match self {
            LoopState::Polling => true,
            LoopState::Sleeping => true,
            LoopState::Handling { batch, index } => 0 <= index < batch.len()
                && batch[index].body is Some,
            LoopState::Deleting { batch, index } => 0 <= index < batch.len()
                && batch[index].receipt_handle is Some,
        }
    }

    /// The action that the state waits on.
    pub open spec fn awaited(self) -> Action {
        match self {
            LoopState::Polling => Action::Receive {
                wait_time_seconds: POLL_WAIT_SECONDS,
                max_number_of_messages: POLL_BATCH_SIZE,
            },
            LoopState::Sleeping => Action::Sleep { seconds: IDLE_BACKOFF_SECONDS },
            LoopState::Handling { batch, index } => Action::Handle { body: batch[index].body->0 },
            LoopState::Deleting { batch, index } => Action::Delete {
                receipt_handle: batch[index].receipt_handle->0,
            },
        }
    }

    /// The state after `outcome`.
    ///
    /// An empty receive call leads to a rest, and the rest to the next
    /// receive call.  A handler that went through leads to the deletion of
    /// its message, where that has a receipt handle; a handler that failed
    /// leads on to the next message, and its own message is left to the
    /// queue.  A report that does not answer the awaited action changes
    /// nothing.
    pub open spec fn next(self, outcome: Outcome) -> LoopState {
        match (self, outcome) {
            (LoopState::Polling, Outcome::Received(batch)) => if batch.len() == 0 {
                LoopState::Sleeping
            } else {
                turn_to(batch, 0)
            },
            (LoopState::Sleeping, Outcome::Woke) => LoopState::Polling,
            (LoopState::Handling { batch, index }, Outcome::Handled { success }) => if success
                && batch[index].receipt_handle is Some {
                LoopState::Deleting { batch, index }
            } else {
                turn_to(batch, index + 1)
            },
            (LoopState::Deleting { batch, index }, Outcome::Deleted) => turn_to(batch, index + 1),
            _ => self,
        }
    }
}

/// The state in which the loop takes up `batch` from message `index` on:
/// the first message from there that has a body is handled; one without a
/// body has nothing to handle and is deleted, where it has a receipt
/// handle, and passed over where not; after the last message the loop
/// polls again.
pub open spec fn turn_to(batch: Seq<Delivery>, index: int) -> LoopState
    decreases batch.len() - index,
{
    if index < 0 || index >= batch.len() {
        LoopState::Polling
    } else if batch[index].body is Some {
        LoopState::Handling { batch, index }
    } else if batch[index].receipt_handle is Some {
        LoopState::Deleting { batch, index }
    } else {
        turn_to(batch, index + 1)
    }
}

/// Taking up a batch leads to a well-formed state that holds a message at
/// `index` or later, or to polling; and a message that is deleted without
/// a handler having run has no body.
pub proof fn lemma_turn_to(batch: Seq<Delivery>, index: int)
    requires
        0 <= index,
    ensures
        turn_to(batch, index).well_formed(),
        match turn_to(batch, index) {
            LoopState::Polling => true,
            LoopState::Sleeping => false,
            LoopState::Handling { batch: b, index: i } => b == batch && index <= i,
            LoopState::Deleting { batch: b, index: i } => b == batch && index <= i
                && batch[i].body is None,
        },
    decreases batch.len() - index,
{
    if index < batch.len() && batch[index].body is None && batch[index].receipt_handle is None {
        lemma_turn_to(batch, index + 1);
    }
}

/// Every step keeps the state well formed.
pub proof fn lemma_next_well_formed(state: LoopState, outcome: Outcome)
    requires
        state.well_formed(),
    ensures
        state.next(outcome).well_formed(),
{
    match (state, outcome) {
        (LoopState::Polling, Outcome::Received(batch)) => {
            lemma_turn_to(batch, 0);
        },
        (LoopState::Handling { batch, index }, Outcome::Handled { success }) => {
            lemma_turn_to(batch, index + 1);
        },
        (LoopState::Deleting { batch, index }, Outcome::Deleted) => {
            lemma_turn_to(batch, index + 1);
        },
        _ => {},
    }
}

/// Acknowledge only after success: a step that starts the deletion of a
/// message with a body is the step on the report that the handler of that
/// very message went through.
pub proof fn lemma_delete_only_after_success(state: LoopState, outcome: Outcome)
    requires
        state.well_formed(),
        state.next(outcome) != state,
        state.next(outcome) matches LoopState::Deleting { batch, index } && batch[index].body
            is Some,
    ensures
        state matches LoopState::Handling { batch, index } && state.next(outcome)
            == (LoopState::Deleting { batch, index }),
        outcome == (Outcome::Handled { success: true }),
{
    match (state, outcome) {
        (LoopState::Polling, Outcome::Received(batch)) => {
            lemma_turn_to(batch, 0);
        },
        (LoopState::Handling { batch, index }, Outcome::Handled { success }) => {
            lemma_turn_to(batch, index + 1);
        },
        (LoopState::Deleting { batch, index }, Outcome::Deleted) => {
            lemma_turn_to(batch, index + 1);
        },
        _ => {},
    }
}

/// A failed handler leaves its message to the queue: the step on its
/// report starts no deletion of that message and leads to a later message
/// of the batch or to the next receive call, so that the message is not
/// taken up again before the queue delivers it anew.
pub proof fn lemma_failure_leaves_message(batch: Seq<Delivery>, index: int)
    requires
        (LoopState::Handling { batch, index }).well_formed(),
    ensures
        match (LoopState::Handling { batch, index }).next(Outcome::Handled { success: false }) {
            LoopState::Polling => true,
            LoopState::Sleeping => false,
            LoopState::Handling { batch: b, index: i } => b == batch && index < i,
            LoopState::Deleting { batch: b, index: i } => b == batch && index < i,
        },
{
    lemma_turn_to(batch, index + 1);
}

/// An empty receive call leads to a rest of one second and then to the
/// next receive call, which waits up to twenty seconds for up to ten
/// messages.
pub proof fn lemma_empty_poll_backs_off()
    ensures
        LoopState::Polling.next(Outcome::Received(Seq::empty())) == LoopState::Sleeping,
        LoopState::Sleeping.awaited() == (Action::Sleep { seconds: 1 }),
        LoopState::Sleeping.next(Outcome::Woke) == LoopState::Polling,
        LoopState::Polling.awaited() == (Action::Receive {
            wait_time_seconds: 20,
            max_number_of_messages: 10,
        }),
{
}

/// Which kind of action the loop waits on.
#[derive(Clone, Copy, Debug, PartialEq, Eq, Structural)]
enum Phase {
    Polling,
    Sleeping,
    Handling,
    Deleting,
}

/// The polling loop.  It holds the batch that is being worked off and
/// nothing else: what was delivered is the queue's to remember.
pub struct QueueConsumer {
    phase: Phase,
    batch: Vec<QueueMessage>,
    index: usize,
}

impl View for QueueConsumer {
    type V = LoopState;

    closed spec fn view(&self) -> LoopState {
        match self.phase {
            Phase::Polling => LoopState::Polling,
            Phase::Sleeping => LoopState::Sleeping,
            Phase::Handling => LoopState::Handling {
                batch: deliveries(self.batch@),
                index: self.index as int,
            },
            Phase::Deleting => LoopState::Deleting {
                batch: deliveries(self.batch@),
                index: self.index as int,
            },
        }
    }
}

impl QueueConsumer {
    /// The loop's invariant.
    pub open spec fn wf(&self) -> bool {
        self@.well_formed()
    }

    /// A loop that is about to make its first receive call.
    pub fn new() -> (consumer: Self)
        ensures
            consumer.wf(),
            consumer@ == LoopState::Polling,
    {
        QueueConsumer { phase: Phase::Polling, batch: Vec::new(), index: 0 }
    }

    /// The action that the loop waits on: the first thing to do on a new
    /// loop, and what is to be done again after a report that answered
    /// nothing.
    pub fn pending_action(&self) -> (action: QueueAction)
        requires
            self.wf(),
        ensures
            action@ == self@.awaited(),
    {
        match self.phase {
            Phase::Polling => QueueAction::Receive {
                wait_time_seconds: POLL_WAIT_SECONDS,
                max_number_of_messages: POLL_BATCH_SIZE,
            },
            Phase::Sleeping => QueueAction::Sleep { seconds: IDLE_BACKOFF_SECONDS },
            Phase::Handling => {
                assert(deliveries(self.batch@)[self.index as int] == self.batch@[self.index as int]@);
                QueueAction::Handle { body: self.batch[self.index].body.as_ref().unwrap().clone() }
            },
            Phase::Deleting => {
                assert(deliveries(self.batch@)[self.index as int] == self.batch@[self.index as int]@);
                QueueAction::Delete {
                    receipt_handle: self.batch[self.index].receipt_handle.as_ref().unwrap().clone(),
                }
            },
        }
    }

    /// Takes up the batch from message `start` on.
    fn turn_to(&mut self, start: usize)
        requires
            start <= old(self).batch@.len(),
        ensures
            final(self)@ == turn_to(deliveries(old(self).batch@), start as int),
            final(self).wf(),
    {
        let ghost batch = deliveries(self.batch@);
        let mut i: usize = start;
        while i < self.batch.len()
            invariant
                start <= i <= self.batch@.len(),
                batch == deliveries(self.batch@),
                self.batch@ == old(self).batch@,
                turn_to(batch, i as int) == turn_to(batch, start as int),
            decreases self.batch@.len() - i,
        {
            assert(batch[i as int] == self.batch@[i as int]@);
            if self.batch[i].body.is_some() {
                self.phase = Phase::Handling;
                self.index = i;
                return ;
            }
            if self.batch[i].receipt_handle.is_some() {
                self.phase = Phase::Deleting;
                self.index = i;
                return ;
            }
            i += 1;
        }
        self.phase = Phase::Polling;
    }

    /// Takes the report on the last action and answers with the next one.
    ///
    /// The state moves as [`LoopState::next`] says, and the answer is the
    /// action that the new state waits on.
    pub fn step(&mut self, event: QueueEvent) -> (action: QueueAction)
        requires
            old(self).wf(),
        ensures
            final(self).wf(),
            final(self)@ == old(self)@.next(event@),
            action@ == final(self)@.awaited(),
    {
        proof {
            lemma_next_well_formed(self@, event@);
        }
        match event {
            QueueEvent::Received(batch) => {
                if let Phase::Polling = self.phase {
                    if batch.len() == 0 {
                        self.phase = Phase::Sleeping;
                    } else {
                        self.batch = batch;
                        self.turn_to(0);
                    }
                }
            },
            QueueEvent::Handled { success } => {
                if let Phase::Handling = self.phase {
                    assert(deliveries(self.batch@)[self.index as int]
                        == self.batch@[self.index as int]@);
                    if success && self.batch[self.index].receipt_handle.is_some() {
                        self.phase = Phase::Deleting;
                    } else {
                        proof {
                            vstd::std_specs::vec::axiom_spec_len(&self.batch);
                        }
                        let following: usize = self.index + 1;
                        self.turn_to(following);
                    }
                }
            },
            QueueEvent::Deleted => {
                if let Phase::Deleting = self.phase {
                    proof {
                        vstd::std_specs::vec::axiom_spec_len(&self.batch);
                    }
                    let following: usize = self.index + 1;
                    self.turn_to(following);
                }
            },
            QueueEvent::Woke => {
                if let Phase::Sleeping = self.phase {
                    self.phase = Phase::Polling;
                }
            },
        }
        self.pending_action()
    }
}

} // verus!
