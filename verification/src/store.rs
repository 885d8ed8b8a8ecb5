//! The conversation store: the append-only entry log and the observable
//! status, shared between the orchestration loop and status observers.

use vstd::prelude::*;

use crate::protocol::{entries_model, AgentStatus, ConversationEntry, EntryModel};

verus! {

/// The owned conversation state: the ordered, append-only log and the
/// current status. The orchestration loop is the sole writer.
#[derive(Debug)]
pub struct AgentState {
    pub status: AgentStatus,
    pub conversation: Vec<ConversationEntry>,
}

/// The model of an [`AgentState`].
pub struct StateModel {
    pub status: AgentStatus,
    pub log: Seq<EntryModel>,
}

impl View for AgentState {
    type V = StateModel;

    open spec fn view(&self) -> StateModel {
        StateModel { status: self.status, log: entries_model(self.conversation@) }
    }
}

impl AgentState {
    /// A fresh state: idle, with an empty log.
    pub fn new() -> (r: AgentState)
        ensures
            r@.status == AgentStatus::Idle,
            r@.log == Seq::<EntryModel>::empty(),
    {
        let r = AgentState { status: AgentStatus::Idle, conversation: Vec::new() };
        proof {
            assert(r@.log =~= Seq::<EntryModel>::empty());
        }
        r
    }

    /// Appends one entry at the end of the log; nothing is reordered or
    /// removed, and the status is untouched.
    pub fn append(&mut self, entry: ConversationEntry)
        ensures
            final(self)@.log == old(self)@.log.push(entry@),
            final(self)@.status == old(self)@.status,
    {
        let ghost e = entry@;
        self.conversation.push(entry);
        proof {
            assert(self@.log =~= old(self)@.log.push(e));
        }
    }

    /// The current ordered log, for use as a backend request payload.
    pub fn snapshot(&self) -> (r: &Vec<ConversationEntry>)
        ensures
            entries_model(r@) == self@.log,
    {
        &self.conversation
    }

    /// Sets the observable status.
    pub fn set_status(&mut self, s: AgentStatus)
        ensures
            final(self)@.status == s,
            final(self)@.log == old(self)@.log,
    {
        self.status = s;
    }

    /// The observable status.
    pub fn status(&self) -> (r: AgentStatus)
        ensures
            r == self@.status,
    {
        self.status
    }

    /// Clears the log and returns to idle: the only operation that removes
    /// entries.
    pub fn reset(&mut self)
        ensures
            final(self)@.status == AgentStatus::Idle,
            final(self)@.log == Seq::<EntryModel>::empty(),
    {
        self.conversation.clear();
        self.status = AgentStatus::Idle;
        proof {
            assert(self@.log =~= Seq::<EntryModel>::empty());
        }
    }
}

} // verus!
