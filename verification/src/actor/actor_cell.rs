//! Handles to actors.
use core::marker::PhantomData;
use vstd::prelude::*;

verus! {

/// What identifies an actor.
#[derive(Clone, Copy, PartialEq, Eq, Structural, Debug)]
pub enum ActorId {
    /// An actor of this process.
    Local(u64),
    /// An actor of another process, reached through the node `node_id`.
    Remote { node_id: u64, pid: u64 },
}

impl ActorId {
    /// Whether the actor runs in this process.
    pub fn is_local(&self) -> (res: bool)
        ensures
            res == (self is Local),
    {
        match self {
            ActorId::Local(_) => true,
            ActorId::Remote { .. } => false,
        }
    }
}

/// How far an actor is in its life.
#[derive(Clone, Copy, PartialEq, Eq, Structural, Debug)]
pub enum ActorStatus {
    /// Made, but not started.
    Unstarted,
    /// In its start.
    Starting,
    /// Processing messages.
    Running,
    /// No longer processing messages.
    Stopping,
    /// At its end.
    Stopped,
}

impl ActorStatus {
    /// The place of a status in the life of an actor.
    pub open spec fn rank(self) -> int {
        match self {
            ActorStatus::Unstarted => 0,
            ActorStatus::Starting => 1,
            ActorStatus::Running => 2,
            ActorStatus::Stopping => 3,
            ActorStatus::Stopped => 4,
        }
    }
}

/// The statuses in which an actor takes messages.
pub const ACTIVE_STATES: [ActorStatus; 2] = [ActorStatus::Starting, ActorStatus::Running];

/// Whether an actor with the status takes messages.
pub open spec fn active(status: ActorStatus) -> bool {
    status is Starting || status is Running
}

/// An untyped handle to an actor.
#[derive(Clone, Copy, PartialEq, Eq, Structural, Debug)]
pub struct ActorCell {
    pub id: ActorId,
}

impl ActorCell {
    /// The identifier of the actor.
    pub fn get_id(&self) -> (res: ActorId)
        ensures
            res == self.id,
    {
        self.id
    }
}

/// A handle to an actor of the type `TActor`.
pub struct ActorRef<TActor> {
    cell: ActorCell,
    actor_type: PhantomData<TActor>,
}

impl<TActor> ActorRef<TActor> {
    /// The untyped handle.
    pub closed spec fn cell(self) -> ActorCell {
        self.cell
    }

    /// The typed handle to the actor that `cell` stands for.
    pub fn from_cell(cell: ActorCell) -> (res: Self)
        ensures
            res.cell() == cell,
    {
        ActorRef { cell, actor_type: PhantomData }
    }

    /// The untyped handle.
    pub fn get_cell(&self) -> (res: ActorCell)
        ensures
            res == self.cell(),
    {
        self.cell
    }

    /// The identifier of the actor.
    pub fn get_id(&self) -> (res: ActorId)
        ensures
            res == self.cell().id,
    {
        self.cell.id
    }
}

impl<TActor> Clone for ActorRef<TActor> {
    fn clone(&self) -> (res: Self)
        ensures
            res.cell() == self.cell(),
    {
        ActorRef { cell: self.cell, actor_type: PhantomData }
    }
}

} // verus!
