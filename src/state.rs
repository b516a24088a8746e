use vstd::prelude::*;
use crate::key::Key;

verus! {

/// The global configuration: who administers the program, who receives
/// fees, and the fee rate in thousandths of the task amount.
#[derive(Clone, Copy, Debug, PartialEq, Eq)]
pub struct Admin {
    pub signer: Key,
    pub fee_receiver: Key,
    pub fee_ratio: u64,
}

/// Most coin mints the support list can hold.
pub const MAX_COINS: usize = 10;

/// The coin mints in which tasks may be paid.
#[derive(Debug, PartialEq, Eq)]
pub struct SupportCoin {
    pub coin_mints: Vec<Key>,
}

impl View for SupportCoin {
    type V = Seq<Key>;

    open spec fn view(&self) -> Seq<Key> {
        self.coin_mints@
    }
}

/// Where an application stands. `Applied` is the state in which it waits for
/// the requester's verdict; `RejectedByAcceptance` and `Withdrawed` are final.
#[derive(Clone, Copy, Debug, PartialEq, Eq, Structural)]
pub enum ApplicationState {
    Applied,
    AcceptedByAcceptance,
    RejectedByAcceptance,
    Withdrawed,
}

/// One application of one applicant to one task.
#[derive(Clone, Copy, Debug, PartialEq, Eq)]
pub struct TaskApplication {
    pub task_id: u64,
    pub applicant: Key,
    /// The all-zero key when nobody invited the applicant.
    pub inviter: Key,
    pub state: ApplicationState,
}

/// A task: each of `taker_num` takers earns `task_amount`, and each taker's
/// inviter may earn `rewards`, all in units of `coin_mint`.
#[derive(Clone, Copy, Debug, PartialEq, Eq)]
pub struct TaskInfo {
    pub task_id: u64,
    pub task_amount: u64,
    pub taker_num: u64,
    pub coin_mint: Key,
    pub rewards: u64,
    pub requester: Key,
}

} // verus!
