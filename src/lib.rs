//! An escrow marketplace for paid tasks: requesters lock funds for a task,
//! applicants apply, requesters accept or reject, and accepted applicants
//! withdraw their share, net of the protocol fee, with an optional referral
//! reward paid to an inviter.

pub mod key;
pub mod error;
pub mod fees;
pub mod state;
pub mod accounts;
pub mod pda;
pub mod program;
pub mod instructions;
pub mod laws;
