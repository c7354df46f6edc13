//! A single-item English-auction escrow engine.
//!
//! An exhibitor places one unit of an asset in custody and names a starting
//! price and a deadline. Bidders deposit strictly increasing amounts of a
//! currency; each new leader's deposit is accepted only after the previous
//! leader has been refunded. After the deadline the winner and the exhibitor
//! swap the asset for the winning deposit.
//!
//! The engine never touches the ledger itself. Every operation validates its
//! request against the auction record and answers with a plan: the ledger
//! instructions to perform, in order, and what becomes of the record once all
//! of them have succeeded.

pub mod accounts;
pub mod bid;
pub mod cancel;
pub mod close;
pub mod error;
pub mod escrow;
pub mod exhibit;
pub mod instruction;
pub mod laws;
pub mod ledger;
pub mod plan;
pub mod pubkey;
pub mod state;

pub use accounts::{Clock, Party, TokenAccount};
pub use bid::{bid, Bid};
pub use cancel::{cancel, Cancel};
pub use close::{close, Close};
pub use error::{AuctionError, LedgerError};
pub use escrow::EscrowAuthority;
pub use exhibit::{exhibit, Exhibit};
pub use instruction::{Authorization, CloseAccount, Instruction, SetAuthority, Transfer};
pub use plan::{Outcome, Plan, PlanView};
pub use pubkey::Pubkey;
pub use state::{Auction, AUCTION_LEN};
