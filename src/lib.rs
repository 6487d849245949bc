//! A proof-gated ledger of file transfers. A transfer of a file, named by its
//! content hash, to a recipient is recorded only when a Groth16 proof over
//! BLS12-381 shows knowledge of a secret bound to both; each recorded transfer
//! carries a fee in basis points, and an admin alone may change the rate or
//! withdraw fees.

pub mod error;
pub mod fee;
pub mod ledger;
pub mod lemmas;
pub mod msg;
pub mod zk;

pub use error::ContractError;
pub use ledger::{FileTransfer, State};
pub use msg::{execute, instantiate, query, ExecuteMsg, InstantiateMsg, QueryMsg};
pub use zk::{FileTransferCircuit, Proof};
