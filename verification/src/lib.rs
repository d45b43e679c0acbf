//! Cross-chain pledge bridge runtime: an ERC20-style mintable and burnable
//! token ledger and the pledge / withdraw bookkeeping built on top of it.

pub mod bytes;
pub mod canon_verifier;
pub mod daqiao;
pub mod daqiao_laws;
pub mod light;
pub mod shutdown;
pub mod system;
pub mod token_laws;
pub mod tokens;
