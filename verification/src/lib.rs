//! A ticket counter kept in one on-chain account: the record, the accounts
//! that each instruction is handed, and the two instructions themselves.

pub mod state;
pub mod instructions;
pub mod lemmas;
