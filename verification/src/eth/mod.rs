//! The public-chain side of the tool: amounts, transaction parsing and
//! affordability, and the choice of public signer.

pub mod signer;
pub mod tx;
