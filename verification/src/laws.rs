//! What holds of the wallet as a whole, whatever requests it is sent.

pub mod calls;
pub mod decisions;
pub mod history;
pub mod lifecycle;
pub mod records;
pub mod runs;
pub mod signatures;
pub mod subaccounts;
