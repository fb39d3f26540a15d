//! Settings: the pages and the small stores behind them.

pub mod composer;
pub mod accounts;
pub mod archived;
pub mod encryption;
pub mod shortcuts;
