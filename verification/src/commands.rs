//! What each command of Prist decides.

pub mod activate;
pub mod create;
pub mod doctor;
pub mod failure;
pub mod listing;
pub mod names;
pub mod proxy;
pub mod record;
pub mod remove;
pub mod repair;
pub mod tools;
pub mod upgrade;
