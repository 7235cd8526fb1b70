//! Core of a trading bot: validated exchange orders, a classified error
//! taxonomy for exchange calls, prompt framing for a prediction service and
//! the state machine that sequences one decision cycle.

mod text;
pub mod decimal;
pub mod order;
pub mod gateway;
pub mod decision;
pub mod config;
pub mod orchestrator;
pub mod intent;
