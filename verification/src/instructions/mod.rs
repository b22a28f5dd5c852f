pub mod delegate;
pub mod initialize;
pub mod resolve;
pub mod submit_intent;
