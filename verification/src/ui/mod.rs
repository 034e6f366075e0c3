//! The data the marketplace screens show, the state they track, and how
//! amounts and keys are written for display.
pub mod display;
pub mod mock_data;
pub mod state;
pub mod types;
