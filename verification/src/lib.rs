//! Hardware scoring and tier ranking, with the survey-state bookkeeping that goes with it.
pub mod text;
pub mod fields;
pub mod hardware;
pub mod gpu;
pub mod board;
pub mod system;
pub mod json;
pub mod score;
pub mod survey;
pub mod report;
pub mod submit;
