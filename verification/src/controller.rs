//! Running turns: requests and their preparation, execution and commit of a
//! thread turn, and the relay of a headless run.

pub mod headless;
pub mod turn;
pub mod turn_request;
