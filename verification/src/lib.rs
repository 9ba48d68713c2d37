//! Types and rules for satellite tracking jobs at a ground station: the
//! orbital element text a job carries, the checks a job must pass before it
//! is scheduled, the life cycle it moves through, and the telemetry values
//! that are tagged for later correlation with it.

pub mod jobs;
pub mod mqtt;
pub mod radio;
pub mod telemetry;
pub mod text;
pub mod time;
