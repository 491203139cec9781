//! Aligns a recorded track to a video's timeline, densifies it, derives
//! per-instant kinematics and schedules overlay layers onto the video.
//!
//! Every quantity is an integer in a fixed unit: instants in milliseconds
//! since the Unix epoch, coordinates in 1e-7 degrees, heights and distances
//! in millimetres, speeds in metres per hour.
//!
//! A job runs through the modules in this order: `video` tells the span of
//! the video, `align` places the track on its timeline, `interpolate`
//! densifies it, `frames` derives the kinematics of `kinematics` at every
//! point, `schedule` makes the plan with the places of `projection`, and
//! `backend` writes the plan as the arguments of the compositor. `pipeline`
//! strings the stages together.

pub mod text;
pub mod decimal;
pub mod numbers;
pub mod track;
pub mod video;
pub mod align;
pub mod interpolate;
pub mod kinematics;
pub mod frames;
pub mod telemetry;
pub mod projection;
pub mod schedule;
pub mod position;
pub mod backend;
pub mod pipeline;
pub mod ordering;
pub mod i18n;
pub mod formats;
pub mod summary;
pub mod fit;
pub mod tcx;
pub mod strava;
