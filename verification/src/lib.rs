//! Zephyr's backend logic: naming and parsing of the ASUS daemons' profiles and
//! modes, fan-curve validation, the dashboard's assembly from what the daemons
//! answer, the tray's menu, and the user's settings.

pub mod bus;
pub mod compare;
pub mod dashboard;
pub mod dto;
pub mod error;
pub mod fan_curve;
pub mod gfx;
pub mod lighting;
pub mod objects;
pub mod perf;
pub mod power_profiles;
pub mod profiles;
pub mod sections;
pub mod settings;
pub mod state;
pub mod status;
pub mod text;
pub mod tray;
pub mod writes;
