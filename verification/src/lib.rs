//! Risk-control core of a collateralized lending protocol.

pub mod admin;
pub mod deployment;
pub mod events;
pub mod fixed_point;
pub mod lifecycle;
pub mod params;
pub mod risk_management;
pub mod types;
