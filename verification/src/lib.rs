//! Verified core of the Rewire viewer: the data logic behind its ROS 2 panels.

pub mod control;
pub mod order;
pub mod text;
pub mod topics_system;
pub mod ui;
pub mod util;
pub mod view_class;
pub mod views;
