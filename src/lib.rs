pub mod events;
pub mod paths;
pub mod steps;
