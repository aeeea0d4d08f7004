pub mod action;
pub mod ansi_drawable;
pub mod ctx;
pub mod data;
pub mod entities;
pub mod knowledge;
pub mod level_switch;
pub mod message;
pub mod moon_transform;
pub mod rule;
pub mod rules;
pub mod table;
pub mod transformation;
pub mod turn;
pub mod world;
