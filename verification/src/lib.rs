#![allow(non_snake_case)]
//! Scene-graph core of a small 3D engine: an entity-component world store,
//! scene lifecycle, and the per-frame extraction pass that turns entity state
//! into renderer calls. All scalar quantities are fixed-point integers
//! (see `fixed`), so every piece of arithmetic is verified exactly.

pub mod camera;
pub mod component;
pub mod entity;
pub mod fixed;
pub mod math;
pub mod renderer;
pub mod scene;
pub mod serial;
pub mod world;
