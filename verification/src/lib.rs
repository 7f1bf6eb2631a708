//! Decision logic of an in-process game overlay.

pub mod backend;
pub mod capture;
pub mod cef_frame;
pub mod clients;
pub mod compositor;
pub mod coop;
pub mod dll;
pub mod event;
pub mod event_sink;
pub mod geometry;
pub mod hook;
pub mod int_map;
pub mod integration;
pub mod paint_cmd;
pub mod renderer;
pub mod server;
pub mod tables;
pub mod text;
pub mod texture;
pub mod util;
pub mod vulkan;
