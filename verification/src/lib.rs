//! Idiomatic wrappers for the Pepper plugin API, with their decisions verified.
//!
//! Every call into the browser goes through an interface table that the
//! browser hands the plugin. The library holds everything that is decided
//! around those calls: what is asked of the browser, how its answers are read
//! back into typed values, and what the plugin does with them. Functions that
//! stand for a browser call take the browser's reply as an argument; those
//! that prepare GL work give back the calls to make.
//!
//! - `ffi`, `code`, `geometry`, `resource`, `var`: the C API's values, result
//!   codes, points and sizes, resources and vars.
//! - `instance`, `entry`, `ppb`, `message_handler`, `console`: instances,
//!   their message loops, what the plugin decides when the browser calls it,
//!   the table of browser interfaces, and the plugin's standard streams.
//! - `input`, `fs`, `gles`, `font`, `imagedata`, `url`, `http`,
//!   `video_frame`, `video_decoder`, `media_stream_video_track`: the
//!   interfaces themselves.
#![allow(non_camel_case_types)]
#![allow(non_snake_case)]
#![allow(non_upper_case_globals)]

pub mod ffi;
pub mod code;
pub mod geometry;
pub mod resource;
pub mod var;
pub mod instance;
pub mod entry;
pub mod ppb;
pub mod ppp;
pub mod message_handler;
pub mod console;
pub mod input;
pub mod fs;
pub mod gles;
pub mod font;
pub mod imagedata;
pub mod url;
pub mod http;
pub mod video_frame;
pub mod video_decoder;
pub mod media_stream_video_track;

pub use code::Code;
pub use instance::Instance;
