//! The logic of `irl`, a program that publishes and watches live audio and video
//! over iroh, and of its demos.
//!
//! Nothing here opens a device, a window or a connection. What is decided is
//! stated in contracts and proved: how flags and specifiers read ([`args`],
//! [`backend`], [`source_spec`], [`rendition`], [`source`]), what a command does
//! next ([`publish`], [`import`], [`record`], [`run`], [`relay`], [`devices`],
//! [`transport`], [`playback`], [`play`]), what a window shows ([`call`],
//! [`watch`], [`room`], [`chat`], [`scan`], [`ui`], [`overlay`],
//! [`stats`], [`frame_view`]),
//! and what the demos do ([`pi`], [`epaper`], [`epd`], [`libcamera`],
//! [`codec_test`], [`viewer`], [`headless`], [`android`], [`nv12`]).
//!
//! A program performs what comes back, and hands in what happened.

pub mod android;
pub mod args;
pub mod backend;
pub mod call;
pub mod chat;
pub mod codec_test;
pub mod devices;
pub mod epaper;
pub mod epd;
pub mod frame_view;
pub mod headless;
pub mod ids;
pub mod import;
pub mod libcamera;
pub mod nv12;
pub mod overlay;
pub mod peers;
pub mod pi;
pub mod play;
pub mod playback;
pub mod publish;
pub mod qr;
pub mod record;
pub mod relay;
pub mod rendition;
pub mod room;
pub mod run;
pub mod scan;
pub mod source;
pub mod source_spec;
pub mod stats;
pub mod text;
pub mod transport;
pub mod ui;
pub mod viewer;
pub mod watch;
