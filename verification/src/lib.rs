//! The logic of a touch pad that plays as a game controller: twelve keys and two
//! faders on a touch screen, a link to the game, and a mirror of another screen.
//!
//! - [`touchbridge`], [`bridge`] and [`faders`] are the pad: the table of contacts,
//!   the keys they hold, the cursor and the faders. [`padlaws`], [`presslaws`] and
//!   [`faderlaws`] state what a finger does to it.
//! - [`spiceapi`], [`known`], [`wire`] and [`link`] are the link: what waits to be
//!   sent, the picture of the buttons, the messages, and the worker's decisions.
//!   [`queuelaws`] and [`linklaws`] relate the queue, the picture, what is sent and what
//!   the game believes.
//! - [`monitor`], [`navmirror`], [`winmsg`] and [`utf16`] are about screens and
//!   windows. [`screenlaws`] states what holds of them.
//! - [`config`], [`diagnostics`], [`logging`] and [`runtime`] are the settings, the
//!   diagnostics panel, the log and what ties everything together. [`runtimelaws`] states
//!   what holds of the window, the mirror's switch and the clock.
//! - [`single`] and [`text`] are the numbers and the text that all of it is made of.
//!   [`textlaws`] states what the texts say, and what holds of the panel and the settings.
//!
//! Nothing here talks to the system, looks at a clock or adds up coordinates: a
//! caller measures, and performs what is decided here. Times are nanoseconds.
pub mod bridge;
pub mod config;
pub mod diagnostics;
pub mod faderlaws;
pub mod faders;
pub mod known;
pub mod link;
pub mod linklaws;
pub mod logging;
pub mod monitor;
pub mod navmirror;
pub mod padlaws;
pub mod presslaws;
pub mod queuelaws;
pub mod runtime;
pub mod runtimelaws;
pub mod screenlaws;
pub mod single;
pub mod spiceapi;
pub mod text;
pub mod textlaws;
pub mod touchbridge;
pub mod utf16;
pub mod winmsg;
pub mod wire;
