//! Control library for a family of laptops whose firmware settings
//! (performance mode, fan behaviour, boost levels, lighting, battery care)
//! are driven over a proprietary request/response protocol carried in
//! fixed-size USB HID feature reports.
//!
//! The crate is organised around three layers:
//! - [`packet`]: the fixed-size binary frame, its byte layout, and the
//!   rules that decide whether a received frame answers a sent frame;
//! - [`transport`]: the capability that carries one frame to the device
//!   and brings one frame back, together with a scripted in-memory
//!   implementation used by the tests;
//! - [`command`]: one operation per firmware feature, each of which builds
//!   a request, exchanges it, validates the reply, and enforces the
//!   firmware's mode preconditions before it writes anything.
//!
//! Around that core, [`state`] bundles every setting into one snapshot
//! that can be read from and applied to a device, [`descriptor`] and
//! [`feature`] hold the static catalog of supported models and their
//! enabled features, and [`razerctl`] keeps the earlier, lower-level
//! control surface with its command-line data types.

pub mod command;
pub mod descriptor;
pub mod error;
pub mod feature;
pub mod packet;
pub mod razerctl;
pub mod state;
pub mod transport;
pub mod types;
