//! Cross-platform input event vocabulary modeled after W3C UI Events, with
//! the mapping rules that platform adapters use to build it from raw values.
//!
//! - [`pointer`]: pointer identities, types and button sets.
//! - [`keyboard`]: modifier flags, key codes, named keys and locations.
//! - [`text`]: text-input events and document-range conversion between
//!   UTF-8, UTF-16 and code-point offsets.
//! - [`edit`]: semantic editor commands.
//! - [`apple`]: helpers shared by the AppKit and UIKit adapters.
//! - [`uikit`]: UIKit-specific mapping of contacts, modifier bits and HID
//!   usages.
//! - [`web`]: DOM button numbering, touch identifiers and event dispatch.
pub mod apple;
pub mod edit;
pub mod keyboard;
pub mod pointer;
pub mod text;
pub mod uikit;
pub mod web;
