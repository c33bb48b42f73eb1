//! Adapters that bind pre-built Material web components to a declarative,
//! component-based rendering model.
//!
//! Each adapter owns a typed property record, projects it onto a host-element
//! description (tag name, attributes, child content), decides which native
//! event listeners to install and when, and tracks the one-time loading of the
//! element's backing script.  The DOM itself is driven by an embedding layer;
//! this crate holds every decision the adapters make, with contracts that pin
//! those decisions down.

pub mod circular_progress;
pub mod decimal;
pub mod dialog;
pub mod host;
pub mod icon_button;
pub mod linear_progress;
pub mod list_item;
pub mod registry;
pub mod switch;
pub mod textfield;
