//! Construction of a native popup-menu tree from an abstract menu description,
//! with a signal index that maps native item ids back to application signals.
//!
//! The library decides everything: which native operations are carried out and
//! in which order, which failures are fatal, which resources must be released.
//! A host that talks to the windowing system performs each operation and hands
//! its outcome back.

mod assembly;
mod error;
mod item;
mod native_menu;
mod plan;

pub use assembly::{Assembly, Step};
pub use error::TrayError;
pub use item::{Icon, Menu, MenuItem};
pub use native_menu::{NativeMenu, Release};
pub use plan::{plan, IconTarget, NativeOp};
