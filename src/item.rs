use vstd::prelude::*;

verus! {

/// An icon as straight RGBA pixels, row by row.
#[derive(Debug, Clone, PartialEq, Eq)]
pub struct Icon {
    pub rgba: Vec<u8>,
    pub width: u32,
    pub height: u32,
}

/// One entry of a menu description.
#[derive(Debug)]
pub enum MenuItem<T> {
    Separator,
    Button { name: String, signal: T, disabled: bool, checked: Option<bool>, icon: Option<Icon> },
    Menu { name: String, children: Vec<MenuItem<T>>, icon: Option<Icon> },
}

/// The root of a menu description: its top-level entries, in order.
#[derive(Debug)]
pub struct Menu<T> {
    pub items: Vec<MenuItem<T>>,
}

} // verus!
