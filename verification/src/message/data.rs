//! Results a backend window returns for status queries.
//!
//! Backend handles are reported as their plain protocol
//! identifiers, so the data stays a value the core can inspect.

use vstd::prelude::*;

verus! {

/// A type containing status data
#[non_exhaustive]
#[derive(Debug, Clone, PartialEq)]
pub enum Data {
    /// Window data
    Window(WindowData),
    /// When using XCB
    Xcb(XcbData),
}

impl From<WindowData> for Data {
    fn from(d: WindowData) -> (r: Self)
        ensures
            r == Data::Window(d),
    {
        Data::Window(d)
    }
}

impl vstd::std_specs::convert::FromSpecImpl<WindowData> for Data {
    open spec fn obeys_from_spec() -> bool {
        true
    }

    open spec fn from_spec(d: WindowData) -> Data {
        Data::Window(d)
    }
}

impl From<XcbData> for Data {
    fn from(d: XcbData) -> (r: Self)
        ensures
            r == Data::Xcb(d),
    {
        Data::Xcb(d)
    }
}

impl vstd::std_specs::convert::FromSpecImpl<XcbData> for Data {
    open spec fn obeys_from_spec() -> bool {
        true
    }

    open spec fn from_spec(d: XcbData) -> Data {
        Data::Xcb(d)
    }
}

/// Window status data
#[non_exhaustive]
#[derive(Debug, Copy, Clone)]
pub enum WindowData {
    /// Get the window position
    Position((u32, u32)),
    /// Get the window dimensions
    Dimension((u32, u32)),
    /// Get the window depth
    Depth(u8),
}

impl PartialEq for WindowData {
    fn eq(&self, other: &Self) -> (r: bool) {
        match (self, other) {
            (WindowData::Position(a), WindowData::Position(b)) => a.0 == b.0 && a.1 == b.1,
            (WindowData::Dimension(a), WindowData::Dimension(b)) => a.0 == b.0 && a.1 == b.1,
            (WindowData::Depth(a), WindowData::Depth(b)) => a == b,
            _ => false,
        }
    }
}

impl vstd::std_specs::cmp::PartialEqSpecImpl for WindowData {
    open spec fn obeys_eq_spec() -> bool {
        true
    }

    open spec fn eq_spec(&self, other: &Self) -> bool {
        match (self, other) {
            (WindowData::Position(a), WindowData::Position(b)) => a == b,
            (WindowData::Dimension(a), WindowData::Dimension(b)) => a == b,
            (WindowData::Depth(a), WindowData::Depth(b)) => a == b,
            _ => false,
        }
    }
}

/// XCB status data, each handle as its protocol identifier
#[non_exhaustive]
#[derive(Debug, Copy, Clone, PartialEq)]
pub enum XcbData {
    /// The connection is held by the backend itself
    Connection,
    /// The window ID
    Window(u32),
    /// The visual ID of the visualtype
    VisualType(u32),
    /// A pixmap ID
    Pixmap(u32),
}

} // verus!
