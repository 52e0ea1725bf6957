//! Status queries a session can put to its backend window

use vstd::prelude::*;

verus! {

/// A type used to get status info
#[non_exhaustive]
#[derive(Debug, Copy, Clone, PartialEq)]
pub enum Stat {
    /// Window status
    Window(WindowStat),
    /// When using XCB
    Xcb(XcbStat),
}

impl From<WindowStat> for Stat {
    fn from(s: WindowStat) -> (r: Self)
        ensures
            r == Stat::Window(s),
    {
        Stat::Window(s)
    }
}

impl vstd::std_specs::convert::FromSpecImpl<WindowStat> for Stat {
    open spec fn obeys_from_spec() -> bool {
        true
    }

    open spec fn from_spec(s: WindowStat) -> Stat {
        Stat::Window(s)
    }
}

impl From<XcbStat> for Stat {
    fn from(s: XcbStat) -> (r: Self)
        ensures
            r == Stat::Xcb(s),
    {
        Stat::Xcb(s)
    }
}

impl vstd::std_specs::convert::FromSpecImpl<XcbStat> for Stat {
    open spec fn obeys_from_spec() -> bool {
        true
    }

    open spec fn from_spec(s: XcbStat) -> Stat {
        Stat::Xcb(s)
    }
}

/// Window status info
#[non_exhaustive]
#[derive(Debug, Copy, Clone, PartialEq)]
pub enum WindowStat {
    /// Get the window position
    Position,
    /// Get the window dimensions
    Dimension,
    /// Get the window depth
    Depth,
}

/// XCB status info
#[non_exhaustive]
#[derive(Debug, Copy, Clone, PartialEq)]
pub enum XcbStat {
    /// Get the raw connection
    Connection,
    /// Get the window ID
    Window,
    /// Get the Visualtype
    VisualType,
}

} // verus!
