//! An in-memory model window: the window state the core's
//! commands act on, held as plain values.

use vstd::prelude::*;

use crate::message::WindowCommand;

verus! {

/// The state of one model window
#[derive(Debug, PartialEq)]
pub struct Window {
    /// The window title
    pub title: String,
    /// The window origin
    pub origin: (u32, u32),
    /// The window dimensions
    pub dimension: (u32, u32),
    /// Whether the window is mapped onto the display
    pub mapped: bool,
}

/// The window state after one command is carried out: title,
/// dimension and origin requests store their value, map and
/// unmap requests set the mapped flag, everything else leaves
/// the window as it is.
pub open spec fn spec_apply(w: Window, c: WindowCommand) -> Window {
    match c {
        WindowCommand::Title(s) => Window { title: s, ..w },
        WindowCommand::Dimension(d) => Window { dimension: d, ..w },
        WindowCommand::Origin(o) => Window { origin: o, ..w },
        WindowCommand::MapWindow => Window { mapped: true, ..w },
        WindowCommand::Unmap => Window { mapped: false, ..w },
        _ => w,
    }
}

/// The windows a run of commands leaves behind, applied first
/// to last
pub open spec fn spec_apply_all(w: Window, cs: Seq<WindowCommand>) -> Window
    decreases cs.len(),
{
    if cs.len() == 0 {
        w
    } else {
        spec_apply_all(spec_apply(w, cs[0]), cs.drop_first())
    }
}

impl Clone for Window {
    fn clone(&self) -> (res: Self)
        ensures
            res == *self,
    {
        Window {
            title: self.title.clone(),
            origin: self.origin,
            dimension: self.dimension,
            mapped: self.mapped,
        }
    }
}

impl Window {
    /// A fresh window: untitled, at the origin, zero-sized, unmapped
    pub fn default() -> (w: Self)
        ensures
            w.title@ == Seq::<char>::empty(),
            w.origin == (0u32, 0u32),
            w.dimension == (0u32, 0u32),
            !w.mapped,
    {
        let w = Self { title: "".to_owned(), origin: (0, 0), dimension: (0, 0), mapped: false };
        proof {
            reveal_strlit("");
        }
        w
    }

    /// The window title
    pub fn title(&self) -> (r: &str)
        ensures
            r@ == self.title@,
    {
        self.title.as_str()
    }

    /// The window origin
    pub fn origin(&self) -> (r: (u32, u32))
        ensures
            r == self.origin,
    {
        self.origin
    }

    /// The window dimensions
    pub fn dimension(&self) -> (r: (u32, u32))
        ensures
            r == self.dimension,
    {
        self.dimension
    }
}

/// Commands arriving one after the other act in exactly that
/// order: a run of commands leaves the window that applying the
/// first command and then the rest leaves, so no two commands
/// are ever reordered.
pub proof fn lemma_commands_apply_in_order(w: Window, first: WindowCommand, rest: Seq<WindowCommand>)
    ensures
        spec_apply_all(w, seq![first] + rest) == spec_apply_all(spec_apply(w, first), rest),
{
    let cs = seq![first] + rest;
    assert(cs[0] == first);
    assert(cs.drop_first() =~= rest);
}

} // verus!
