use vstd::prelude::*;
use crate::pose::{BotPose, WorldSnapshot};
use crate::project::{project_snapshot, snapshot_quads_ok, RenderQuad};

verus! {

/// Consumer-side redraw state: the most recently received snapshot, kept until
/// the next one arrives. Before any snapshot has arrived nothing is displayed,
/// which is a normal state, not an error.
pub struct DisplayDriver {
    current: Option<WorldSnapshot>,
}

impl DisplayDriver {
    /// The poses currently displayed, if any snapshot has ever arrived.
    pub closed spec fn displayed(&self) -> Option<Seq<BotPose>> {
        match self.current {
            Some(ref s) => Some(s@),
            None => None,
        }
    }

    pub fn new() -> (r: DisplayDriver)
        ensures
            r.displayed() is None,
    {
        DisplayDriver { current: None }
    }

    /// One redraw: take the outcome of a single non-blocking channel poll; a
    /// received snapshot replaces the displayed one, no update keeps it. Then
    /// return the geometry of the displayed snapshot — two quads per bot — or
    /// no geometry at all while no snapshot has ever arrived.
    pub fn on_redraw(&mut self, polled: Option<WorldSnapshot>) -> (quads: Vec<RenderQuad>)
        ensures
            (match polled {
                Some(s) => final(self).displayed() == Some(s@),
                None => final(self).displayed() == old(self).displayed(),
            }),
            (match final(self).displayed() {
                Some(bots) => snapshot_quads_ok(bots, quads@),
                None => quads@.len() == 0,
            }),
    {
        match polled {
            Some(s) => {
                self.current = Some(s);
            },
            None => {},
        }
        match &self.current {
            Some(s) => project_snapshot(s),
            None => Vec::new(),
        }
    }
}

} // verus!
