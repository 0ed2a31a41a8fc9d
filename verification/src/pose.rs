use vstd::prelude::*;

verus! {

/// Number of heading units in a full turn: unit `h` stands for the angle
/// `h * 2 * pi / HEADING_UNITS` radians.
pub const HEADING_UNITS: u32 = 1024;

/// Pose of one bot in world coordinates, as read back from the simulation
/// engine once per tick.
#[derive(Clone, Copy, PartialEq, Eq, Structural, Debug)]
pub struct BotPose {
    pub x: i32,
    pub y: i32,
    pub heading: u32,
    pub turret_offset: u32,
}

/// Immutable record of the poses of all live bots at one tick; the order is
/// index-stable within the tick.
pub struct WorldSnapshot {
    pub bots: Vec<BotPose>,
}

impl View for WorldSnapshot {
    type V = Seq<BotPose>;

    open spec fn view(&self) -> Seq<BotPose> {
        self.bots@
    }
}

impl WorldSnapshot {
    pub fn new() -> (r: WorldSnapshot)
        ensures
            r@ == Seq::<BotPose>::empty(),
    {
        WorldSnapshot { bots: Vec::new() }
    }

    pub fn push_pose(&mut self, pose: BotPose)
        ensures
            final(self)@ == old(self)@.push(pose),
    {
        self.bots.push(pose);
    }

    pub fn bot_count(&self) -> (n: usize)
        ensures
            n == self@.len(),
    {
        self.bots.len()
    }

    pub fn pose_at(&self, i: usize) -> (p: BotPose)
        requires
            i < self@.len(),
        ensures
            p == self@[i as int],
    {
        self.bots[i]
    }
}

} // verus!
