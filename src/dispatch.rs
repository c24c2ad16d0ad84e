//! One build: from a decoded model to the ordered, spaced-out placement requests,
//! and the session around the builds.

use vstd::prelude::*;
use crate::error::BuildError;
use crate::palette::PaletteMap;
use crate::protocol::{
    create_set_block_command, fresh_header, setblock_line, trigger_of_message, MCCommandRequest,
    MCMessage, chat_text,
};
use crate::transform::{fits_u32, world_coords, world_position, Direction, Location};
use crate::trigger::{trigger_agrees, BuildRequest};
use crate::voxel::{load_vox, vox_agrees, MinecraftBlockInfo, MinecraftVox, MinecraftVoxSize, VoxScene};

verus! {

/// How each block replaces what stands at its place.
pub const REPLACE_MODE: &'static str = "replace";

/// The wait between two requests of one build, in milliseconds.
pub const SEND_INTERVAL_MS: u64 = 100;

/// A block to be placed at a world position.
#[derive(Clone, Debug)]
pub struct Placement {
    pub location: Location,
    pub block_type: String,
}

/// Where a resolved block lands in the world, if its coordinates are in range.
pub open spec fn placement_of(
    b: MinecraftBlockInfo,
    size: MinecraftVoxSize,
    d: Direction,
    base: Location,
) -> Option<Location> {
    let w = world_coords(b.x as int, b.y as int, b.z as int, size.x as int, size.y as int, d, base);
    if fits_u32(w.0) && fits_u32(w.1) && fits_u32(w.2) {
        Some(Location { x: w.0 as u32, y: w.1 as u32, z: w.2 as u32 })
    } else {
        None
    }
}

/// `r` is the placement of every block of `vox`, in order, or the report that
/// one of them would leave the range of world coordinates.
pub open spec fn placements_agree(
    vox: MinecraftVox,
    base: Location,
    d: Direction,
    r: Result<Vec<Placement>, BuildError>,
) -> bool {
    match r {
        Ok(ps) => {
            &&& ps@.len() == vox.blocks@.len()
            &&& forall|k: int|
                0 <= k < ps@.len() ==> {
                    &&& placement_of(vox.blocks@[k], vox.size, d, base) == Some(
                        #[trigger] ps@[k].location,
                    )
                    &&& ps@[k].block_type@ == vox.blocks@[k].block_type@
                }
        },
        Err(e) => e == BuildError::OutOfRange && exists|k: int|
            0 <= k < vox.blocks@.len() && placement_of(
                #[trigger] vox.blocks@[k],
                vox.size,
                d,
                base,
            ) is None,
    }
}

/// Places every block of a model around `base`, facing `direction`, in the
/// model's order; a block that would leave the range of world coordinates
/// stops the build.
pub fn plan_placements(vox: &MinecraftVox, base: Location, direction: Direction) -> (r: Result<
    Vec<Placement>,
    BuildError,
>)
    ensures
        placements_agree(*vox, base, direction, r),
{
    let mut ps: Vec<Placement> = Vec::new();
    let mut k: usize = 0;
    while k < vox.blocks.len()
        invariant
            k <= vox.blocks@.len(),
            ps@.len() == k,
            forall|j: int|
                0 <= j < k ==> {
                    &&& placement_of(vox.blocks@[j], vox.size, direction, base) == Some(
                        #[trigger] ps@[j].location,
                    )
                    &&& ps@[j].block_type@ == vox.blocks@[j].block_type@
                },
        decreases vox.blocks@.len() - k,
    {
        let b = &vox.blocks[k];
        match world_position(b.x, b.y, b.z, vox.size.x, vox.size.y, direction, base) {
            Some(location) => {
                ps.push(Placement { location, block_type: b.block_type.clone() });
            },
            None => {
                assert(placement_of(vox.blocks@[k as int], vox.size, direction, base) is None);
                return Err(BuildError::OutOfRange);
            },
        }
        k = k + 1;
    }
    Ok(ps)
}

/// Loads a build: resolves the scene's first model against the palette and
/// places its blocks as the request asks.
pub fn plan_build(scene: VoxScene, palette: &PaletteMap, request: &BuildRequest) -> (r: Result<
    Vec<Placement>,
    BuildError,
>)
    ensures
        exists|v: Result<MinecraftVox, BuildError>|
            #[trigger] vox_agrees(scene@, palette@, v) && match v {
                Ok(vox) => placements_agree(vox, request.base, request.direction, r),
                Err(e) => r == Err::<Vec<Placement>, BuildError>(e),
            },
{
    let ghost sv = scene@;
    match load_vox(scene, palette) {
        Ok(vox) => {
            let r = plan_placements(&vox, request.base, request.direction);
            assert(vox_agrees(sv, palette@, Ok::<MinecraftVox, BuildError>(vox)));
            r
        },
        Err(e) => {
            assert(vox_agrees(sv, palette@, Err::<MinecraftVox, BuildError>(e)));
            Err(e)
        },
    }
}

/// The request that places one block, replacing what stands there.
pub fn command_for(p: &Placement) -> (r: MCCommandRequest)
    ensures
        r.body.command_line@ == setblock_line(
            p.location.x as nat,
            p.location.y as nat,
            p.location.z as nat,
            p.block_type@,
            REPLACE_MODE@,
        ),
        r.body.origin.origin_type@ == "player"@,
        r.body.version == 1,
        fresh_header(r.header, "commandRequest"@),
{
    create_set_block_command(
        p.location.x,
        p.location.y,
        p.location.z,
        p.block_type.clone(),
        String::from_str(REPLACE_MODE),
    )
}

/// The wait before the request at `k` of a build: none before the first, the
/// send interval before each other.
pub open spec fn send_delay(k: nat) -> nat {
    if k == 0 {
        0
    } else {
        SEND_INTERVAL_MS as nat
    }
}

/// The waits before the first `n` requests of a build, together.
pub open spec fn total_delay(n: nat) -> nat
    decreases n,
{
    if n == 0 {
        0
    } else {
        total_delay((n - 1) as nat) + send_delay((n - 1) as nat)
    }
}

/// The stages of a build once its blocks are placed in order.
#[derive(Clone, Copy, PartialEq, Eq, Structural, Debug)]
pub enum BuildPhase {
    Streaming,
    Done,
    Failed,
}

/// What the driver of a build does next.
#[derive(Clone, Copy, PartialEq, Eq, Structural, Debug)]
pub enum BuildAction {
    /// Wait `delay_ms`, then send the request of the placement at `index`.
    Send { index: usize, delay_ms: u64 },
    /// Every request was sent.
    Finish,
    /// A send failed; the remaining requests are not sent.
    Abort,
}

/// The progress of one build through its placements.
#[derive(Clone, Copy, PartialEq, Eq, Structural, Debug)]
pub struct BuildRun {
    pub total: usize,
    pub sent: usize,
    pub phase: BuildPhase,
}

impl BuildRun {
    pub open spec fn wf(&self) -> bool {
        self.sent <= self.total
    }

    /// A build of `total` placements, none sent yet.
    pub fn new(total: usize) -> (r: BuildRun)
        ensures
            r.wf(),
            r.total == total,
            r.sent == 0,
            r.phase == BuildPhase::Streaming,
    {
        BuildRun { total, sent: 0, phase: BuildPhase::Streaming }
    }

    /// The next step of the build: the next placement, in order, after its wait;
    /// or the end of the build.
    pub fn next_action(&mut self) -> (r: BuildAction)
        requires
            old(self).wf(),
        ensures
            final(self).wf(),
            final(self).total == old(self).total,
            match old(self).phase {
                BuildPhase::Streaming => if old(self).sent < old(self).total {
                    &&& r == (BuildAction::Send {
                        index: old(self).sent,
                        delay_ms: send_delay(old(self).sent as nat) as u64,
                    })
                    &&& final(self).sent == old(self).sent + 1
                    &&& final(self).phase == BuildPhase::Streaming
                } else {
                    &&& r == BuildAction::Finish
                    &&& final(self).sent == old(self).sent
                    &&& final(self).phase == BuildPhase::Done
                },
                BuildPhase::Done => r == BuildAction::Finish && *final(self) == *old(self),
                BuildPhase::Failed => r == BuildAction::Abort && *final(self) == *old(self),
            },
    {
        match self.phase {
            BuildPhase::Streaming => {
                if self.sent < self.total {
                    let index = self.sent;
                    let delay_ms = if index == 0 {
                        0
                    } else {
                        SEND_INTERVAL_MS
                    };
                    self.sent = self.sent + 1;
                    BuildAction::Send { index, delay_ms }
                } else {
                    self.phase = BuildPhase::Done;
                    BuildAction::Finish
                }
            },
            BuildPhase::Done => BuildAction::Finish,
            BuildPhase::Failed => BuildAction::Abort,
        }
    }

    /// A send of this build failed: the build stops, and what was sent stays sent.
    pub fn send_failed(&mut self)
        ensures
            final(self).phase == BuildPhase::Failed,
            final(self).total == old(self).total,
            final(self).sent == old(self).sent,
    {
        self.phase = BuildPhase::Failed;
    }
}

/// The requests of a build of `n` placements are spread over at least
/// `(n - 1)` send intervals.
pub proof fn lemma_rate_limit(n: nat)
    ensures
        total_delay(n) >= (n - 1) * (SEND_INTERVAL_MS as int),
        n >= 1 ==> total_delay(n) == (n - 1) * (SEND_INTERVAL_MS as int),
    decreases n,
{
    if n > 1 {
        lemma_rate_limit((n - 1) as nat);
    } else if n == 1 {
        assert(total_delay(1) == total_delay(0) + send_delay(0));
    }
}

/// Where the session around the builds stands.
#[derive(Clone, Copy, PartialEq, Eq, Structural, Debug)]
pub enum SessionState {
    Waiting,
    Open,
    Closed,
}

/// What the session hears from the transport.
#[derive(Clone, Debug)]
pub enum SessionEvent {
    Opened,
    Message(MCMessage),
    Closed,
    Failed,
}

/// What the session asks of its driver.
#[derive(Clone, Debug)]
pub enum SessionAction {
    /// Send the request to be told of chat messages.
    Subscribe,
    /// Run this build, beside any that are running.
    StartBuild(BuildRequest),
    /// Nothing to do.
    Ignore,
    /// Stop serving: the single connection is gone.
    Shutdown,
}

/// The session's next state and action for one event: it subscribes when the
/// connection opens, starts a build for each message that triggers one while
/// open, and shuts down when the connection closes or fails.
pub fn session_step(state: SessionState, event: &SessionEvent) -> (r: (SessionState, SessionAction))
    ensures
        match event {
            SessionEvent::Opened => if state == SessionState::Closed {
                r.0 == SessionState::Closed && r.1 is Ignore
            } else {
                r.0 == SessionState::Open && r.1 is Subscribe
            },
            SessionEvent::Message(m) => r.0 == state && if state == SessionState::Open {
                match chat_text(*m) {
                    Some(t) => match r.1 {
                        SessionAction::StartBuild(q) => trigger_agrees(Some(q), t),
                        SessionAction::Ignore => trigger_agrees(None, t),
                        _ => false,
                    },
                    None => r.1 is Ignore,
                }
            } else {
                r.1 is Ignore
            },
            SessionEvent::Closed | SessionEvent::Failed => r.0 == SessionState::Closed && r.1 is Shutdown,
        },
{
    match event {
        SessionEvent::Opened => {
            if state == SessionState::Closed {
                (SessionState::Closed, SessionAction::Ignore)
            } else {
                (SessionState::Open, SessionAction::Subscribe)
            }
        },
        SessionEvent::Message(m) => {
            if state == SessionState::Open {
                match trigger_of_message(m) {
                    Some(q) => (state, SessionAction::StartBuild(q)),
                    None => (state, SessionAction::Ignore),
                }
            } else {
                (state, SessionAction::Ignore)
            }
        },
        SessionEvent::Closed | SessionEvent::Failed => (SessionState::Closed, SessionAction::Shutdown),
    }
}

} // verus!
