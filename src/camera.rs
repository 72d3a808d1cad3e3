use vstd::prelude::*;

use crate::gpu::GpuCommand;

verus! {

/// Whether `v` can be held by an `i64` coordinate or angle.
pub open spec fn fits_i64(v: int) -> bool {
    i64::MIN <= v <= i64::MAX
}

/// A position in world space, in whole units. Y is the vertical axis.
#[derive(Debug, Clone, Copy, PartialEq, Eq, Structural)]
pub struct Position {
    pub x: i64,
    pub y: i64,
    pub z: i64,
}

/// Horizontal and vertical angular extent of the view, in degrees.
#[derive(Debug, Clone, Copy, PartialEq, Eq, Structural)]
pub struct FieldOfView {
    pub horizontal: i64,
    pub vertical: i64,
}

/// What the camera is, mathematically: unbounded integers, no wraparound.
pub struct CameraModel {
    pub x: int,
    pub y: int,
    pub z: int,
    pub yaw: int,
    pub pitch: int,
    pub roll: int,
    pub fov_h: int,
    pub fov_v: int,
}

impl CameraModel {
    pub open spec fn moved(self, dx: int, dy: int, dz: int) -> CameraModel {
        CameraModel { x: self.x + dx, y: self.y + dy, z: self.z + dz, ..self }
    }

    pub open spec fn turned(self, dyaw: int, dpitch: int, droll: int) -> CameraModel {
        CameraModel {
            yaw: self.yaw + dyaw,
            pitch: self.pitch + dpitch,
            roll: self.roll + droll,
            ..self
        }
    }

    /// Every quantity is representable by the executable camera.
    pub open spec fn representable(self) -> bool {
        &&& fits_i64(self.x)
        &&& fits_i64(self.y)
        &&& fits_i64(self.z)
        &&& fits_i64(self.yaw)
        &&& fits_i64(self.pitch)
        &&& fits_i64(self.roll)
        &&& fits_i64(self.fov_h)
        &&& fits_i64(self.fov_v)
    }

    /// The record pushed to the GPU for this camera.
    pub open spec fn snapshot(self) -> CameraSnapshot {
        CameraSnapshot {
            pos: Position { x: self.x as i64, y: self.y as i64, z: self.z as i64 },
            yaw: self.yaw as i64,
            pitch: self.pitch as i64,
            roll: self.roll as i64,
            fov: FieldOfView { horizontal: self.fov_h as i64, vertical: self.fov_v as i64 },
        }
    }

    /// The camera after applying each displacement of `moves` in turn.
    pub open spec fn moved_by_all(self, moves: Seq<(int, int, int)>) -> CameraModel
        decreases moves.len(),
    {
        if moves.len() == 0 {
            self
        } else {
            let d = moves.last();
            self.moved_by_all(moves.drop_last()).moved(d.0, d.1, d.2)
        }
    }

    /// The camera after applying each rotation delta of `deltas` in turn.
    pub open spec fn turned_by_all(self, deltas: Seq<(int, int, int)>) -> CameraModel
        decreases deltas.len(),
    {
        if deltas.len() == 0 {
            self
        } else {
            let d = deltas.last();
            self.turned_by_all(deltas.drop_last()).turned(d.0, d.1, d.2)
        }
    }
}

/// Component-wise sum of a sequence of triples.
pub open spec fn total(s: Seq<(int, int, int)>) -> (int, int, int)
    decreases s.len(),
{
    if s.len() == 0 {
        (0, 0, 0)
    } else {
        let t = total(s.drop_last());
        let d = s.last();
        (t.0 + d.0, t.1 + d.1, t.2 + d.2)
    }
}

/// The GPU-visible record of a camera: position, orientation and field of view.
/// The rotation matrix is a pure function of (yaw, pitch, roll) and is built
/// from these angles wherever the record is uploaded.
#[derive(Debug, Clone, Copy, PartialEq, Eq, Structural)]
pub struct CameraSnapshot {
    pub pos: Position,
    pub yaw: i64,
    pub pitch: i64,
    pub roll: i64,
    pub fov: FieldOfView,
}

/// The camera: a position and three independent Euler angle accumulators
/// (degrees; 0, 0, 0 looks towards positive Z).
#[derive(Debug, Clone, Copy)]
pub struct Camera {
    pos: Position,
    pitch: i64,
    yaw: i64,
    roll: i64,
    fov: FieldOfView,
}

impl View for Camera {
    type V = CameraModel;

    closed spec fn view(&self) -> CameraModel {
        CameraModel {
            x: self.pos.x as int,
            y: self.pos.y as int,
            z: self.pos.z as int,
            yaw: self.yaw as int,
            pitch: self.pitch as int,
            roll: self.roll as int,
            fov_h: self.fov.horizontal as int,
            fov_v: self.fov.vertical as int,
        }
    }
}

impl Camera {
    pub fn new(pos: Position, pitch: i64, yaw: i64, roll: i64, fov: FieldOfView) -> (r: Camera)
        ensures
            r@ == (CameraModel {
                x: pos.x as int,
                y: pos.y as int,
                z: pos.z as int,
                yaw: yaw as int,
                pitch: pitch as int,
                roll: roll as int,
                fov_h: fov.horizontal as int,
                fov_v: fov.vertical as int,
            }),
    {
        Camera { pos, pitch, yaw, roll, fov }
    }

    /// Every quantity of a camera is held exactly in its `i64` fields.
    pub proof fn lemma_representable(&self)
        ensures
            self@.representable(),
    {
    }

    /// Whether `look_rel` with these deltas keeps every angle representable.
    pub fn can_look(&self, rel_yaw: i64, rel_pitch: i64, rel_roll: i64) -> (r: bool)
        ensures
            r == self@.turned(rel_yaw as int, rel_pitch as int, rel_roll as int).representable(),
    {
        self.yaw.checked_add(rel_yaw).is_some() && self.pitch.checked_add(rel_pitch).is_some()
            && self.roll.checked_add(rel_roll).is_some()
    }

    /// Whether `move_rel` with this displacement keeps the position representable.
    pub fn can_move(&self, rel_x: i64, rel_y: i64, rel_z: i64) -> (r: bool)
        ensures
            r == self@.moved(rel_x as int, rel_y as int, rel_z as int).representable(),
    {
        self.pos.x.checked_add(rel_x).is_some() && self.pos.y.checked_add(rel_y).is_some()
            && self.pos.z.checked_add(rel_z).is_some()
    }

    /// Adds to the three angle accumulators, with no clamping or wraparound.
    pub fn look_rel(&mut self, rel_yaw: i64, rel_pitch: i64, rel_roll: i64)
        requires
            old(self)@.turned(rel_yaw as int, rel_pitch as int, rel_roll as int).representable(),
        ensures
            final(self)@ == old(self)@.turned(rel_yaw as int, rel_pitch as int, rel_roll as int),
    {
        self.yaw = self.yaw + rel_yaw;
        self.pitch = self.pitch + rel_pitch;
        self.roll = self.roll + rel_roll;
    }

    /// Adds a displacement to the position; orientation is left alone.
    pub fn move_rel(&mut self, rel_x: i64, rel_y: i64, rel_z: i64)
        requires
            old(self)@.moved(rel_x as int, rel_y as int, rel_z as int).representable(),
        ensures
            final(self)@ == old(self)@.moved(rel_x as int, rel_y as int, rel_z as int),
    {
        self.pos.x = self.pos.x + rel_x;
        self.pos.y = self.pos.y + rel_y;
        self.pos.z = self.pos.z + rel_z;
    }

    /// The GPU record of the current state, built afresh on every call.
    pub fn snapshot(&self) -> (r: CameraSnapshot)
        ensures
            r == self@.snapshot(),
    {
        CameraSnapshot { pos: self.pos, yaw: self.yaw, pitch: self.pitch, roll: self.roll, fov: self.fov }
    }

    /// The command that writes the current snapshot over the camera's uniform
    /// buffer (same offset and size every time).
    pub fn update(&self) -> (r: GpuCommand)
        ensures
            r == (GpuCommand::UploadCamera { snapshot: self@.snapshot() }),
    {
        GpuCommand::UploadCamera { snapshot: self.snapshot() }
    }
}

impl Default for Camera {
    /// At the origin, looking towards positive Z, with a 90 by 90 degree view.
    fn default() -> (r: Camera)
        ensures
            r@ == (CameraModel {
                x: 0, y: 0, z: 0, yaw: 0, pitch: 0, roll: 0, fov_h: 90, fov_v: 90,
            }),
    {
        Camera::new(
            Position { x: 0, y: 0, z: 0 },
            0,
            0,
            0,
            FieldOfView { horizontal: 90, vertical: 90 },
        )
    }
}

/// Moving by each displacement in turn leaves the camera moved by their sum:
/// only the position changes, and it changes by exactly the vector sum.
pub proof fn lemma_moves_sum(c: CameraModel, moves: Seq<(int, int, int)>)
    ensures
        c.moved_by_all(moves) == c.moved(total(moves).0, total(moves).1, total(moves).2),
    decreases moves.len(),
{
    if moves.len() > 0 {
        lemma_moves_sum(c, moves.drop_last());
    }
}

/// The final position does not depend on the order of the moves: applying one
/// sequence of moves and then another ends where the opposite order ends.
pub proof fn lemma_moves_commute(
    c: CameraModel,
    first: Seq<(int, int, int)>,
    second: Seq<(int, int, int)>,
)
    ensures
        c.moved_by_all(first).moved_by_all(second) == c.moved_by_all(second).moved_by_all(first),
{
    lemma_moves_sum(c, first);
    lemma_moves_sum(c, second);
    lemma_moves_sum(c.moved_by_all(first), second);
    lemma_moves_sum(c.moved_by_all(second), first);
}

/// Relative rotations accumulate exactly: each angle ends as its start plus the
/// running sum of its deltas, with no normalisation, even past 360 or below 0.
pub proof fn lemma_looks_sum(c: CameraModel, deltas: Seq<(int, int, int)>)
    ensures
        c.turned_by_all(deltas) == c.turned(total(deltas).0, total(deltas).1, total(deltas).2),
    decreases deltas.len(),
{
    if deltas.len() > 0 {
        lemma_looks_sum(c, deltas.drop_last());
    }
}

/// A snapshot depends on the camera's state alone: two snapshots of one state,
/// with no change in between, are identical.
pub proof fn lemma_snapshot_pure(c: &Camera, first: CameraSnapshot, second: CameraSnapshot)
    requires
        first == c@.snapshot(),
        second == c@.snapshot(),
    ensures
        first == second,
{
}

} // verus!
