//! Recursive light transport: what becomes of a ray at each level of depth.
use vstd::prelude::*;
use crate::scalar::{is_nan, less};
use crate::scene::{intersect, is_nearest, scan, within, Crossing, Hit};

verus! {

/// The depth from which on a struck surface returns no light.
pub const MAX_DEPTH: u8 = 50;

/// The bit pattern of 0.001, the lower end of the interval in which a ray
/// looks for surfaces: a scattered ray does not strike the surface it leaves.
pub const NEAR_LIMIT: u32 = 0x3a83_126f;

/// The bit pattern of positive infinity, the upper end of that interval:
/// every finite distance beyond the near limit is in reach.
pub const FAR_LIMIT: u32 = 0x7f80_0000;

/// What the integrator does with a ray, once the scene has said whether the
/// ray strikes anything.
#[derive(Clone, Copy, Debug, PartialEq, Eq, Structural)]
pub enum Action {
    /// The ray escapes: its colour is the sky gradient along its direction.
    Sky,
    /// The ray strikes a surface at the depth limit: its colour is black.
    Black,
    /// Ask the struck material to scatter the ray. If it absorbs, the colour
    /// is black; if it scatters, the colour is the attenuation times the
    /// colour of the scattered ray, taken at the depth held here.
    Scatter(u8),
}

/// The action for a ray at a depth.
pub open spec fn action_at(hit: bool, depth: u8) -> Action {
    if !hit {
        Action::Sky
    } else if depth < MAX_DEPTH {
        Action::Scatter((depth + 1) as u8)
    } else {
        Action::Black
    }
}

/// One level of the radiance estimate: decides what a ray at `depth`
/// contributes, given whether it strikes the scene.
pub fn color(hit: bool, depth: u8) -> (action: Action)
    ensures
        action == action_at(hit, depth),
        !hit ==> action == Action::Sky,
        action matches Action::Scatter(next) ==> next == depth + 1 && next <= MAX_DEPTH,
{
    if !hit {
        Action::Sky
    } else if depth < MAX_DEPTH {
        Action::Scatter(depth + 1)
    } else {
        Action::Black
    }
}

/// Sends a ray at `depth` into the scene: the nearest surface beyond the
/// near limit, if there is one, and what the integrator does with the ray.
pub fn cast(scene: &Vec<Crossing>, depth: u8) -> (seen: (Option<Hit>, Action))
    ensures
        match seen.0 {
            Some(h) => scan(scene@, NEAR_LIMIT, FAR_LIMIT) == Some((h.index as int, h.t)),
            None => scan(scene@, NEAR_LIMIT, FAR_LIMIT) is None,
        },
        seen.1 == action_at(seen.0 is Some, depth),
        scene.len() == 0 ==> seen.0 is None && seen.1 == Action::Sky,
        (forall|i: int| 0 <= i < scene.len() ==> (#[trigger] scene[i]).ordered()) ==> is_nearest(
            scene@,
            NEAR_LIMIT,
            FAR_LIMIT,
            scan(scene@, NEAR_LIMIT, FAR_LIMIT),
        ),
{
    let hit = intersect(scene, NEAR_LIMIT, FAR_LIMIT);
    let action = color(hit.is_some(), depth);
    (hit, action)
}

/// The interval of the integrator holds exactly the finite distances above
/// the near limit: no distance, however large, is too far to be struck.
pub proof fn every_finite_distance_is_in_reach(t: u32)
    ensures
        within(t, NEAR_LIMIT, FAR_LIMIT) <==> less(NEAR_LIMIT, t) && t != FAR_LIMIT,
        within(t, NEAR_LIMIT, FAR_LIMIT) ==> !is_nan(t) && NEAR_LIMIT < t < FAR_LIMIT,
{
}

/// What one ray of a light path meets.
#[derive(Clone, Copy, Debug, PartialEq, Eq, Structural)]
pub enum Bounce {
    /// Nothing: the ray leaves the scene.
    Miss,
    /// A surface whose material absorbs the ray.
    Absorbed,
    /// A surface whose material scatters the ray onward.
    Scattered,
}

/// Where a light path ends.
#[derive(Clone, Copy, Debug, PartialEq, Eq, Structural)]
pub enum Terminal {
    Sky,
    Black,
}

/// The colour of a light path, as a recipe: the terminal colour, multiplied
/// by the attenuations of the first `bounces` surfaces of the path.
#[derive(Clone, Copy, Debug, PartialEq, Eq, Structural)]
pub struct Radiance {
    pub terminal: Terminal,
    pub bounces: usize,
}

/// One more attenuation in front of a recipe.
pub open spec fn attenuated(inner: Option<(Terminal, nat)>) -> Option<(Terminal, nat)> {
    match inner {
        Some((terminal, bounces)) => Some((terminal, bounces + 1)),
        None => None,
    }
}

/// The radiance estimate along a recorded path whose first ray is traced at
/// `depth`: `None` where the record ends before the path does.
pub open spec fn radiance(path: Seq<Bounce>, depth: nat) -> Option<(Terminal, nat)>
    decreases path.len(),
{
    if path.len() == 0 {
        None
    } else {
        match path[0] {
            Bounce::Miss => Some((Terminal::Sky, 0nat)),
            Bounce::Absorbed => Some((Terminal::Black, 0nat)),
            Bounce::Scattered => if depth < MAX_DEPTH {
                attenuated(radiance(path.drop_first(), depth + 1))
            } else {
                Some((Terminal::Black, 0nat))
            },
        }
    }
}

/// The recipe with `done` attenuations in front.
pub open spec fn after(done: nat, inner: Option<(Terminal, nat)>) -> Option<(Terminal, nat)> {
    match inner {
        Some((terminal, bounces)) => Some((terminal, bounces + done)),
        None => None,
    }
}

/// Follows a recorded path from `depth`, level by level.
pub fn trace(path: &Vec<Bounce>, depth: u8) -> (result: Option<Radiance>)
    ensures
        match result {
            Some(r) => radiance(path@, depth as nat) == Some((r.terminal, r.bounces as nat)),
            None => radiance(path@, depth as nat) is None,
        },
{
    let mut level: u8 = depth;
    let mut i: usize = 0;
    proof {
        assert(path@.subrange(0, path.len() as int) =~= path@);
    }
    while i < path.len()
        invariant
            i <= path.len(),
            level as int == depth + i,
            radiance(path@, depth as nat) == after(
                i as nat,
                radiance(path@.subrange(i as int, path.len() as int), level as nat),
            ),
        decreases path.len() - i,
    {
        let ghost rest = path@.subrange(i as int, path.len() as int);
        proof {
            assert(rest.len() > 0);
            assert(rest[0] == path@[i as int]);
            assert(rest.drop_first() =~= path@.subrange(i + 1, path.len() as int));
        }
        let bounce = path[i];
        let hit = match bounce {
            Bounce::Miss => false,
            _ => true,
        };
        match color(hit, level) {
            Action::Sky => {
                return Some(Radiance { terminal: Terminal::Sky, bounces: i });
            },
            Action::Black => {
                return Some(Radiance { terminal: Terminal::Black, bounces: i });
            },
            Action::Scatter(next) => {
                match bounce {
                    Bounce::Scattered => {
                        level = next;
                        i = i + 1;
                    },
                    _ => {
                        return Some(Radiance { terminal: Terminal::Black, bounces: i });
                    },
                }
            },
        }
    }
    proof {
        assert(path@.subrange(i as int, path.len() as int).len() == 0);
    }
    None
}

/// A ray that strikes nothing has the sky's colour, whatever its depth: in a
/// scene without surfaces every path is the sky, with no attenuation.
pub proof fn empty_scene_is_sky(path: Seq<Bounce>, depth: nat)
    requires
        path.len() > 0,
        path[0] == Bounce::Miss,
    ensures
        radiance(path, depth) == Some((Terminal::Sky, 0nat)),
{
}

/// No path is followed past the depth limit: a path traced from `depth`
/// passes at most `MAX_DEPTH - depth` surfaces, and none from the limit on.
pub proof fn recursion_is_bounded(path: Seq<Bounce>, depth: nat)
    ensures
        radiance(path, depth) matches Some((_, bounces)) ==> if depth < MAX_DEPTH {
            depth + bounces <= MAX_DEPTH
        } else {
            bounces == 0
        },
    decreases path.len(),
{
    if path.len() > 0 && path[0] == Bounce::Scattered && depth < MAX_DEPTH {
        recursion_is_bounded(path.drop_first(), depth + 1);
    }
}

/// Between surfaces that scatter every ray (mirrors that face each other) a
/// path traced from within the limit ends black exactly at the depth limit,
/// however long it could go on.
pub proof fn endless_scattering_ends_black(path: Seq<Bounce>, depth: nat)
    requires
        depth <= MAX_DEPTH,
        forall|i: int| 0 <= i < path.len() ==> path[i] == Bounce::Scattered,
        depth + path.len() > MAX_DEPTH,
    ensures
        radiance(path, depth) == Some((Terminal::Black, (MAX_DEPTH - depth) as nat)),
    decreases path.len(),
{
    if depth < MAX_DEPTH {
        let rest = path.drop_first();
        assert(forall|i: int| 0 <= i < rest.len() ==> rest[i] == path[i + 1]);
        endless_scattering_ends_black(rest, depth + 1);
    }
}

} // verus!
