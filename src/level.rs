//! The scenery of a level, and clearing it when the level ends.
use vstd::prelude::*;

verus! {

/// Marks a scene entity as part of the level's scenery.
#[derive(Clone, Copy, Debug, PartialEq, Eq, Structural)]
pub struct Level;

/// An entity of the scene: its id, and whether it carries the level marker.
#[derive(Clone, Copy, Debug, PartialEq, Eq, Structural)]
pub struct SceneEntity {
    pub id: u64,
    pub level: Option<Level>,
}

/// Despawns the level's scenery: every entity that carries the level marker
/// leaves the scene, every other one stays, in its order.
pub fn rm_basic_scene(scene: &mut Vec<SceneEntity>)
    ensures
        final(scene)@ == old(scene)@.filter(|e: SceneEntity| e.level is None),
{
    let ghost start = scene@;
    let mut kept: Vec<SceneEntity> = Vec::new();
    let mut i: usize = 0;
    while i < scene.len()
        invariant
            scene@ == start,
            i <= scene.len(),
            kept@ == start.subrange(0, i as int).filter(|e: SceneEntity| e.level is None),
        decreases scene.len() - i,
    {
        let e = scene[i];
        proof {
            reveal(Seq::filter);
            assert(start.subrange(0, i + 1 as int).drop_last() =~= start.subrange(0, i as int));
        }
        if e.level.is_none() {
            kept.push(e);
        }
        i = i + 1;
    }
    assert(start.subrange(0, i as int) =~= start);
    *scene = kept;
}

} // verus!
