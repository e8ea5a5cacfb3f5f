use vstd::prelude::*;

verus! {

/// A renderable entity as the scheduler hands it to the render pass: its mesh,
/// and the color and texture it may carry.
#[derive(Debug)]
pub struct Renderable<M, T, C> {
    pub mesh: M,
    pub color: Option<C>,
    pub texture: Option<T>,
}

/// What one indexed draw call binds.
#[derive(Debug)]
pub struct DrawCall<M, T, C> {
    pub mesh: M,
    pub texture: Option<T>,
    pub color: C,
}

/// The draw call for `entity`: its own mesh and texture, and its color or
/// `white` where it has none.
pub open spec fn draw_call_for<M, T, C>(entity: Renderable<M, T, C>, white: C) -> DrawCall<
    M,
    T,
    C,
> {
    DrawCall {
        mesh: entity.mesh,
        texture: entity.texture,
        color: match entity.color {
            Some(c) => c,
            None => white,
        },
    }
}

/// One draw call per entity, in the order given.
pub fn plan_draw_calls<M: Copy, T: Copy, C: Copy>(
    entities: &Vec<Renderable<M, T, C>>,
    white: C,
) -> (r: Vec<DrawCall<M, T, C>>)
    ensures
        r@.len() == entities@.len(),
        forall|i: int| 0 <= i < r@.len() ==> #[trigger] r@[i] == draw_call_for(entities@[i], white),
{
    let mut calls: Vec<DrawCall<M, T, C>> = Vec::new();
    let mut i: usize = 0;
    while i < entities.len()
        invariant
            i <= entities@.len(),
            calls@.len() == i,
            forall|j: int| 0 <= j < i ==> #[trigger] calls@[j] == draw_call_for(entities@[j], white),
        decreases entities@.len() - i,
    {
        let color = match entities[i].color {
            Some(c) => c,
            None => white,
        };
        calls.push(DrawCall { mesh: entities[i].mesh, texture: entities[i].texture, color });
        i = i + 1;
    }
    calls
}

/// The projection that every draw call of a frame shares: that of the first
/// camera, or `fallback` where there is none.
pub fn select_projection<P: Copy>(cameras: &Vec<P>, fallback: P) -> (r: P)
    ensures
        cameras@.len() > 0 ==> r == cameras@[0],
        cameras@.len() == 0 ==> r == fallback,
{
    if cameras.len() > 0 {
        cameras[0]
    } else {
        fallback
    }
}

} // verus!
