//! The order of work in one frame, and the uniforms a scene must find.
use vstd::prelude::*;

verus! {

/// A draw call over the bound vertex array.
#[derive(Clone, Copy, Debug, PartialEq, Eq, Structural)]
pub enum DrawCall {
    /// Triangles from `count` unsigned-int indices of the element buffer.
    Elements { count: u32 },
    /// Triangles from `count` vertices, starting at vertex `first`.
    Arrays { first: u32, count: u32 },
}

/// One step of a frame, in the order the host carries them out.
#[derive(Clone, Copy, Debug, PartialEq, Eq, Structural)]
pub enum FrameCommand {
    /// Clear the color and depth buffers.
    Clear,
    /// Activate texture unit `unit` and bind `texture` to it.
    BindTexture { unit: u32, texture: u32 },
    /// Set the view matrix from the camera.
    SetView,
    /// Set the projection matrix from the camera.
    SetProjection,
    /// Bind the scene's vertex array.
    BindVertexArray,
    /// Set the model matrix of object `object`.
    SetModel { object: usize },
    /// Issue the draw call.
    Draw(DrawCall),
    /// Present the frame.
    Swap,
}

/// Texture `i` of `textures` goes to unit `i`.
pub open spec fn texture_binds(textures: Seq<u32>) -> Seq<FrameCommand> {
    Seq::new(
        textures.len(),
        |i: int| FrameCommand::BindTexture { unit: i as u32, texture: textures[i] },
    )
}

/// For each of the first `n` objects, its model matrix, then the draw.
pub open spec fn object_draws(n: nat, draw: DrawCall) -> Seq<FrameCommand>
    decreases n,
{
    if n == 0 {
        Seq::empty()
    } else {
        object_draws((n - 1) as nat, draw) + seq![
            FrameCommand::SetModel { object: (n - 1) as usize },
            FrameCommand::Draw(draw),
        ]
    }
}

/// A whole frame: clear, bind the textures to their units, set view and
/// projection, bind the vertex array, draw each object, present.
pub open spec fn frame_plan(textures: Seq<u32>, objects: nat, draw: DrawCall) -> Seq<FrameCommand> {
    seq![FrameCommand::Clear] + texture_binds(textures) + seq![
        FrameCommand::SetView,
        FrameCommand::SetProjection,
        FrameCommand::BindVertexArray,
    ] + object_draws(objects, draw) + seq![FrameCommand::Swap]
}

proof fn lemma_object_draws_len(n: nat, draw: DrawCall)
    ensures
        object_draws(n, draw).len() == 2 * n,
    decreases n,
{
    if n > 0 {
        lemma_object_draws_len((n - 1) as nat, draw);
    }
}

/// The steps of one frame that binds `textures` to units `0..` in order and
/// draws `objects` objects with `draw`.
pub fn frame_commands(textures: &Vec<u32>, objects: usize, draw: DrawCall) -> (r: Vec<
    FrameCommand,
>)
    requires
        textures.len() <= u32::MAX,
        5 + textures.len() + 2 * objects <= usize::MAX,
    ensures
        r@ == frame_plan(textures@, objects as nat, draw),
        r@.len() == 5 + textures.len() + 2 * objects,
{
    let mut r: Vec<FrameCommand> = Vec::new();
    r.push(FrameCommand::Clear);
    let mut i: usize = 0;
    while i < textures.len()
        invariant
            i <= textures.len() <= u32::MAX,
            r@ == seq![FrameCommand::Clear] + texture_binds(textures@.subrange(0, i as int)),
        decreases textures.len() - i,
    {
        r.push(FrameCommand::BindTexture { unit: i as u32, texture: textures[i] });
        i = i + 1;
        assert(texture_binds(textures@.subrange(0, i as int)) =~= texture_binds(
            textures@.subrange(0, (i - 1) as int),
        ).push(FrameCommand::BindTexture { unit: (i - 1) as u32, texture: textures@[i - 1] }));
    }
    assert(textures@.subrange(0, i as int) =~= textures@);
    r.push(FrameCommand::SetView);
    r.push(FrameCommand::SetProjection);
    r.push(FrameCommand::BindVertexArray);
    let ghost head = r@;
    let mut k: usize = 0;
    while k < objects
        invariant
            k <= objects,
            5 + textures.len() + 2 * objects <= usize::MAX,
            head.len() == 4 + textures.len(),
            r@ == head + object_draws(k as nat, draw),
        decreases objects - k,
    {
        proof {
            lemma_object_draws_len(k as nat, draw);
        }
        r.push(FrameCommand::SetModel { object: k });
        r.push(FrameCommand::Draw(draw));
        k = k + 1;
        assert(r@ =~= head + object_draws(k as nat, draw));
    }
    r.push(FrameCommand::Swap);
    proof {
        lemma_object_draws_len(objects as nat, draw);
    }
    assert(r@ =~= frame_plan(textures@, objects as nat, draw));
    r
}

/// A uniform's location as GL reports it: a negative one means the program
/// has no such uniform, which a scene treats as an error.
pub fn uniform_location(reported: i32) -> (r: Option<u32>)
    ensures
        r is Some <==> reported >= 0,
        r matches Some(l) ==> l == reported,
{
    if reported >= 0 {
        Some(reported as u32)
    } else {
        None
    }
}

} // verus!
