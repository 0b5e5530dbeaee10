use vstd::prelude::*;

use crate::fft::FFT_SIZE;
use crate::geometry::Extent;

verus! {

/// A viewport in whole pixels. The engine flips it vertically (its origin is
/// the bottom edge and its height is negative) so that the shaders see y
/// growing upwards.
#[derive(Clone, Copy, Debug, PartialEq, Eq, Structural)]
pub struct Viewport {
    pub x: i64,
    pub y: i64,
    pub width: i64,
    pub height: i64,
    pub min_depth: i64,
    pub max_depth: i64,
}

/// The rectangle that drawing is clipped to.
#[derive(Clone, Copy, Debug, PartialEq, Eq, Structural)]
pub struct Scissor {
    pub x: i32,
    pub y: i32,
    pub extent: Extent,
}

/// The flipped viewport over an output of size `e`.
pub open spec fn viewport_of(e: Extent) -> Viewport {
    Viewport {
        x: 0,
        y: e.height as i64,
        width: e.width as i64,
        height: (-(e.height as int)) as i64,
        min_depth: 0,
        max_depth: 1,
    }
}

/// The scissor over an output of size `e`.
pub open spec fn scissor_of(e: Extent) -> Scissor {
    Scissor { x: 0, y: 0, extent: e }
}

/// The vertically flipped viewport that covers an output of size `e`.
pub fn flipped_viewport(e: Extent) -> (r: Viewport)
    ensures
        r == viewport_of(e),
{
    Viewport {
        x: 0,
        y: e.height as i64,
        width: e.width as i64,
        height: -(e.height as i64),
        min_depth: 0,
        max_depth: 1,
    }
}

/// The scissor that covers an output of size `e`.
pub fn full_scissor(e: Extent) -> (r: Scissor)
    ensures
        r == scissor_of(e),
{
    Scissor { x: 0, y: 0, extent: e }
}

/// Texel formats of the engine's textures.
#[derive(Clone, Copy, Debug, PartialEq, Eq, Structural)]
pub enum TexelFormat {
    Rgba8Unorm,
    R32Float,
}

/// The five screen-sized textures, in binding order.
#[derive(Clone, Copy, Debug, PartialEq, Eq, Structural)]
pub enum ScreenTexture {
    PreviousFrame,
    Generic,
    Dummy,
    Float1,
    Float2,
}

/// Number of screen-sized textures.
pub const SCREEN_TEXTURES: usize = 5;

/// The screen texture at binding `i`.
pub open spec fn screen_texture_at(i: int) -> ScreenTexture {
    if i == 0 {
        ScreenTexture::PreviousFrame
    } else if i == 1 {
        ScreenTexture::Generic
    } else if i == 2 {
        ScreenTexture::Dummy
    } else if i == 3 {
        ScreenTexture::Float1
    } else {
        ScreenTexture::Float2
    }
}

/// The texel format of a screen texture.
pub open spec fn format_of(t: ScreenTexture) -> TexelFormat {
    match t {
        ScreenTexture::Float1 | ScreenTexture::Float2 => TexelFormat::R32Float,
        _ => TexelFormat::Rgba8Unorm,
    }
}

/// The screen textures in binding order.
pub fn screen_textures() -> (r: Vec<ScreenTexture>)
    ensures
        r@ == Seq::new(SCREEN_TEXTURES as nat, |i: int| screen_texture_at(i)),
{
    let r = vec![
        ScreenTexture::PreviousFrame,
        ScreenTexture::Generic,
        ScreenTexture::Dummy,
        ScreenTexture::Float1,
        ScreenTexture::Float2,
    ];
    assert(r@ =~= Seq::new(SCREEN_TEXTURES as nat, |i: int| screen_texture_at(i)));
    r
}

/// The format a screen texture is created with.
pub fn texture_format(t: ScreenTexture) -> (r: TexelFormat)
    ensures
        r == format_of(t),
{
    match t {
        ScreenTexture::Float1 | ScreenTexture::Float2 => TexelFormat::R32Float,
        _ => TexelFormat::Rgba8Unorm,
    }
}

/// One incarnation of a device texture: a texture that is destroyed and
/// created again gets a new incarnation number.
#[derive(Clone, Copy, Debug, PartialEq, Eq, Structural)]
pub struct TextureState {
    pub format: TexelFormat,
    pub extent: Extent,
    pub incarnation: u64,
}

/// The extent of the one-dimensional spectrum texture.
pub open spec fn fft_extent() -> Extent {
    Extent { width: FFT_SIZE as u32, height: 1 }
}

/// The size-dependent state of the engine, as the descriptor sets see it.
pub struct ScreenModel {
    pub extent: Extent,
    pub viewport: Viewport,
    pub scissor: Scissor,
    pub textures: Seq<TextureState>,
    pub fft: TextureState,
    /// Incarnations that binding 0 of the graphics set references.
    pub graphics_binding: Seq<u64>,
    /// Incarnations that binding 0 of the compute set references.
    pub compute_binding: Seq<u64>,
    /// Incarnation that the spectrum binding of both sets references.
    pub fft_binding: u64,
}

/// The textures, the bound resources and the geometry agree with the
/// output size, and every binding references a live texture.
pub open spec fn consistent(m: ScreenModel) -> bool {
    &&& m.textures.len() == SCREEN_TEXTURES
    &&& m.viewport == viewport_of(m.extent)
    &&& m.scissor == scissor_of(m.extent)
    &&& forall|i: int|
        0 <= i < SCREEN_TEXTURES ==> (#[trigger] m.textures[i]).format == format_of(
            screen_texture_at(i),
        ) && m.textures[i].extent == m.extent
    &&& m.fft.format == TexelFormat::R32Float
    &&& m.fft.extent == fft_extent()
    &&& m.graphics_binding == m.textures.map_values(|t: TextureState| t.incarnation)
    &&& m.compute_binding == m.textures.map_values(|t: TextureState| t.incarnation)
    &&& m.fft_binding == m.fft.incarnation
}

/// The geometry of a model: what a resize to the same size must not change.
pub open spec fn geometry(m: ScreenModel) -> (Extent, Viewport, Scissor, Seq<TexelFormat>, Seq<Extent>, TextureState) {
    (
        m.extent,
        m.viewport,
        m.scissor,
        m.textures.map_values(|t: TextureState| t.format),
        m.textures.map_values(|t: TextureState| t.extent),
        m.fft,
    )
}

/// The state after a resize to `e`: every screen texture recreated at `e`
/// under the incarnation numbers from `first` on, both descriptor sets
/// rewritten to them, the spectrum texture left as it was.
pub open spec fn resized(m: ScreenModel, e: Extent, first: u64) -> ScreenModel {
    let textures = Seq::new(
        SCREEN_TEXTURES as nat,
        |i: int|
            TextureState {
                format: format_of(screen_texture_at(i)),
                extent: e,
                incarnation: first.wrapping_add(i as u64),
            },
    );
    ScreenModel {
        extent: e,
        viewport: viewport_of(e),
        scissor: scissor_of(e),
        textures,
        fft: m.fft,
        graphics_binding: textures.map_values(|t: TextureState| t.incarnation),
        compute_binding: textures.map_values(|t: TextureState| t.incarnation),
        fft_binding: m.fft_binding,
    }
}

/// Resizing twice to the same size gives the same geometry as resizing once,
/// and after each resize every descriptor binding references a live texture.
pub proof fn lemma_resize_idempotent(m: ScreenModel, e: Extent, first: u64, second: u64)
    requires
        consistent(m),
    ensures
        consistent(resized(m, e, first)),
        consistent(resized(resized(m, e, first), e, second)),
        geometry(resized(resized(m, e, first), e, second)) == geometry(resized(m, e, first)),
{
    let once = resized(m, e, first);
    let twice = resized(once, e, second);
    assert(geometry(twice).3 =~= geometry(once).3);
    assert(geometry(twice).4 =~= geometry(once).4);
}

/// What a resize asks of the device: the new geometry, the textures to destroy
/// and create again (in this order), and that binding 0 of both descriptor
/// sets is rewritten to them.
#[derive(Debug)]
pub struct ResizePlan {
    pub extent: Extent,
    pub viewport: Viewport,
    pub scissor: Scissor,
    pub recreate: Vec<ScreenTexture>,
}

/// The size-dependent state of the engine.
pub struct ScreenState {
    extent: Extent,
    viewport: Viewport,
    scissor: Scissor,
    textures: Vec<TextureState>,
    fft: TextureState,
    graphics_binding: Vec<u64>,
    compute_binding: Vec<u64>,
    fft_binding: u64,
    next_incarnation: u64,
}

impl ScreenState {
    /// The state as the descriptor sets see it.
    pub closed spec fn model(&self) -> ScreenModel {
        ScreenModel {
            extent: self.extent,
            viewport: self.viewport,
            scissor: self.scissor,
            textures: self.textures@,
            fft: self.fft,
            graphics_binding: self.graphics_binding@,
            compute_binding: self.compute_binding@,
            fft_binding: self.fft_binding,
        }
    }

    /// The incarnation number that the next created texture gets.
    pub closed spec fn next(&self) -> u64 {
        self.next_incarnation
    }

    /// Creates the five textures at the output size and the spectrum texture
    /// (incarnations 0 to 5), and binds them.
    pub fn new(e: Extent) -> (r: ScreenState)
        ensures
            consistent(r.model()),
            r.model().extent == e,
            r.model().fft.incarnation == SCREEN_TEXTURES as u64,
            r.next() == SCREEN_TEXTURES as u64 + 1,
            r.model().textures == Seq::new(
                SCREEN_TEXTURES as nat,
                |i: int|
                    TextureState {
                        format: format_of(screen_texture_at(i)),
                        extent: e,
                        incarnation: i as u64,
                    },
            ),
    {
        let fft = TextureState {
            format: TexelFormat::R32Float,
            extent: Extent { width: FFT_SIZE as u32, height: 1 },
            incarnation: SCREEN_TEXTURES as u64,
        };
        let mut s = ScreenState {
            extent: e,
            viewport: flipped_viewport(e),
            scissor: full_scissor(e),
            textures: Vec::new(),
            fft,
            graphics_binding: Vec::new(),
            compute_binding: Vec::new(),
            fft_binding: SCREEN_TEXTURES as u64,
            next_incarnation: 0,
        };
        s.recreate_textures(e);
        s.next_incarnation = SCREEN_TEXTURES as u64 + 1;
        s
    }

    /// Creates the screen textures again at `e` from the next incarnation
    /// number on, and rebinds them.
    fn recreate_textures(&mut self, e: Extent)
        ensures
            final(self).extent == old(self).extent,
            final(self).viewport == old(self).viewport,
            final(self).scissor == old(self).scissor,
            final(self).fft == old(self).fft,
            final(self).fft_binding == old(self).fft_binding,
            final(self).next_incarnation == old(self).next_incarnation.wrapping_add(
                SCREEN_TEXTURES as u64,
            ),
            final(self).textures@ == resized(old(self).model(), e, old(self).next()).textures,
            final(self).graphics_binding@ == resized(
                old(self).model(),
                e,
                old(self).next(),
            ).graphics_binding,
            final(self).compute_binding@ == resized(
                old(self).model(),
                e,
                old(self).next(),
            ).compute_binding,
    {
        let first = self.next_incarnation;
        let kinds = screen_textures();
        let mut textures: Vec<TextureState> = Vec::new();
        let mut bound: Vec<u64> = Vec::new();
        let ghost target = resized(old(self).model(), e, first).textures;
        let mut i: usize = 0;
        while i < SCREEN_TEXTURES
            invariant
                0 <= i <= SCREEN_TEXTURES,
                kinds@ == Seq::new(SCREEN_TEXTURES as nat, |k: int| screen_texture_at(k)),
                target == resized(old(self).model(), e, first).textures,
                textures@ == target.subrange(0, i as int),
                bound@ == target.subrange(0, i as int).map_values(
                    |t: TextureState| t.incarnation,
                ),
            decreases SCREEN_TEXTURES - i,
        {
            let t = TextureState {
                format: texture_format(kinds[i]),
                extent: e,
                incarnation: first.wrapping_add(i as u64),
            };
            textures.push(t);
            bound.push(t.incarnation);
            i = i + 1;
            assert(textures@ =~= target.subrange(0, i as int));
            assert(bound@ =~= target.subrange(0, i as int).map_values(
                |t: TextureState| t.incarnation,
            ));
        }
        assert(target.subrange(0, SCREEN_TEXTURES as int) =~= target);
        self.textures = textures;
        self.compute_binding = copy_words(&bound);
        self.graphics_binding = bound;
        self.next_incarnation = first.wrapping_add(SCREEN_TEXTURES as u64);
    }

    /// Brings the engine to a new output size: viewport and scissor follow it,
    /// the five screen textures are destroyed and created again at that size,
    /// and both descriptor sets are rewritten to them. The spectrum texture
    /// is left alone. Nothing guards against a size equal to the current one.
    pub fn resize(&mut self, e: Extent) -> (plan: ResizePlan)
        ensures
            final(self).model() == resized(old(self).model(), e, old(self).next()),
            final(self).next() == old(self).next().wrapping_add(SCREEN_TEXTURES as u64),
            plan.extent == e,
            plan.viewport == viewport_of(e),
            plan.scissor == scissor_of(e),
            plan.recreate@ == Seq::new(SCREEN_TEXTURES as nat, |i: int| screen_texture_at(i)),
    {
        self.extent = e;
        self.viewport = flipped_viewport(e);
        self.scissor = full_scissor(e);
        self.recreate_textures(e);
        ResizePlan {
            extent: e,
            viewport: self.viewport,
            scissor: self.scissor,
            recreate: screen_textures(),
        }
    }

    /// The output size.
    pub fn extent(&self) -> (r: Extent)
        ensures
            r == self.model().extent,
    {
        self.extent
    }

    /// The viewport of the graphics pass.
    pub fn viewport(&self) -> (r: Viewport)
        ensures
            r == self.model().viewport,
    {
        self.viewport
    }

    /// The scissor of the graphics pass.
    pub fn scissor(&self) -> (r: Scissor)
        ensures
            r == self.model().scissor,
    {
        self.scissor
    }
}

/// A copy of `v`.
fn copy_words(v: &Vec<u64>) -> (r: Vec<u64>)
    ensures
        r@ == v@,
{
    let mut r: Vec<u64> = Vec::new();
    let mut i: usize = 0;
    while i < v.len()
        invariant
            0 <= i <= v@.len(),
            r@ == v@.subrange(0, i as int),
        decreases v@.len() - i,
    {
        r.push(v[i]);
        i = i + 1;
        assert(r@ =~= v@.subrange(0, i as int));
    }
    assert(r@ =~= v@);
    r
}

} // verus!
