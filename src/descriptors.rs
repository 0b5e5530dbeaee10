use vstd::prelude::*;

use crate::push_constant::PUSH_CONSTANT_SIZE;

verus! {

/// The kinds of descriptor the engine binds.
#[derive(Clone, Copy, Debug, PartialEq, Eq, Structural)]
pub enum DescriptorKind {
    CombinedImageSampler,
    StorageImage,
}

/// The shader stages a binding or push-constant range is visible to.
#[derive(Clone, Copy, Debug, PartialEq, Eq, Structural)]
pub enum StageVisibility {
    Fragment,
    Compute,
    AllGraphics,
}

/// One binding of a descriptor-set layout.
#[derive(Clone, Copy, Debug, PartialEq, Eq, Structural)]
pub struct LayoutBinding {
    pub binding: u32,
    pub kind: DescriptorKind,
    pub count: u32,
    pub stage: StageVisibility,
}

/// Number of images in the first set of each pipeline.
pub const SET_IMAGES: u32 = 5;

/// The first set of a pipeline: five images at bindings 0 to 4, one each. The
/// graphics pipeline samples them; the compute pipeline writes them as storage
/// images.
pub open spec fn image_set_of(kind: DescriptorKind, stage: StageVisibility) -> Seq<LayoutBinding> {
    Seq::new(SET_IMAGES as nat, |i: int| LayoutBinding { binding: i as u32, kind, count: 1, stage })
}

fn image_set(kind: DescriptorKind, stage: StageVisibility) -> (r: Vec<LayoutBinding>)
    ensures
        r@ == image_set_of(kind, stage),
{
    let mut r: Vec<LayoutBinding> = Vec::new();
    let mut i: u32 = 0;
    while i < SET_IMAGES
        invariant
            0 <= i <= SET_IMAGES,
            r@ == Seq::new(i as nat, |k: int| LayoutBinding { binding: k as u32, kind, count: 1, stage }),
        decreases SET_IMAGES - i,
    {
        r.push(LayoutBinding { binding: i, kind, count: 1, stage });
        i = i + 1;
        assert(r@ =~= Seq::new(i as nat, |k: int| LayoutBinding { binding: k as u32, kind, count: 1, stage }));
    }
    r
}

/// The second set of a pipeline: the spectrum texture, sampled at binding 0.
pub open spec fn spectrum_set_of(stage: StageVisibility) -> Seq<LayoutBinding> {
    seq![
        LayoutBinding {
            binding: 0,
            kind: DescriptorKind::CombinedImageSampler,
            count: 1,
            stage,
        },
    ]
}

/// The two set layouts of the graphics pipeline.
pub open spec fn graphics_layouts_of() -> Seq<Seq<LayoutBinding>> {
    seq![
        image_set_of(DescriptorKind::CombinedImageSampler, StageVisibility::Fragment),
        spectrum_set_of(StageVisibility::Fragment),
    ]
}

/// The two set layouts of the compute pipeline.
pub open spec fn compute_layouts_of() -> Seq<Seq<LayoutBinding>> {
    seq![
        image_set_of(DescriptorKind::StorageImage, StageVisibility::Compute),
        spectrum_set_of(StageVisibility::Compute),
    ]
}

fn set_layout(binding: LayoutBinding) -> (r: Vec<LayoutBinding>)
    ensures
        r@ == seq![binding],
{
    let r = vec![binding];
    assert(r@ =~= seq![binding]);
    r
}

/// Describes the descriptor-set layouts of the graphics pipeline.
pub fn graphics_set_layouts() -> (r: Vec<Vec<LayoutBinding>>)
    ensures
        r@.map_values(|s: Vec<LayoutBinding>| s@) == graphics_layouts_of(),
{
    let images = image_set(DescriptorKind::CombinedImageSampler, StageVisibility::Fragment);
    let spectrum = set_layout(
        LayoutBinding {
            binding: 0,
            kind: DescriptorKind::CombinedImageSampler,
            count: 1,
            stage: StageVisibility::Fragment,
        },
    );
    let r = vec![images, spectrum];
    assert(r@.map_values(|s: Vec<LayoutBinding>| s@) =~= graphics_layouts_of());
    r
}

/// Describes the descriptor-set layouts of the compute pipeline.
pub fn compute_set_layouts() -> (r: Vec<Vec<LayoutBinding>>)
    ensures
        r@.map_values(|s: Vec<LayoutBinding>| s@) == compute_layouts_of(),
{
    let images = image_set(DescriptorKind::StorageImage, StageVisibility::Compute);
    let spectrum = set_layout(
        LayoutBinding {
            binding: 0,
            kind: DescriptorKind::CombinedImageSampler,
            count: 1,
            stage: StageVisibility::Compute,
        },
    );
    let r = vec![images, spectrum];
    assert(r@.map_values(|s: Vec<LayoutBinding>| s@) =~= compute_layouts_of());
    r
}

/// The push-constant range of a pipeline layout: the whole block, from
/// offset 0.
#[derive(Clone, Copy, Debug, PartialEq, Eq, Structural)]
pub struct PushConstantRange {
    pub stage: StageVisibility,
    pub offset: u32,
    pub size: u32,
}

/// The push-constant range for a pipeline of the given stages.
pub fn push_constant_range(stage: StageVisibility) -> (r: PushConstantRange)
    ensures
        r == (PushConstantRange { stage, offset: 0, size: PUSH_CONSTANT_SIZE as u32 }),
{
    PushConstantRange { stage, offset: 0, size: PUSH_CONSTANT_SIZE as u32 }
}

/// The descriptors a pool provides, per kind.
#[derive(Clone, Copy, Debug, PartialEq, Eq, Structural)]
pub struct PoolSize {
    pub kind: DescriptorKind,
    pub count: u32,
}

/// The sets a layout group needs of each descriptor kind.
pub open spec fn demand(layouts: Seq<Seq<LayoutBinding>>, kind: DescriptorKind) -> int
    decreases layouts.len(),
{
    if layouts.len() == 0 {
        0
    } else {
        demand(layouts.drop_last(), kind) + set_demand(layouts.last(), kind)
    }
}

/// The descriptors of a kind that one set layout needs.
pub open spec fn set_demand(set: Seq<LayoutBinding>, kind: DescriptorKind) -> int
    decreases set.len(),
{
    if set.len() == 0 {
        0
    } else {
        set_demand(set.drop_last(), kind) + if set.last().kind == kind {
            set.last().count as int
        } else {
            0
        }
    }
}

/// The descriptor pool: room for four sets, 24 sampled and 16 storage images.
pub open spec fn pool_sizes_of() -> Seq<PoolSize> {
    seq![
        PoolSize { kind: DescriptorKind::CombinedImageSampler, count: 24 },
        PoolSize { kind: DescriptorKind::StorageImage, count: 16 },
    ]
}

/// Maximum number of sets allocated from the pool.
pub const POOL_MAX_SETS: u32 = 4;

/// Describes the descriptor pool.
pub fn pool_sizes() -> (r: Vec<PoolSize>)
    ensures
        r@ == pool_sizes_of(),
{
    let r = vec![
        PoolSize { kind: DescriptorKind::CombinedImageSampler, count: 24 },
        PoolSize { kind: DescriptorKind::StorageImage, count: 16 },
    ];
    assert(r@ =~= pool_sizes_of());
    r
}

proof fn lemma_set_demands(kind: DescriptorKind, stage: StageVisibility)
    ensures
        set_demand(image_set_of(kind, stage), kind) == SET_IMAGES,
        forall|other: DescriptorKind| other != kind ==> set_demand(image_set_of(kind, stage), other) == 0,
{
    let s = image_set_of(kind, stage);
    reveal_with_fuel(set_demand, 6);
    assert(s.drop_last() =~= s.subrange(0, 4));
    assert(s.drop_last().drop_last() =~= s.subrange(0, 3));
    assert(s.drop_last().drop_last().drop_last() =~= s.subrange(0, 2));
    assert(s.drop_last().drop_last().drop_last().drop_last() =~= s.subrange(0, 1));
    assert(s.drop_last().drop_last().drop_last().drop_last().drop_last() =~= Seq::<LayoutBinding>::empty());
}

proof fn lemma_spectrum_demands(stage: StageVisibility)
    ensures
        set_demand(spectrum_set_of(stage), DescriptorKind::CombinedImageSampler) == 1,
        set_demand(spectrum_set_of(stage), DescriptorKind::StorageImage) == 0,
{
    reveal_with_fuel(set_demand, 2);
    assert(spectrum_set_of(stage).drop_last() =~= Seq::<LayoutBinding>::empty());
}

/// The pool holds the sets of both pipelines at once.
pub proof fn lemma_pool_fits_both_pipelines()
    ensures
        graphics_layouts_of().len() + compute_layouts_of().len() <= POOL_MAX_SETS,
        demand(graphics_layouts_of(), DescriptorKind::CombinedImageSampler) + demand(
            compute_layouts_of(),
            DescriptorKind::CombinedImageSampler,
        ) <= pool_sizes_of()[0].count,
        demand(graphics_layouts_of(), DescriptorKind::StorageImage) + demand(
            compute_layouts_of(),
            DescriptorKind::StorageImage,
        ) <= pool_sizes_of()[1].count,
{
    lemma_set_demands(DescriptorKind::CombinedImageSampler, StageVisibility::Fragment);
    lemma_set_demands(DescriptorKind::StorageImage, StageVisibility::Compute);
    lemma_spectrum_demands(StageVisibility::Fragment);
    lemma_spectrum_demands(StageVisibility::Compute);
    reveal_with_fuel(demand, 3);
    let g = graphics_layouts_of();
    let c = compute_layouts_of();
    assert(g.drop_last() =~= seq![g[0]]);
    assert(c.drop_last() =~= seq![c[0]]);
    assert(g.drop_last().drop_last() =~= Seq::<Seq<LayoutBinding>>::empty());
    assert(c.drop_last().drop_last() =~= Seq::<Seq<LayoutBinding>>::empty());
}

} // verus!
