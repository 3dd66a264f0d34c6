use vstd::prelude::*;

use crate::redraw::RedrawFlag;

verus! {

/// The scale factor of one pixel per point, in millionths.
pub const UNIT_SCALE_MICROS: u32 = 1_000_000;

/// The host's pixels-per-point factor, in millionths (`1_000_000` is one pixel per point).
#[derive(Clone, Copy, Debug, PartialEq, Eq, Structural)]
pub struct DpiScale {
    pub micros: u32,
}

impl DpiScale {
    /// A scale of `micros` millionths of a pixel per point.
    pub fn from_micros(micros: u32) -> (r: DpiScale)
        ensures
            r.micros == micros,
    {
        DpiScale { micros }
    }
}

/// A size in UI points, already rounded down to whole points.
#[derive(Clone, Copy, Debug, PartialEq, Eq, Structural)]
pub struct LogicalSize {
    pub width: u32,
    pub height: u32,
}

/// A size in physical pixels.
#[derive(Clone, Copy, Debug, PartialEq, Eq, Structural)]
pub struct PixelSize {
    pub width: u64,
    pub height: u64,
}

/// How the host samples the map's texture when it paints it.
#[derive(Clone, Copy, Debug, PartialEq, Eq, Structural)]
pub enum FilterMode {
    Nearest,
    Linear,
}

/// A new render target to allocate and register with the host renderer.
#[derive(Clone, Copy, Debug, PartialEq, Eq, Structural)]
pub struct TextureRequest {
    pub size: PixelSize,
    pub filter: FilterMode,
}

/// Linear sampling above one pixel per point, nearest-neighbour at or below it.
pub open spec fn filter_for(scale: DpiScale) -> FilterMode {
    if scale.micros > UNIT_SCALE_MICROS {
        FilterMode::Linear
    } else {
        FilterMode::Nearest
    }
}

/// Whole pixels covered by `points` points at `scale`.
pub open spec fn pixels_of(points: u32, scale: DpiScale) -> u64 {
    ((points as int * scale.micros as int) / UNIT_SCALE_MICROS as int) as u64
}

pub open spec fn physical_of(logical: LogicalSize, scale: DpiScale) -> PixelSize {
    PixelSize { width: pixels_of(logical.width, scale), height: pixels_of(logical.height, scale) }
}

/// Picks the texture filter for a DPI scale.
pub fn select_filter(scale: DpiScale) -> (r: FilterMode)
    ensures
        r == filter_for(scale),
{
    if scale.micros > UNIT_SCALE_MICROS {
        FilterMode::Linear
    } else {
        FilterMode::Nearest
    }
}

/// The physical pixel size of a logical size at a DPI scale, rounded down.
pub fn physical_size(logical: LogicalSize, scale: DpiScale) -> (r: PixelSize)
    ensures
        r == physical_of(logical, scale),
{
    let lw: u64 = logical.width as u64;
    let lh: u64 = logical.height as u64;
    let m: u64 = scale.micros as u64;
    proof {
        assert(lw * m <= 0xffff_ffff_u64 * 0xffff_ffff_u64) by (nonlinear_arith)
            requires
                lw <= 0xffff_ffff_u64,
                m <= 0xffff_ffff_u64,
        ;
        assert(lh * m <= 0xffff_ffff_u64 * 0xffff_ffff_u64) by (nonlinear_arith)
            requires
                lh <= 0xffff_ffff_u64,
                m <= 0xffff_ffff_u64,
        ;
    }
    let w: u64 = lw * m / (UNIT_SCALE_MICROS as u64);
    let h: u64 = lh * m / (UNIT_SCALE_MICROS as u64);
    PixelSize { width: w, height: h }
}

/// The surface's state as the contracts speak of it: the physical size of the current
/// render target, and whether a real size has been measured yet.
#[derive(Clone, Copy, Debug, PartialEq, Eq, Structural)]
pub struct SurfaceModel {
    pub texture: PixelSize,
    pub ready: bool,
}

/// One frame's measurement of the region the map is painted into.
#[derive(Clone, Copy, Debug, PartialEq, Eq, Structural)]
pub struct FrameMeasure {
    pub logical: LogicalSize,
    pub scale: DpiScale,
    /// A drag is in progress or the pointer hovers the region.
    pub interacting: bool,
}

/// What the frame thread is to do this frame, in this order: forward host input to
/// the map, replace the render target (then mark the map dirty and push the scale into
/// its view), and start loading layer data.
#[derive(Clone, Copy, Debug, PartialEq, Eq, Structural)]
pub struct FramePlan {
    pub forward_input: bool,
    pub resize: Option<TextureRequest>,
    pub load_layers: bool,
}

/// The 1x1 render target that stands in until the first real measurement.
pub open spec fn placeholder_size() -> PixelSize {
    PixelSize { width: 1, height: 1 }
}

pub open spec fn initial_surface() -> SurfaceModel {
    SurfaceModel { texture: placeholder_size(), ready: false }
}

/// A region with no area gets no render target of its own.
pub open spec fn is_blank(size: PixelSize) -> bool {
    size.width == 0 || size.height == 0
}

/// A new render target exactly when the requested size differs from the current one
/// and has an area.
pub open spec fn resize_step(m: SurfaceModel, size: PixelSize, scale: DpiScale) -> (
    SurfaceModel,
    Option<TextureRequest>,
) {
    if size == m.texture || is_blank(size) {
        (m, None)
    } else {
        (
            SurfaceModel { texture: size, ready: m.ready },
            Some(TextureRequest { size, filter: filter_for(scale) }),
        )
    }
}

/// One frame: input is forwarded while the user interacts; the render target follows
/// the measured physical size; the first resize makes the surface ready, and layer data
/// is loaded on every frame from then on.
pub open spec fn frame_step(m: SurfaceModel, f: FrameMeasure) -> (SurfaceModel, FramePlan) {
    let (sized, request) = resize_step(m, physical_of(f.logical, f.scale), f.scale);
    let after = SurfaceModel { texture: sized.texture, ready: m.ready || request is Some };
    (after, FramePlan { forward_input: f.interacting, resize: request, load_layers: after.ready })
}

/// The surface after the frames `fs`, one after another, starting from `m`.
pub open spec fn surface_after(m: SurfaceModel, fs: Seq<FrameMeasure>) -> SurfaceModel
    decreases fs.len(),
{
    if fs.len() == 0 {
        m
    } else {
        frame_step(surface_after(m, fs.drop_last()), fs.last()).0
    }
}

/// The plan of frame `i` of `fs`, starting from `m`.
pub open spec fn plan_at(m: SurfaceModel, fs: Seq<FrameMeasure>, i: int) -> FramePlan {
    frame_step(surface_after(m, fs.take(i)), fs[i]).1
}

/// The bridge between the map's render target and the host's frame loop.
pub struct SurfaceBridge {
    texture: PixelSize,
    ready: bool,
}

impl View for SurfaceBridge {
    type V = SurfaceModel;

    closed spec fn view(&self) -> SurfaceModel {
        SurfaceModel { texture: self.texture, ready: self.ready }
    }
}

impl SurfaceBridge {
    /// A bridge with the placeholder render target, not ready.
    pub fn new() -> (r: SurfaceBridge)
        ensures
            r@ == initial_surface(),
    {
        SurfaceBridge { texture: PixelSize { width: 1, height: 1 }, ready: false }
    }

    /// The physical size of the current render target.
    pub fn texture_size(&self) -> (r: PixelSize)
        ensures
            r == self@.texture,
    {
        self.texture
    }

    /// Whether a real size has been measured.
    pub fn is_ready(&self) -> (r: bool)
        ensures
            r == self@.ready,
    {
        self.ready
    }

    /// Asks for a new render target of `size` when it differs from the current one,
    /// with the filter that `scale` calls for; the caller allocates and registers it,
    /// drops the old handle, and marks the map dirty. Same size, or no area: nothing.
    pub fn ensure_size(&mut self, size: PixelSize, scale: DpiScale) -> (r: Option<TextureRequest>)
        ensures
            (final(self)@, r) == resize_step(old(self)@, size, scale),
    {
        if size == self.texture || size.width == 0 || size.height == 0 {
            None
        } else {
            self.texture = size;
            Some(TextureRequest { size, filter: select_filter(scale) })
        }
    }

    /// Decides one frame from its measurement.
    pub fn plan_frame(&mut self, f: FrameMeasure) -> (plan: FramePlan)
        ensures
            (final(self)@, plan) == frame_step(old(self)@, f),
    {
        let physical = physical_size(f.logical, f.scale);
        let resize = self.ensure_size(physical, f.scale);
        if resize.is_some() {
            self.ready = true;
        }
        FramePlan { forward_input: f.interacting, resize, load_layers: self.ready }
    }

    /// Reads and clears the dirty flag once the surface is ready, and tells whether to
    /// load layers again and render one pass. Before that the flag is left as it is, so
    /// that no work is done against the placeholder and the first real frame draws.
    pub fn take_draw(&self, flag: &RedrawFlag) -> (draw: bool)
        ensures
            !self@.ready ==> !draw,
    {
        if self.ready {
            flag.take_and_clear()
        } else {
            false
        }
    }
}

/// A new render target is registered with nearest-neighbour sampling at a scale of at
/// most one pixel per point, and with linear sampling above it.
pub proof fn lemma_filter_selection(m: SurfaceModel, size: PixelSize, scale: DpiScale)
    ensures
        resize_step(m, size, scale).1 matches Some(req) ==> req.filter == (if scale.micros
            <= UNIT_SCALE_MICROS {
            FilterMode::Nearest
        } else {
            FilterMode::Linear
        }),
{
}

/// Asking twice for the same size allocates at most once: the second request is a no-op
/// that leaves the render target as the first one left it.
pub proof fn lemma_resize_idempotent(m: SurfaceModel, size: PixelSize, scale: DpiScale)
    ensures
        resize_step(resize_step(m, size, scale).0, size, scale).1 is None,
        resize_step(resize_step(m, size, scale).0, size, scale).0 == resize_step(
            m,
            size,
            scale,
        ).0,
{
}

proof fn lemma_unsized_prefix(fs: Seq<FrameMeasure>, k: int)
    requires
        0 <= k <= fs.len(),
        forall|j: int| 0 <= j < k ==> (#[trigger] plan_at(initial_surface(), fs, j)).resize is None,
    ensures
        surface_after(initial_surface(), fs.take(k)) == initial_surface(),
    decreases k,
{
    if k > 0 {
        lemma_unsized_prefix(fs, k - 1);
        assert(fs.take(k).drop_last() =~= fs.take(k - 1));
        assert(fs.take(k).last() == fs[k - 1]);
        assert(plan_at(initial_surface(), fs, k - 1).resize is None);
    } else {
        assert(fs.take(0).len() == 0);
    }
}

/// A fresh surface loads no layer data, and is not ready, on any frame up to the first
/// one that replaces the placeholder render target; that frame and every later one load.
pub proof fn lemma_ready_gating(fs: Seq<FrameMeasure>, i: int)
    requires
        0 <= i < fs.len(),
    ensures
        (forall|j: int| 0 <= j <= i ==> (#[trigger] plan_at(initial_surface(), fs, j)).resize is None)
            ==> !plan_at(initial_surface(), fs, i).load_layers && !surface_after(
            initial_surface(),
            fs.take(i + 1),
        ).ready,
        plan_at(initial_surface(), fs, i).resize is Some ==> plan_at(
            initial_surface(),
            fs,
            i,
        ).load_layers,
        surface_after(initial_surface(), fs.take(i)).ready ==> plan_at(
            initial_surface(),
            fs,
            i,
        ).load_layers,
{
    if forall|j: int| 0 <= j <= i ==> (#[trigger] plan_at(initial_surface(), fs, j)).resize is None {
        lemma_unsized_prefix(fs, i);
        assert(fs.take(i + 1).drop_last() =~= fs.take(i));
        assert(fs.take(i + 1).last() == fs[i]);
        assert(plan_at(initial_surface(), fs, i).resize is None);
    }
}

} // verus!
