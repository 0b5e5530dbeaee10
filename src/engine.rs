use vstd::prelude::*;

use crate::capture::{capture_extent_of, capture_format_of, ColorFormat, realloc_of, Realloc,
    remap_needed, ScreenshotCtx, two_step_needed};
use crate::capture_plan::{capture_commands_of, CaptureCommand, CaptureImage, readable_image_of};
use crate::device_info::{api_version, api_version_of, DeviceInfo, DeviceType, vendor_name,
    vendor_name_of, version_name, version_name_of};
use crate::fft::{FftError, FftTexture, FftUpload, upload_commands_of, FFT_SIZE};
use crate::frame::{compute_commands_of, compute_submission, graphics_commands_of,
    graphics_submission, graphics_waits_of, next_frame, next_frame_of, on_acquire, on_present,
    acquire_decision_of, present_decision_of, AcquireDecision, AcquireResult, ComputeCommand,
    GraphicsCommand, PresentDecision, PresentResult, Semaphore, Submission};
use crate::geometry::Extent;
use crate::pipeline::{compute_indices_upto, kind_of, rebuild_outcome, BuildError, Pipeline,
    PipelineKind, PipelineObject, PipelineRegistry, ShaderInfo, ShaderSet, set_kind,
    object_kind};
use crate::push_constant::PushConstant;
use crate::readback::{readback_error, is_packed, layout_rows, CapturedFrame,
    ReadbackError, SubresourceLayout};
use crate::screen::{consistent, fft_extent, format_of, resized, scissor_of, screen_texture_at,
    viewport_of, ResizePlan, ScreenModel, ScreenState, TexelFormat, TextureState,
    SCREEN_TEXTURES};

verus! {

/// Index of the graphics pipeline in the engine's fixed topology.
pub const GRAPHICS_PIPELINE: usize = 0;

/// Index of the compute pipeline in the engine's fixed topology.
pub const COMPUTE_PIPELINE: usize = 1;

/// What one capture asks of the device.
#[derive(Debug)]
pub struct CapturePlan {
    /// Whether the capture images are recreated first, and at what size.
    pub realloc: Realloc,
    /// The commands of the capture command buffer.
    pub commands: Vec<CaptureCommand>,
    /// The image whose memory the host reads afterwards.
    pub readable: CaptureImage,
}

/// What a frame does once the presentable image has been asked for.
#[derive(Debug)]
pub enum FramePlan {
    /// The swapchain is stale: resize, and draw nothing this frame.
    Resize,
    /// An error the engine cannot recover from.
    Fatal { code: i32 },
    /// Run the compute submission, then the graphics submission, then present
    /// the image.
    Draw {
        image_index: u32,
        compute: Submission<ComputeCommand>,
        graphics: Submission<GraphicsCommand>,
    },
}

/// The engine's own state: everything it decides on, apart from the device
/// objects, which `G` (graphics pipeline) and `C` (compute pipeline) stand for.
pub struct PilkaRender<G, C> {
    paused: bool,
    push_constant: PushConstant,
    screen: ScreenState,
    pipelines: PipelineRegistry<G, C>,
    fft: FftTexture,
    device: DeviceInfo,
    screenshot_ctx: ScreenshotCtx,
}

impl<G, C> PilkaRender<G, C> {
    /// Whether the compute pass and the frame feedback run.
    pub closed spec fn is_paused(&self) -> bool {
        self.paused
    }

    /// The push constants of the next frame.
    pub closed spec fn constants(&self) -> PushConstant {
        self.push_constant
    }

    /// The size-dependent state: geometry, screen textures and bindings.
    pub closed spec fn screen(&self) -> ScreenModel {
        self.screen.model()
    }

    /// The incarnation number that the next created screen texture gets.
    pub closed spec fn next_incarnation(&self) -> u64 {
        self.screen.next()
    }

    /// The registered pipelines, in order of registration.
    pub closed spec fn pipelines(&self) -> Seq<Pipeline<G, C>> {
        self.pipelines.pipelines()
    }

    /// The table from shader paths to the pipeline they rebuild.
    pub closed spec fn path_table(&self) -> Seq<(Seq<u8>, usize)> {
        self.pipelines.path_table()
    }

    /// The spectrum the spectrum texture holds once its last upload completes.
    pub closed spec fn spectrum(&self) -> Seq<u32> {
        self.fft.contents()
    }

    /// Whether a spectrum upload may still be running.
    pub closed spec fn spectrum_in_flight(&self) -> bool {
        self.fft.in_flight()
    }

    /// Whether capture takes the two-step path; decided once, at construction.
    pub closed spec fn two_step(&self) -> bool {
        self.screenshot_ctx.two_step()
    }

    /// The size of the capture images.
    pub closed spec fn capture_size(&self) -> Extent {
        self.screenshot_ctx.size()
    }

    /// The format the capture images hold.
    pub closed spec fn capture_dst_format(&self) -> ColorFormat {
        self.screenshot_ctx.dst_format()
    }

    /// The length of the host mapping of the readable capture image.
    pub closed spec fn mapped_len(&self) -> u64 {
        self.screenshot_ctx.mapped_len()
    }

    /// What the engine reports about its device.
    pub closed spec fn device(&self) -> DeviceInfo {
        self.device
    }

    /// The screen state is consistent and the spectrum staging buffer has
    /// the texture's width.
    pub closed spec fn wf(&self) -> bool {
        &&& consistent(self.screen.model())
        &&& self.fft.wf()
    }

    /// The kinds of the registered pipelines.
    pub open spec fn kinds(&self) -> Seq<PipelineKind> {
        self.pipelines().map_values(|p: Pipeline<G, C>| kind_of(p))
    }

    /// The fixed topology: a graphics pipeline at index 0 and a compute
    /// pipeline at index 1.
    pub open spec fn has_topology(&self) -> bool {
        &&& self.pipelines().len() >= 2
        &&& kind_of(self.pipelines()[GRAPHICS_PIPELINE as int]) == PipelineKind::Graphics
        &&& kind_of(self.pipelines()[COMPUTE_PIPELINE as int]) == PipelineKind::Compute
    }

    /// The engine's state for an output of size `extent` on a device whose
    /// capture format has the given feature bits with linear and optimal
    /// tiling. No pipeline is registered yet; capture images are sized for
    /// the output, with a host mapping of `mapped_len` bytes.
    pub fn new(
        extent: Extent,
        device: DeviceInfo,
        surface_format: ColorFormat,
        linear_features: u32,
        optimal_features: u32,
        mapped_len: u64,
        push_constant: PushConstant,
    ) -> (r: Self)
        requires
            extent.height < u32::MAX,
        ensures
            r.wf(),
            !r.is_paused(),
            r.constants() == push_constant,
            consistent(r.screen()),
            r.screen().extent == extent,
            r.screen().viewport == viewport_of(extent),
            r.screen().scissor == scissor_of(extent),
            r.screen().textures == Seq::new(
                SCREEN_TEXTURES as nat,
                |i: int|
                    TextureState {
                        format: format_of(screen_texture_at(i)),
                        extent: extent,
                        incarnation: i as u64,
                    },
            ),
            r.screen().graphics_binding == r.screen().textures.map_values(
                |t: TextureState| t.incarnation,
            ),
            r.screen().compute_binding == r.screen().textures.map_values(
                |t: TextureState| t.incarnation,
            ),
            r.screen().fft == (TextureState {
                format: TexelFormat::R32Float,
                extent: fft_extent(),
                incarnation: SCREEN_TEXTURES as u64,
            }),
            r.screen().fft_binding == r.screen().fft.incarnation,
            r.pipelines() == Seq::<Pipeline<G, C>>::empty(),
            r.path_table() == Seq::<(Seq<u8>, usize)>::empty(),
            r.two_step() == two_step_needed(linear_features, optimal_features),
            r.capture_size() == capture_extent_of(extent),
            r.capture_dst_format() == capture_format_of(surface_format),
            r.mapped_len() == mapped_len,
            r.device() == device,
            r.spectrum() == Seq::new(FFT_SIZE as nat, |i: int| 0u32),
            !r.spectrum_in_flight(),
    {
        PilkaRender {
            paused: false,
            push_constant,
            screen: ScreenState::new(extent),
            pipelines: PipelineRegistry::new(),
            fft: FftTexture::new(),
            device,
            screenshot_ctx: ScreenshotCtx::init(
                extent,
                surface_format,
                linear_features,
                optimal_features,
                mapped_len,
            ),
        }
    }

    /// Whether the engine is paused.
    pub fn paused(&self) -> (r: bool)
        ensures
            r == self.is_paused(),
    {
        self.paused
    }

    /// Pauses or resumes the compute pass and the frame feedback.
    pub fn set_paused(&mut self, paused: bool)
        ensures
            final(self).is_paused() == paused,
            final(self).constants() == old(self).constants(),
            keeps_screen(*old(self), *final(self)),
            keeps_pipelines(*old(self), *final(self)),
            keeps_spectrum(*old(self), *final(self)),
            keeps_capture(*old(self), *final(self)),
            keeps_device(*old(self), *final(self)),
            final(self).wf() == old(self).wf(),
    {
        self.paused = paused;
    }

    /// The push constants of the next frame.
    pub fn push_constant(&self) -> (r: PushConstant)
        ensures
            r == self.constants(),
    {
        self.push_constant
    }

    /// Replaces the push constants of the next frame.
    pub fn set_push_constant(&mut self, push_constant: PushConstant)
        ensures
            final(self).constants() == push_constant,
            final(self).is_paused() == old(self).is_paused(),
            keeps_screen(*old(self), *final(self)),
            keeps_pipelines(*old(self), *final(self)),
            keeps_spectrum(*old(self), *final(self)),
            keeps_capture(*old(self), *final(self)),
            keeps_device(*old(self), *final(self)),
            final(self).wf() == old(self).wf(),
    {
        self.push_constant = push_constant;
    }

    /// The vendor of the device.
    pub fn get_vendor_name(&self) -> (r: &'static str)
        ensures
            r == vendor_name_of(self.device().vendor_id),
    {
        vendor_name(self.device.vendor_id)
    }

    /// The API version that the loader offers, as text (`1.0.0` when it
    /// reports none).
    pub fn get_vulkan_version_name(&self, packed: Option<u32>) -> (r: String)
        ensures
            r@ == version_name_of(api_version_of(packed)),
    {
        version_name(api_version(packed))
    }

    /// The name of the device.
    pub fn get_device_name(&self) -> (r: &String)
        ensures
            *r == self.device().name,
    {
        &self.device.name
    }

    /// The kind of the device.
    pub fn get_device_type(&self) -> (r: DeviceType)
        ensures
            r == self.device().device_type,
    {
        self.device.device_type
    }

    /// The output size.
    pub fn extent(&self) -> (r: Extent)
        requires
            self.wf(),
        ensures
            r == self.screen().extent,
    {
        self.screen.extent()
    }

    /// Brings the engine to the new output size (see `ScreenState::resize`).
    pub fn resize(&mut self, extent: Extent) -> (plan: ResizePlan)
        requires
            old(self).wf(),
        ensures
            final(self).wf(),
            final(self).screen() == resized(old(self).screen(), extent, old(self).next_incarnation()),
            consistent(final(self).screen()),
            final(self).next_incarnation() == old(self).next_incarnation().wrapping_add(
                SCREEN_TEXTURES as u64,
            ),
            plan.extent == extent,
            plan.viewport == viewport_of(extent),
            plan.scissor == scissor_of(extent),
            plan.recreate@ == Seq::new(SCREEN_TEXTURES as nat, |i: int| screen_texture_at(i)),
            keeps_controls(*old(self), *final(self)),
            keeps_pipelines(*old(self), *final(self)),
            keeps_spectrum(*old(self), *final(self)),
            keeps_capture(*old(self), *final(self)),
            keeps_device(*old(self), *final(self)),
    {
        let ghost first = self.screen.next();
        let plan = self.screen.resize(extent);
        proof {
            crate::screen::lemma_resize_idempotent(old(self).screen(), extent, first, first);
        }
        plan
    }

    /// Registers the graphics pipeline built from `vert` and `frag`.
    pub fn push_render_pipeline(
        &mut self,
        vert: ShaderInfo,
        frag: ShaderInfo,
        dependencies: &Vec<Vec<u8>>,
        built: Result<G, BuildError>,
    ) -> (r: Result<(), BuildError>)
        requires
            old(self).wf(),
        ensures
            final(self).wf(),
            final(self).path_table() == old(self).path_table().push(
                (vert.path@, old(self).pipelines().len() as usize),
            ).push((frag.path@, old(self).pipelines().len() as usize)) + dependencies@.map_values(
                |d: Vec<u8>| (d@, old(self).pipelines().len() as usize),
            ),
            match built {
                Ok(g) => r is Ok && final(self).pipelines() == old(self).pipelines().push(
                    Pipeline::Graphics { vert, frag, graphics: g },
                ),
                Err(e) => r == Err::<(), BuildError>(e) && final(self).pipelines() == old(
                    self,
                ).pipelines(),
            },
            keeps_controls(*old(self), *final(self)),
            keeps_screen(*old(self), *final(self)),
            keeps_spectrum(*old(self), *final(self)),
            keeps_capture(*old(self), *final(self)),
            keeps_device(*old(self), *final(self)),
    {
        self.pipelines.push_render_pipeline(vert, frag, dependencies, built)
    }

    /// Registers the compute pipeline built from `comp`.
    pub fn push_compute_pipeline(
        &mut self,
        comp: ShaderInfo,
        dependencies: &Vec<Vec<u8>>,
        built: Result<C, BuildError>,
    ) -> (r: Result<(), BuildError>)
        requires
            old(self).wf(),
        ensures
            final(self).wf(),
            final(self).path_table() == old(self).path_table().push(
                (comp.path@, old(self).pipelines().len() as usize),
            ) + dependencies@.map_values(|d: Vec<u8>| (d@, old(self).pipelines().len() as usize)),
            match built {
                Ok(c) => r is Ok && final(self).pipelines() == old(self).pipelines().push(
                    Pipeline::Compute { comp, compute: c },
                ),
                Err(e) => r == Err::<(), BuildError>(e) && final(self).pipelines() == old(
                    self,
                ).pipelines(),
            },
            keeps_controls(*old(self), *final(self)),
            keeps_screen(*old(self), *final(self)),
            keeps_spectrum(*old(self), *final(self)),
            keeps_capture(*old(self), *final(self)),
            keeps_device(*old(self), *final(self)),
    {
        self.pipelines.push_compute_pipeline(comp, dependencies, built)
    }

    /// The pipeline that a change of the file at `path` rebuilds, if any.
    pub fn pipeline_for_path(&self, path: &Vec<u8>) -> (r: Option<usize>)
        ensures
            r == crate::pipeline::lookup_path(self.path_table(), path@),
    {
        self.pipelines.pipeline_for_path(path)
    }

    /// The number of registered pipelines.
    pub fn pipeline_count(&self) -> (r: usize)
        ensures
            r == self.pipelines().len(),
    {
        self.pipelines.len()
    }

    /// The kind of the pipeline at `index`.
    pub fn pipeline_kind(&self, index: usize) -> (r: PipelineKind)
        requires
            index < self.pipelines().len(),
        ensures
            r == kind_of(self.pipelines()[index as int]),
    {
        self.pipelines.kind(index)
    }

    /// The pipeline at `index`.
    pub fn pipeline(&self, index: usize) -> (r: &Pipeline<G, C>)
        requires
            index < self.pipelines().len(),
        ensures
            *r == self.pipelines()[index as int],
    {
        self.pipelines.get(index)
    }

    /// The shader sources of the pipeline at `index`, to build it again.
    pub fn shader_set(&self, index: usize) -> (r: ShaderSet)
        requires
            index < self.pipelines().len(),
        ensures
            set_kind(r) == kind_of(self.pipelines()[index as int]),
            match (r, self.pipelines()[index as int]) {
                (ShaderSet::Graphics { vert, frag }, Pipeline::Graphics { vert: v, frag: f, .. }) => {
                    vert.path@ == v.path@ && vert.entry_point@ == v.entry_point@ && frag.path@
                        == f.path@ && frag.entry_point@ == f.entry_point@
                },
                (ShaderSet::Compute { comp }, Pipeline::Compute { comp: c, .. }) => {
                    comp.path@ == c.path@ && comp.entry_point@ == c.entry_point@
                },
                _ => false,
            },
    {
        self.pipelines.shader_set(index)
    }

    /// Swaps in the pipeline rebuilt from the sources of the one at `index`
    /// (see `PipelineRegistry::rebuild_pipeline`).
    pub fn rebuild_pipeline(
        &mut self,
        index: usize,
        built: Result<PipelineObject<G, C>, BuildError>,
    ) -> (r: Result<Option<PipelineObject<G, C>>, BuildError>)
        requires
            old(self).wf(),
            index < old(self).pipelines().len(),
            built matches Ok(o) ==> object_kind(o) == kind_of(old(self).pipelines()[index as int]),
        ensures
            final(self).wf(),
            rebuild_outcome(old(self).pipelines(), index as int, built, final(self).pipelines(), r),
            final(self).path_table() == old(self).path_table(),
            keeps_controls(*old(self), *final(self)),
            keeps_screen(*old(self), *final(self)),
            keeps_spectrum(*old(self), *final(self)),
            keeps_capture(*old(self), *final(self)),
            keeps_device(*old(self), *final(self)),
    {
        self.pipelines.rebuild_pipeline(index, built)
    }

    /// Plans a frame from what acquiring the presentable image reported: a
    /// stale swapchain is resized without drawing; otherwise the compute
    /// pipeline of the fixed topology runs (empty unless paused), then the
    /// graphics pass, which waits on every compute pipeline and the image.
    pub fn render(&self, acquired: AcquireResult) -> (r: FramePlan)
        requires
            self.wf(),
        ensures
            render_outcome(*self, acquired, r),
    {
        match on_acquire(acquired) {
            AcquireDecision::ResizeAndSkip => FramePlan::Resize,
            AcquireDecision::Fatal { code } => FramePlan::Fatal { code },
            AcquireDecision::Draw { image_index } => FramePlan::Draw {
                image_index,
                compute: self.compute_pass(),
                graphics: self.graphics_pass(image_index),
            },
        }
    }

    /// How the frame goes on after acquiring a presentable image.
    pub fn on_acquire(&self, acquired: AcquireResult) -> (d: AcquireDecision)
        ensures
            d == acquire_decision_of(acquired),
    {
        on_acquire(acquired)
    }

    /// The compute submission of this frame, for the compute pipeline of the
    /// fixed topology: empty unless paused, and always signalling.
    pub fn compute_pass(&self) -> (r: Submission<ComputeCommand>)
        requires
            self.wf(),
        ensures
            r.commands@ == compute_commands_of(self.is_paused(), self.screen().extent),
            r.waits@ == seq![Semaphore::ImageAcquired],
            r.signals@ == seq![Semaphore::ComputeDone { pipeline: COMPUTE_PIPELINE }],
    {
        compute_submission(self.paused, self.screen.extent(), COMPUTE_PIPELINE)
    }

    /// The graphics submission of this frame into the acquired image: it
    /// waits on every compute pipeline and on the acquired image.
    pub fn graphics_pass(&self, image_index: u32) -> (r: Submission<GraphicsCommand>)
        ensures
            r.commands@ == graphics_commands_of(image_index),
            r.waits@ == graphics_waits_of(compute_indices_upto(self.kinds(), self.kinds().len() as int)),
            r.signals@ == seq![Semaphore::RenderDone],
    {
        let compute = self.pipelines.compute_pipelines();
        graphics_submission(image_index, &compute)
    }

    /// Ends a frame that was presented: decides on a resize and counts the
    /// frame.
    pub fn finish_frame(&mut self, presented: PresentResult) -> (d: PresentDecision)
        ensures
            d == present_decision_of(presented),
            final(self).constants().frame == next_frame_of(old(self).constants().frame),
            final(self).constants().pos == old(self).constants().pos,
            final(self).constants().time == old(self).constants().time,
            final(self).constants().wh == old(self).constants().wh,
            final(self).constants().mouse == old(self).constants().mouse,
            final(self).constants().mouse_pressed == old(self).constants().mouse_pressed,
            final(self).is_paused() == old(self).is_paused(),
            keeps_screen(*old(self), *final(self)),
            keeps_pipelines(*old(self), *final(self)),
            keeps_spectrum(*old(self), *final(self)),
            keeps_capture(*old(self), *final(self)),
            keeps_device(*old(self), *final(self)),
            final(self).wf() == old(self).wf(),
    {
        let d = on_present(presented);
        self.push_constant.frame = next_frame(self.push_constant.frame);
        d
    }

    /// Prepares a capture of the frame last presented: resizes the capture
    /// images when the output size changed, and lists the commands.
    pub fn prepare_capture(&mut self) -> (plan: CapturePlan)
        requires
            old(self).wf(),
            old(self).screen().extent.height < u32::MAX,
        ensures
            final(self).wf(),
            plan.realloc == realloc_of(old(self).capture_size(), old(self).screen().extent),
            final(self).capture_size() == capture_extent_of(old(self).screen().extent),
            final(self).mapped_len() == old(self).mapped_len(),
            plan.commands@ == capture_commands_of(old(self).two_step()),
            plan.readable == readable_image_of(old(self).two_step()),
            final(self).two_step() == old(self).two_step(),
            final(self).capture_dst_format() == old(self).capture_dst_format(),
            final(self).capture_size().width == old(self).screen().extent.width,
            keeps_controls(*old(self), *final(self)),
            keeps_screen(*old(self), *final(self)),
            keeps_pipelines(*old(self), *final(self)),
            keeps_spectrum(*old(self), *final(self)),
            keeps_device(*old(self), *final(self)),
    {
        let extent = self.screen.extent();
        let realloc = self.screenshot_ctx.realloc(extent);
        CapturePlan {
            realloc,
            commands: self.screenshot_ctx.commands(),
            readable: self.screenshot_ctx.readable(),
        }
    }

    /// The format the capture images hold.
    pub fn capture_format(&self) -> (r: ColorFormat)
        ensures
            r == self.capture_dst_format(),
    {
        self.screenshot_ctx.format()
    }

    /// The size of the capture images.
    pub fn capture_extent(&self) -> (r: Extent)
        ensures
            r == self.capture_size(),
    {
        self.screenshot_ctx.extent()
    }

    /// Whether a recreated readable capture image whose memory takes
    /// `new_size` bytes needs a new host mapping: exactly when it is larger
    /// than the current one.
    pub fn needs_remap(&self, new_size: u64) -> (r: bool)
        ensures
            r == remap_needed(new_size, self.mapped_len()),
    {
        self.screenshot_ctx.needs_remap(new_size)
    }

    /// Records the length of a new host mapping of the readable capture image.
    pub fn set_mapped_len(&mut self, len: u64)
        ensures
            final(self).mapped_len() == len,
            final(self).capture_size() == old(self).capture_size(),
            final(self).capture_dst_format() == old(self).capture_dst_format(),
            final(self).two_step() == old(self).two_step(),
            keeps_controls(*old(self), *final(self)),
            keeps_screen(*old(self), *final(self)),
            keeps_pipelines(*old(self), *final(self)),
            keeps_spectrum(*old(self), *final(self)),
            keeps_device(*old(self), *final(self)),
            final(self).wf() == old(self).wf(),
    {
        self.screenshot_ctx.set_mapped_len(len);
    }

    /// Reads the captured frame out of the mapped readable image: rows of
    /// the capture width, as many as the device layout holds, with the row
    /// padding stripped.
    pub fn capture_frame(&self, mapped: &[u8], layout: SubresourceLayout) -> (r: Result<
        CapturedFrame,
        ReadbackError,
    >)
        ensures
            match r {
                Ok(frame) => {
                    &&& readback_error(mapped@.len() as int, layout, self.capture_size().width as int) is None
                    &&& frame.width == self.capture_size().width
                    &&& frame.height == layout_rows(layout)
                    &&& frame.pixels@.len() == frame.width * frame.height * 4
                    &&& is_packed(
                        frame.pixels@,
                        mapped@,
                        layout.offset as int,
                        layout.row_pitch as int,
                        frame.width as int,
                        frame.height as int,
                    )
                },
                Err(e) => readback_error(mapped@.len() as int, layout, self.capture_size().width as int)
                    == Some(e),
            },
    {
        self.screenshot_ctx.read(mapped, layout)
    }

    /// Stages a spectrum for the spectrum texture (see `FftTexture::update`).
    pub fn update_fft_texture(&mut self, samples: &[u32]) -> (r: Result<FftUpload, FftError>)
        requires
            old(self).wf(),
        ensures
            final(self).wf(),
            samples@.len() != FFT_SIZE <==> r is Err,
            match r {
                Ok(upload) => {
                    &&& upload.wait_for_previous == old(self).spectrum_in_flight()
                    &&& upload.commands@ == upload_commands_of()
                    &&& final(self).spectrum() == samples@
                    &&& final(self).spectrum_in_flight()
                },
                Err(e) => {
                    &&& e == FftError::LengthMismatch { expected: FFT_SIZE, got: samples@.len() as usize }
                    &&& final(self).spectrum() == old(self).spectrum()
                    &&& final(self).spectrum_in_flight() == old(self).spectrum_in_flight()
                },
            },
            keeps_controls(*old(self), *final(self)),
            keeps_screen(*old(self), *final(self)),
            keeps_pipelines(*old(self), *final(self)),
            keeps_capture(*old(self), *final(self)),
            keeps_device(*old(self), *final(self)),
    {
        self.fft.update(samples)
    }
}

/// `a` and `b` have the same paused flag and push constants.
pub open spec fn keeps_controls<G, C>(a: PilkaRender<G, C>, b: PilkaRender<G, C>) -> bool {
    a.is_paused() == b.is_paused() && a.constants() == b.constants()
}

/// `a` and `b` have the same size-dependent state, down to the incarnation
/// numbers of the screen textures and the descriptor bindings.
pub open spec fn keeps_screen<G, C>(a: PilkaRender<G, C>, b: PilkaRender<G, C>) -> bool {
    a.screen() == b.screen() && a.next_incarnation() == b.next_incarnation()
}

/// `a` and `b` have the same pipelines and path table.
pub open spec fn keeps_pipelines<G, C>(a: PilkaRender<G, C>, b: PilkaRender<G, C>) -> bool {
    a.pipelines() == b.pipelines() && a.path_table() == b.path_table()
}

/// `a` and `b` have the same spectrum, and the same upload in flight.
pub open spec fn keeps_spectrum<G, C>(a: PilkaRender<G, C>, b: PilkaRender<G, C>) -> bool {
    a.spectrum() == b.spectrum() && a.spectrum_in_flight() == b.spectrum_in_flight()
}

/// `a` and `b` have the same capture setup: image size and format, path and
/// host mapping.
pub open spec fn keeps_capture<G, C>(a: PilkaRender<G, C>, b: PilkaRender<G, C>) -> bool {
    &&& a.capture_size() == b.capture_size()
    &&& a.capture_dst_format() == b.capture_dst_format()
    &&& a.two_step() == b.two_step()
    &&& a.mapped_len() == b.mapped_len()
}

/// `a` and `b` report the same device.
pub open spec fn keeps_device<G, C>(a: PilkaRender<G, C>, b: PilkaRender<G, C>) -> bool {
    a.device() == b.device()
}

/// A render cycle of the unpaused engine with the fixed topology records no
/// compute command at all (no bind, no push constants, no dispatch), yet its
/// compute submission signals the compute pipeline's semaphore, and every
/// semaphore the graphics submission waits on is signalled earlier in the
/// cycle (by the acquire or by that compute submission): the graphics pass
/// never waits forever.
pub proof fn lemma_unpaused_frame_signals<G, C>(
    e: PilkaRender<G, C>,
    acquired: AcquireResult,
    plan: FramePlan,
)
    requires
        e.kinds() == seq![PipelineKind::Graphics, PipelineKind::Compute],
        !e.is_paused(),
        acquired matches AcquireResult::Acquired { suboptimal, .. } && !suboptimal,
        render_outcome(e, acquired, plan),
    ensures
        plan matches FramePlan::Draw { compute, graphics, .. } && {
            &&& compute.commands@.len() == 0
            &&& compute.signals@.contains(Semaphore::ComputeDone { pipeline: COMPUTE_PIPELINE })
            &&& forall|s: Semaphore|
                #[trigger] graphics.waits@.contains(s) ==> s == Semaphore::ImageAcquired
                    || compute.signals@.contains(s)
        },
{
    let k = e.kinds();
    assert(compute_indices_upto(k, 0) == Seq::<usize>::empty());
    assert(compute_indices_upto(k, 1) == Seq::<usize>::empty());
    assert(compute_indices_upto(k, 2) == seq![1usize]);
    let waits = graphics_waits_of(seq![1usize]);
    assert(waits =~= seq![
        Semaphore::ComputeDone { pipeline: COMPUTE_PIPELINE },
        Semaphore::ImageAcquired,
    ]);
    if let FramePlan::Draw { compute, graphics, .. } = plan {
        assert(compute.signals@[0] == Semaphore::ComputeDone { pipeline: COMPUTE_PIPELINE });
        assert forall|s: Semaphore| #[trigger] graphics.waits@.contains(s) implies s
            == Semaphore::ImageAcquired || compute.signals@.contains(s) by {
            let j = choose|j: int| 0 <= j < graphics.waits@.len() && graphics.waits@[j] == s;
            if j == 0 {
                assert(compute.signals@[0] == s);
            }
        }
    }
}

/// What `render` promises of its plan (see its contract).
pub open spec fn render_outcome<G, C>(e: PilkaRender<G, C>, acquired: AcquireResult, r: FramePlan) -> bool {
    match acquire_decision_of(acquired) {
        AcquireDecision::ResizeAndSkip => r is Resize,
        AcquireDecision::Fatal { code } => r == (FramePlan::Fatal { code }),
        AcquireDecision::Draw { image_index } => match r {
            FramePlan::Draw { image_index: i, compute, graphics } => {
                &&& i == image_index
                &&& compute.commands@ == compute_commands_of(e.is_paused(), e.screen().extent)
                &&& compute.waits@ == seq![Semaphore::ImageAcquired]
                &&& compute.signals@ == seq![Semaphore::ComputeDone { pipeline: COMPUTE_PIPELINE }]
                &&& graphics.commands@ == graphics_commands_of(image_index)
                &&& graphics.waits@ == graphics_waits_of(
                    compute_indices_upto(e.kinds(), e.kinds().len() as int),
                )
                &&& graphics.signals@ == seq![Semaphore::RenderDone]
            },
            _ => false,
        },
    }
}

} // verus!
