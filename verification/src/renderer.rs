//! The renderer's owner state: every GPU handle the core owns, the
//! negotiated swap-chain configuration, the synchronization ring, and the
//! per-frame protocol.
//!
//! The outer shell performs the actual GPU calls; it mirrors each decision
//! taken here on the real objects and feeds every outcome back in. Handles
//! are ledger ids, so creation and destruction stay in verified balance.

use vstd::pervasive::unreached;
use vstd::prelude::*;
use crate::bootstrap::{adapter_suitable, select_adapter, AdapterInfo};
use crate::errors::{CreateError, FrameError, SetupError, SwapChainError};
use crate::geometry::{spec_points_flat, spec_triangle_for, triangle_for, Frac, Triangle};
use crate::input::LocalState;
use crate::ledger::{Ledger, LedgerEntry, ResourceKind};
use crate::pipeline::{build_pipeline, PipelineOutcomes};
use crate::swapchain::{
    caps_wf, negotiate, negotiated, Extent2d, PixelFormat, PresentMode, SurfaceCaps,
    SwapchainConfig,
};
use crate::targets::build_targets;

verus! {

/// Where the current frame stands in the per-frame protocol.
#[derive(Clone, Copy, Debug, PartialEq, Eq, Structural)]
pub enum FramePhase {
    /// Between frames; ready to acquire.
    Ready,
    /// An image index has been acquired.
    Acquired { image: usize },
    /// The acquired image's fence has been waited on and reset.
    Cleared { image: usize },
    /// The command buffer for the image has been recorded.
    Recorded { image: usize },
    /// The recorded work has been submitted.
    Submitted { image: usize },
}

/// What acquisition reported.
#[derive(Clone, Copy, Debug, PartialEq, Eq, Structural)]
pub enum AcquireOutcome {
    /// An image is ready; its index within the chain.
    Image(usize),
    /// The chain no longer matches the surface; recreate and skip the frame.
    OutOfDate,
}

/// What a fence wait reported.
#[derive(Clone, Copy, Debug, PartialEq, Eq, Structural)]
pub enum FenceOutcome {
    Signaled,
    TimedOut,
    DeviceLost,
}

/// What presentation reported.
#[derive(Clone, Copy, Debug, PartialEq, Eq, Structural)]
pub enum PresentOutcome {
    Complete,
    /// Displayed, but the chain should be recreated soon.
    Suboptimal,
    OutOfDate,
    Failed,
}

/// How a whole frame went, when it did not fail.
#[derive(Clone, Copy, Debug, PartialEq, Eq, Structural)]
pub enum FrameReport {
    /// Acquisition found the chain out of date: the frame was skipped and
    /// the chain must be recreated. Not an error.
    SkippedOutOfDate,
    /// The frame is on screen.
    Presented,
    /// The frame was handed to the presentation engine, but the chain is
    /// stale: recreate it soon.
    PresentedSuboptimal,
}

/// A color with channels in thousandths (0 is 0.0, 1000 is 1.0).
#[derive(Clone, Copy, Debug, PartialEq, Eq, Structural)]
pub struct ColorMilli {
    pub r: u16,
    pub g: u16,
    pub b: u16,
    pub a: u16,
}

/// The three plans a completed frame handed the shell: what was recorded,
/// how it was submitted, and how it was presented.
#[derive(Clone, Copy, Debug, PartialEq)]
pub struct FramePlans {
    pub record: RecordPlan,
    pub submit: SubmitPlan,
    pub present: PresentPlan,
}

/// How a whole frame went, together with the plans it produced. A skipped
/// frame has no plans.
#[derive(Clone, Copy, Debug, PartialEq)]
pub struct FrameRun {
    pub report: FrameReport,
    pub plans: Option<FramePlans>,
}

/// The fixed clear color of a triangle frame: the dark blue-grey
/// (0.1, 0.2, 0.3, 1.0) in thousandths.
pub open spec fn spec_triangle_clear_color() -> ColorMilli {
    ColorMilli { r: 100u16, g: 200u16, b: 300u16, a: 1000u16 }
}

/// The fixed clear color of a triangle frame, for the recorder and the
/// shell alike.
pub fn triangle_clear_color() -> (c: ColorMilli)
    ensures
        c == spec_triangle_clear_color(),
{
    ColorMilli { r: 100, g: 200, b: 300, a: 1000 }
}

/// The synchronization ring's creation recipe: what the shell must create
/// for each rotation slot.
#[derive(Clone, Copy, Debug, PartialEq, Eq, Structural)]
pub struct SyncRingDesc {
    /// Slots in the ring: one per frame in flight.
    pub slots: usize,
    /// One in-flight fence per slot.
    pub fences_per_slot: u32,
    /// Every fence is created already signaled, so the first wait on each
    /// slot never blocks.
    pub fence_created_signaled: bool,
    /// Two semaphores per slot: image-available and render-finished.
    pub semaphores_per_slot: u32,
}

/// The ring recipe for a given slot count.
pub open spec fn spec_sync_ring_desc(slots: usize) -> SyncRingDesc {
    SyncRingDesc {
        slots,
        fences_per_slot: 1u32,
        fence_created_signaled: true,
        semaphores_per_slot: 2u32,
    }
}

/// Build the ring recipe: one already-signaled fence and two semaphores
/// per slot. The shell creates the real ring exactly from this.
pub fn sync_ring_desc(slots: usize) -> (d: SyncRingDesc)
    ensures
        d == spec_sync_ring_desc(slots),
{
    SyncRingDesc {
        slots,
        fences_per_slot: 1,
        fence_created_signaled: true,
        semaphores_per_slot: 2,
    }
}

/// The vertex buffer's creation recipe: a small host-visible buffer,
/// created once at startup and never resized or reallocated (the ledger
/// keeps its single entry live until shutdown).
#[derive(Clone, Copy, Debug, PartialEq, Eq, Structural)]
pub struct VertexBufferPlan {
    /// Exactly three two-component positions of 4-byte floats: 4 * 2 * 3.
    pub size_bytes: u64,
    /// Created with vertex-buffer usage.
    pub vertex_usage: bool,
    /// Bound to CPU-visible memory, at this offset.
    pub host_visible: bool,
    pub bind_offset: u64,
}

/// The one vertex buffer the renderer ever creates.
pub open spec fn spec_vertex_buffer_plan() -> VertexBufferPlan {
    VertexBufferPlan { size_bytes: 24u64, vertex_usage: true, host_visible: true, bind_offset: 0u64 }
}

/// Build the vertex buffer recipe. The shell creates and binds the real
/// buffer exactly from this.
pub fn vertex_buffer_plan() -> (p: VertexBufferPlan)
    ensures
        p == spec_vertex_buffer_plan(),
{
    VertexBufferPlan { size_bytes: 24, vertex_usage: true, host_visible: true, bind_offset: 0 }
}

/// What a frame should show: a bare clear, or the triangle over a clear.
#[derive(Clone, Copy, Debug, PartialEq)]
pub enum FrameContent {
    Clear(ColorMilli),
    Tri(ColorMilli, Triangle),
}

/// The single draw of a frame: a non-indexed draw with its vertex data.
#[derive(Clone, Copy, Debug, PartialEq)]
pub struct DrawCall {
    pub vertex_count: u32,
    pub instance_count: u32,
    pub vertices: [Frac; 6],
}

/// What to record into the command buffer of the acquired image.
#[derive(Clone, Copy, Debug, PartialEq)]
pub struct RecordPlan {
    /// Which command buffer and framebuffer to use: the acquired image index.
    pub image: usize,
    /// The render area: the full negotiated extent.
    pub render_area: Extent2d,
    pub clear: ColorMilli,
    pub draw: Option<DrawCall>,
}

/// How to submit the recorded buffer: which ring slot's semaphores gate it
/// and which fence to arm.
#[derive(Clone, Copy, Debug, PartialEq, Eq, Structural)]
pub struct SubmitPlan {
    /// Command buffer index: the acquired image index.
    pub command_buffer: usize,
    /// Wait on the image-available semaphore of this rotation slot.
    pub wait_slot: usize,
    /// Signal the render-finished semaphore of this rotation slot.
    pub signal_slot: usize,
    /// Arm the in-flight fence of this index: the acquired image index.
    pub fence: usize,
}

/// How to present: which image, waiting on which slot's render-finished
/// semaphore.
#[derive(Clone, Copy, Debug, PartialEq, Eq, Structural)]
pub struct PresentPlan {
    pub image: usize,
    pub wait_slot: usize,
}

/// The renderer's owner state.
pub struct HalState {
    /// The create/destroy ledger of every owned GPU object.
    pub ledger: Ledger,
    /// False once shut down.
    pub live: bool,
    pub instance_id: usize,
    pub surface_id: usize,
    pub device_id: usize,
    pub swapchain_id: usize,
    pub render_pass_id: usize,
    pub image_view_ids: Vec<usize>,
    pub framebuffer_ids: Vec<usize>,
    pub command_pool_id: usize,
    pub command_buffer_ids: Vec<usize>,
    pub in_flight_fence_ids: Vec<usize>,
    pub image_available_ids: Vec<usize>,
    pub render_finished_ids: Vec<usize>,
    pub descriptor_set_layout_id: usize,
    pub pipeline_layout_id: usize,
    pub graphics_pipeline_id: usize,
    pub buffer_id: usize,
    pub memory_id: usize,
    /// The negotiated configuration of the current chain.
    pub config: SwapchainConfig,
    /// The ring length: the image count negotiated at creation.
    pub frames_in_flight: usize,
    /// The rotation slot of the current frame.
    pub current_frame: usize,
    /// Where the current frame stands.
    pub phase: FramePhase,
}

impl HalState {
    /// One entry of every per-image collection per frame in flight, and a
    /// rotation slot within range.
    pub open spec fn ring_wf(self) -> bool {
        &&& 1 <= self.frames_in_flight
        &&& self.current_frame < self.frames_in_flight
        &&& self.image_view_ids@.len() == self.frames_in_flight
        &&& self.framebuffer_ids@.len() == self.frames_in_flight
        &&& self.command_buffer_ids@.len() == self.frames_in_flight
        &&& self.in_flight_fence_ids@.len() == self.frames_in_flight
        &&& self.image_available_ids@.len() == self.frames_in_flight
        &&& self.render_finished_ids@.len() == self.frames_in_flight
    }

    /// Any acquired image index is within the ring.
    pub open spec fn phase_wf(self) -> bool {
        match self.phase {
            FramePhase::Ready => true,
            FramePhase::Acquired { image } => image < self.frames_in_flight,
            FramePhase::Cleared { image } => image < self.frames_in_flight,
            FramePhase::Recorded { image } => image < self.frames_in_flight,
            FramePhase::Submitted { image } => image < self.frames_in_flight,
        }
    }

    /// The replaceable resources (chain, views, framebuffers) are live and
    /// mutually distinct, so each can be released exactly once on resize.
    pub open spec fn targets_wf(self) -> bool {
        let n = self.frames_in_flight as int;
        &&& self.ledger.spec_alive(self.swapchain_id as int)
        &&& (forall|i: int|
            0 <= i < n ==> self.ledger.spec_alive(#[trigger] self.image_view_ids@[i] as int))
        &&& (forall|i: int|
            0 <= i < n ==> self.ledger.spec_alive(#[trigger] self.framebuffer_ids@[i] as int))
        &&& (forall|i: int, j: int|
            0 <= i < n && 0 <= j < n && i != j ==> #[trigger] self.image_view_ids@[i]
                != #[trigger] self.image_view_ids@[j])
        &&& (forall|i: int, j: int|
            0 <= i < n && 0 <= j < n && i != j ==> #[trigger] self.framebuffer_ids@[i]
                != #[trigger] self.framebuffer_ids@[j])
        &&& (forall|i: int, j: int|
            0 <= i < n && 0 <= j < n ==> #[trigger] self.image_view_ids@[i]
                != #[trigger] self.framebuffer_ids@[j])
        &&& (forall|i: int|
            0 <= i < n ==> #[trigger] self.image_view_ids@[i] != self.swapchain_id)
        &&& (forall|i: int|
            0 <= i < n ==> #[trigger] self.framebuffer_ids@[i] != self.swapchain_id)
    }

    /// `x` names a live object and is none of the ids that a swap-chain
    /// recreation replaces.
    pub open spec fn fixed_id_ok(self, x: usize) -> bool {
        &&& self.ledger.spec_alive(x as int)
        &&& x != self.swapchain_id
        &&& !self.image_view_ids@.contains(x)
        &&& !self.framebuffer_ids@.contains(x)
    }

    /// Every id that recreation keeps (instance through memory, the ring,
    /// the command buffers) names a live object and stays clear of the
    /// replaceable ids, so a replacement provably leaves it untouched and
    /// live.
    pub open spec fn fixed_ids_wf(self) -> bool {
        &&& self.fixed_id_ok(self.instance_id)
        &&& self.fixed_id_ok(self.surface_id)
        &&& self.fixed_id_ok(self.device_id)
        &&& self.fixed_id_ok(self.render_pass_id)
        &&& self.fixed_id_ok(self.command_pool_id)
        &&& self.fixed_id_ok(self.descriptor_set_layout_id)
        &&& self.fixed_id_ok(self.pipeline_layout_id)
        &&& self.fixed_id_ok(self.graphics_pipeline_id)
        &&& self.fixed_id_ok(self.buffer_id)
        &&& self.fixed_id_ok(self.memory_id)
        &&& (forall|i: int|
            0 <= i < self.in_flight_fence_ids@.len() ==> self.fixed_id_ok(
                #[trigger] self.in_flight_fence_ids@[i],
            ))
        &&& (forall|i: int|
            0 <= i < self.image_available_ids@.len() ==> self.fixed_id_ok(
                #[trigger] self.image_available_ids@[i],
            ))
        &&& (forall|i: int|
            0 <= i < self.render_finished_ids@.len() ==> self.fixed_id_ok(
                #[trigger] self.render_finished_ids@[i],
            ))
        &&& (forall|i: int|
            0 <= i < self.command_buffer_ids@.len() ==> self.fixed_id_ok(
                #[trigger] self.command_buffer_ids@[i],
            ))
    }

    /// The renderer's invariant.
    pub open spec fn wf(self) -> bool {
        &&& self.ring_wf()
        &&& self.phase_wf()
        &&& (self.live ==> self.targets_wf() && self.fixed_ids_wf())
    }

    /// Create the renderer: select the adapter, open the device, negotiate
    /// the chain, then create every GPU object, recording each in the
    /// ledger in creation order. The shell creates the real ring per
    /// [`sync_ring_desc`] and the real vertex buffer per
    /// [`vertex_buffer_plan`].
    ///
    /// `device_open_ok` is the device's verdict on the open call. Creation
    /// of the individual objects is modeled as succeeding; the fallible
    /// batches have their own entry points with per-object verdicts.
    ///
    /// Fails with `NoSuitableAdapter` exactly when no adapter has a queue
    /// family with both graphics and presentation; with `DeviceOpenFailed`
    /// exactly when one has but the open call was rejected; and with the
    /// negotiation's error exactly when the negotiation fails.
    pub fn new(
        adapters: &Vec<AdapterInfo>,
        device_open_ok: bool,
        caps: &SurfaceCaps,
        preferred_formats: &Option<Vec<PixelFormat>>,
        present_modes: &Vec<PresentMode>,
        window: Extent2d,
    ) -> (r: Result<HalState, CreateError>)
        requires
            caps_wf(*caps),
            // keeps every handle id well below usize::MAX
            caps.image_count_max <= 0x1000_0000,
        ensures
            ({
                let spec_formats = match *preferred_formats {
                    Some(v) => Some(v@),
                    None => None,
                };
                let deal = negotiated(*caps, spec_formats, present_modes@, window);
                &&& ((r is Ok) <==> ((exists|i: int|
                    0 <= i < adapters@.len() && adapter_suitable(adapters@[i]))
                    && device_open_ok && deal is Ok))
                &&& ((r == Err::<HalState, CreateError>(CreateError::Setup(
                    SetupError::NoSuitableAdapter,
                ))) <==> (forall|i: int|
                    0 <= i < adapters@.len() ==> !adapter_suitable(adapters@[i])))
                &&& ((exists|i: int| 0 <= i < adapters@.len() && adapter_suitable(adapters@[i]))
                    && !device_open_ok ==> r == Err::<HalState, CreateError>(CreateError::Setup(
                    SetupError::DeviceOpenFailed,
                )))
                &&& (forall|e: SwapChainError|
                    (exists|i: int| 0 <= i < adapters@.len() && adapter_suitable(adapters@[i]))
                        && device_open_ok && deal == Err::<SwapchainConfig, SwapChainError>(e)
                        ==> r == Err::<HalState, CreateError>(CreateError::SwapChain(e)))
                &&& (r matches Ok(hal) ==> {
                    &&& hal.wf()
                    &&& hal.live
                    &&& hal.current_frame == 0
                    &&& hal.phase == FramePhase::Ready
                    &&& deal == Ok::<SwapchainConfig, SwapChainError>(hal.config)
                    &&& hal.frames_in_flight == hal.config.image_count
                })
            }),
    {
        match select_adapter(adapters) {
            Ok(_) => {},
            Err(_) => {
                return Err(CreateError::Setup(SetupError::NoSuitableAdapter));
            },
        }
        if !device_open_ok {
            return Err(CreateError::Setup(SetupError::DeviceOpenFailed));
        }
        let config = match negotiate(caps, preferred_formats, present_modes, window) {
            Ok(c) => c,
            Err(e) => {
                return Err(CreateError::SwapChain(e));
            },
        };
        let n = config.image_count as usize;

        let mut ledger = Ledger::new();
        let instance_id = ledger.register(ResourceKind::Instance);
        let surface_id = ledger.register(ResourceKind::Surface);
        let device_id = ledger.register(ResourceKind::Device);
        let swapchain_id = ledger.register(ResourceKind::Swapchain);
        let ghost snap_ring = ledger.entries@;

        // the synchronization ring: one fence and two semaphores per frame
        // in flight, the fences created already signaled
        let mut in_flight_fence_ids: Vec<usize> = Vec::new();
        let mut image_available_ids: Vec<usize> = Vec::new();
        let mut render_finished_ids: Vec<usize> = Vec::new();
        let mut k: usize = 0;
        while k < n
            invariant
                k <= n,
                n <= 0x1000_0000,
                in_flight_fence_ids@.len() == k,
                image_available_ids@.len() == k,
                render_finished_ids@.len() == k,
                forall|i: int| 0 <= i < k ==> in_flight_fence_ids@[i] == 4 + 3 * i,
                forall|i: int| 0 <= i < k ==> image_available_ids@[i] == 5 + 3 * i,
                forall|i: int| 0 <= i < k ==> render_finished_ids@[i] == 6 + 3 * i,
                forall|j: int| 4 <= j < ledger.entries@.len() ==> ledger.entries@[j].alive,
                ledger.entries@.len() == 4 + 3 * k,
                snap_ring.len() == 4,
                forall|j: int| 0 <= j < 4 ==> ledger.entries@[j] == snap_ring[j],
            decreases n - k,
        {
            in_flight_fence_ids.push(ledger.register(ResourceKind::Fence));
            image_available_ids.push(ledger.register(ResourceKind::Semaphore));
            render_finished_ids.push(ledger.register(ResourceKind::Semaphore));
            k = k + 1;
        }

        let render_pass_id = ledger.register(ResourceKind::RenderPass);

        let ghost before_targets = ledger.entries@;
        let all_ok = all_true(n);
        let (image_view_ids, framebuffer_ids) = match build_targets(
            &mut ledger,
            n,
            &all_ok,
            &all_ok,
        ) {
            Ok(pair) => pair,
            Err(_) => {
                return unreached();
            },
        };

        let ghost after_targets = ledger.entries@;
        let command_pool_id = ledger.register(ResourceKind::CommandPool);
        proof {
            assert(forall|j: int|
                0 <= j < after_targets.len() ==> ledger.entries@[j] == after_targets[j]);
        }
        let mut command_buffer_ids: Vec<usize> = Vec::new();
        let mut k: usize = 0;
        while k < n
            invariant
                k <= n,
                command_buffer_ids@.len() == k,
                ledger.entries@.len() == after_targets.len() + 1 + k,
                forall|i: int|
                    0 <= i < k ==> command_buffer_ids@[i] == after_targets.len() + 1 + i,
                forall|j: int|
                    after_targets.len() <= j < ledger.entries@.len() ==> ledger.entries@[j].alive,
                forall|j: int|
                    0 <= j < after_targets.len() ==> ledger.entries@[j] == after_targets[j],
            decreases n - k,
        {
            command_buffer_ids.push(ledger.register(ResourceKind::CommandBuffer));
            k = k + 1;
        }

        let ghost after_cbufs = ledger.entries@;
        let pipeline_outcomes = PipelineOutcomes {
            vertex_compile_ok: true,
            fragment_compile_ok: true,
            vertex_module_ok: true,
            fragment_module_ok: true,
            descriptor_set_layout_ok: true,
            pipeline_layout_ok: true,
            pipeline_ok: true,
        };
        let handles = match build_pipeline(&mut ledger, &pipeline_outcomes) {
            Ok(h) => h,
            Err(_) => {
                return unreached();
            },
        };

        // each registration appends; these carry the earlier entries'
        // liveness across the later mutations, one step at a time
        proof {
            assert(forall|j: int|
                0 <= j < after_cbufs.len() ==> ledger.entries@[j] == after_cbufs[j]);
        }
        let buffer_id = ledger.register(ResourceKind::Buffer);
        proof {
            assert(forall|j: int|
                0 <= j < after_cbufs.len() ==> ledger.entries@[j] == after_cbufs[j]);
        }
        let memory_id = ledger.register(ResourceKind::Memory);
        proof {
            assert(forall|j: int|
                0 <= j < after_cbufs.len() ==> ledger.entries@[j] == after_cbufs[j]);
            assert(forall|j: int|
                0 <= j < after_targets.len() ==> after_cbufs[j] == after_targets[j]);
        }

        proof {
            let nn = n as int;
            let tb = before_targets.len() as int;
            assert(forall|j: int|
                0 <= j < after_targets.len() ==> ledger.entries@[j] == after_targets[j]);
            assert(snap_ring[3].alive);
            assert(before_targets[3] == snap_ring[3]);
            assert(after_targets[3] == before_targets[3]);
            assert(swapchain_id == 3);
            assert(forall|i: int| 0 <= i < nn ==> image_view_ids@[i] == tb + i);
            assert(forall|i: int| 0 <= i < nn ==> framebuffer_ids@[i] == tb + nn + i);
            assert(ledger.entries@[swapchain_id as int].alive);
            assert forall|i: int|
                0 <= i < nn implies ledger.entries@[
                #[trigger] image_view_ids@[i] as int].alive by {
                assert(image_view_ids@[i] == tb + i);
                assert(after_targets[tb + i].alive);
                assert(ledger.entries@[tb + i] == after_targets[tb + i]);
            };
            assert forall|i: int|
                0 <= i < nn implies ledger.entries@[
                #[trigger] framebuffer_ids@[i] as int].alive by {
                assert(framebuffer_ids@[i] == tb + nn + i);
                assert(after_targets[tb + nn + i].alive);
                assert(ledger.entries@[tb + nn + i] == after_targets[tb + nn + i]);
            };
            // views occupy [tb, tb + n) and framebuffers [tb + n, tb + 2n):
            // every other id avoids them
            assert forall|x: usize| x < tb || x >= tb + 2 * nn implies
                !image_view_ids@.contains(x) && !framebuffer_ids@.contains(x) by {
                assert(forall|i: int| 0 <= i < nn ==> image_view_ids@[i] != x);
                assert(forall|i: int| 0 <= i < nn ==> framebuffer_ids@[i] != x);
            };
            assert(forall|i: int| 0 <= i < nn ==> in_flight_fence_ids@[i] < tb);
            assert(forall|i: int| 0 <= i < nn ==> image_available_ids@[i] < tb);
            assert(forall|i: int| 0 <= i < nn ==> render_finished_ids@[i] < tb);
            assert(forall|i: int| 0 <= i < nn ==> command_buffer_ids@[i] >= tb + 2 * nn);
            // every kept object is live: the first four entries, the ring,
            // the render pass, the pool and command buffers, the pipeline
            // objects, the buffer and the memory
            assert(snap_ring[0].alive && snap_ring[1].alive && snap_ring[2].alive);
            assert(forall|j: int| 0 <= j < 4 ==> before_targets[j] == snap_ring[j]);
            assert(forall|j: int| 4 <= j < before_targets.len() ==> before_targets[j].alive);
            assert(forall|j: int|
                0 <= j < before_targets.len() ==> after_targets[j] == before_targets[j]);
            assert(forall|j: int|
                after_targets.len() <= j < after_cbufs.len() ==> after_cbufs[j].alive);
            assert(forall|j: int|
                0 <= j < after_cbufs.len() ==> ledger.entries@[j] == after_cbufs[j]);
            assert(ledger.entries@[buffer_id as int].alive);
            assert(ledger.entries@[memory_id as int].alive);
            assert(ledger.entries@[handles.descriptor_set_layout as int].alive);
            assert(ledger.entries@[handles.pipeline_layout as int].alive);
            assert(ledger.entries@[handles.graphics_pipeline as int].alive);
        }

        Ok(HalState {
            ledger,
            live: true,
            instance_id,
            surface_id,
            device_id,
            swapchain_id,
            render_pass_id,
            image_view_ids,
            framebuffer_ids,
            command_pool_id,
            command_buffer_ids,
            in_flight_fence_ids,
            image_available_ids,
            render_finished_ids,
            descriptor_set_layout_id: handles.descriptor_set_layout,
            pipeline_layout_id: handles.pipeline_layout,
            graphics_pipeline_id: handles.graphics_pipeline,
            buffer_id,
            memory_id,
            config,
            frames_in_flight: n,
            current_frame: 0,
            phase: FramePhase::Ready,
        })
    }

    /// Replace the swap chain after a window-size change.
    ///
    /// The shell first drains the device (`wait_idle`) and resets the
    /// command pool; both leave the set of owned objects unchanged. Then,
    /// leaves first, the framebuffers and image views are destroyed, the
    /// new chain is created with the old one passed as a retirement hint,
    /// the old chain is destroyed only after the new one exists, and the
    /// targets are rebuilt. The synchronization ring, the command buffers
    /// and the pipeline are not recreated.
    ///
    /// The ring keeps its length, so the renegotiated image count must
    /// equal the ring's: with unchanged capabilities it always does.
    #[verifier::loop_isolation(false)]
    #[verifier::rlimit(80)]
    pub fn recreate_swapchain(
        &mut self,
        caps: &SurfaceCaps,
        preferred_formats: &Option<Vec<PixelFormat>>,
        present_modes: &Vec<PresentMode>,
        window: Extent2d,
    ) -> (r: Result<(), SwapChainError>)
        requires
            old(self).wf(),
            old(self).live,
            old(self).phase is Ready,
            caps_wf(*caps),
            old(self).ledger.entries@.len() + 1 + 2 * old(self).frames_in_flight <= usize::MAX,
            ({
                let spec_formats = match *preferred_formats {
                    Some(v) => Some(v@),
                    None => None,
                };
                negotiated(*caps, spec_formats, present_modes@, window) matches Ok(c)
                    ==> c.image_count == old(self).frames_in_flight
            }),
        ensures
            ({
                let spec_formats = match *preferred_formats {
                    Some(v) => Some(v@),
                    None => None,
                };
                let deal = negotiated(*caps, spec_formats, present_modes@, window);
                &&& ((r is Ok) <==> (deal is Ok))
                &&& (r matches Err(e) ==> deal == Err::<SwapchainConfig, SwapChainError>(e)
                    && *final(self) == *old(self))
                &&& (r is Ok ==> {
                    &&& final(self).wf()
                    &&& final(self).live
                    &&& deal == Ok::<SwapchainConfig, SwapChainError>(final(self).config)
                    &&& final(self).frames_in_flight == old(self).frames_in_flight
                    &&& final(self).current_frame == old(self).current_frame
                    &&& final(self).phase is Ready
                    &&& final(self).image_view_ids@.len() == final(self).frames_in_flight
                    &&& final(self).framebuffer_ids@.len() == final(self).frames_in_flight
                    &&& final(self).command_buffer_ids@ == old(self).command_buffer_ids@
                    &&& final(self).in_flight_fence_ids@ == old(self).in_flight_fence_ids@
                    &&& final(self).image_available_ids@ == old(self).image_available_ids@
                    &&& final(self).render_finished_ids@ == old(self).render_finished_ids@
                    &&& final(self).graphics_pipeline_id == old(self).graphics_pipeline_id
                    &&& final(self).instance_id == old(self).instance_id
                    &&& final(self).surface_id == old(self).surface_id
                    &&& final(self).device_id == old(self).device_id
                    &&& final(self).render_pass_id == old(self).render_pass_id
                    &&& final(self).command_pool_id == old(self).command_pool_id
                    &&& final(self).descriptor_set_layout_id == old(self).descriptor_set_layout_id
                    &&& final(self).pipeline_layout_id == old(self).pipeline_layout_id
                    &&& final(self).buffer_id == old(self).buffer_id
                    &&& final(self).memory_id == old(self).memory_id
                    // everything but the chain, the views and the
                    // framebuffers keeps its ledger entry untouched
                    &&& (forall|j: int|
                        0 <= j < old(self).ledger.entries@.len() && j != old(self).swapchain_id
                            && !old(self).image_view_ids@.contains(j as usize)
                            && !old(self).framebuffer_ids@.contains(j as usize)
                            ==> final(self).ledger.entries@[j] == old(self).ledger.entries@[j])
                    &&& final(self).swapchain_id == old(self).ledger.entries@.len()
                    &&& !final(self).ledger.entries@[old(self).swapchain_id as int].alive
                    &&& final(self).ledger.teardown@ == old(self).ledger.teardown@
                        + old(self).framebuffer_ids@.reverse()
                        + old(self).image_view_ids@.reverse() + seq![old(self).swapchain_id]
                })
            }),
    {
        let config = match negotiate(caps, preferred_formats, present_modes, window) {
            Ok(c) => c,
            Err(e) => {
                return Err(e);
            },
        };
        let n = self.frames_in_flight;
        let ghost orig_entries = self.ledger.entries@;
        let ghost orig_teardown = self.ledger.teardown@;
        let ghost old_fbs = self.framebuffer_ids@;
        let ghost old_views = self.image_view_ids@;

        // destroy the leaves first: framebuffers, newest first
        let mut j: usize = n;
        while j > 0
            invariant
                j <= n,
                n == self.frames_in_flight,
                old(self).targets_wf(),
                self.framebuffer_ids@ == old_fbs,
                self.image_view_ids@ == old_views,
                self.swapchain_id == old(self).swapchain_id,
                self.frames_in_flight == old(self).frames_in_flight,
                old_fbs.len() == n,
                old_views.len() == n,
                self.ledger.entries@.len() == orig_entries.len(),
                forall|i: int|
                    0 <= i < j ==> self.ledger.entries@[#[trigger] old_fbs[i] as int]
                        == orig_entries[old_fbs[i] as int],
                forall|i: int|
                    j <= i < n ==> !self.ledger.entries@[#[trigger] old_fbs[i] as int].alive,
                forall|i: int|
                    0 <= i < n ==> self.ledger.entries@[#[trigger] old_views[i] as int]
                        == orig_entries[old_views[i] as int],
                self.ledger.entries@[self.swapchain_id as int] == orig_entries[self.swapchain_id as int],
                self.live == old(self).live,
                self.phase == old(self).phase,
                self.current_frame == old(self).current_frame,
                self.command_buffer_ids@ == old(self).command_buffer_ids@,
                self.in_flight_fence_ids@ == old(self).in_flight_fence_ids@,
                self.image_available_ids@ == old(self).image_available_ids@,
                self.render_finished_ids@ == old(self).render_finished_ids@,
                self.graphics_pipeline_id == old(self).graphics_pipeline_id,
                self.instance_id == old(self).instance_id,
                self.surface_id == old(self).surface_id,
                self.device_id == old(self).device_id,
                self.render_pass_id == old(self).render_pass_id,
                self.command_pool_id == old(self).command_pool_id,
                self.descriptor_set_layout_id == old(self).descriptor_set_layout_id,
                self.pipeline_layout_id == old(self).pipeline_layout_id,
                self.buffer_id == old(self).buffer_id,
                self.memory_id == old(self).memory_id,
                forall|k: int|
                    0 <= k < orig_entries.len() && !old_fbs.contains(k as usize)
                        ==> self.ledger.entries@[k] == orig_entries[k],
                self.ledger.teardown@ == orig_teardown + old_fbs.subrange(j as int, n as int).reverse(),
            decreases j,
        {
            j = j - 1;
            let fb = self.framebuffer_ids[j];
            self.ledger.release(fb);
            proof {
                assert(old_fbs.contains(old_fbs[j as int]));
                assert(old_fbs.subrange(j as int, n as int).reverse() =~= old_fbs.subrange(
                    j + 1 as int,
                    n as int,
                ).reverse().push(old_fbs[j as int]));
            }
        }
        // then the image views, newest first
        let mut j: usize = n;
        while j > 0
            invariant
                j <= n,
                n == self.frames_in_flight,
                old(self).targets_wf(),
                self.framebuffer_ids@ == old_fbs,
                self.image_view_ids@ == old_views,
                self.swapchain_id == old(self).swapchain_id,
                self.frames_in_flight == old(self).frames_in_flight,
                old_fbs.len() == n,
                old_views.len() == n,
                self.ledger.entries@.len() == orig_entries.len(),
                forall|i: int|
                    0 <= i < j ==> self.ledger.entries@[#[trigger] old_views[i] as int]
                        == orig_entries[old_views[i] as int],
                forall|i: int|
                    j <= i < n ==> !self.ledger.entries@[#[trigger] old_views[i] as int].alive,
                self.ledger.entries@[self.swapchain_id as int] == orig_entries[self.swapchain_id as int],
                self.live == old(self).live,
                self.phase == old(self).phase,
                self.current_frame == old(self).current_frame,
                self.command_buffer_ids@ == old(self).command_buffer_ids@,
                self.in_flight_fence_ids@ == old(self).in_flight_fence_ids@,
                self.image_available_ids@ == old(self).image_available_ids@,
                self.render_finished_ids@ == old(self).render_finished_ids@,
                self.graphics_pipeline_id == old(self).graphics_pipeline_id,
                self.instance_id == old(self).instance_id,
                self.surface_id == old(self).surface_id,
                self.device_id == old(self).device_id,
                self.render_pass_id == old(self).render_pass_id,
                self.command_pool_id == old(self).command_pool_id,
                self.descriptor_set_layout_id == old(self).descriptor_set_layout_id,
                self.pipeline_layout_id == old(self).pipeline_layout_id,
                self.buffer_id == old(self).buffer_id,
                self.memory_id == old(self).memory_id,
                forall|k: int|
                    0 <= k < orig_entries.len() && !old_fbs.contains(k as usize)
                        && !old_views.contains(k as usize) ==> self.ledger.entries@[k]
                        == orig_entries[k],
                self.ledger.teardown@ == orig_teardown + old_fbs.reverse() + old_views.subrange(
                    j as int,
                    n as int,
                ).reverse(),
            decreases j,
        {
            j = j - 1;
            let view = self.image_view_ids[j];
            self.ledger.release(view);
            proof {
                assert(old_views.contains(old_views[j as int]));
                assert(old_views.subrange(j as int, n as int).reverse() =~= old_views.subrange(
                    j + 1 as int,
                    n as int,
                ).reverse().push(old_views[j as int]));
            }
        }
        // the new chain is created first, with the old chain as a
        // retirement hint; only then is the old chain destroyed
        let ghost after_release = self.ledger.entries@;
        let new_swapchain_id = self.ledger.register(ResourceKind::Swapchain);
        let ghost after_register = self.ledger.entries@;
        let old_swapchain_id = self.swapchain_id;
        self.ledger.release(old_swapchain_id);

        let ghost before_targets = self.ledger.entries@;
        let all_ok = all_true(n);
        let (new_views, new_fbs) = match build_targets(&mut self.ledger, n, &all_ok, &all_ok) {
            Ok(pair) => pair,
            Err(_) => {
                return unreached();
            },
        };

        self.swapchain_id = new_swapchain_id;
        self.image_view_ids = new_views;
        self.framebuffer_ids = new_fbs;
        self.config = config;

        proof {
            let nn = n as int;
            let tb = before_targets.len() as int;
            assert(self.ledger.entries@[new_swapchain_id as int].alive);
            assert forall|i: int|
                0 <= i < nn implies self.ledger.entries@[
                #[trigger] self.image_view_ids@[i] as int].alive by {
                assert(self.image_view_ids@[i] == tb + i);
            };
            assert forall|i: int|
                0 <= i < nn implies self.ledger.entries@[
                #[trigger] self.framebuffer_ids@[i] as int].alive by {
                assert(self.framebuffer_ids@[i] == tb + nn + i);
            };
            assert(self.ledger.teardown@ =~= old(self).ledger.teardown@
                + old(self).framebuffer_ids@.reverse() + old(self).image_view_ids@.reverse()
                + seq![old(self).swapchain_id]);
            // nothing but the chain, views and framebuffers was touched
            assert forall|k: int|
                0 <= k < orig_entries.len() && k != old_swapchain_id as int && !old_views.contains(
                    k as usize,
                ) && !old_fbs.contains(k as usize) implies self.ledger.entries@[k]
                == orig_entries[k] by {
                assert(after_release[k] == orig_entries[k]);
                assert(after_register[k] == after_release[k]);
                assert(before_targets[k] == after_register[k]);
                assert(self.ledger.entries@[k] == before_targets[k]);
            };
            // the kept ids lie below the fresh ones, so they avoid the
            // replacements too
            assert forall|x: usize| x < tb implies !self.image_view_ids@.contains(x)
                && !self.framebuffer_ids@.contains(x) by {
                assert(forall|i: int| 0 <= i < nn ==> self.image_view_ids@[i] != x);
                assert(forall|i: int| 0 <= i < nn ==> self.framebuffer_ids@[i] != x);
            };
            assert(old(self).fixed_ids_wf());
            assert(self.ledger.entries@.len() == tb + 2 * nn);
        }
        Ok(())
    }

    /// `self` with another phase, all else equal.
    pub open spec fn with_phase(self, phase: FramePhase) -> HalState {
        HalState { phase, ..self }
    }

    /// `self` with another phase and the rotation advanced by one slot.
    pub open spec fn with_phase_advanced(self, phase: FramePhase) -> HalState {
        HalState { phase, current_frame: self.spec_next_slot(), ..self }
    }

    /// The rotation slot after the current one.
    pub open spec fn spec_next_slot(self) -> usize {
        ((self.current_frame as int + 1) % (self.frames_in_flight as int)) as usize
    }

    /// Which rotation slot's image-available semaphore acquisition must
    /// signal: the current frame's, not the acquired image's.
    pub fn acquire_slot(&self) -> (slot: usize)
        requires
            self.wf(),
            self.live,
            self.phase is Ready,
        ensures
            slot == self.current_frame,
            slot < self.frames_in_flight,
    {
        self.current_frame
    }

    /// Feed back what acquisition reported. Out-of-date is no error: the
    /// frame is skipped, nothing advances, and the caller must recreate the
    /// chain before drawing again.
    pub fn on_acquire(&mut self, outcome: AcquireOutcome) -> (recreate: bool)
        requires
            old(self).wf(),
            old(self).live,
            old(self).phase is Ready,
            outcome matches AcquireOutcome::Image(i) ==> i < old(self).frames_in_flight,
        ensures
            final(self).wf(),
            outcome matches AcquireOutcome::Image(i) ==> !recreate && *final(self) == old(
                self,
            ).with_phase(FramePhase::Acquired { image: i }),
            outcome is OutOfDate ==> recreate && *final(self) == *old(self),
    {
        match outcome {
            AcquireOutcome::Image(i) => {
                self.phase = FramePhase::Acquired { image: i };
                false
            },
            AcquireOutcome::OutOfDate => true,
        }
    }

    /// The index of the fence to wait on and reset: the acquired image's
    /// index, not the rotation slot, because the presentation engine may
    /// hand images back out of rotation order.
    pub fn wait_fence_index(&self) -> (fence: usize)
        requires
            self.wf(),
            self.live,
            self.phase matches FramePhase::Acquired { .. },
        ensures
            self.phase matches FramePhase::Acquired { image } ==> fence == image,
            fence < self.frames_in_flight,
    {
        match self.phase {
            FramePhase::Acquired { image } => image,
            _ => unreached(),
        }
    }

    /// Feed back the fence wait. A wait that exceeded its bound and a lost
    /// device are distinct errors; either aborts the frame and advances the
    /// rotation past the slot whose semaphore acquisition signaled.
    pub fn on_fence(&mut self, outcome: FenceOutcome) -> (r: Result<(), FrameError>)
        requires
            old(self).wf(),
            old(self).live,
            old(self).phase matches FramePhase::Acquired { .. },
        ensures
            final(self).wf(),
            old(self).phase matches FramePhase::Acquired { image } ==> match outcome {
                FenceOutcome::Signaled => r == Ok::<(), FrameError>(()) && *final(self) == old(
                    self,
                ).with_phase(FramePhase::Cleared { image }),
                FenceOutcome::TimedOut => r == Err::<(), FrameError>(FrameError::FenceTimeout)
                    && *final(self) == old(self).with_phase_advanced(FramePhase::Ready),
                FenceOutcome::DeviceLost => r == Err::<(), FrameError>(FrameError::DeviceLost)
                    && *final(self) == old(self).with_phase_advanced(FramePhase::Ready),
            },
    {
        let image = match self.phase {
            FramePhase::Acquired { image } => image,
            _ => unreached(),
        };
        match outcome {
            FenceOutcome::Signaled => {
                self.phase = FramePhase::Cleared { image };
                Ok(())
            },
            FenceOutcome::TimedOut => {
                self.phase = FramePhase::Ready;
                self.current_frame = (self.current_frame + 1) % self.frames_in_flight;
                Err(FrameError::FenceTimeout)
            },
            FenceOutcome::DeviceLost => {
                self.phase = FramePhase::Ready;
                self.current_frame = (self.current_frame + 1) % self.frames_in_flight;
                Err(FrameError::DeviceLost)
            },
        }
    }

    /// What to record into the acquired image's command buffer: its
    /// framebuffer, the full render area, the clear, and for a triangle
    /// frame one non-indexed draw of 3 vertices and 1 instance.
    pub fn record_plan(&mut self, content: &FrameContent) -> (p: RecordPlan)
        requires
            old(self).wf(),
            old(self).live,
            old(self).phase matches FramePhase::Cleared { .. },
        ensures
            final(self).wf(),
            old(self).phase matches FramePhase::Cleared { image } ==> {
                &&& *final(self) == old(self).with_phase(FramePhase::Recorded { image })
                &&& p.image == image
                &&& p.render_area == old(self).config.extent
                &&& match *content {
                    FrameContent::Clear(c) => p.clear == c && p.draw is None,
                    FrameContent::Tri(c, t) => p.clear == c && (p.draw matches Some(d)
                        && d.vertex_count == 3 && d.instance_count == 1 && d.vertices@ == seq![
                        t.points@[0].x,
                        t.points@[0].y,
                        t.points@[1].x,
                        t.points@[1].y,
                        t.points@[2].x,
                        t.points@[2].y,
                    ]),
                }
            },
    {
        let image = match self.phase {
            FramePhase::Cleared { image } => image,
            _ => unreached(),
        };
        let plan = match content {
            FrameContent::Clear(c) => RecordPlan {
                image,
                render_area: self.config.extent,
                clear: *c,
                draw: None,
            },
            FrameContent::Tri(c, t) => RecordPlan {
                image,
                render_area: self.config.extent,
                clear: *c,
                draw: Some(
                    DrawCall { vertex_count: 3, instance_count: 1, vertices: t.points_flat() },
                ),
            },
        };
        self.phase = FramePhase::Recorded { image };
        plan
    }

    /// How to submit: the acquired image's command buffer, gated on the
    /// current rotation slot's semaphores, arming the acquired image's
    /// fence. Fence and buffer follow the image; the semaphores follow the
    /// slot.
    pub fn submit_plan(&mut self) -> (p: SubmitPlan)
        requires
            old(self).wf(),
            old(self).live,
            old(self).phase matches FramePhase::Recorded { .. },
        ensures
            final(self).wf(),
            old(self).phase matches FramePhase::Recorded { image } ==> {
                &&& *final(self) == old(self).with_phase(FramePhase::Submitted { image })
                &&& p.command_buffer == image
                &&& p.fence == image
                &&& p.wait_slot == old(self).current_frame
                &&& p.signal_slot == old(self).current_frame
            },
    {
        let image = match self.phase {
            FramePhase::Recorded { image } => image,
            _ => unreached(),
        };
        self.phase = FramePhase::Submitted { image };
        SubmitPlan {
            command_buffer: image,
            wait_slot: self.current_frame,
            signal_slot: self.current_frame,
            fence: image,
        }
    }

    /// How to present: the acquired image, waiting on the current slot's
    /// render-finished semaphore.
    pub fn present_plan(&self) -> (p: PresentPlan)
        requires
            self.wf(),
            self.live,
            self.phase matches FramePhase::Submitted { .. },
        ensures
            self.phase matches FramePhase::Submitted { image } ==> p == (PresentPlan {
                image,
                wait_slot: self.current_frame,
            }),
    {
        let image = match self.phase {
            FramePhase::Submitted { image } => image,
            _ => unreached(),
        };
        PresentPlan { image, wait_slot: self.current_frame }
    }

    /// Feed back the present result and advance the rotation. A suboptimal
    /// or out-of-date present is a soft success whose `true` asks for a
    /// recreation soon; only a hard failure is an error.
    pub fn on_present(&mut self, outcome: PresentOutcome) -> (r: Result<bool, FrameError>)
        requires
            old(self).wf(),
            old(self).live,
            old(self).phase matches FramePhase::Submitted { .. },
        ensures
            final(self).wf(),
            *final(self) == old(self).with_phase_advanced(FramePhase::Ready),
            match outcome {
                PresentOutcome::Complete => r == Ok::<bool, FrameError>(false),
                PresentOutcome::Suboptimal => r == Ok::<bool, FrameError>(true),
                PresentOutcome::OutOfDate => r == Ok::<bool, FrameError>(true),
                PresentOutcome::Failed => r == Err::<bool, FrameError>(FrameError::PresentFailed),
            },
    {
        self.phase = FramePhase::Ready;
        self.current_frame = (self.current_frame + 1) % self.frames_in_flight;
        match outcome {
            PresentOutcome::Complete => Ok(false),
            PresentOutcome::Suboptimal => Ok(true),
            PresentOutcome::OutOfDate => Ok(true),
            PresentOutcome::Failed => Err(FrameError::PresentFailed),
        }
    }

    /// Run one whole frame that only clears the screen, with the three
    /// outside outcomes (acquisition, fence wait, present) given; a
    /// completed run returns the plans it decided.
    ///
    /// Out-of-date acquisition skips the frame without error and without
    /// advancing the rotation; any other completed attempt advances it.
    pub fn draw_clear_frame(
        &mut self,
        color: ColorMilli,
        acquire: AcquireOutcome,
        fence: FenceOutcome,
        present: PresentOutcome,
    ) -> (r: Result<FrameRun, FrameError>)
        requires
            old(self).wf(),
            old(self).live,
            old(self).phase is Ready,
            acquire matches AcquireOutcome::Image(i) ==> i < old(self).frames_in_flight,
        ensures
            final(self).wf(),
            final(self).live,
            final(self).phase is Ready,
            final(self).config == old(self).config,
            final(self).frames_in_flight == old(self).frames_in_flight,
            final(self).ledger == old(self).ledger,
            acquire is OutOfDate ==> (r matches Ok(run) && run.report
                == FrameReport::SkippedOutOfDate && run.plans is None) && *final(self) == *old(
                self,
            ),
            acquire is Image ==> final(self).current_frame == old(self).spec_next_slot(),
            acquire is Image && fence == FenceOutcome::TimedOut ==> r == Err::<
                FrameRun,
                FrameError,
            >(FrameError::FenceTimeout),
            acquire is Image && fence == FenceOutcome::DeviceLost ==> r == Err::<
                FrameRun,
                FrameError,
            >(FrameError::DeviceLost),
            acquire is Image && fence == FenceOutcome::Signaled ==> match present {
                PresentOutcome::Complete => r matches Ok(run) && run.report
                    == FrameReport::Presented,
                PresentOutcome::Suboptimal => r matches Ok(run) && run.report
                    == FrameReport::PresentedSuboptimal,
                PresentOutcome::OutOfDate => r matches Ok(run) && run.report
                    == FrameReport::PresentedSuboptimal,
                PresentOutcome::Failed => r == Err::<FrameRun, FrameError>(
                    FrameError::PresentFailed,
                ),
            },
            // the plans a completed run handed the shell: fence and command
            // buffer by acquired image, semaphores by rotation slot
            r matches Ok(run) ==> (acquire is Image && fence == FenceOutcome::Signaled ==> {
                let i = acquire->0;
                run.plans matches Some(p) && {
                    &&& p.record.image == i
                    &&& p.record.render_area == old(self).config.extent
                    &&& p.record.clear == color
                    &&& p.record.draw is None
                    &&& p.submit == (SubmitPlan {
                        command_buffer: i,
                        wait_slot: old(self).current_frame,
                        signal_slot: old(self).current_frame,
                        fence: i,
                    })
                    &&& p.present == (PresentPlan { image: i, wait_slot: old(self).current_frame })
                }
            }),
    {
        let recreate = self.on_acquire(acquire);
        if recreate {
            return Ok(FrameRun { report: FrameReport::SkippedOutOfDate, plans: None });
        }
        let _fence_index = self.wait_fence_index();
        match self.on_fence(fence) {
            Ok(_) => {},
            Err(e) => {
                return Err(e);
            },
        }
        let record = self.record_plan(&FrameContent::Clear(color));
        let submit = self.submit_plan();
        let to_present = self.present_plan();
        let plans = Some(FramePlans { record, submit, present: to_present });
        match self.on_present(present) {
            Ok(false) => Ok(FrameRun { report: FrameReport::Presented, plans }),
            Ok(true) => Ok(FrameRun { report: FrameReport::PresentedSuboptimal, plans }),
            Err(e) => Err(e),
        }
    }

    /// Run one whole frame that clears to the fixed triangle-frame color
    /// and draws the triangle, with the three outside outcomes given; a
    /// completed run returns the plans it decided.
    pub fn draw_triangle_frame(
        &mut self,
        triangle: Triangle,
        acquire: AcquireOutcome,
        fence: FenceOutcome,
        present: PresentOutcome,
    ) -> (r: Result<FrameRun, FrameError>)
        requires
            old(self).wf(),
            old(self).live,
            old(self).phase is Ready,
            acquire matches AcquireOutcome::Image(i) ==> i < old(self).frames_in_flight,
        ensures
            final(self).wf(),
            final(self).live,
            final(self).phase is Ready,
            final(self).config == old(self).config,
            final(self).frames_in_flight == old(self).frames_in_flight,
            final(self).ledger == old(self).ledger,
            acquire is OutOfDate ==> (r matches Ok(run) && run.report
                == FrameReport::SkippedOutOfDate && run.plans is None) && *final(self) == *old(
                self,
            ),
            acquire is Image ==> final(self).current_frame == old(self).spec_next_slot(),
            acquire is Image && fence == FenceOutcome::TimedOut ==> r == Err::<
                FrameRun,
                FrameError,
            >(FrameError::FenceTimeout),
            acquire is Image && fence == FenceOutcome::DeviceLost ==> r == Err::<
                FrameRun,
                FrameError,
            >(FrameError::DeviceLost),
            acquire is Image && fence == FenceOutcome::Signaled ==> match present {
                PresentOutcome::Complete => r matches Ok(run) && run.report
                    == FrameReport::Presented,
                PresentOutcome::Suboptimal => r matches Ok(run) && run.report
                    == FrameReport::PresentedSuboptimal,
                PresentOutcome::OutOfDate => r matches Ok(run) && run.report
                    == FrameReport::PresentedSuboptimal,
                PresentOutcome::Failed => r == Err::<FrameRun, FrameError>(
                    FrameError::PresentFailed,
                ),
            },
            // the plans a completed run handed the shell: fence and command
            // buffer by acquired image, semaphores by rotation slot
            r matches Ok(run) ==> (acquire is Image && fence == FenceOutcome::Signaled ==> {
                let i = acquire->0;
                run.plans matches Some(p) && {
                    &&& p.record.image == i
                    &&& p.record.render_area == old(self).config.extent
                    &&& p.record.clear == spec_triangle_clear_color()
                    &&& (p.record.draw matches Some(d) && d.vertex_count == 3
                        && d.instance_count == 1 && d.vertices@ == spec_points_flat(triangle))
                    &&& p.submit == (SubmitPlan {
                        command_buffer: i,
                        wait_slot: old(self).current_frame,
                        signal_slot: old(self).current_frame,
                        fence: i,
                    })
                    &&& p.present == (PresentPlan { image: i, wait_slot: old(self).current_frame })
                }
            }),
    {
        let recreate = self.on_acquire(acquire);
        if recreate {
            return Ok(FrameRun { report: FrameReport::SkippedOutOfDate, plans: None });
        }
        let _fence_index = self.wait_fence_index();
        match self.on_fence(fence) {
            Ok(_) => {},
            Err(e) => {
                return Err(e);
            },
        }
        let clear = triangle_clear_color();
        let record = self.record_plan(&FrameContent::Tri(clear, triangle));
        let submit = self.submit_plan();
        let to_present = self.present_plan();
        let plans = Some(FramePlans { record, submit, present: to_present });
        match self.on_present(present) {
            Ok(false) => Ok(FrameRun { report: FrameReport::Presented, plans }),
            Ok(true) => Ok(FrameRun { report: FrameReport::PresentedSuboptimal, plans }),
            Err(e) => Err(e),
        }
    }

    /// Tear everything down: wait for the device to go idle, then release
    /// every live object in reverse creation order, exactly once.
    ///
    /// A second call finds the renderer already shut down and changes
    /// nothing: shutting down twice cannot double-free.
    pub fn shutdown(&mut self)
        ensures
            !final(self).live,
            old(self).wf() ==> final(self).wf(),
            !old(self).live ==> *final(self) == *old(self),
            old(self).live ==> *final(self) == (HalState {
                live: false,
                ledger: final(self).ledger,
                ..*old(self)
            }),
            old(self).live ==> {
                &&& final(self).ledger.entries@.len() == old(self).ledger.entries@.len()
                &&& (forall|j: int|
                    0 <= j < old(self).ledger.entries@.len() ==> final(self).ledger.entries@[j]
                        == (LedgerEntry {
                        kind: old(self).ledger.entries@[j].kind,
                        alive: false,
                    }))
                &&& final(self).ledger.teardown@ == old(self).ledger.teardown@
                    + Ledger::rev_live_from(old(self).ledger.entries@, 0)
            },
    {
        if !self.live {
            return ;
        }
        self.ledger.release_all();
        self.live = false;
    }
}

/// A vector of `n` trues: the all-succeeded verdict for a batch.
fn all_true(n: usize) -> (r: Vec<bool>)
    ensures
        r@.len() == n,
        forall|i: int| 0 <= i < n ==> r@[i],
{
    let mut v: Vec<bool> = Vec::new();
    let mut k: usize = 0;
    while k < n
        invariant
            k <= n,
            v@.len() == k,
            forall|i: int| 0 <= i < k ==> v@[i],
        decreases n - k,
    {
        v.push(true);
        k = k + 1;
    }
    v
}

/// One steady-state loop iteration's draw: build the triangle whose third
/// vertex tracks the pointer as a fraction of the frame size, and run the
/// triangle frame on it. A completed run's plan records exactly that
/// triangle's six coordinates.
pub fn render(
    hal: &mut HalState,
    local: &LocalState,
    acquire: AcquireOutcome,
    fence: FenceOutcome,
    present: PresentOutcome,
) -> (r: Result<FrameRun, FrameError>)
    requires
        old(hal).wf(),
        old(hal).live,
        old(hal).phase is Ready,
        local.frame_width > 0,
        local.frame_height > 0,
        acquire matches AcquireOutcome::Image(i) ==> i < old(hal).frames_in_flight,
    ensures
        final(hal).wf(),
        final(hal).live,
        final(hal).phase is Ready,
        final(hal).config == old(hal).config,
        final(hal).frames_in_flight == old(hal).frames_in_flight,
        final(hal).ledger == old(hal).ledger,
        acquire is OutOfDate ==> (r matches Ok(run) && run.report
            == FrameReport::SkippedOutOfDate && run.plans is None) && *final(hal) == *old(hal),
        acquire is Image ==> final(hal).current_frame == old(hal).spec_next_slot(),
        acquire is Image && fence == FenceOutcome::TimedOut ==> r == Err::<
            FrameRun,
            FrameError,
        >(FrameError::FenceTimeout),
        acquire is Image && fence == FenceOutcome::DeviceLost ==> r == Err::<
            FrameRun,
            FrameError,
        >(FrameError::DeviceLost),
        acquire is Image && fence == FenceOutcome::Signaled ==> match present {
            PresentOutcome::Complete => r matches Ok(run) && run.report
                == FrameReport::Presented,
            PresentOutcome::Suboptimal => r matches Ok(run) && run.report
                == FrameReport::PresentedSuboptimal,
            PresentOutcome::OutOfDate => r matches Ok(run) && run.report
                == FrameReport::PresentedSuboptimal,
            PresentOutcome::Failed => r == Err::<FrameRun, FrameError>(
                FrameError::PresentFailed,
            ),
        },
        // the plans a completed run handed the shell: fence and command
        // buffer by acquired image, semaphores by rotation slot
        r matches Ok(run) ==> (acquire is Image && fence == FenceOutcome::Signaled ==> {
            let i = acquire->0;
            run.plans matches Some(p) && {
                &&& p.record.image == i
                &&& p.record.render_area == old(hal).config.extent
                &&& p.record.clear == spec_triangle_clear_color()
                &&& (p.record.draw matches Some(d) && d.vertex_count == 3
                    && d.instance_count == 1 && d.vertices@ == spec_points_flat(
                    spec_triangle_for(*local),
                ))
                &&& p.submit == (SubmitPlan {
                    command_buffer: i,
                    wait_slot: old(hal).current_frame,
                    signal_slot: old(hal).current_frame,
                    fence: i,
                })
                &&& p.present == (PresentPlan { image: i, wait_slot: old(hal).current_frame })
            }
        }),
{
    let triangle = triangle_for(local);
    hal.draw_triangle_frame(triangle, acquire, fence, present)
}

} // verus!
