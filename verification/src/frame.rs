use vstd::prelude::*;
use crate::config::{AdapterInfo, SurfaceConfig};
use crate::context::{fresh_renderer, reconfigured, resized, some_capable, Renderer};

verus! {

/// Nanoseconds the loop sleeps after every redraw before requesting the
/// next one: a fixed frame-rate ceiling of thirty frames per second,
/// needed because immediate presentation performs no pacing of its own.
pub const FRAME_INTERVAL_NANOS: u64 = 33_333_333;

/// The outcome of acquiring the next drawable image from the surface, as
/// the platform layer reports it.
#[derive(Clone, Copy, Debug, PartialEq, Eq, Structural)]
pub enum AcquireResult {
    /// An image was acquired and can be drawn into and presented.
    Success,
    /// The surface was lost; it must be reconfigured before the next
    /// acquisition can succeed.
    Lost,
    /// The GPU is out of memory; unrecoverable.
    OutOfMemory,
    /// Any other acquisition error; the frame is skipped.
    Other,
}

/// What the event loop's control flow is set to after an event: keep
/// waiting for events, or terminate.
#[derive(Clone, Copy, Debug, PartialEq, Eq, Structural)]
pub enum LoopControl {
    Wait,
    Exit,
}

/// The clear color of the render pass, with channels in 0..=255;
/// 255 is a fully saturated channel.
#[derive(Clone, Copy, Debug, PartialEq, Eq, Structural)]
pub struct ClearColor {
    pub r: u8,
    pub g: u8,
    pub b: u8,
    pub a: u8,
}

/// The one draw call of the render pass: `vertex_count` vertices from
/// `first_vertex`, `instance_count` instances from `first_instance`,
/// with no index or vertex buffer.
#[derive(Clone, Copy, Debug, PartialEq, Eq, Structural)]
pub struct DrawCall {
    pub first_vertex: u32,
    pub vertex_count: u32,
    pub first_instance: u32,
    pub instance_count: u32,
}

/// One frame's worth of commands: a single render pass that clears the
/// color attachment and issues one draw call with the bound pipeline.
/// The platform layer records these into a command buffer, submits it,
/// and only then presents the acquired image — in that order.
#[derive(Clone, Copy, Debug, PartialEq, Eq, Structural)]
pub struct FrameCommands {
    pub clear: ClearColor,
    pub draw: DrawCall,
}

/// The commands of every frame: clear to opaque black, then draw the
/// six-vertex quad once (vertices 0..6, one instance).
pub open spec fn quad_frame_commands() -> FrameCommands {
    FrameCommands {
        clear: ClearColor { r: 0, g: 0, b: 0, a: 255 },
        draw: DrawCall {
            first_vertex: 0,
            vertex_count: 6,
            first_instance: 0,
            instance_count: 1,
        },
    }
}

/// What the platform layer must do to its GPU resources after a redraw
/// decision.
#[derive(Clone, Copy, Debug, PartialEq, Eq, Structural)]
pub enum FrameAction {
    /// Record, submit and present one frame with these commands.
    Render(FrameCommands),
    /// Reapply this configuration to the surface; present nothing.
    Reconfigure(SurfaceConfig),
    /// Do nothing to the GPU this cycle.
    Skip,
}

/// Everything a redraw decision tells the platform layer: what to do with
/// the GPU, how long to sleep before the next redraw, and whether to
/// request one.
#[derive(Clone, Copy, Debug, PartialEq, Eq, Structural)]
pub struct RedrawOutcome {
    pub action: FrameAction,
    /// Nanoseconds to sleep before requesting the next redraw.
    pub sleep_nanos: u64,
    /// Whether to request another redraw; the loop is self-sustaining.
    pub request_redraw: bool,
}

/// Whether the loop holds a live GPU context. Modeled as a tagged variant
/// so that "context missing" is matched exhaustively rather than assumed
/// away at each use.
#[derive(Clone, Copy, Debug, PartialEq, Eq, Structural)]
pub enum RendererState {
    Uninitialized,
    Active(Renderer),
}

/// The frame loop controller: the event loop's state machine. It owns the
/// context state, the loop's control flow, the initialization policy, and
/// the pacing interval; the platform layer feeds it one event at a time
/// and mirrors each decision onto the OS window and the GPU.
#[derive(Clone, Copy, Debug, PartialEq, Eq, Structural)]
pub struct FrameLoop {
    /// Whether context creation is deferred until the first resume event
    /// (mobile-style platforms, where the native surface is invalid
    /// before then) rather than performed at startup. Resolved once.
    pub defer_init: bool,
    pub state: RendererState,
    pub control: LoopControl,
    /// Minimum nanoseconds between redraws.
    pub frame_interval_nanos: u64,
}

impl FrameLoop {
    /// A controller fresh at startup: no context yet, waiting for events,
    /// with the given initialization policy and the default pacing
    /// interval.
    pub fn new(defer_init: bool) -> (l: FrameLoop)
        ensures
            l.defer_init == defer_init,
            l.state is Uninitialized,
            l.control is Wait,
            l.frame_interval_nanos == FRAME_INTERVAL_NANOS,
    {
        FrameLoop {
            defer_init,
            state: RendererState::Uninitialized,
            control: LoopControl::Wait,
            frame_interval_nanos: FRAME_INTERVAL_NANOS,
        }
    }

    /// Whether the platform layer should create the context right at
    /// startup: exactly when initialization is not deferred to the first
    /// resume event.
    pub fn init_at_startup(&self) -> (b: bool)
        ensures
            b == !self.defer_init,
    {
        !self.defer_init
    }

    /// A resume event: (re)create the context unconditionally — even when
    /// one exists it is dropped and replaced, since suspension may have
    /// invalidated the native surface. `width`/`height` are the window's
    /// current dimensions and `adapters` the platform's fresh adapter
    /// enumeration. Returns whether creation succeeded; `false` (no
    /// capable adapter) is fatal to the caller, and the prior state is
    /// left as it was.
    pub fn handle_resumed(&mut self, width: u32, height: u32, adapters: &Vec<AdapterInfo>) -> (ok:
        bool)
        ensures
            final(self).defer_init == old(self).defer_init,
            final(self).frame_interval_nanos == old(self).frame_interval_nanos,
            final(self).control is Wait,
            ok == some_capable(adapters@),
            ok ==> (final(self).state matches RendererState::Active(ren) && fresh_renderer(
                width,
                height,
                adapters@,
                ren,
            )),
            !ok ==> final(self).state == old(self).state,
    {
        self.control = LoopControl::Wait;
        match Renderer::new(width, height, adapters) {
            Some(ren) => {
                self.state = RendererState::Active(ren);
                true
            },
            None => false,
        }
    }

    /// A close request: set the loop's control flow to terminate. The
    /// context state is left untouched.
    pub fn handle_close_requested(&mut self)
        ensures
            *final(self) == (FrameLoop { control: LoopControl::Exit, ..*old(self) }),
    {
        self.control = LoopControl::Exit;
    }

    /// A suspend event: recorded only. The context is retained as it is;
    /// the next resume rebuilds it wholesale.
    pub fn handle_suspended(&mut self)
        ensures
            *final(self) == (FrameLoop { control: LoopControl::Wait, ..*old(self) }),
    {
        self.control = LoopControl::Wait;
    }

    /// A window resize to `width` x `height`: forwarded to the context.
    /// Returns the configuration the platform layer must reapply to the
    /// surface, or nothing when the resize was a degenerate no-op.
    pub fn handle_resized(&mut self, width: u32, height: u32) -> (apply: Option<SurfaceConfig>)
        requires
            old(self).state is Active,
        ensures
            final(self).defer_init == old(self).defer_init,
            final(self).frame_interval_nanos == old(self).frame_interval_nanos,
            final(self).control is Wait,
            old(self).state matches RendererState::Active(r) ==> final(self).state
                == RendererState::Active(resized(r, width, height)),
            width == 0 || height == 0 ==> apply is None && final(self).state == old(self).state,
            old(self).state matches RendererState::Active(r) ==> ((width > 0 && height > 0)
                ==> apply == Some(resized(r, width, height).config)),
    {
        self.control = LoopControl::Wait;
        match &mut self.state {
            RendererState::Active(r) => {
                r.resize(width, height);
                if width > 0 && height > 0 {
                    Some(r.config)
                } else {
                    None
                }
            },
            RendererState::Uninitialized => Option::None,
        }
    }

    /// A scale-factor change: the platform hands over the recomputed
    /// physical size, which is treated exactly like a resize.
    pub fn handle_scale_factor_changed(&mut self, width: u32, height: u32) -> (apply: Option<
        SurfaceConfig,
    >)
        requires
            old(self).state is Active,
        ensures
            final(self).defer_init == old(self).defer_init,
            final(self).frame_interval_nanos == old(self).frame_interval_nanos,
            final(self).control is Wait,
            old(self).state matches RendererState::Active(r) ==> final(self).state
                == RendererState::Active(resized(r, width, height)),
            width == 0 || height == 0 ==> apply is None && final(self).state == old(self).state,
            old(self).state matches RendererState::Active(r) ==> ((width > 0 && height > 0)
                ==> apply == Some(resized(r, width, height).config)),
    {
        self.handle_resized(width, height)
    }

    /// A redraw opportunity, decided on the acquisition outcome the
    /// platform layer reports:
    ///
    /// - success: render one frame (clear to opaque black, draw the
    ///   six-vertex quad once); the context is unchanged;
    /// - surface lost: reapply the held configuration — exactly one
    ///   reconfigure, no render, and the loop keeps waiting so the next
    ///   redraw retries naturally;
    /// - out of memory: unrecoverable — the control flow becomes `Exit`
    ///   and no draw is issued;
    /// - any other error: skip the frame with no state change.
    ///
    /// Whatever the outcome, the loop sleeps the pacing interval and
    /// requests another redraw.
    pub fn handle_redraw_requested(&mut self, acquired: AcquireResult) -> (out: RedrawOutcome)
        requires
            old(self).state is Active,
        ensures
            final(self).defer_init == old(self).defer_init,
            final(self).frame_interval_nanos == old(self).frame_interval_nanos,
            out.sleep_nanos == old(self).frame_interval_nanos,
            out.request_redraw,
            acquired is OutOfMemory ==> final(self).control is Exit,
            !(acquired is OutOfMemory) ==> final(self).control is Wait,
            acquired is Success ==> out.action == FrameAction::Render(quad_frame_commands())
                && final(self).state == old(self).state,
            old(self).state matches RendererState::Active(r) ==> (acquired is Lost
                ==> final(self).state == RendererState::Active(reconfigured(r))
                && out.action == FrameAction::Reconfigure(r.config)),
            acquired is OutOfMemory ==> out.action is Skip && final(self).state == old(self).state,
            acquired is Other ==> out.action is Skip && final(self).state == old(self).state,
    {
        self.control = LoopControl::Wait;
        let action = match acquired {
            AcquireResult::Success => FrameAction::Render(
                FrameCommands {
                    clear: ClearColor { r: 0, g: 0, b: 0, a: 255 },
                    draw: DrawCall {
                        first_vertex: 0,
                        vertex_count: 6,
                        first_instance: 0,
                        instance_count: 1,
                    },
                },
            ),
            AcquireResult::Lost => match &mut self.state {
                RendererState::Active(r) => {
                    r.reconfigure();
                    FrameAction::Reconfigure(r.config)
                },
                RendererState::Uninitialized => FrameAction::Skip,
            },
            AcquireResult::OutOfMemory => {
                self.control = LoopControl::Exit;
                FrameAction::Skip
            },
            AcquireResult::Other => FrameAction::Skip,
        };
        RedrawOutcome { action, sleep_nanos: self.frame_interval_nanos, request_redraw: true }
    }
}

} // verus!
