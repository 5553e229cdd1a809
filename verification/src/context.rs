use vstd::prelude::*;
use crate::config::{AdapterInfo, FormatId, PresentMode, SurfaceConfig, TextureUsage};
use crate::pipeline::{main_pipeline, PipelineDesc};

verus! {

/// The GPU context manager's state, over plain values: which adapter the
/// context was built on, the surface configuration it holds, the
/// configuration last applied to the surface, and the description of its
/// one compiled render pipeline.
///
/// The live handles (surface, device, queue, compiled pipeline) are owned
/// by the platform layer, which mirrors every transition decided here onto
/// them: when `applied` changes, it reapplies the configuration to the
/// real surface.
#[derive(Clone, Copy, Debug, PartialEq, Eq, Structural)]
pub struct Renderer {
    /// Index of the selected adapter in the enumeration the context was
    /// created from.
    pub adapter_index: usize,
    /// The held surface configuration.
    pub config: SurfaceConfig,
    /// The configuration the surface was last configured with.
    pub applied: SurfaceConfig,
    /// The fixed render pipeline, targeting `config.format`.
    pub pipeline: PipelineDesc,
}

/// Whether some adapter in `adapters` supports at least one surface
/// format, i.e. whether context creation can succeed.
pub open spec fn some_capable(adapters: Seq<AdapterInfo>) -> bool {
    exists|i: int| 0 <= i < adapters.len() && adapters[i].formats@.len() > 0
}

/// Whether `i` is the index context creation selects: the first adapter
/// for which the surface reports at least one supported format.
pub open spec fn is_first_capable(adapters: Seq<AdapterInfo>, i: int) -> bool {
    &&& 0 <= i < adapters.len()
    &&& adapters[i].formats@.len() > 0
    &&& forall|j: int| 0 <= j < i ==> adapters[j].formats@.len() == 0
}

/// The configuration a fresh context builds: render-attachment usage, the
/// selected format, the window's current dimensions, and immediate
/// presentation.
pub open spec fn initial_config(width: u32, height: u32, format: FormatId) -> SurfaceConfig {
    SurfaceConfig {
        usage: TextureUsage::RenderAttachment,
        format: format,
        width: width,
        height: height,
        present_mode: PresentMode::Immediate,
    }
}

/// What a freshly created context looks like for a window of the given
/// dimensions over the given adapters: it sits on the first capable
/// adapter, holds the initial configuration with that adapter's most
/// preferred format, has applied that configuration to the surface, and
/// carries the fixed pipeline for that format.
pub open spec fn fresh_renderer(
    width: u32,
    height: u32,
    adapters: Seq<AdapterInfo>,
    ren: Renderer,
) -> bool {
    &&& is_first_capable(adapters, ren.adapter_index as int)
    &&& ren.config == initial_config(width, height, adapters[ren.adapter_index as int].formats@[0])
    &&& ren.applied == ren.config
    &&& ren.pipeline == main_pipeline(ren.config.format)
}

/// The context after its configuration is reapplied to the surface: the
/// held configuration becomes the applied one; nothing else moves.
pub open spec fn reconfigured(r: Renderer) -> Renderer {
    Renderer { applied: r.config, ..r }
}

/// The context after a resize to `width` x `height`: a no-op when either
/// dimension is zero; otherwise the held configuration takes the new
/// dimensions and is reapplied to the surface.
pub open spec fn resized(r: Renderer, width: u32, height: u32) -> Renderer {
    if width > 0 && height > 0 {
        reconfigured(
            Renderer { config: SurfaceConfig { width: width, height: height, ..r.config }, ..r },
        )
    } else {
        r
    }
}

impl Renderer {
    /// Create a context for a window currently `width` x `height` pixels,
    /// over the adapters the platform enumerated. Selects the first
    /// adapter with at least one supported surface format and that
    /// adapter's most preferred format; returns `None` exactly when no
    /// adapter qualifies (the caller treats that as fatal: an unusable
    /// GPU environment has no recovery path).
    pub fn new(width: u32, height: u32, adapters: &Vec<AdapterInfo>) -> (r: Option<Renderer>)
        ensures
            r is Some <==> some_capable(adapters@),
            r matches Some(ren) ==> fresh_renderer(width, height, adapters@, ren),
    {
        let n = adapters.len();
        let mut i: usize = 0;
        while i < n
            invariant
                i <= n,
                n == adapters@.len(),
                forall|j: int| 0 <= j < i ==> adapters@[j].formats@.len() == 0,
            decreases n - i,
        {
            if adapters[i].formats.len() > 0 {
                let format = adapters[i].formats[0];
                let config = SurfaceConfig {
                    usage: TextureUsage::RenderAttachment,
                    format,
                    width,
                    height,
                    present_mode: PresentMode::Immediate,
                };
                let ren = Renderer {
                    adapter_index: i,
                    config,
                    applied: config,
                    pipeline: PipelineDesc::for_format(format),
                };
                proof {
                    assert(some_capable(adapters@)) by {
                        assert(0 <= i < adapters@.len() && adapters@[i as int].formats@.len() > 0);
                    }
                }
                return Some(ren);
            }
            i += 1;
        }
        None
    }

    /// The held surface configuration.
    pub fn config(&self) -> (c: &SurfaceConfig)
        ensures
            *c == self.config,
    {
        &self.config
    }

    /// Resize the surface to `width` x `height`. A no-op when either
    /// dimension is zero (transient zero-size events during
    /// minimize/restore must not touch the surface); otherwise the held
    /// configuration takes the new dimensions and is reapplied, leaving
    /// format, usage and presentation mode as they were.
    pub fn resize(&mut self, width: u32, height: u32)
        ensures
            *final(self) == resized(*old(self), width, height),
            width == 0 || height == 0 ==> *final(self) == *old(self),
    {
        if width > 0 && height > 0 {
            self.config.width = width;
            self.config.height = height;
            self.reconfigure();
        }
    }

    /// Reapply the held configuration to the surface without changing it.
    /// Used to recover a surface that reported itself lost.
    pub fn reconfigure(&mut self)
        ensures
            *final(self) == reconfigured(*old(self)),
    {
        self.applied = self.config;
    }
}

/// A resize with a zero dimension changes nothing: neither the held
/// configuration nor the applied one.
pub proof fn lemma_degenerate_resize_is_noop(r: Renderer, width: u32, height: u32)
    ensures
        resized(r, 0, height) == r,
        resized(r, width, 0) == r,
{
}

/// After a resize to positive `width` x `height` followed by a
/// reconfigure, the surface is configured at exactly those dimensions,
/// with the format, usage and presentation mode the context held before.
pub proof fn lemma_resize_then_reconfigure(r: Renderer, width: u32, height: u32)
    requires
        width > 0,
        height > 0,
    ensures
        ({
            let after = reconfigured(resized(r, width, height));
            &&& after.applied.width == width
            &&& after.applied.height == height
            &&& after.applied.format == r.config.format
            &&& after.applied.usage == r.config.usage
            &&& after.applied.present_mode == r.config.present_mode
        }),
{
}

/// Reconfiguring is idempotent: two consecutive reconfigures with no
/// intervening resize leave the context exactly as one does.
pub proof fn lemma_reconfigure_idempotent(r: Renderer)
    ensures
        reconfigured(reconfigured(r)) == reconfigured(r),
{
}

/// Resizing and reconfiguring never change the held format or
/// presentation mode: both are invariant for the lifetime of one context.
pub proof fn lemma_format_and_mode_invariant(r: Renderer, width: u32, height: u32)
    ensures
        resized(r, width, height).config.format == r.config.format,
        resized(r, width, height).config.present_mode == r.config.present_mode,
        reconfigured(r).config.format == r.config.format,
        reconfigured(r).config.present_mode == r.config.present_mode,
{
}

/// A fresh context's surface format is always supported by the adapter it
/// selected: the format is re-derived from the then-current adapter's
/// capabilities at every (re)creation, never assumed stable across
/// recreations.
pub proof fn lemma_fresh_renderer_format_supported(
    width: u32,
    height: u32,
    adapters: Seq<AdapterInfo>,
    ren: Renderer,
)
    requires
        fresh_renderer(width, height, adapters, ren),
    ensures
        adapters[ren.adapter_index as int].formats@.contains(ren.config.format),
{
    let formats = adapters[ren.adapter_index as int].formats@;
    assert(formats[0] == ren.config.format);
    assert(formats.contains(ren.config.format)) by {
        assert(0 <= 0 < formats.len() && formats[0] == ren.config.format);
    }
}

} // verus!
