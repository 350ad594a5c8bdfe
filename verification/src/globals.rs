//! The viewport-uniform component: owns the binding layout, the GPU-resident
//! uniform buffer and the bind group tying the two together, tracks the
//! last-reported resolution with a dirty flag, and — only when the flag is
//! set — stages the freshly computed transform and records a single
//! buffer-to-buffer copy into the frame's command stream.

use vstd::prelude::*;
use crate::gpu::{BindGroup, BindGroupLayout, Buffer, CommandEncoder, CopyView, Device};
use crate::matrix::{matrix_bytes, spec_matrix_bytes, UNIFORM_BYTES};

verus! {

/// The abstract state of [`Globals`]: the created resources, the tracked
/// resolution and dirty flag, and the payload most recently staged for
/// upload, if any.
pub ghost struct GlobalsView {
    /// The binding-layout description, fixed at construction.
    pub layout: BindGroupLayout,
    /// The bind group over the uniform buffer, fixed at construction.
    pub bind_group: BindGroup,
    /// The GPU-resident uniform buffer, fixed at construction.
    pub buffer: Buffer,
    /// Last-reported viewport width in pixels.
    pub width: u32,
    /// Last-reported viewport height in pixels.
    pub height: u32,
    /// Whether the GPU buffer content is stale for `(width, height)`.
    pub dirty: bool,
    /// The bytes last staged for copy into the uniform buffer; `None` until
    /// the first upload.
    pub staged: Option<Seq<u8>>,
}

/// The layout this component always allocates: slot 0, vertex-stage
/// visibility, a uniform buffer, no dynamic offset.
pub open spec fn spec_globals_layout() -> BindGroupLayout {
    BindGroupLayout {
        binding: 0,
        vertex_visibility: true,
        uniform_buffer: true,
        has_dynamic_offset: false,
    }
}

/// Well-formedness of the component's state: the layout is the fixed
/// descriptor above; the buffer is 64 bytes, uniform-bindable and a copy
/// destination; the bind group covers the buffer's full extent at slot 0
/// regardless of `dirty`; and a clean flag means the staged payload is
/// exactly the transform for the current resolution.
pub open spec fn globals_inv(s: GlobalsView) -> bool {
    &&& s.layout == spec_globals_layout()
    &&& s.buffer == (Buffer {
        size: UNIFORM_BYTES as u64,
        usage_uniform: true,
        usage_copy_dst: true,
    })
    &&& s.bind_group == (BindGroup { binding: 0, offset: 0, size: UNIFORM_BYTES as u64 })
    &&& (!s.dirty ==> s.staged == Some(spec_matrix_bytes(s.width, s.height)))
}

/// The state after `set_resolution(w, h)`: if either dimension differs the
/// pair is stored and the state is dirtied; otherwise nothing changes.
pub open spec fn spec_set_resolution(s: GlobalsView, w: u32, h: u32) -> GlobalsView {
    if w != s.width || h != s.height {
        GlobalsView { width: w, height: h, dirty: true, ..s }
    } else {
        s
    }
}

/// The state after `update_uniform`: a dirty state stages the transform for
/// its resolution and comes out clean; a clean state is untouched.
pub open spec fn spec_update(s: GlobalsView) -> GlobalsView {
    if s.dirty {
        GlobalsView { dirty: false, staged: Some(spec_matrix_bytes(s.width, s.height)), ..s }
    } else {
        s
    }
}

/// The copy `update_uniform` records for the state's resolution: the full
/// 64-byte payload, offset 0 to offset 0.
pub open spec fn spec_upload_copy(w: u32, h: u32) -> CopyView {
    CopyView {
        bytes: spec_matrix_bytes(w, h),
        src_offset: 0,
        dst_offset: 0,
        size: UNIFORM_BYTES as u64,
    }
}

/// The copies `update_uniform` appends to the command stream: exactly one,
/// for the current resolution, when the state is dirty; none otherwise.
pub open spec fn spec_update_copies(s: GlobalsView) -> Seq<CopyView> {
    if s.dirty {
        seq![spec_upload_copy(s.width, s.height)]
    } else {
        Seq::empty()
    }
}

/// The GPU binding resources and dirty-tracked resolution state for the
/// view transform uniform.
pub struct Globals {
    layout: BindGroupLayout,
    bind_group: BindGroup,
    buffer: Buffer,
    viewport_width: u32,
    viewport_height: u32,
    dirty: bool,
    staged: Ghost<Option<Seq<u8>>>,
}

impl View for Globals {
    type V = GlobalsView;

    closed spec fn view(&self) -> GlobalsView {
        GlobalsView {
            layout: self.layout,
            bind_group: self.bind_group,
            buffer: self.buffer,
            width: self.viewport_width,
            height: self.viewport_height,
            dirty: self.dirty,
            staged: self.staged@,
        }
    }
}

impl Globals {
    /// Creates the binding layout, the 64-byte uniform buffer and the bind
    /// group over its full extent, and starts at resolution `(0, 0)` with
    /// the dirty flag set: nothing is uploaded until the first
    /// `update_uniform`, so the buffer's initial content stands for no
    /// resolution.
    pub fn new(device: &Device) -> (g: Globals)
        ensures
            globals_inv(g@),
            g@.width == 0,
            g@.height == 0,
            g@.dirty,
            g@.staged is None,
    {
        let layout = device.create_bind_group_layout(0, true, true, false);
        let buffer = device.create_buffer(UNIFORM_BYTES as u64, true, true);
        let bind_group = device.create_bind_group(&layout, &buffer, 0, UNIFORM_BYTES as u64);
        Globals {
            layout,
            bind_group,
            buffer,
            viewport_width: 0,
            viewport_height: 0,
            dirty: true,
            staged: Ghost(None),
        }
    }

    /// Reports the current resolution. A changed pair is stored and dirties
    /// the state; an unchanged pair mutates nothing, so repeated per-frame
    /// calls at a stable resolution cost only the comparison. Zero
    /// dimensions are accepted and tracked as-is. No GPU interaction.
    pub fn set_resolution(&mut self, viewport_width: u32, viewport_height: u32)
        ensures
            final(self)@ == spec_set_resolution(old(self)@, viewport_width, viewport_height),
            globals_inv(old(self)@) ==> globals_inv(final(self)@),
    {
        if viewport_width != self.viewport_width || viewport_height != self.viewport_height {
            self.viewport_width = viewport_width;
            self.viewport_height = viewport_height;
            self.dirty = true;
        }
    }

    /// Synchronizes the GPU buffer with the tracked resolution. Clean state:
    /// an early return, nothing recorded. Dirty state: computes the
    /// transform payload, allocates a one-shot staging buffer initialized
    /// with it, records exactly one full-extent copy into the uniform
    /// buffer on `encoder`, and clears the flag. Draw calls recorded into
    /// the same stream afterwards read the fresh transform, by the stream's
    /// in-order execution.
    pub fn update_uniform(&mut self, device: &Device, encoder: &mut CommandEncoder)
        requires
            globals_inv(old(self)@),
        ensures
            globals_inv(final(self)@),
            final(self)@ == spec_update(old(self)@),
            final(encoder)@ == old(encoder)@ + spec_update_copies(old(self)@),
    {
        if !self.dirty {
            proof {
                assert(encoder@ =~= encoder@ + spec_update_copies(self@));
            }
            return;
        }
        self.dirty = false;
        let bytes = matrix_bytes(self.viewport_width, self.viewport_height);
        proof {
            self.staged@ = Some(bytes@);
        }
        let staging = device.create_buffer_init(bytes);
        let ghost before = encoder@;
        encoder.copy_buffer_to_buffer(staging, 0, &self.buffer, 0, UNIFORM_BYTES as u64);
        proof {
            assert(encoder@ =~= before + spec_update_copies(old(self)@));
        }
    }

    /// The immutable binding-layout description, for render-pass setup.
    pub fn layout(&self) -> (l: &BindGroupLayout)
        ensures
            *l == self@.layout,
    {
        &self.layout
    }

    /// The bind group over the uniform buffer's full extent, for render-pass
    /// setup. Valid independent of the dirty flag: `dirty` tracks content
    /// freshness, not resource validity.
    pub fn bind_group(&self) -> (b: &BindGroup)
        ensures
            *b == self@.bind_group,
    {
        &self.bind_group
    }

    /// Whether the GPU buffer content is stale for the tracked resolution.
    pub fn is_dirty(&self) -> (d: bool)
        ensures
            d == self@.dirty,
    {
        self.dirty
    }
}

/// Reporting a resolution dirties the state exactly when the pair differs
/// from the stored one, stores the pair either way, and — once the state is
/// clean — repeating the stored pair leaves the state untouched, so it never
/// re-dirties.
pub proof fn lemma_set_resolution_dirty(s: GlobalsView, w: u32, h: u32)
    ensures
        spec_set_resolution(s, w, h).width == w,
        spec_set_resolution(s, w, h).height == h,
        spec_set_resolution(s, w, h).dirty == (s.dirty || w != s.width || h != s.height),
        (!s.dirty && w == s.width && h == s.height) ==> spec_set_resolution(s, w, h) == s,
{
}

/// The state after a whole sequence of `set_resolution` calls, applied in
/// order.
pub open spec fn apply_resolutions(s: GlobalsView, rs: Seq<(u32, u32)>) -> GlobalsView
    decreases rs.len(),
{
    if rs.len() == 0 {
        s
    } else {
        apply_resolutions(spec_set_resolution(s, rs[0].0, rs[0].1), rs.drop_first())
    }
}

/// Across any sequence of resolution reports, `set_resolution` alone never
/// clears the dirty flag: only an upload does.
pub proof fn lemma_resolutions_never_clean(s: GlobalsView, rs: Seq<(u32, u32)>)
    ensures
        s.dirty ==> apply_resolutions(s, rs).dirty,
    decreases rs.len(),
{
    if rs.len() > 0 {
        lemma_resolutions_never_clean(spec_set_resolution(s, rs[0].0, rs[0].1), rs.drop_first());
    }
}

/// A clean state stays exactly as it is under any sequence of reports that
/// all repeat the stored resolution: redundant per-frame calls mutate
/// nothing, however many there are.
pub proof fn lemma_repeated_resolution_is_noop(s: GlobalsView, rs: Seq<(u32, u32)>)
    requires
        !s.dirty,
        forall|i: int| 0 <= i < rs.len() ==> rs[i] == (s.width, s.height),
    ensures
        apply_resolutions(s, rs) == s,
    decreases rs.len(),
{
    if rs.len() > 0 {
        assert(rs[0] == (s.width, s.height));
        assert(spec_set_resolution(s, rs[0].0, rs[0].1) == s);
        lemma_repeated_resolution_is_noop(s, rs.drop_first());
    }
}

/// An upload from a dirty state records exactly one copy — the transform for
/// the current resolution — and leaves the state clean; an upload from a
/// clean state records nothing and changes nothing.
pub proof fn lemma_update_copies(s: GlobalsView)
    ensures
        !spec_update(s).dirty,
        s.dirty ==> spec_update_copies(s) == seq![spec_upload_copy(s.width, s.height)],
        !s.dirty ==> spec_update_copies(s) == Seq::<CopyView>::empty(),
        !s.dirty ==> spec_update(s) == s,
{
}

/// Steady state: after an upload, reporting the unchanged resolution and
/// uploading again records no further copy.
pub proof fn lemma_steady_state_no_copy(s: GlobalsView)
    ensures
        spec_update_copies(
            spec_set_resolution(spec_update(s), spec_update(s).width, spec_update(s).height),
        ) == Seq::<CopyView>::empty(),
{
}

/// Only the latest resolution is uploaded: two resolution reports followed
/// by one upload record at most one copy, and whatever is recorded is the
/// transform for the second pair — never for the intermediate one.
pub proof fn lemma_latest_resolution_wins(s: GlobalsView, w1: u32, h1: u32, w2: u32, h2: u32)
    ensures
        ({
            let s2 = spec_set_resolution(spec_set_resolution(s, w1, h1), w2, h2);
            &&& s2.width == w2
            &&& s2.height == h2
            &&& spec_update_copies(s2).len() <= 1
            &&& (s2.dirty ==> spec_update_copies(s2) == seq![spec_upload_copy(w2, h2)])
        }),
{
}

} // verus!
