//! A model of the GPU objects this core touches: the device that allocates
//! resources, the binding layout and bind group, the persistent and staging
//! buffers, and the command encoder into which the upload copy is recorded.
//!
//! The real device and encoder belong to the surrounding rendering subsystem
//! and are opaque capability objects; the contracts here capture exactly the
//! facts the core relies on — the descriptors a resource was created with,
//! and the append-only stream of buffer-to-buffer copies. A host shim can
//! replay the recorded stream against its own graphics API.

use vstd::prelude::*;

verus! {

/// A handle to an initialized graphics device, able to allocate buffers,
/// binding layouts and bind groups. Allocation failure in a real device is
/// fatal to the caller and has no recovery path here, so the model gives
/// every allocation a result.
pub struct Device {}

/// A binding-layout description: one binding slot for a fixed-size uniform
/// buffer, with a choice of stage visibility and dynamic offsetting.
#[derive(Clone, Copy, PartialEq, Eq, Structural, Debug)]
pub struct BindGroupLayout {
    /// The index of the single binding slot.
    pub binding: u32,
    /// Whether the slot is visible to the vertex stage.
    pub vertex_visibility: bool,
    /// Whether the slot takes a uniform buffer.
    pub uniform_buffer: bool,
    /// Whether the binding uses a dynamic offset.
    pub has_dynamic_offset: bool,
}

/// A GPU-resident buffer: its size and the usages it was allocated with.
#[derive(Clone, Copy, PartialEq, Eq, Structural, Debug)]
pub struct Buffer {
    /// Size in bytes.
    pub size: u64,
    /// Usable as a uniform-binding source.
    pub usage_uniform: bool,
    /// Usable as the destination of a copy.
    pub usage_copy_dst: bool,
}

/// A bind group: a GPU-side handle tying a buffer range to a layout's slot.
#[derive(Clone, Copy, PartialEq, Eq, Structural, Debug)]
pub struct BindGroup {
    /// The slot the buffer is bound to.
    pub binding: u32,
    /// Start of the bound range within the buffer.
    pub offset: u64,
    /// Length of the bound range in bytes.
    pub size: u64,
}

/// A transient buffer created with its contents, usable only as the source
/// of a copy; it is consumed by the copy that reads it.
pub struct StagingBuffer {
    /// The bytes the buffer was initialized with.
    pub contents: Vec<u8>,
}

/// One recorded buffer-to-buffer copy. It owns the staging buffer whose
/// bytes it will move; ownership passed into the command stream when the
/// copy was recorded.
pub struct CopyCommand {
    /// The copy source.
    pub src: StagingBuffer,
    /// Byte offset into the source.
    pub src_offset: u64,
    /// Byte offset into the destination.
    pub dst_offset: u64,
    /// Number of bytes copied.
    pub size: u64,
}

/// The abstract content of one recorded copy.
pub ghost struct CopyView {
    /// The source bytes.
    pub bytes: Seq<u8>,
    /// Byte offset into the source.
    pub src_offset: u64,
    /// Byte offset into the destination.
    pub dst_offset: u64,
    /// Number of bytes copied.
    pub size: u64,
}

impl View for CopyCommand {
    type V = CopyView;

    open spec fn view(&self) -> CopyView {
        CopyView {
            bytes: self.src.contents@,
            src_offset: self.src_offset,
            dst_offset: self.dst_offset,
            size: self.size,
        }
    }
}

/// An open, append-only command-recording context. Commands execute later,
/// in recording order, when the owning frame submits the stream; nothing
/// here blocks on that. A view of the encoder is the sequence of copies
/// recorded so far.
pub struct CommandEncoder {
    copies: Vec<CopyCommand>,
}

impl View for CommandEncoder {
    type V = Seq<CopyView>;

    closed spec fn view(&self) -> Seq<CopyView> {
        self.copies@.map_values(|c: CopyCommand| c@)
    }
}

impl CommandEncoder {
    /// An encoder with nothing recorded yet.
    pub fn new() -> (e: CommandEncoder)
        ensures
            e@ == Seq::<CopyView>::empty(),
    {
        let e = CommandEncoder { copies: Vec::new() };
        proof {
            assert(e@ =~= Seq::<CopyView>::empty());
        }
        e
    }

    /// Records a copy of `size` bytes from the staging buffer (consumed) into
    /// the destination buffer. Only recorded here; the copy executes when the
    /// stream is submitted, before any command recorded after it.
    pub fn copy_buffer_to_buffer(
        &mut self,
        src: StagingBuffer,
        src_offset: u64,
        dst: &Buffer,
        dst_offset: u64,
        size: u64,
    )
        requires
            dst.usage_copy_dst,
            src_offset + size <= old(self).spec_src_len(src),
            dst_offset + size <= dst.size,
        ensures
            final(self)@ == old(self)@.push(
                (CopyView { bytes: src.contents@, src_offset, dst_offset, size }),
            ),
    {
        let ghost prior = self@;
        self.copies.push(CopyCommand { src, src_offset, dst_offset, size });
        proof {
            assert(self@ =~= prior.push(
                (CopyView {
                    bytes: self.copies@.last().src.contents@,
                    src_offset,
                    dst_offset,
                    size,
                }),
            ));
        }
    }

    /// The length of a staging buffer, named so the copy bounds can be stated.
    pub open spec fn spec_src_len(&self, src: StagingBuffer) -> u64 {
        src.contents@.len() as u64
    }

    /// How many copies have been recorded.
    pub fn copy_count(&self) -> (n: usize)
        ensures
            n == self@.len(),
    {
        self.copies.len()
    }

    /// The recorded copies, oldest first.
    pub fn recorded(&self) -> (r: &Vec<CopyCommand>)
        ensures
            r@.map_values(|c: CopyCommand| c@) == self@,
    {
        &self.copies
    }
}

impl Device {
    /// A device handle for the model.
    pub fn new() -> (d: Device) {
        Device {}
    }

    /// Allocates a binding-layout description with the given slot and flags.
    pub fn create_bind_group_layout(
        &self,
        binding: u32,
        vertex_visibility: bool,
        uniform_buffer: bool,
        has_dynamic_offset: bool,
    ) -> (l: BindGroupLayout)
        ensures
            l == (BindGroupLayout { binding, vertex_visibility, uniform_buffer, has_dynamic_offset }),
    {
        BindGroupLayout { binding, vertex_visibility, uniform_buffer, has_dynamic_offset }
    }

    /// Allocates a buffer of `size` bytes with the given usages; its initial
    /// content is unspecified.
    pub fn create_buffer(&self, size: u64, usage_uniform: bool, usage_copy_dst: bool) -> (b: Buffer)
        ensures
            b == (Buffer { size, usage_uniform, usage_copy_dst }),
    {
        Buffer { size, usage_uniform, usage_copy_dst }
    }

    /// Allocates a bind group tying `size` bytes of `buffer` starting at
    /// `offset` to the layout's slot.
    pub fn create_bind_group(
        &self,
        layout: &BindGroupLayout,
        buffer: &Buffer,
        offset: u64,
        size: u64,
    ) -> (g: BindGroup)
        requires
            offset + size <= buffer.size,
        ensures
            g == (BindGroup { binding: layout.binding, offset, size }),
    {
        BindGroup { binding: layout.binding, offset, size }
    }

    /// Allocates a transient copy-source buffer initialized with `contents`
    /// in a single step.
    pub fn create_buffer_init(&self, contents: Vec<u8>) -> (b: StagingBuffer)
        ensures
            b.contents@ == contents@,
    {
        StagingBuffer { contents }
    }
}

} // verus!
