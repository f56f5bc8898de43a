//! Buffers that own the memory behind them.

use crate::error::out_of_range;
use crate::error::plain_error;
use crate::error::ErrorKind;
use crate::error::FennecError;
use crate::text::decimal;
use crate::text::decimal_digits;
use crate::text::join;
use crate::vm::graphicsengine::device::BufferImageCopy;
use crate::vm::graphicsengine::device::DeviceCall;
use crate::vm::graphicsengine::device::DeviceCallView;
use crate::vm::graphicsengine::device::ImageSubresourceLayers;
use crate::vm::graphicsengine::device::MemoryRequirements;
use crate::vm::graphicsengine::device::Offset3D;
use crate::vm::graphicsengine::image::collect_family_indices;
use crate::vm::graphicsengine::image::family_indices;
use crate::vm::graphicsengine::image::memory_name;
use crate::vm::graphicsengine::image::Image;
use crate::vm::graphicsengine::memory::find_memory_type;
use crate::vm::graphicsengine::memory::memory_type_unavailable;
use crate::vm::graphicsengine::memory::Memory;
use crate::vm::graphicsengine::memory::MemoryView;
use crate::vm::graphicsengine::queuefamily::QueueFamily;
use crate::vm::graphicsengine::vk;
use crate::vm::graphicsengine::vkobject::unnamed;
use crate::vm::graphicsengine::vkobject::HandleType;
use crate::vm::graphicsengine::vkobject::naming_error;
use crate::vm::graphicsengine::vkobject::lemma_naming_error_of_longer_name;
use crate::vm::graphicsengine::vkobject::VKHandle;
use crate::vm::graphicsengine::vkobject::VKHandleView;
use crate::vm::graphicsengine::vkobject::VKObject;
use crate::vm::graphicsengine::Context;
use crate::vm::graphicsengine::ContextView;
use vstd::prelude::*;
use vstd::slice::slice_subrange;

verus! {

/// The mathematical value of a [`Buffer`].
pub struct BufferView {
    pub handle: VKHandleView,
    pub memory: MemoryView,
    /// The size of the buffer in bytes.
    pub size: u64,
}

/// A buffer on the device.
#[derive(Debug)]
pub struct Buffer {
    buffer: VKHandle,
    memory: Memory,
    size: u64,
}

impl View for Buffer {
    type V = BufferView;

    closed spec fn view(&self) -> BufferView {
        BufferView { handle: self.buffer@, memory: self.memory@, size: self.size }
    }
}

impl VKObject for Buffer {
    open spec fn wrapped(&self) -> VKHandleView {
        self@.handle
    }

    fn wrapped_handle(&self) -> (wrapped: &VKHandle) {
        &self.buffer
    }
}

/// The indices of the queue families that share a resource, or none where
/// the resource is not shared.
pub open spec fn sharing_families(simultaneous_use: Option<&[&QueueFamily]>) -> Seq<u32> {
    match simultaneous_use {
        Some(families) => family_indices(families@),
        None => Seq::empty(),
    }
}

/// The memory properties of a buffer that the host fills.
pub open spec fn host_filled() -> u32 {
    vk::MEMORY_HOST_VISIBLE | vk::MEMORY_HOST_COHERENT
}

/// The description of the error for bytes that do not fit the memory
/// behind a buffer.
pub open spec fn bytes_do_not_fit(length: nat, size: u64) -> Seq<char> {
    "Cannot fill a buffer with "@ + decimal_digits(length) + " bytes: its memory holds "@
        + decimal_digits(size as nat)
}

impl Buffer {
    /// The call that creates the buffer `buffer`.
    pub open spec fn creation(
        buffer: u64,
        size: u64,
        usage: u32,
        simultaneous_use: Option<&[&QueueFamily]>,
        flags: Option<u32>,
    ) -> DeviceCallView {
        DeviceCallView::CreateBuffer {
            buffer,
            flags: match flags {
                Some(flags) => flags,
                None => 0,
            },
            size,
            usage,
            sharing_mode: if simultaneous_use is Some {
                vk::SHARING_CONCURRENT
            } else {
                vk::SHARING_EXCLUSIVE
            },
            queue_family_indices: sharing_families(simultaneous_use),
        }
    }

    /// The value of a buffer that was just created, bound to `handle`, with
    /// its memory bound to the handle after it.
    pub open spec fn fresh(context: u64, handle: u64, size: u64, memory_flags: u32, memory_size: u64) -> BufferView {
        BufferView {
            handle: VKHandleView {
                context,
                handle_type: HandleType::Buffer,
                handle,
                protected: false,
                name: unnamed(),
            },
            memory: Memory::fresh(context, (handle + 1) as u64, memory_flags, memory_size),
            size,
        }
    }

    /// The context after a buffer with memory of its own was created
    /// through it.
    pub open spec fn created(
        context: ContextView,
        size: u64,
        usage: u32,
        simultaneous_use: Option<&[&QueueFamily]>,
        flags: Option<u32>,
        memory_reqs: MemoryRequirements,
        memory_type_index: u32,
    ) -> ContextView {
        context.create(2).issue(
            Buffer::creation(context.next_handle, size, usage, simultaneous_use, flags),
        ).issue(
            DeviceCallView::AllocateMemory {
                memory: (context.next_handle + 1) as u64,
                size: memory_reqs.size,
                memory_type_index,
            },
        ).issue(
            DeviceCallView::BindBufferMemory {
                buffer: context.next_handle,
                memory: (context.next_handle + 1) as u64,
                offset: 0,
            },
        )
    }

    /// Creates a buffer of `size` bytes with memory of its own that has the
    /// properties `memory_flags`. `memory_reqs` is what the device asks of
    /// the memory behind a buffer of this description. Where the device
    /// offers no memory that fits, the buffer has been created already and
    /// is left behind.
    pub fn new(
        context: &mut Context,
        size: u64,
        usage: u32,
        memory_flags: u32,
        simultaneous_use: Option<&[&QueueFamily]>,
        flags: Option<u32>,
        memory_reqs: MemoryRequirements,
    ) -> (result: Result<Self, FennecError>)
        requires
            old(context)@.can_create(2),
        ensures
            match result {
                Ok(buffer) => {
                    &&& old(context)@.readable()
                    &&& find_memory_type(
                        old(context)@.memory_types,
                        memory_reqs.memory_type_bits,
                        memory_flags,
                        0,
                    ) matches Some(memory_type_index)
                    &&& final(context)@ == Buffer::created(
                        old(context)@,
                        size,
                        usage,
                        simultaneous_use,
                        flags,
                        memory_reqs,
                        memory_type_index,
                    )
                    &&& buffer@ == Buffer::fresh(
                        old(context)@.id,
                        old(context)@.next_handle,
                        size,
                        memory_flags,
                        memory_reqs.size,
                    )
                },
                Err(error) => {
                    if !old(context)@.readable() {
                        error@ == old(context)@.borrow_error() && final(context)@ == old(context)@
                    } else {
                        &&& find_memory_type(
                            old(context)@.memory_types,
                            memory_reqs.memory_type_bits,
                            memory_flags,
                            0,
                        ) is None
                        &&& error@ == plain_error(
                            ErrorKind::General,
                            memory_type_unavailable(memory_reqs.memory_type_bits, memory_flags),
                        )
                        &&& final(context)@ == old(context)@.create(1).issue(
                            Buffer::creation(
                                old(context)@.next_handle,
                                size,
                                usage,
                                simultaneous_use,
                                flags,
                            ),
                        )
                    }
                },
            },
    {
        context.check_readable()?;
        let queue_family_indices = match simultaneous_use {
            Some(families) => collect_family_indices(families),
            None => Vec::new(),
        };
        let buffer = context.create_handle();
        context.issue(
            DeviceCall::CreateBuffer {
                buffer,
                flags: match flags {
                    Some(flags) => flags,
                    None => 0,
                },
                size,
                usage,
                sharing_mode: if simultaneous_use.is_some() {
                    vk::sharing_concurrent()
                } else {
                    vk::sharing_exclusive()
                },
                queue_family_indices,
            },
        );
        let memory = Memory::new(context, memory_reqs, memory_flags)?;
        context.issue(DeviceCall::BindBufferMemory { buffer, memory: memory.handle(), offset: 0 });
        Ok(Self { buffer: VKHandle::new(context, HandleType::Buffer, buffer, false), memory, size })
    }

    /// Creates a buffer of `size` bytes that holds `bytes` at its start, in
    /// memory that the host can see. Bytes that do not fit the memory behind
    /// the buffer are refused before anything is issued.
    pub(crate) fn filled(
        context: &mut Context,
        size: u64,
        bytes: &[u8],
        usage: u32,
        simultaneous_use: Option<&[&QueueFamily]>,
        flags: Option<u32>,
        memory_reqs: MemoryRequirements,
    ) -> (result: Result<Self, FennecError>)
        requires
            old(context)@.can_create(2),
        ensures
            match result {
                Ok(buffer) => {
                    &&& bytes@.len() <= memory_reqs.size
                    &&& old(context)@.readable()
                    &&& find_memory_type(
                        old(context)@.memory_types,
                        memory_reqs.memory_type_bits,
                        host_filled(),
                        0,
                    ) matches Some(memory_type_index)
                    &&& final(context)@ == Buffer::created(
                        old(context)@,
                        size,
                        usage,
                        simultaneous_use,
                        flags,
                        memory_reqs,
                        memory_type_index,
                    ).issue(
                        DeviceCallView::MapMemory {
                            memory: (old(context)@.next_handle + 1) as u64,
                            offset: 0,
                            size: memory_reqs.size,
                        },
                    ).issue(
                        DeviceCallView::WriteMemory {
                            memory: (old(context)@.next_handle + 1) as u64,
                            offset: 0,
                            bytes: bytes@,
                        },
                    ).issue(
                        DeviceCallView::UnmapMemory {
                            memory: (old(context)@.next_handle + 1) as u64,
                        },
                    )
                    &&& buffer@ == Buffer::fresh(
                        old(context)@.id,
                        old(context)@.next_handle,
                        size,
                        host_filled(),
                        memory_reqs.size,
                    )
                },
                Err(error) => {
                    if bytes@.len() > memory_reqs.size {
                        error@ == out_of_range(bytes_do_not_fit(bytes@.len(), memory_reqs.size))
                            && final(context)@ == old(context)@
                    } else if !old(context)@.readable() {
                        error@ == old(context)@.borrow_error() && final(context)@ == old(context)@
                    } else {
                        &&& find_memory_type(
                            old(context)@.memory_types,
                            memory_reqs.memory_type_bits,
                            host_filled(),
                            0,
                        ) is None
                        &&& error@ == plain_error(
                            ErrorKind::General,
                            memory_type_unavailable(memory_reqs.memory_type_bits, host_filled()),
                        )
                        &&& final(context)@ == old(context)@.create(1).issue(
                            Buffer::creation(
                                old(context)@.next_handle,
                                size,
                                usage,
                                simultaneous_use,
                                flags,
                            ),
                        )
                    }
                },
            },
    {
        if bytes.len() as u64 > memory_reqs.size {
            let length_text = decimal(bytes.len() as u64);
            let size_text = decimal(memory_reqs.size);
            let a = join("Cannot fill a buffer with ", length_text.as_str());
            let b = join(a.as_str(), " bytes: its memory holds ");
            let description = join(b.as_str(), size_text.as_str());
            assert(description@ =~= bytes_do_not_fit(bytes@.len(), memory_reqs.size));
            return Err(FennecError::with_kind(ErrorKind::OutOfRange, description.as_str()));
        }
        let memory_flags = vk::memory_host_visible() | vk::memory_host_coherent();
        assert(vk::spec_contains(host_filled(), vk::MEMORY_HOST_VISIBLE) && !vk::spec_contains(
            host_filled(),
            vk::MEMORY_PROTECTED,
        )) by {
            assert((0x2u32 | 0x4u32) & 0x2u32 == 0x2u32) by (bit_vector);
            assert((0x2u32 | 0x4u32) & 0x20u32 != 0x20u32) by (bit_vector);
        }
        let mut buffer = Self::new(
            context,
            size,
            usage,
            memory_flags,
            simultaneous_use,
            flags,
            memory_reqs,
        )?;
        match buffer.memory.map_all(context) {
            Ok(map) => {
                let written = map.write(context, 0, bytes);
                assert(written is Ok);
                map.unmap(context);
            },
            Err(_) => {
                assert(false);
            },
        }
        Ok(buffer)
    }

    /// Creates a buffer that holds the first `length` of `bytes`, in memory
    /// that the host can see. Bytes that do not fit the memory behind the
    /// buffer are refused before anything is issued.
    pub fn from_bytes(
        context: &mut Context,
        bytes: &[u8],
        length: usize,
        usage: u32,
        simultaneous_use: Option<&[&QueueFamily]>,
        flags: Option<u32>,
        memory_reqs: MemoryRequirements,
    ) -> (result: Result<Self, FennecError>)
        requires
            old(context)@.can_create(2),
            length <= bytes@.len(),
        ensures
            match result {
                Ok(buffer) => {
                    &&& length <= memory_reqs.size
                    &&& old(context)@.readable()
                    &&& find_memory_type(
                        old(context)@.memory_types,
                        memory_reqs.memory_type_bits,
                        host_filled(),
                        0,
                    ) matches Some(memory_type_index)
                    &&& final(context)@ == Buffer::created(
                        old(context)@,
                        length as u64,
                        usage,
                        simultaneous_use,
                        flags,
                        memory_reqs,
                        memory_type_index,
                    ).issue(
                        DeviceCallView::MapMemory {
                            memory: (old(context)@.next_handle + 1) as u64,
                            offset: 0,
                            size: memory_reqs.size,
                        },
                    ).issue(
                        DeviceCallView::WriteMemory {
                            memory: (old(context)@.next_handle + 1) as u64,
                            offset: 0,
                            bytes: bytes@.subrange(0, length as int),
                        },
                    ).issue(
                        DeviceCallView::UnmapMemory {
                            memory: (old(context)@.next_handle + 1) as u64,
                        },
                    )
                    &&& buffer@ == Buffer::fresh(
                        old(context)@.id,
                        old(context)@.next_handle,
                        length as u64,
                        host_filled(),
                        memory_reqs.size,
                    )
                },
                Err(error) => {
                    if length > memory_reqs.size {
                        error@ == out_of_range(bytes_do_not_fit(length as nat, memory_reqs.size))
                            && final(context)@ == old(context)@
                    } else if !old(context)@.readable() {
                        error@ == old(context)@.borrow_error() && final(context)@ == old(context)@
                    } else {
                        &&& find_memory_type(
                            old(context)@.memory_types,
                            memory_reqs.memory_type_bits,
                            host_filled(),
                            0,
                        ) is None
                        &&& error@ == plain_error(
                            ErrorKind::General,
                            memory_type_unavailable(memory_reqs.memory_type_bits, host_filled()),
                        )
                        &&& final(context)@ == old(context)@.create(1).issue(
                            Buffer::creation(
                                old(context)@.next_handle,
                                length as u64,
                                usage,
                                simultaneous_use,
                                flags,
                            ),
                        )
                    }
                },
            },
    {
        Self::filled(
            context,
            length as u64,
            slice_subrange(bytes, 0, length),
            usage,
            simultaneous_use,
            flags,
            memory_reqs,
        )
    }

    /// How many of the bytes that a source gave go into a buffer of `length`
    /// bytes: all of them, and `length` at most.
    pub open spec fn taken(read: Seq<u8>, length: u64) -> int {
        if read.len() <= length {
            read.len() as int
        } else {
            length as int
        }
    }

    /// Creates a buffer of `length` bytes that holds what was read from a
    /// source, in memory that the host can see: the first `length` bytes of
    /// `read`, or all of them where the source gave fewer. Bytes that do not
    /// fit the memory behind the buffer are refused before anything is
    /// issued.
    pub fn from_read(
        context: &mut Context,
        read: &[u8],
        length: u64,
        usage: u32,
        simultaneous_use: Option<&[&QueueFamily]>,
        flags: Option<u32>,
        memory_reqs: MemoryRequirements,
    ) -> (result: Result<Self, FennecError>)
        requires
            old(context)@.can_create(2),
        ensures
            match result {
                Ok(buffer) => {
                    &&& Buffer::taken(read@, length) <= memory_reqs.size
                    &&& old(context)@.readable()
                    &&& find_memory_type(
                        old(context)@.memory_types,
                        memory_reqs.memory_type_bits,
                        host_filled(),
                        0,
                    ) matches Some(memory_type_index)
                    &&& final(context)@ == Buffer::created(
                        old(context)@,
                        length,
                        usage,
                        simultaneous_use,
                        flags,
                        memory_reqs,
                        memory_type_index,
                    ).issue(
                        DeviceCallView::MapMemory {
                            memory: (old(context)@.next_handle + 1) as u64,
                            offset: 0,
                            size: memory_reqs.size,
                        },
                    ).issue(
                        DeviceCallView::WriteMemory {
                            memory: (old(context)@.next_handle + 1) as u64,
                            offset: 0,
                            bytes: read@.subrange(0, Buffer::taken(read@, length)),
                        },
                    ).issue(
                        DeviceCallView::UnmapMemory {
                            memory: (old(context)@.next_handle + 1) as u64,
                        },
                    )
                    &&& buffer@ == Buffer::fresh(
                        old(context)@.id,
                        old(context)@.next_handle,
                        length,
                        host_filled(),
                        memory_reqs.size,
                    )
                },
                Err(error) => {
                    if Buffer::taken(read@, length) > memory_reqs.size {
                        error@ == out_of_range(bytes_do_not_fit(Buffer::taken(read@, length) as nat, memory_reqs.size))
                            && final(context)@ == old(context)@
                    } else if !old(context)@.readable() {
                        error@ == old(context)@.borrow_error() && final(context)@ == old(context)@
                    } else {
                        &&& find_memory_type(
                            old(context)@.memory_types,
                            memory_reqs.memory_type_bits,
                            host_filled(),
                            0,
                        ) is None
                        &&& error@ == plain_error(
                            ErrorKind::General,
                            memory_type_unavailable(memory_reqs.memory_type_bits, host_filled()),
                        )
                        &&& final(context)@ == old(context)@.create(1).issue(
                            Buffer::creation(
                                old(context)@.next_handle,
                                length,
                                usage,
                                simultaneous_use,
                                flags,
                            ),
                        )
                    }
                },
            },
    {
        let taken = if read.len() as u64 <= length {
            read.len()
        } else {
            length as usize
        };
        Self::filled(
            context,
            length,
            slice_subrange(read, 0, taken),
            usage,
            simultaneous_use,
            flags,
            memory_reqs,
        )
    }

    /// The size of the buffer in bytes.
    pub fn size(&self) -> (size: u64)
        ensures
            size == self@.size,
    {
        self.size
    }

    /// The memory behind the buffer.
    pub fn memory(&self) -> (memory: &Memory)
        ensures
            memory@ == self@.memory,
    {
        &self.memory
    }

    /// The memory behind the buffer.
    pub fn memory_mut(&mut self) -> (memory: &mut Memory)
        ensures
            memory@ == old(self)@.memory,
            final(self)@ == (BufferView { memory: final(memory)@, ..old(self)@ }),
    {
        &mut self.memory
    }

    /// The copy from the buffer, `offset` bytes in, to all of one mip level
    /// of `destination`: rows and images lie in the buffer as tightly as in
    /// the image.
    pub fn copy_to_image<I: Image>(offset: u64, destination: &I, aspects: u32, mip_level: u32) -> (copy:
        BufferImageCopy)
        ensures
            copy == (BufferImageCopy {
                buffer_offset: offset,
                buffer_row_length: destination.spec_extent().width,
                buffer_image_height: destination.spec_extent().height,
                image_subresource: ImageSubresourceLayers {
                    aspect_mask: aspects,
                    mip_level,
                    base_array_layer: 0,
                    layer_count: destination.spec_layer_count(),
                },
                image_offset: Offset3D { x: 0, y: 0, z: 0 },
                image_extent: destination.spec_extent(),
            }),
    {
        let extent = destination.extent();
        BufferImageCopy {
            buffer_offset: offset,
            buffer_row_length: extent.width,
            buffer_image_height: extent.height,
            image_subresource: destination.layers(aspects, 0, destination.layer_count(), mip_level),
            image_offset: Offset3D { x: 0, y: 0, z: 0 },
            image_extent: extent,
        }
    }

    /// The buffer under another name, with its memory named after it.
    pub open spec fn renamed(buffer: BufferView, name: Seq<char>) -> BufferView {
        BufferView {
            handle: VKHandleView { name, ..buffer.handle },
            memory: MemoryView {
                handle: VKHandleView { name: memory_name(name), ..buffer.memory.handle },
                ..buffer.memory
            },
            ..buffer
        }
    }

    /// Names the buffer, here and on the device, and its memory after it.
    /// Where the context is exclusively borrowed the call fails; the buffer
    /// keeps its new name on this side, and its memory is not touched.
    pub fn set_name(&mut self, context: &mut Context, name: &str) -> (result: Result<
        (),
        FennecError,
    >)
        ensures
            match result {
                Ok(()) => naming_error(old(context)@, name@) is None && final(self)@ == Buffer::renamed(
                    old(self)@,
                    name@,
                ) && final(context)@ == old(context)@.issue(
                    VKHandle::naming(old(self)@.handle, name@),
                ).issue(VKHandle::naming(old(self)@.memory.handle, memory_name(name@))),
                Err(error) => naming_error(old(context)@, name@) == Some(error@)
                    && final(context)@ == old(context)@ && final(self)@ == (BufferView {
                    handle: VKHandleView { name: name@, ..old(self)@.handle },
                    ..old(self)@
                }),
            },
    {
        let annotated = self.buffer.annotate(context, name);
        match annotated {
            Ok(()) => {},
            Err(error) => {
                return Err(error);
            },
        }
        let memory_name = join(name, ".memory");
        proof {
            reveal_strlit(".memory");
            lemma_naming_error_of_longer_name(context@, name@, ".memory"@);
        }
        self.memory.set_name(context, memory_name.as_str())
    }

    /// What the context looks like after an object that could not be named
    /// was given up: the object is destroyed where a call can be issued.
    pub open spec fn abandoned(value: BufferView, context: ContextView) -> ContextView {
        if context.readable() {
            VKHandle::released(
                value.memory.handle,
                VKHandle::released(value.handle, context),
            )
        } else {
            context
        }
    }

    /// Names the buffer and hands it back. Where it cannot be
    /// named it is given up: destroyed, where the context lets a call
    /// through.
    pub fn with_name(self, context: &mut Context, name: &str) -> (result: Result<
        Self,
        FennecError,
    >)
        ensures
            match result {
                Ok(named) => naming_error(old(context)@, name@) is None && named@ == Buffer::renamed(self@, name@)
                    && final(context)@ == old(context)@.issue(
                    VKHandle::naming(self@.handle, name@),
                ).issue(VKHandle::naming(self@.memory.handle, memory_name(name@))),
                Err(error) => naming_error(old(context)@, name@) == Some(error@)
                    && final(context)@ == Self::abandoned(self@, old(context)@),
            },
    {
        let mut named = self;
        match named.set_name(context, name) {
            Ok(()) => Ok(named),
            Err(error) => {
                match context.check_readable() {
                    Ok(()) => named.destroy(context),
                    Err(_) => {},
                }
                Err(error)
            },
        }
    }

    /// Ends the life of the buffer: the buffer is destroyed, then its
    /// memory is freed.
    pub fn destroy(self, context: &mut Context)
        requires
            old(context)@.readable(),
        ensures
            final(context)@ == VKHandle::released(
                self@.memory.handle,
                VKHandle::released(self@.handle, old(context)@),
            ),
    {
        self.buffer.release(context);
        self.memory.destroy(context);
    }
}

} // verus!
