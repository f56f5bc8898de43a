//! Device memory: choosing a memory type, allocating, and mapping regions
//! into host memory.

use crate::error::illegal_state;
use crate::error::out_of_range;
use crate::error::plain_error;
use crate::error::ErrorKind;
use crate::error::ErrorView;
use crate::error::FennecError;
use crate::text::decimal;
use crate::text::decimal_digits;
use crate::text::join;
use crate::vm::graphicsengine::device::DeviceCall;
use crate::vm::graphicsengine::device::DeviceCallView;
use crate::vm::graphicsengine::device::MemoryRequirements;
use crate::vm::graphicsengine::device::MemoryType;
use crate::vm::graphicsengine::vk;
use crate::vm::graphicsengine::vkobject::unnamed;
use crate::vm::graphicsengine::vkobject::HandleType;
use crate::vm::graphicsengine::vkobject::naming_error;
use crate::vm::graphicsengine::vkobject::VKHandle;
use crate::vm::graphicsengine::vkobject::VKHandleView;
use crate::vm::graphicsengine::vkobject::VKObject;
use crate::vm::graphicsengine::Context;
use crate::vm::graphicsengine::ContextView;
use crate::vm::graphicsengine::vktext::memory_properties_name;
use crate::vm::graphicsengine::vktext::write_memory_properties;
use vstd::prelude::*;
use vstd::slice::slice_to_vec;

verus! {

/// The number of memory types that a device can report at most.
pub const MAX_MEMORY_TYPES: usize = 32;

/// Whether the memory type at `index` is allowed by `type_bits` and has all
/// of `properties`.
pub open spec fn memory_type_fits(
    memory_types: Seq<MemoryType>,
    index: int,
    type_bits: u32,
    properties: u32,
) -> bool {
    &&& 0 <= index < memory_types.len()
    &&& index < MAX_MEMORY_TYPES
    &&& vk::spec_contains(type_bits, 1u32 << (index as u32))
    &&& vk::spec_contains(memory_types[index].property_flags, properties)
}

/// The first memory type at or after `from` that fits, if there is one.
pub open spec fn find_memory_type(
    memory_types: Seq<MemoryType>,
    type_bits: u32,
    properties: u32,
    from: nat,
) -> Option<u32>
    decreases MAX_MEMORY_TYPES - from,
{
    if from >= MAX_MEMORY_TYPES || from >= memory_types.len() {
        None
    } else if memory_type_fits(memory_types, from as int, type_bits, properties) {
        Some(from as u32)
    } else {
        find_memory_type(memory_types, type_bits, properties, from + 1)
    }
}

/// The description of the error for a device that offers no fitting memory
/// type.
pub open spec fn memory_type_unavailable(type_bits: u32, properties: u32) -> Seq<char> {
    "Memory type not available: type_bits="@ + decimal_digits(type_bits as nat) + " properties="@
        + memory_properties_name(properties)
}

/// Finds the first memory type of the device that `type_bits` allows and
/// that has all of `properties`.
pub fn get_memory_type_index(context: &Context, type_bits: u32, properties: u32) -> (result:
    Result<u32, FennecError>)
    ensures
        match result {
            Ok(index) => find_memory_type(context@.memory_types, type_bits, properties, 0) == Some(
                index,
            ),
            Err(error) => find_memory_type(context@.memory_types, type_bits, properties, 0)
                is None && error@ == plain_error(
                ErrorKind::General,
                memory_type_unavailable(type_bits, properties),
            ),
        },
{
    let memory_types = context.memory_types();
    let mut index: u32 = 0;
    while index < 32 && (index as usize) < memory_types.len()
        invariant
            index <= 32,
            memory_types@ == context@.memory_types,
            find_memory_type(context@.memory_types, type_bits, properties, 0) == find_memory_type(
                context@.memory_types,
                type_bits,
                properties,
                index as nat,
            ),
        decreases 32 - index,
    {
        let bit = 1u32 << index;
        if vk::contains(type_bits, bit) && vk::contains(
            memory_types[index as usize].property_flags,
            properties,
        ) {
            return Ok(index);
        }
        index += 1;
    }
    let bits_text = decimal(type_bits as u64);
    let properties_text = write_memory_properties(properties);
    let head = join("Memory type not available: type_bits=", bits_text.as_str());
    let middle = join(head.as_str(), " properties=");
    let description = join(middle.as_str(), properties_text.as_str());
    assert(description@ =~= memory_type_unavailable(type_bits, properties));
    Err(FennecError::with_kind(ErrorKind::General, description.as_str()))
}

/// The mathematical value of a [`Memory`].
pub struct MemoryView {
    pub handle: VKHandleView,
    /// The properties that the memory was asked to have.
    pub memory_flags: u32,
    /// The allocated size in bytes.
    pub size: u64,
    /// Whether a region of the memory is mapped into host memory.
    pub mapped: bool,
}

impl MemoryView {
    /// Whether the memory can be mapped into host memory: it is visible to
    /// the host and not protected.
    pub open spec fn mappable(self) -> bool {
        vk::spec_contains(self.memory_flags, vk::MEMORY_HOST_VISIBLE) && !vk::spec_contains(
            self.memory_flags,
            vk::MEMORY_PROTECTED,
        )
    }

    /// Whether the region of `size` bytes at `offset` lies inside the
    /// allocation.
    pub open spec fn holds_region(self, offset: u64, size: u64) -> bool {
        offset + size <= self.size
    }

    /// The description of the error for memory that cannot be mapped.
    pub open spec fn unmappable(self) -> Seq<char> {
        "Cannot map "@ + self.handle.name + " as it is either protected or host-invisible"@
    }

    /// The description of the error for memory that is mapped already.
    pub open spec fn already_mapped(self) -> Seq<char> {
        "Cannot map "@ + self.handle.name + " as it is mapped already"@
    }

    /// The description of the error for a region that leaves the allocation.
    pub open spec fn region_outside(self, offset: u64, size: u64) -> Seq<char> {
        "Region (offset="@ + decimal_digits(offset as nat) + " size="@ + decimal_digits(
            size as nat,
        ) + ") is not within "@ + self.handle.name + "'s mappable range (size="@ + decimal_digits(
            self.size as nat,
        ) + ")"@
    }

    /// The error that mapping the region refuses with, if it does: memory
    /// that is not mappable, memory that is mapped already, a region outside
    /// the allocation, and a context that is exclusively borrowed, in this
    /// order.
    pub open spec fn map_error(self, context: ContextView, offset: u64, size: u64) -> Option<
        ErrorView,
    > {
        if !self.mappable() {
            Some(illegal_state(self.unmappable()))
        } else if self.mapped {
            Some(illegal_state(self.already_mapped()))
        } else if !self.holds_region(offset, size) {
            Some(out_of_range(self.region_outside(offset, size)))
        } else if !context.readable() {
            Some(context.borrow_error())
        } else {
            None
        }
    }
}

/// A piece of memory allocated on the device.
#[derive(Debug)]
pub struct Memory {
    memory: VKHandle,
    memory_flags: u32,
    size: u64,
    mapped: bool,
}

impl View for Memory {
    type V = MemoryView;

    closed spec fn view(&self) -> MemoryView {
        MemoryView {
            handle: self.memory@,
            memory_flags: self.memory_flags,
            size: self.size,
            mapped: self.mapped,
        }
    }
}

impl VKObject for Memory {
    open spec fn wrapped(&self) -> VKHandleView {
        self@.handle
    }

    fn wrapped_handle(&self) -> (wrapped: &VKHandle) {
        &self.memory
    }
}

impl Memory {
    /// The value of memory that was just allocated.
    pub open spec fn fresh(context: u64, handle: u64, memory_flags: u32, size: u64) -> MemoryView {
        MemoryView {
            handle: VKHandleView {
                context,
                handle_type: HandleType::DeviceMemory,
                handle,
                protected: false,
                name: unnamed(),
            },
            memory_flags,
            size,
            mapped: false,
        }
    }

    /// Allocates memory that meets `memory_reqs` and has the properties
    /// `memory_flags`, from the first memory type of the device that fits.
    pub fn new(context: &mut Context, memory_reqs: MemoryRequirements, memory_flags: u32) -> (result:
        Result<Self, FennecError>)
        requires
            old(context)@.can_create(1),
        ensures
            match result {
                Ok(memory) => {
                    &&& old(context)@.readable()
                    &&& find_memory_type(
                        old(context)@.memory_types,
                        memory_reqs.memory_type_bits,
                        memory_flags,
                        0,
                    ) matches Some(index)
                    &&& final(context)@ == old(context)@.create(1).issue(
                        DeviceCallView::AllocateMemory {
                            memory: old(context)@.next_handle,
                            size: memory_reqs.size,
                            memory_type_index: index,
                        },
                    )
                    &&& memory@ == Memory::fresh(
                        old(context)@.id,
                        old(context)@.next_handle,
                        memory_flags,
                        memory_reqs.size,
                    )
                },
                Err(error) => {
                    &&& final(context)@ == old(context)@
                    &&& if !old(context)@.readable() {
                        error@ == old(context)@.borrow_error()
                    } else {
                        find_memory_type(
                            old(context)@.memory_types,
                            memory_reqs.memory_type_bits,
                            memory_flags,
                            0,
                        ) is None && error@ == plain_error(
                            ErrorKind::General,
                            memory_type_unavailable(memory_reqs.memory_type_bits, memory_flags),
                        )
                    }
                },
            },
    {
        context.check_readable()?;
        let memory_type_index = get_memory_type_index(
            context,
            memory_reqs.memory_type_bits,
            memory_flags,
        )?;
        let memory = context.create_handle();
        context.issue(
            DeviceCall::AllocateMemory { memory, size: memory_reqs.size, memory_type_index },
        );
        Ok(
            Self {
                memory: VKHandle::new(context, HandleType::DeviceMemory, memory, false),
                memory_flags,
                size: memory_reqs.size,
                mapped: false,
            },
        )
    }

    /// The allocated size in bytes.
    pub fn size(&self) -> (size: u64)
        ensures
            size == self@.size,
    {
        self.size
    }

    /// Whether the memory can be mapped into host memory.
    pub fn mappable(&self) -> (mappable: bool)
        ensures
            mappable == self@.mappable(),
    {
        vk::contains(self.memory_flags, vk::memory_host_visible()) && !vk::contains(
            self.memory_flags,
            vk::memory_protected(),
        )
    }

    /// Maps the region of `size` bytes at `offset` into host memory and hands
    /// out the guard for it. Where the mapping is refused, nothing changes.
    pub fn map_region<'a>(&'a mut self, context: &mut Context, offset: u64, size: u64) -> (result:
        Result<MemoryMap<'a>, FennecError>)
        ensures
            match result {
                Ok(map) => {
                    &&& old(self)@.map_error(old(context)@, offset, size) is None
                    &&& final(context)@ == old(context)@.issue(
                        DeviceCallView::MapMemory { memory: old(self)@.handle.handle, offset, size },
                    )
                    &&& map.memory@ == (MemoryView { mapped: true, ..old(self)@ })
                    &&& map.offset == offset
                    &&& map.size == size
                    &&& *final(self) == *final(map.memory)
                },
                Err(error) => {
                    &&& old(self)@.map_error(old(context)@, offset, size) == Some(error@)
                    &&& *final(self) == *old(self)
                    &&& final(context)@ == old(context)@
                },
            },
    {
        if !self.mappable() {
            let head = join("Cannot map ", self.memory.name());
            let description = join(
                head.as_str(),
                " as it is either protected or host-invisible",
            );
            assert(description@ =~= self@.unmappable());
            return Err(FennecError::with_kind(ErrorKind::IllegalState, description.as_str()));
        }
        if self.mapped {
            let head = join("Cannot map ", self.memory.name());
            let description = join(head.as_str(), " as it is mapped already");
            assert(description@ =~= self@.already_mapped());
            return Err(FennecError::with_kind(ErrorKind::IllegalState, description.as_str()));
        }
        if size > self.size || offset > self.size - size {
            let offset_text = decimal(offset);
            let size_text = decimal(size);
            let own_text = decimal(self.size);
            let a = join("Region (offset=", offset_text.as_str());
            let b = join(a.as_str(), " size=");
            let c = join(b.as_str(), size_text.as_str());
            let d = join(c.as_str(), ") is not within ");
            let e = join(d.as_str(), self.memory.name());
            let f = join(e.as_str(), "'s mappable range (size=");
            let g = join(f.as_str(), own_text.as_str());
            let description = join(g.as_str(), ")");
            assert(description@ =~= self@.region_outside(offset, size));
            return Err(FennecError::with_kind(ErrorKind::OutOfRange, description.as_str()));
        }
        context.check_readable()?;
        context.issue(DeviceCall::MapMemory { memory: self.memory.handle(), offset, size });
        self.mapped = true;
        Ok(MemoryMap { memory: self, offset, size })
    }

    /// Maps all of the memory into host memory.
    pub fn map_all<'a>(&'a mut self, context: &mut Context) -> (result: Result<
        MemoryMap<'a>,
        FennecError,
    >)
        ensures
            match result {
                Ok(map) => {
                    &&& old(self)@.map_error(old(context)@, 0, old(self)@.size) is None
                    &&& final(context)@ == old(context)@.issue(
                        DeviceCallView::MapMemory {
                            memory: old(self)@.handle.handle,
                            offset: 0,
                            size: old(self)@.size,
                        },
                    )
                    &&& map.memory@ == (MemoryView { mapped: true, ..old(self)@ })
                    &&& map.offset == 0
                    &&& map.size == old(self)@.size
                    &&& *final(self) == *final(map.memory)
                },
                Err(error) => {
                    &&& old(self)@.map_error(old(context)@, 0, old(self)@.size) == Some(error@)
                    &&& *final(self) == *old(self)
                    &&& final(context)@ == old(context)@
                },
            },
    {
        let size = self.size;
        self.map_region(context, 0, size)
    }

    /// Names the memory, here and on the device.
    pub fn set_name(&mut self, context: &mut Context, name: &str) -> (result: Result<
        (),
        FennecError,
    >)
        ensures
            final(self)@ == (MemoryView {
                handle: VKHandleView { name: name@, ..old(self)@.handle },
                ..old(self)@
            }),
            match result {
                Ok(()) => naming_error(old(context)@, name@) is None && final(context)@ == old(context)@.issue(VKHandle::naming(old(self)@.handle, name@)),
                Err(error) => naming_error(old(context)@, name@) == Some(error@)
                    && final(context)@ == old(context)@,
            },
    {
        self.memory.annotate(context, name)
    }

    /// Ends the life of the memory: it is freed unless it is protected.
    pub fn destroy(self, context: &mut Context)
        requires
            !self@.handle.protected && self@.handle.handle_type.spec_has_destroy_call() ==> old(context)@.readable(),
        ensures
            final(context)@ == VKHandle::released(self@.handle, old(context)@),
    {
        self.memory.release(context)
    }
}

/// A region of device memory that is mapped into host memory. It borrows the
/// memory until the region is unmapped.
pub struct MemoryMap<'a> {
    /// The memory that the region belongs to.
    pub memory: &'a mut Memory,
    /// Where the region starts in the allocation.
    pub offset: u64,
    /// The size of the region in bytes.
    pub size: u64,
}

impl<'a> MemoryMap<'a> {
    /// Unmaps the region.
    pub fn unmap(self, context: &mut Context)
        requires
            old(context)@.readable(),
        ensures
            final(self.memory)@ == (MemoryView { mapped: false, ..old(self.memory)@ }),
            final(context)@ == old(context)@.issue(
                DeviceCallView::UnmapMemory { memory: old(self.memory)@.handle.handle },
            ),
    {
        context.issue(DeviceCall::UnmapMemory { memory: self.memory.memory.handle() });
        self.memory.mapped = false;
    }

    /// The description of the error for a write that leaves the region.
    pub open spec fn write_outside(at: u64, length: nat, size: u64) -> Seq<char> {
        "Write (offset="@ + decimal_digits(at as nat) + " length="@ + decimal_digits(length)
            + ") is not within the mapped region (size="@ + decimal_digits(size as nat) + ")"@
    }

    /// Writes `bytes` into the region, `at` bytes from its start. A write
    /// that would leave the region is refused.
    pub fn write(&self, context: &mut Context, at: u64, bytes: &[u8]) -> (result: Result<
        (),
        FennecError,
    >)
        requires
            self.offset + self.size <= u64::MAX,
        ensures
            match result {
                Ok(()) => {
                    &&& at + bytes@.len() <= self.size
                    &&& old(context)@.readable()
                    &&& final(context)@ == old(context)@.issue(
                        DeviceCallView::WriteMemory {
                            memory: old(self.memory)@.handle.handle,
                            offset: (self.offset + at) as u64,
                            bytes: bytes@,
                        },
                    )
                },
                Err(error) => {
                    &&& final(context)@ == old(context)@
                    &&& if at + bytes@.len() > self.size {
                        error@ == out_of_range(
                            MemoryMap::write_outside(at, bytes@.len(), self.size),
                        )
                    } else {
                        !old(context)@.readable() && error@ == old(context)@.borrow_error()
                    }
                },
            },
    {
        let length = bytes.len() as u64;
        if length > self.size || at > self.size - length {
            let at_text = decimal(at);
            let length_text = decimal(length);
            let size_text = decimal(self.size);
            let a = join("Write (offset=", at_text.as_str());
            let b = join(a.as_str(), " length=");
            let c = join(b.as_str(), length_text.as_str());
            let d = join(c.as_str(), ") is not within the mapped region (size=");
            let e = join(d.as_str(), size_text.as_str());
            let description = join(e.as_str(), ")");
            assert(description@ =~= MemoryMap::write_outside(at, bytes@.len(), self.size));
            return Err(FennecError::with_kind(ErrorKind::OutOfRange, description.as_str()));
        }
        context.check_readable()?;
        context.issue(
            DeviceCall::WriteMemory {
                memory: self.memory.memory.handle(),
                offset: self.offset + at,
                bytes: slice_to_vec(bytes),
            },
        );
        Ok(())
    }
}

} // verus!
