//! Descriptor sets: their layouts, the sets themselves and the writes that
//! fill them.

use crate::cache::Cache;
use crate::cache::CacheView;
use crate::cache::Handle;
use crate::error::illegal_state;
use crate::error::not_found;
use crate::error::out_of_range;
use crate::error::ErrorKind;
use crate::error::ErrorView;
use crate::error::FennecError;
use crate::text::decimal;
use crate::text::decimal_digits;
use crate::text::join;
use crate::vm::graphicsengine::buffer::Buffer;
use crate::vm::graphicsengine::commandbuffer::batch_member_name;
use crate::vm::graphicsengine::commandbuffer::make_batch_member_name;
use crate::vm::graphicsengine::commandpool::only_names_since;
use crate::vm::graphicsengine::device::DescriptorPoolSize;
use crate::vm::graphicsengine::device::DescriptorBufferInfo;
use crate::vm::graphicsengine::device::DescriptorSetLayoutBinding;
use crate::vm::graphicsengine::device::DeviceCall;
use crate::vm::graphicsengine::device::DeviceCallView;
use crate::vm::graphicsengine::device::WriteDescriptorSet;
use crate::vm::graphicsengine::device::WriteDescriptorSetView;
use crate::vm::graphicsengine::vk;
use crate::vm::graphicsengine::vkobject::unnamed;
use crate::vm::graphicsengine::vkobject::HandleType;
use crate::vm::graphicsengine::vkobject::naming_error;
use crate::vm::graphicsengine::vkobject::VKHandle;
use crate::vm::graphicsengine::vkobject::VKHandleView;
use crate::vm::graphicsengine::vkobject::VKObject;
use crate::vm::graphicsengine::Context;
use crate::vm::graphicsengine::ContextView;
use std::rc::Rc;
use crate::vm::graphicsengine::commandbuffer::lemma_member_name_follows_pool;
use crate::vm::graphicsengine::vkobject::check_name;
use crate::cache::handle_text;
use crate::cache::make_handle_text;
use crate::vm::graphicsengine::vktext::descriptor_type_name;
use crate::vm::graphicsengine::vktext::write_descriptor_type;
use vstd::prelude::*;
use vstd::string::*;

verus! {

/// Settings of a descriptor pool that are rarely changed. A setting that is
/// left out takes its usual value.
#[derive(Clone, Copy, Debug)]
pub struct AdvancedDescriptorPoolSettings {
    /// Whether sets of the pool may be updated while they are bound
    /// (usually not).
    pub update_after_bind: Option<bool>,
}

impl Default for AdvancedDescriptorPoolSettings {
    fn default() -> (settings: Self)
        ensures
            settings.update_after_bind is None,
    {
        AdvancedDescriptorPoolSettings { update_after_bind: None }
    }
}

/// One descriptor of the layout of a descriptor set.
#[derive(Clone, Copy, Debug)]
pub struct Descriptor {
    /// The shader stages that read the descriptor.
    pub shader_stage: u32,
    /// The binding that the shaders know the descriptor by.
    pub shader_binding_location: u32,
    /// The type of the descriptor.
    pub descriptor_type: i32,
    /// The number of elements (more than one makes it an array).
    pub count: u32,
}

impl Descriptor {
    /// The descriptor as the device takes it.
    pub open spec fn spec_binding(self) -> DescriptorSetLayoutBinding {
        DescriptorSetLayoutBinding {
            binding: self.shader_binding_location,
            descriptor_type: self.descriptor_type,
            descriptor_count: self.count,
            stage_flags: self.shader_stage,
        }
    }

    /// The descriptor as the device takes it.
    #[verifier::when_used_as_spec(spec_binding)]
    pub fn binding(self) -> (binding: DescriptorSetLayoutBinding)
        ensures
            binding == self.spec_binding(),
    {
        DescriptorSetLayoutBinding {
            binding: self.shader_binding_location,
            descriptor_type: self.descriptor_type,
            descriptor_count: self.count,
            stage_flags: self.shader_stage,
        }
    }
}

/// The descriptors of a layout as the device takes them, in order.
pub open spec fn layout_bindings(descriptors: Seq<Descriptor>) -> Seq<DescriptorSetLayoutBinding> {
    Seq::new(descriptors.len(), |i: int| descriptors[i].spec_binding())
}

/// The mathematical value of a [`DescriptorSetLayout`].
pub struct DescriptorSetLayoutView {
    pub handle: VKHandleView,
    /// The number of sets of this layout to make room for.
    pub count: u32,
    /// The descriptors of a set of this layout.
    pub descriptors: Seq<Descriptor>,
}

/// The layout of a kind of descriptor set.
#[derive(Debug)]
pub struct DescriptorSetLayout {
    layout: VKHandle,
    count: u32,
    descriptors: Vec<Descriptor>,
}

impl View for DescriptorSetLayout {
    type V = DescriptorSetLayoutView;

    closed spec fn view(&self) -> DescriptorSetLayoutView {
        DescriptorSetLayoutView {
            handle: self.layout@,
            count: self.count,
            descriptors: self.descriptors@,
        }
    }
}

impl VKObject for DescriptorSetLayout {
    open spec fn wrapped(&self) -> VKHandleView {
        self@.handle
    }

    fn wrapped_handle(&self) -> (wrapped: &VKHandle) {
        &self.layout
    }
}

impl DescriptorSetLayout {
    /// Creates the layout of a kind of descriptor set, of which `count`
    /// sets are to be made room for.
    pub fn new(context: &mut Context, count: u32, descriptors: Vec<Descriptor>) -> (result: Result<
        Self,
        FennecError,
    >)
        requires
            old(context)@.can_create(1),
        ensures
            match result {
                Ok(layout) => old(context)@.readable() && layout@ == (DescriptorSetLayoutView {
                    handle: VKHandleView {
                        context: old(context)@.id,
                        handle_type: HandleType::DescriptorSetLayout,
                        handle: old(context)@.next_handle,
                        protected: false,
                        name: unnamed(),
                    },
                    count,
                    descriptors: descriptors@,
                }) && final(context)@ == old(context)@.create(1).issue(
                    DeviceCallView::CreateDescriptorSetLayout {
                        layout: old(context)@.next_handle,
                        bindings: layout_bindings(descriptors@),
                    },
                ),
                Err(error) => !old(context)@.readable() && error@ == old(context)@.borrow_error()
                    && final(context)@ == old(context)@,
            },
    {
        context.check_readable()?;
        let mut bindings: Vec<DescriptorSetLayoutBinding> = Vec::new();
        let mut i: usize = 0;
        while i < descriptors.len()
            invariant
                i <= descriptors@.len(),
                bindings@ == Seq::new(i as nat, |k: int| descriptors@[k].spec_binding()),
            decreases descriptors@.len() - i,
        {
            bindings.push(descriptors[i].binding());
            assert(bindings@ =~= Seq::new((i + 1) as nat, |k: int| descriptors@[k].spec_binding()));
            i += 1;
        }
        let layout = context.create_handle();
        context.issue(DeviceCall::CreateDescriptorSetLayout { layout, bindings });
        Ok(
            Self {
                layout: VKHandle::new(context, HandleType::DescriptorSetLayout, layout, false),
                count,
                descriptors,
            },
        )
    }

    /// The number of sets of this layout to make room for.
    pub fn count(&self) -> (count: u32)
        ensures
            count == self@.count,
    {
        self.count
    }

    /// The descriptors of a set of this layout.
    pub fn descriptors(&self) -> (descriptors: &Vec<Descriptor>)
        ensures
            descriptors@ == self@.descriptors,
    {
        &self.descriptors
    }

    /// The layout under another name.
    pub open spec fn renamed(value: DescriptorSetLayoutView, name: Seq<char>) -> DescriptorSetLayoutView {
        DescriptorSetLayoutView { handle: VKHandleView { name, ..value.handle }, ..value }
    }

    /// Names the layout, here and on the device.
    pub fn set_name(&mut self, context: &mut Context, name: &str) -> (result: Result<
        (),
        FennecError,
    >)
        ensures
            final(self)@ == DescriptorSetLayout::renamed(old(self)@, name@),
            match result {
                Ok(()) => naming_error(old(context)@, name@) is None && final(context)@ == old(context)@.issue(
                    VKHandle::naming(old(self)@.handle, name@),
                ),
                Err(error) => naming_error(old(context)@, name@) == Some(error@)
                    && final(context)@ == old(context)@,
            },
    {
        self.layout.annotate(context, name)
    }

    /// What the context looks like after an object that could not be named
    /// was given up: the object is destroyed where a call can be issued.
    pub open spec fn abandoned(value: DescriptorSetLayoutView, context: ContextView) -> ContextView {
        if context.readable() {
            VKHandle::released(value.handle, context)
        } else {
            context
        }
    }

    /// Names the layout and hands it back. Where it cannot be
    /// named it is given up: destroyed, where the context lets a call
    /// through.
    pub fn with_name(self, context: &mut Context, name: &str) -> (result: Result<
        Self,
        FennecError,
    >)
        ensures
            match result {
                Ok(named) => named@ == DescriptorSetLayout::renamed(self@, name@) && naming_error(old(context)@, name@) is None
                    && final(context)@ == old(context)@.issue(
                    VKHandle::naming(self@.handle, name@),
                ),
                Err(error) => naming_error(old(context)@, name@) == Some(error@)
                    && final(context)@ == Self::abandoned(self@, old(context)@),
            },
    {
        let mut named = self;
        match named.set_name(context, name) {
            Ok(()) => Ok(named),
            Err(error) => {
                match context.check_readable() {
                    Ok(()) => named.destroy(context),
                    Err(_) => {},
                }
                Err(error)
            },
        }
    }

    /// Ends the life of the layout: it is destroyed unless it is protected.
    pub fn destroy(self, context: &mut Context)
        requires
            !self@.handle.protected && self@.handle.handle_type.spec_has_destroy_call() ==> old(context)@.readable(),
        ensures
            final(context)@ == VKHandle::released(self@.handle, old(context)@),
    {
        self.layout.release(context)
    }
}

/// A range of a buffer to write into a descriptor.
pub struct BufferWrite<'a> {
    pub buffer: &'a Buffer,
    pub offset: u64,
    pub length: u64,
}

/// The ranges of a list of writes as the device takes them, in order.
pub open spec fn buffer_infos(buffer_writes: Seq<BufferWrite>) -> Seq<DescriptorBufferInfo> {
    Seq::new(
        buffer_writes.len(),
        |i: int|
            DescriptorBufferInfo {
                buffer: buffer_writes[i].buffer@.handle.handle,
                offset: buffer_writes[i].offset,
                range: buffer_writes[i].length,
            },
    )
}

/// The mathematical value of a [`DescriptorSet`].
pub struct DescriptorSetView {
    pub handle: VKHandleView,
    /// The layout of the set.
    pub layout: DescriptorSetLayoutView,
}

/// A descriptor set. Sets are given back through their pool: their handles
/// are protected.
#[derive(Debug)]
pub struct DescriptorSet {
    descriptor_set: VKHandle,
    layout: Rc<DescriptorSetLayout>,
}

impl View for DescriptorSet {
    type V = DescriptorSetView;

    closed spec fn view(&self) -> DescriptorSetView {
        DescriptorSetView { handle: self.descriptor_set@, layout: self.layout@ }
    }
}

impl VKObject for DescriptorSet {
    open spec fn wrapped(&self) -> VKHandleView {
        self@.handle
    }

    fn wrapped_handle(&self) -> (wrapped: &VKHandle) {
        &self.descriptor_set
    }
}

/// The description of the error for a descriptor that the layout lacks.
pub open spec fn no_such_descriptor(descriptor_index: u32, set: Seq<char>) -> Seq<char> {
    "Index "@ + decimal_digits(descriptor_index as nat) + " is not a valid descriptor index in "@
        + set
}

/// The description of the error for a write that leaves the elements of a
/// descriptor.
pub open spec fn range_outside(start: u32, count: nat, descriptor_index: u32, set: Seq<char>) -> Seq<
    char,
> {
    "Range (start="@ + decimal_digits(start as nat) + ", count="@ + decimal_digits(count)
        + ") is not within the range of descriptor "@ + decimal_digits(descriptor_index as nat)
        + " in "@ + set
}

/// The description of the error for a write of the wrong type.
pub open spec fn wrong_descriptor_type(expected: i32, found: i32) -> Seq<char> {
    "Expected descriptor's type to be "@ + descriptor_type_name(expected) + " but it was "@
        + descriptor_type_name(found)
}

impl DescriptorSetView {
    /// The error that a write of `count` elements from `start` on into the
    /// descriptor `descriptor_index` is refused with, if it is: a descriptor
    /// that the layout lacks, elements that the descriptor lacks, and a
    /// descriptor of another type than expected, in this order.
    pub open spec fn write_error(
        self,
        descriptor_index: u32,
        start: u32,
        count: nat,
        expected_descriptor_type: i32,
    ) -> Option<ErrorView> {
        if descriptor_index >= self.layout.descriptors.len() {
            Some(out_of_range(no_such_descriptor(descriptor_index, self.handle.name)))
        } else if start + count > self.layout.descriptors[descriptor_index as int].count {
            Some(out_of_range(range_outside(start, count, descriptor_index, self.handle.name)))
        } else if self.layout.descriptors[descriptor_index as int].descriptor_type
            != expected_descriptor_type {
            Some(
                illegal_state(
                    wrong_descriptor_type(
                        expected_descriptor_type,
                        self.layout.descriptors[descriptor_index as int].descriptor_type,
                    ),
                ),
            )
        } else {
            None
        }
    }
}

impl DescriptorSet {
    /// The descriptor set bound to `handle`, of the given layout.
    pub(crate) fn from_handle(context: &Context, handle: u64, layout: &Rc<DescriptorSetLayout>) -> (set:
        Self)
        ensures
            set@ == DescriptorSet::fresh(context@.id, handle, layout@),
    {
        Self {
            descriptor_set: VKHandle::new(context, HandleType::DescriptorSet, handle, true),
            layout: layout.clone(),
        }
    }

    /// The value of a descriptor set that was just allocated.
    pub open spec fn fresh(context: u64, handle: u64, layout: DescriptorSetLayoutView) -> DescriptorSetView {
        DescriptorSetView {
            handle: VKHandleView {
                context,
                handle_type: HandleType::DescriptorSet,
                handle,
                protected: true,
                name: unnamed(),
            },
            layout,
        }
    }

    /// The layout of the set.
    pub fn layout(&self) -> (layout: &Rc<DescriptorSetLayout>)
        ensures
            layout@ == self@.layout,
    {
        &self.layout
    }

    /// Describes the write of `buffer_writes` into the elements of the
    /// uniform-buffer descriptor `descriptor_index`, from element `start`
    /// on. A write that the layout of the set does not allow is refused.
    pub fn write_uniform_buffers(
        &self,
        descriptor_index: u32,
        start: u32,
        buffer_writes: &[BufferWrite],
    ) -> (result: Result<WriteDescriptorSet, FennecError>)
        ensures
            match result {
                Ok(write) => self@.write_error(
                    descriptor_index,
                    start,
                    buffer_writes@.len(),
                    vk::DESCRIPTOR_UNIFORM_BUFFER,
                ) is None && write@ == (WriteDescriptorSetView {
                    dst_set: self@.handle.handle,
                    dst_binding: descriptor_index,
                    dst_array_element: start,
                    descriptor_type: vk::DESCRIPTOR_UNIFORM_BUFFER,
                    buffer_info: buffer_infos(buffer_writes@),
                }),
                Err(error) => self@.write_error(
                    descriptor_index,
                    start,
                    buffer_writes@.len(),
                    vk::DESCRIPTOR_UNIFORM_BUFFER,
                ) == Some(error@),
            },
    {
        let mut infos: Vec<DescriptorBufferInfo> = Vec::new();
        let mut i: usize = 0;
        while i < buffer_writes.len()
            invariant
                i <= buffer_writes@.len(),
                infos@ == Seq::new(
                    i as nat,
                    |k: int|
                        DescriptorBufferInfo {
                            buffer: buffer_writes@[k].buffer@.handle.handle,
                            offset: buffer_writes@[k].offset,
                            range: buffer_writes@[k].length,
                        },
                ),
            decreases buffer_writes@.len() - i,
        {
            infos.push(
                DescriptorBufferInfo {
                    buffer: buffer_writes[i].buffer.handle(),
                    offset: buffer_writes[i].offset,
                    range: buffer_writes[i].length,
                },
            );
            assert(infos@ =~= Seq::new(
                (i + 1) as nat,
                |k: int|
                    DescriptorBufferInfo {
                        buffer: buffer_writes@[k].buffer@.handle.handle,
                        offset: buffer_writes@[k].offset,
                        range: buffer_writes@[k].length,
                    },
            ));
            i += 1;
        }
        let uniform_buffer = vk::descriptor_uniform_buffer();
        self.write_argument_check(descriptor_index, start, buffer_writes.len(), uniform_buffer)?;
        Ok(
            WriteDescriptorSet {
                dst_set: self.descriptor_set.handle(),
                dst_binding: descriptor_index,
                dst_array_element: start,
                descriptor_type: uniform_buffer,
                buffer_info: infos,
            },
        )
    }

    /// Checks a write of `count` elements from `start` on into the
    /// descriptor `descriptor_index` against the layout of the set.
    pub fn write_argument_check(
        &self,
        descriptor_index: u32,
        start: u32,
        count: usize,
        expected_descriptor_type: i32,
    ) -> (result: Result<(), FennecError>)
        ensures
            match result {
                Ok(()) => self@.write_error(
                    descriptor_index,
                    start,
                    count as nat,
                    expected_descriptor_type,
                ) is None,
                Err(error) => self@.write_error(
                    descriptor_index,
                    start,
                    count as nat,
                    expected_descriptor_type,
                ) == Some(error@),
            },
    {
        let descriptors = self.layout.descriptors();
        if descriptor_index as usize >= descriptors.len() {
            let index_text = decimal(descriptor_index as u64);
            let a = join("Index ", index_text.as_str());
            let b = join(a.as_str(), " is not a valid descriptor index in ");
            let description = join(b.as_str(), self.descriptor_set.name());
            assert(description@ =~= no_such_descriptor(descriptor_index, self@.handle.name));
            return Err(FennecError::with_kind(ErrorKind::OutOfRange, description.as_str()));
        }
        let descriptor = descriptors[descriptor_index as usize];
        if count > descriptor.count as usize || start > descriptor.count - count as u32 {
            let start_text = decimal(start as u64);
            let count_text = decimal(count as u64);
            let index_text = decimal(descriptor_index as u64);
            let a = join("Range (start=", start_text.as_str());
            let b = join(a.as_str(), ", count=");
            let c = join(b.as_str(), count_text.as_str());
            let d = join(c.as_str(), ") is not within the range of descriptor ");
            let e = join(d.as_str(), index_text.as_str());
            let f = join(e.as_str(), " in ");
            let description = join(f.as_str(), self.descriptor_set.name());
            assert(description@ =~= range_outside(
                start,
                count as nat,
                descriptor_index,
                self@.handle.name,
            ));
            return Err(FennecError::with_kind(ErrorKind::OutOfRange, description.as_str()));
        }
        if descriptor.descriptor_type != expected_descriptor_type {
            let expected_text = write_descriptor_type(expected_descriptor_type);
            let found_text = write_descriptor_type(descriptor.descriptor_type);
            let a = join("Expected descriptor's type to be ", expected_text.as_str());
            let b = join(a.as_str(), " but it was ");
            let description = join(b.as_str(), found_text.as_str());
            assert(description@ =~= wrong_descriptor_type(
                expected_descriptor_type,
                descriptor.descriptor_type,
            ));
            return Err(FennecError::with_kind(ErrorKind::IllegalState, description.as_str()));
        }
        Ok(())
    }

    /// The descriptor set under another name.
    pub open spec fn renamed(value: DescriptorSetView, name: Seq<char>) -> DescriptorSetView {
        DescriptorSetView { handle: VKHandleView { name, ..value.handle }, ..value }
    }

    /// Names the descriptor set, here and on the device.
    pub fn set_name(&mut self, context: &mut Context, name: &str) -> (result: Result<
        (),
        FennecError,
    >)
        ensures
            final(self)@ == DescriptorSet::renamed(old(self)@, name@),
            match result {
                Ok(()) => naming_error(old(context)@, name@) is None && final(context)@ == old(context)@.issue(
                    VKHandle::naming(old(self)@.handle, name@),
                ),
                Err(error) => naming_error(old(context)@, name@) == Some(error@)
                    && final(context)@ == old(context)@,
            },
    {
        self.descriptor_set.annotate(context, name)
    }

    /// What the context looks like after an object that could not be named
    /// was given up: the object is destroyed where a call can be issued.
    pub open spec fn abandoned(value: DescriptorSetView, context: ContextView) -> ContextView {
        if context.readable() {
            VKHandle::released(value.handle, context)
        } else {
            context
        }
    }

    /// Names the descriptor set and hands it back. Where it cannot be
    /// named it is given up: destroyed, where the context lets a call
    /// through.
    pub fn with_name(self, context: &mut Context, name: &str) -> (result: Result<
        Self,
        FennecError,
    >)
        ensures
            match result {
                Ok(named) => named@ == DescriptorSet::renamed(self@, name@) && naming_error(old(context)@, name@) is None
                    && final(context)@ == old(context)@.issue(
                    VKHandle::naming(self@.handle, name@),
                ),
                Err(error) => naming_error(old(context)@, name@) == Some(error@)
                    && final(context)@ == Self::abandoned(self@, old(context)@),
            },
    {
        let mut named = self;
        match named.set_name(context, name) {
            Ok(()) => Ok(named),
            Err(error) => {
                match context.check_readable() {
                    Ok(()) => named.destroy(context),
                    Err(_) => {},
                }
                Err(error)
            },
        }
    }

    /// Ends the life of the descriptor set: it is destroyed unless it is protected.
    pub fn destroy(self, context: &mut Context)
        requires
            !self@.handle.protected && self@.handle.handle_type.spec_has_destroy_call() ==> old(context)@.readable(),
        ensures
            final(context)@ == VKHandle::released(self@.handle, old(context)@),
    {
        self.descriptor_set.release(context)
    }
}

/// The description of the error for a handle under which the pool holds no
/// batch.
pub open spec fn no_descriptor_sets(handle: u64) -> Seq<char> {
    "No descriptor sets exist under handle "@ + handle_text(handle)
}

/// The calls that name the descriptor sets of a batch, in order.
pub open spec fn set_naming(batch: Seq<DescriptorSet>, pool: Seq<char>, handle: u64) -> Seq<
    DeviceCallView,
> {
    Seq::new(
        batch.len(),
        |i: int| VKHandle::naming(batch[i]@.handle, batch_member_name(pool, handle, i as nat)),
    )
}

/// The calls that name every descriptor set among `batches` after a pool
/// called `pool`: batch by batch as `order` lists them, and in a batch
/// member by member.
pub open spec fn pool_set_naming(
    batches: Map<u64, Vec<DescriptorSet>>,
    pool: Seq<char>,
    order: Seq<u64>,
) -> Seq<DeviceCallView>
    decreases order.len(),
{
    if order.len() == 0 {
        Seq::empty()
    } else {
        pool_set_naming(batches, pool, order.drop_last()) + set_naming(
            batches[order.last()]@,
            pool,
            order.last(),
        )
    }
}

/// Names every descriptor set of a batch after its pool, the handle of the
/// batch and its position in the batch. Where the batch is not empty and
/// the context is exclusively borrowed, or the name of the pool holds a NUL
/// character, the call fails at the first set, which keeps its new name on
/// this side.
pub fn name_sets(batch: &mut [DescriptorSet], context: &mut Context, pool: &str, handle: u64) -> (result:
    Result<(), FennecError>)
    ensures
        final(batch)@.len() == old(batch)@.len(),
        match result {
            Ok(()) => {
                &&& old(batch)@.len() > 0 ==> naming_error(old(context)@, pool@) is None
                &&& forall|i: int|
                    0 <= i < old(batch)@.len() ==> (#[trigger] final(batch)@[i])@ == DescriptorSet::renamed(old(batch)@[i]@, batch_member_name(pool@, handle, i as nat))
                &&& final(context)@ == old(context)@.issue_all(
                    set_naming(old(batch)@, pool@, handle),
                )
            },
            Err(error) => {
                &&& old(batch)@.len() > 0
                &&& naming_error(old(context)@, pool@) == Some(error@)
                &&& final(context)@ == old(context)@
                &&& final(batch)@[0]@ == DescriptorSet::renamed(old(batch)@[0]@, 
                    batch_member_name(pool@, handle, 0),
                )
                &&& forall|i: int|
                    0 < i < old(batch)@.len() ==> #[trigger] final(batch)@[i] == old(batch)@[i]
            },
        },
{
    let mut i: usize = 0;
    proof {
        context@.lemma_issue_all_advances(Seq::empty());
        assert(set_naming(old(batch)@, pool@, handle).take(0) =~= Seq::empty());
    }
    while i < batch.len()
        invariant
            i <= batch@.len(),
            batch@.len() == old(batch)@.len(),
            i > 0 ==> naming_error(old(context)@, pool@) is None,
            forall|k: int|
                0 <= k < i ==> (#[trigger] batch@[k])@ == DescriptorSet::renamed(old(batch)@[k]@, 
                    batch_member_name(pool@, handle, k as nat),
                ),
            forall|k: int| i <= k < batch@.len() ==> #[trigger] batch@[k] == old(batch)@[k],
            context@ == old(context)@.issue_all(
                set_naming(old(batch)@, pool@, handle).take(i as int),
            ),
        decreases batch@.len() - i,
    {
        let name = make_batch_member_name(pool, handle, i);
        proof {
            lemma_member_name_follows_pool(context@, pool@, handle, i as nat);
        }
        let named = batch[i].set_name(context, name.as_str());
        match named {
            Ok(()) => {},
            Err(error) => {
                return Err(error);
            },
        }
        proof {
            let calls = set_naming(old(batch)@, pool@, handle);
            assert(calls.take(i as int).push(calls[i as int]) =~= calls.take(i + 1));
            assert((old(context)@.calls + calls.take(i as int)).push(calls[i as int]) =~= old(context)@.calls + calls.take(i + 1));
        }
        i += 1;
    }
    proof {
        let calls = set_naming(old(batch)@, pool@, handle);
        assert(calls.take(calls.len() as int) =~= calls);
    }
    Ok(())
}

/// Whether the descriptor sets of `named` are those of `batch`, each under
/// the name that its place in the pool gives it.
pub open spec fn sets_named(
    named: Seq<DescriptorSet>,
    batch: Seq<DescriptorSet>,
    pool: Seq<char>,
    handle: u64,
) -> bool {
    &&& named.len() == batch.len()
    &&& forall|i: int|
        0 <= i < batch.len() ==> (#[trigger] named[i])@ == DescriptorSet::renamed(batch[i]@, 
            batch_member_name(pool, handle, i as nat),
        )
}

/// Whether the descriptor sets of `kept` are those of `batch` but for their
/// names.
pub open spec fn sets_kept(kept: Seq<DescriptorSet>, batch: Seq<DescriptorSet>) -> bool {
    &&& kept.len() == batch.len()
    &&& forall|i: int|
        0 <= i < batch.len() ==> (#[trigger] kept[i])@ == DescriptorSet::renamed(batch[i]@, kept[i]@.handle.name)
}

impl DescriptorPoolView {
    /// Whether this pool holds the batches of `before`, and nothing but the
    /// names of their descriptor sets can differ.
    pub open spec fn keeps_sets_of(self, before: Self) -> bool {
        &&& self.descriptor_sets.issued == before.descriptor_sets.issued
        &&& self.descriptor_sets.entries.dom() =~= before.descriptor_sets.entries.dom()
        &&& forall|handle: u64| #[trigger]
            before.descriptor_sets.entries.contains_key(handle) ==> sets_kept(
                self.descriptor_sets.entries[handle]@,
                before.descriptor_sets.entries[handle]@,
            )
    }

    /// Whether every descriptor set of this pool is the one of `before`
    /// under the name that its place in a pool called `pool` gives it.
    pub open spec fn names_sets_of(self, before: Self, pool: Seq<char>) -> bool {
        forall|handle: u64| #[trigger]
            before.descriptor_sets.entries.contains_key(handle) ==> sets_named(
                self.descriptor_sets.entries[handle]@,
                before.descriptor_sets.entries[handle]@,
                pool,
                handle,
            )
    }
}

/// What a pool has to hold of one type of descriptor.
pub struct Demand {
    pub ty: i32,
    pub count: nat,
}

/// What the sets of one layout ask of a pool: for each descriptor of the
/// layout, its elements for each set that room is to be made for.
pub open spec fn layout_demands(layout: DescriptorSetLayoutView, upto: nat) -> Seq<Demand> {
    Seq::new(
        upto,
        |k: int|
            Demand {
                ty: layout.descriptors[k].descriptor_type,
                count: (layout.descriptors[k].count * layout.count) as nat,
            },
    )
}

/// What the sets of the first `upto` of a list of layouts ask of a pool,
/// layout by layout.
pub open spec fn all_demands(set_layouts: Seq<&DescriptorSetLayout>, upto: nat) -> Seq<Demand>
    decreases upto,
{
    if upto == 0 {
        Seq::empty()
    } else {
        all_demands(set_layouts, (upto - 1) as nat) + layout_demands(
            set_layouts[upto - 1]@,
            set_layouts[upto - 1]@.descriptors.len(),
        )
    }
}

/// How many descriptors of the type `ty` the first `upto` of a list of
/// demands ask for.
pub open spec fn total_of(demands: Seq<Demand>, ty: i32, upto: nat) -> nat
    decreases upto,
{
    if upto == 0 {
        0
    } else if demands[upto - 1].ty == ty {
        total_of(demands, ty, (upto - 1) as nat) + demands[upto - 1].count
    } else {
        total_of(demands, ty, (upto - 1) as nat)
    }
}

/// Whether the demand at `index` is the first of its type.
pub open spec fn is_first_of_type(demands: Seq<Demand>, index: int) -> bool {
    forall|earlier: int| 0 <= earlier < index ==> (#[trigger] demands[earlier]).ty != demands[index].ty
}

/// The sizes of a pool that meets a list of demands, as far as the first
/// `upto` demands tell: one size for each type of descriptor, in the order
/// in which the types first occur, each with the total that the whole list
/// asks for.
pub open spec fn pooled(demands: Seq<Demand>, upto: nat) -> Seq<Demand>
    decreases upto,
{
    if upto == 0 {
        Seq::empty()
    } else if is_first_of_type(demands, upto - 1) {
        pooled(demands, (upto - 1) as nat).push(
            Demand {
                ty: demands[upto - 1].ty,
                count: total_of(demands, demands[upto - 1].ty, demands.len()),
            },
        )
    } else {
        pooled(demands, (upto - 1) as nat)
    }
}

/// How many sets the first `upto` of a list of layouts make room for.
pub open spec fn sets_demanded(set_layouts: Seq<&DescriptorSetLayout>, upto: nat) -> nat
    decreases upto,
{
    if upto == 0 {
        0
    } else {
        sets_demanded(set_layouts, (upto - 1) as nat) + set_layouts[upto - 1]@.count as nat
    }
}

/// Whether a pool can hold what a list of demands asks for: no total is
/// greater than the device can count.
pub open spec fn demands_fit(demands: Seq<Demand>) -> bool {
    forall|index: int|
        0 <= index < demands.len() ==> total_of(
            demands,
            (#[trigger] demands[index]).ty,
            demands.len(),
        ) <= u32::MAX
}

/// The sizes of a pool as the device takes them.
pub open spec fn pool_sizes(sizes: Seq<Demand>) -> Seq<DescriptorPoolSize> {
    Seq::new(
        sizes.len(),
        |i: int| DescriptorPoolSize { ty: sizes[i].ty, descriptor_count: sizes[i].count as u32 },
    )
}

/// The description of the error for layouts that ask for more than a pool
/// can hold.
pub open spec fn too_many_descriptors() -> Seq<char> {
    "The layouts ask for more descriptors than a pool can hold"@
}

/// The totals of a type only grow as more demands are counted.
pub proof fn lemma_total_grows(demands: Seq<Demand>, ty: i32, fewer: nat, more: nat)
    requires
        fewer <= more,
    ensures
        total_of(demands, ty, fewer) <= total_of(demands, ty, more),
    decreases more,
{
    if fewer < more {
        lemma_total_grows(demands, ty, fewer, (more - 1) as nat);
    }
}

/// The mathematical value of a [`DescriptorPool`].
pub struct DescriptorPoolView {
    pub handle: VKHandleView,
    /// The batches of descriptor sets that are alive, by handle.
    pub descriptor_sets: CacheView<Vec<DescriptorSet>>,
}

impl DescriptorPoolView {
    /// The batch under `handle`, if it is alive.
    pub open spec fn batch(self, handle: u64) -> Option<Seq<DescriptorSet>> {
        match self.descriptor_sets.get(handle) {
            Some(batch) => Some(batch@),
            None => None,
        }
    }

    /// Whether the pool holds no batch.
    pub open spec fn has_no_sets(self) -> bool {
        forall|handle: u64| !self.descriptor_sets.entries.contains_key(handle)
    }

    /// Whether the pool can take one more batch.
    pub open spec fn has_room(self) -> bool {
        self.descriptor_sets.well_formed() && self.descriptor_sets.has_room()
    }
}


/// A descriptor pool. It owns the batches of descriptor sets that were
/// allocated from it.
pub struct DescriptorPool {
    descriptor_pool: VKHandle,
    descriptor_sets: Cache<Vec<DescriptorSet>>,
}

impl View for DescriptorPool {
    type V = DescriptorPoolView;

    closed spec fn view(&self) -> DescriptorPoolView {
        DescriptorPoolView { handle: self.descriptor_pool@, descriptor_sets: self.descriptor_sets@ }
    }
}

impl VKObject for DescriptorPool {
    open spec fn wrapped(&self) -> VKHandleView {
        self@.handle
    }

    fn wrapped_handle(&self) -> (wrapped: &VKHandle) {
        &self.descriptor_pool
    }
}

fn missing_sets(handle: u64) -> (error: FennecError)
    ensures
        error@ == not_found(no_descriptor_sets(handle)),
{
    let index = make_handle_text(handle);
    let description = join("No descriptor sets exist under handle ", index.as_str());
    FennecError::with_kind(ErrorKind::NotFound, description.as_str())
}

/// The calls that name `count` fresh descriptor sets of a batch. The sets
/// are bound to the handles from `first` on.
pub open spec fn fresh_set_naming(
    context: u64,
    layout: DescriptorSetLayoutView,
    first: u64,
    count: nat,
    pool: Seq<char>,
    handle: u64,
) -> Seq<DeviceCallView> {
    Seq::new(
        count,
        |i: int|
            VKHandle::naming(
                DescriptorSet::fresh(context, (first + i) as u64, layout).handle,
                batch_member_name(pool, handle, i as nat),
            ),
    )
}

impl DescriptorPool {
    /// The error that the creation of a pool is refused with, if it is:
    /// layouts that ask for more than a pool can hold, and a context that
    /// is exclusively borrowed, in this order.
    pub open spec fn creation_error(
        context: ContextView,
        set_layouts: Seq<&DescriptorSetLayout>,
    ) -> Option<ErrorView> {
        if !demands_fit(all_demands(set_layouts, set_layouts.len())) || sets_demanded(
            set_layouts,
            set_layouts.len(),
        ) > u32::MAX {
            Some(out_of_range(too_many_descriptors()))
        } else if !context.readable() {
            Some(context.borrow_error())
        } else {
            None
        }
    }

    /// The flags that a pool is created with.
    pub open spec fn create_flags(advanced_settings: Option<AdvancedDescriptorPoolSettings>) -> u32 {
        if advanced_settings matches Some(settings) && settings.update_after_bind == Some(true) {
            vk::POOL_UPDATE_AFTER_BIND
        } else {
            0
        }
    }

    /// Creates a pool with room for the sets of `set_layouts`: for each
    /// type of descriptor as many as all layouts together ask for, and as
    /// many sets as all layouts together make room for.
    pub fn new(
        context: &mut Context,
        set_layouts: &[&DescriptorSetLayout],
        advanced_settings: Option<AdvancedDescriptorPoolSettings>,
    ) -> (result: Result<Self, FennecError>)
        requires
            old(context)@.can_create(1),
        ensures
            match result {
                Ok(pool) => {
                    &&& DescriptorPool::creation_error(old(context)@, set_layouts@) is None
                    &&& final(context)@ == old(context)@.create(1).issue(
                        DeviceCallView::CreateDescriptorPool {
                            pool: old(context)@.next_handle,
                            flags: DescriptorPool::create_flags(advanced_settings),
                            max_sets: sets_demanded(set_layouts@, set_layouts@.len()) as u32,
                            pool_sizes: pool_sizes(
                                pooled(
                                    all_demands(set_layouts@, set_layouts@.len()),
                                    all_demands(set_layouts@, set_layouts@.len()).len(),
                                ),
                            ),
                        },
                    )
                    &&& pool@ == (DescriptorPoolView {
                        handle: VKHandleView {
                            context: old(context)@.id,
                            handle_type: HandleType::DescriptorPool,
                            handle: old(context)@.next_handle,
                            protected: false,
                            name: unnamed(),
                        },
                        descriptor_sets: CacheView::empty(),
                    })
                },
                Err(error) => DescriptorPool::creation_error(old(context)@, set_layouts@) == Some(
                    error@,
                ) && final(context)@ == old(context)@,
            },
    {
        let ghost demands = all_demands(set_layouts@, set_layouts@.len());
        // What each descriptor of each layout asks for.
        let mut asked: Vec<(i32, u64)> = Vec::new();
        let mut max_sets: u64 = 0;
        let mut sets_fit = true;
        let mut index: usize = 0;
        while index < set_layouts.len()
            invariant
                index <= set_layouts@.len(),
                asked@.len() == all_demands(set_layouts@, index as nat).len(),
                forall|k: int|
                    0 <= k < asked@.len() ==> (#[trigger] asked@[k]).0 == all_demands(
                        set_layouts@,
                        index as nat,
                    )[k].ty && asked@[k].1 == all_demands(set_layouts@, index as nat)[k].count,
                sets_fit ==> max_sets == sets_demanded(set_layouts@, index as nat) && max_sets
                    <= u32::MAX,
                !sets_fit ==> sets_demanded(set_layouts@, index as nat) > u32::MAX,
            decreases set_layouts@.len() - index,
        {
            let layout = set_layouts[index];
            let descriptors = layout.descriptors();
            let ghost before = asked@;
            let mut k: usize = 0;
            while k < descriptors.len()
                invariant
                    k <= descriptors@.len(),
                    index < set_layouts@.len(),
                    layout == set_layouts@[index as int],
                    descriptors@ == layout@.descriptors,
                    asked@.len() == before.len() + k,
                    forall|j: int| 0 <= j < before.len() ==> asked@[j] == before[j],
                    forall|j: int|
                        0 <= j < k ==> (#[trigger] asked@[before.len() + j]).0
                            == descriptors@[j].descriptor_type && asked@[before.len() + j].1
                            == descriptors@[j].count * layout@.count,
                decreases descriptors@.len() - k,
            {
                let amount = {
                    assert(descriptors@[k as int].count as int * layout@.count as int
                        <= 0xffff_ffff * 0xffff_ffff) by (nonlinear_arith)
                        requires
                            0 <= descriptors@[k as int].count as int <= 0xffff_ffff,
                            0 <= layout@.count as int <= 0xffff_ffff,
                    ;
                    descriptors[k].count as u64 * layout.count() as u64
                };
                asked.push((descriptors[k].descriptor_type, amount));
                k += 1;
            }
            if sets_fit {
                max_sets = max_sets + layout.count() as u64;
                if max_sets > u32::MAX as u64 {
                    sets_fit = false;
                }
            }
            proof {
                let more = all_demands(set_layouts@, (index + 1) as nat);
                let fewer = all_demands(set_layouts@, index as nat);
                assert(more =~= fewer + layout_demands(layout@, layout@.descriptors.len()));
                assert forall|j: int| 0 <= j < asked@.len() implies (#[trigger] asked@[j]).0
                    == more[j].ty && asked@[j].1 == more[j].count by {
                    if j < before.len() {
                        assert(asked@[j] == before[j]);
                    } else {
                        assert(asked@[before.len() + (j - before.len())].0 == descriptors@[j
                            - before.len()].descriptor_type);
                    }
                }
            }
            index += 1;
        }
        assert(asked@.len() == demands.len());
        // One size for each type, in the order in which the types first
        // occur.
        let mut sizes: Vec<DescriptorPoolSize> = Vec::new();
        let mut i: usize = 0;
        while i < asked.len()
            invariant
                i <= asked@.len(),
                asked@.len() == demands.len(),
                demands == all_demands(set_layouts@, set_layouts@.len()),
                context@ == old(context)@,
                forall|k: int|
                    0 <= k < asked@.len() ==> (#[trigger] asked@[k]).0 == demands[k].ty
                        && asked@[k].1 == demands[k].count,
                forall|j: int|
                    0 <= j < i ==> total_of(demands, (#[trigger] demands[j]).ty, demands.len())
                        <= u32::MAX,
                sizes@ == pool_sizes(pooled(demands, i as nat)),
            decreases asked@.len() - i,
        {
            let ty = asked[i].0;
            let mut first = true;
            let mut earlier: usize = 0;
            while earlier < i
                invariant
                    earlier <= i,
                    i < asked@.len(),
                    asked@.len() == demands.len(),
                    ty == demands[i as int].ty,
                    forall|k: int|
                        0 <= k < asked@.len() ==> (#[trigger] asked@[k]).0 == demands[k].ty,
                    first ==> forall|j: int|
                        0 <= j < earlier ==> (#[trigger] demands[j]).ty != ty,
                    !first ==> exists|j: int| 0 <= j < i && (#[trigger] demands[j]).ty == ty,
                decreases i - earlier,
            {
                if asked[earlier].0 == ty {
                    first = false;
                    assert(demands[earlier as int].ty == ty);
                }
                earlier += 1;
            }
            if first {
                let mut total: u64 = 0;
                let mut k: usize = 0;
                while k < asked.len()
                    invariant
                        k <= asked@.len(),
                        asked@.len() == demands.len(),
                        i < asked@.len(),
                        ty == demands[i as int].ty,
                        context@ == old(context)@,
                        demands == all_demands(set_layouts@, set_layouts@.len()),
                        forall|j: int|
                            0 <= j < asked@.len() ==> (#[trigger] asked@[j]).0 == demands[j].ty
                                && asked@[j].1 == demands[j].count,
                        total == total_of(demands, ty, k as nat),
                        total <= u32::MAX,
                    decreases asked@.len() - k,
                {
                    if asked[k].0 == ty {
                        if asked[k].1 > u32::MAX as u64 - total {
                            proof {
                                lemma_total_grows(demands, ty, (k + 1) as nat, demands.len());
                                assert(total_of(demands, demands[i as int].ty, demands.len())
                                    > u32::MAX);
                            }
                            return Err(
                                FennecError::with_kind(
                                    ErrorKind::OutOfRange,
                                    "The layouts ask for more descriptors than a pool can hold",
                                ),
                            );
                        }
                        total = total + asked[k].1;
                    }
                    k += 1;
                }
                let ghost before = sizes@;
                sizes.push(DescriptorPoolSize { ty, descriptor_count: total as u32 });
                assert(is_first_of_type(demands, i as int));
                assert(sizes@ =~= pool_sizes(pooled(demands, (i + 1) as nat)));
            } else {
                proof {
                    let j = choose|j: int| 0 <= j < i && (#[trigger] demands[j]).ty == ty;
                    assert(!is_first_of_type(demands, i as int));
                    assert(total_of(demands, demands[j].ty, demands.len()) <= u32::MAX);
                }
            }
            i += 1;
        }
        if !sets_fit {
            return Err(
                FennecError::with_kind(
                    ErrorKind::OutOfRange,
                    "The layouts ask for more descriptors than a pool can hold",
                ),
            );
        }
        context.check_readable()?;
        let flags = match advanced_settings {
            Some(settings) => match settings.update_after_bind {
                Some(true) => vk::pool_update_after_bind(),
                _ => 0,
            },
            None => 0,
        };
        let pool = context.create_handle();
        context.issue(
            DeviceCall::CreateDescriptorPool {
                pool,
                flags,
                max_sets: max_sets as u32,
                pool_sizes: sizes,
            },
        );
        Ok(
            Self {
                descriptor_pool: VKHandle::new(context, HandleType::DescriptorPool, pool, false),
                descriptor_sets: Cache::new(),
            },
        )
    }

    /// Whether the pool has a handle left for one more batch.
    pub fn has_handles_left(&self) -> (left: bool)
        ensures
            left == self@.descriptor_sets.has_room(),
    {
        self.descriptor_sets.issued() < u64::MAX
    }

    /// The error that refuses an allocation of `count` sets from a pool
    /// called `pool`, if there is one: the borrow error where the context is
    /// exclusively borrowed, and, where there is a set to name, the error
    /// for a name that the device cannot be told.
    pub open spec fn allocation_error(context: ContextView, pool: Seq<char>, count: u32) -> Option<
        ErrorView,
    > {
        if !context.readable() {
            Some(context.borrow_error())
        } else if count > 0 {
            naming_error(context, pool)
        } else {
            None
        }
    }

    /// Allocates the sets of `layout`, as many as the layout makes room
    /// for, as one batch, and names each after the pool, the handle of the
    /// batch and its position. Returns the handle under which the batch can
    /// be found again, and the sets themselves. An allocation whose sets
    /// could not be named is refused before anything is issued.
    pub fn create_descriptor_sets<'a>(
        &'a mut self,
        context: &mut Context,
        layout: &Rc<DescriptorSetLayout>,
    ) -> (result: Result<(Handle<Vec<DescriptorSet>>, &'a mut [DescriptorSet]), FennecError>)
        requires
            old(self)@.has_room(),
            old(context)@.can_create(layout@.count as nat),
        ensures
            match result {
                Ok((handle, sets)) => {
                    &&& DescriptorPool::allocation_error(
                        old(context)@,
                        old(self)@.handle.name,
                        layout@.count,
                    ) is None
                    &&& final(context)@ == old(context)@.create(layout@.count as nat).issue(
                        DeviceCallView::AllocateDescriptorSets {
                            pool: old(self)@.handle.handle,
                            layout: layout@.handle.handle,
                            first: old(context)@.next_handle,
                            count: layout@.count,
                        },
                    ).issue_all(
                        fresh_set_naming(
                            old(context)@.id,
                            layout@,
                            old(context)@.next_handle,
                            layout@.count as nat,
                            old(self)@.handle.name,
                            handle@,
                        ),
                    )
                    &&& handle@ == old(self)@.descriptor_sets.next_index()
                    &&& !old(self)@.descriptor_sets.entries.contains_key(handle@)
                    &&& sets@.len() == layout@.count
                    &&& forall|i: int|
                        0 <= i < layout@.count ==> (#[trigger] sets@[i])@ == DescriptorSet::renamed(
                            DescriptorSet::fresh(
                                old(context)@.id,
                                (old(context)@.next_handle + i) as u64,
                                layout@,
                            ),
                            batch_member_name(old(self)@.handle.name, handle@, i as nat),
                        )
                    &&& final(self)@.handle == old(self)@.handle
                    &&& final(self)@.descriptor_sets.issued == handle@
                    &&& final(self)@.descriptor_sets.entries.dom() =~= old(self)@.descriptor_sets.entries.dom().insert(handle@)
                    &&& forall|other: u64|
                        old(self)@.descriptor_sets.entries.contains_key(other) ==> final(self)@.descriptor_sets.entries[other] == old(self)@.descriptor_sets.entries[other]
                    &&& final(self)@.batch(handle@) == Some(final(sets)@)
                },
                Err(error) => DescriptorPool::allocation_error(
                    old(context)@,
                    old(self)@.handle.name,
                    layout@.count,
                ) == Some(error@) && final(context)@ == old(context)@ && final(self)@ == old(self)@,
            },
    {
        context.check_readable()?;
        let own_name = String::from_str(self.descriptor_pool.name());
        let count = layout.count();
        if count > 0 {
            check_name(context, own_name.as_str())?;
        }
        let first = context.create_handles(count);
        context.issue(
            DeviceCall::AllocateDescriptorSets {
                pool: self.descriptor_pool.handle(),
                layout: layout.handle(),
                first,
                count,
            },
        );
        let mut batch: Vec<DescriptorSet> = Vec::new();
        let mut i: u32 = 0;
        while i < count
            invariant
                i <= count,
                first + count <= u64::MAX,
                batch@.len() == i,
                forall|k: int|
                    0 <= k < i ==> (#[trigger] batch@[k])@ == DescriptorSet::fresh(
                        context@.id,
                        (first + k) as u64,
                        layout@,
                    ),
            decreases count - i,
        {
            batch.push(DescriptorSet::from_handle(context, first + i as u64, layout));
            i += 1;
        }
        let ghost fresh = batch@;
        let handle = self.descriptor_sets.insert(batch);
        match self.descriptor_sets.get_mut(handle) {
            Some(batch) => {
                let sets = batch.as_mut_slice();
                let named = name_sets(sets, context, own_name.as_str(), handle.index());
                assert(named is Ok);
                proof {
                    assert(set_naming(fresh, own_name@, handle@) =~= fresh_set_naming(
                        old(context)@.id,
                        layout@,
                        first,
                        count as nat,
                        old(self)@.handle.name,
                        handle@,
                    ));
                }
                Ok((handle, sets))
            },
            None => Err(missing_sets(handle.index())),
        }
    }

    /// What is left of the pool when the batch under `handle` is taken out.
    pub open spec fn without(pool: DescriptorPoolView, handle: u64) -> DescriptorPoolView {
        DescriptorPoolView { descriptor_sets: pool.descriptor_sets.remove(handle), ..pool }
    }

    /// The batch of descriptor sets under `handle`.
    pub fn descriptor_sets(&self, handle: Handle<Vec<DescriptorSet>>) -> (result: Result<
        &[DescriptorSet],
        FennecError,
    >)
        ensures
            match result {
                Ok(buffers) => self@.batch(handle@) == Some(buffers@),
                Err(error) => self@.batch(handle@) is None && error@ == not_found(
                    no_descriptor_sets(handle@),
                ),
            },
    {
        match self.descriptor_sets.get(handle) {
            Some(batch) => Ok(batch.as_slice()),
            None => Err(missing_sets(handle.index())),
        }
    }

    /// The batch of descriptor sets under `handle`, for recording.
    pub fn descriptor_sets_mut<'a>(&'a mut self, handle: Handle<Vec<DescriptorSet>>) -> (result:
        Result<&'a mut [DescriptorSet], FennecError>)
        ensures
            match result {
                Ok(buffers) => {
                    &&& old(self)@.batch(handle@) == Some(buffers@)
                    &&& final(self)@.handle == old(self)@.handle
                    &&& final(self)@.descriptor_sets.issued == old(self)@.descriptor_sets.issued
                    &&& final(self)@.descriptor_sets.entries.dom() =~= old(self)@.descriptor_sets.entries.dom()
                    &&& forall|other: u64|
                        other != handle@ && old(self)@.descriptor_sets.entries.contains_key(other)
                            ==> final(self)@.descriptor_sets.entries[other] == old(self)@.descriptor_sets.entries[other]
                    &&& final(self)@.batch(handle@) == Some(final(buffers)@)
                },
                Err(error) => old(self)@.batch(handle@) is None && error@ == not_found(
                    no_descriptor_sets(handle@),
                ) && final(self)@ == old(self)@,
            },
    {
        match self.descriptor_sets.get_mut(handle) {
            Some(batch) => Ok(batch.as_mut_slice()),
            None => Err(missing_sets(handle.index())),
        }
    }

    /// Names every descriptor set of the pool after the pool, the handle of
    /// its batch and its position in the batch. The batches are visited in
    /// no particular order. Where the context is exclusively borrowed, or the
    /// name of the pool holds a NUL character, the call fails at the first
    /// descriptor set it comes to.
    pub fn set_children_names(&mut self, context: &mut Context) -> (result: Result<
        (),
        FennecError,
    >)
        ensures
            final(self)@.handle == old(self)@.handle,
            final(self)@.keeps_sets_of(old(self)@),
            final(context)@.extends(old(context)@),
            only_names_since(final(context)@, old(context)@),
            old(self)@.has_no_sets() ==> final(context)@ == old(context)@,
            match result {
                Ok(()) => {
                    &&& final(self)@.names_sets_of(old(self)@, old(self)@.handle.name)
                    &&& exists|order: Seq<u64>| #[trigger]
                        old(self)@.descriptor_sets.walked_by(order) && final(context)@ == old(context)@.issue_all(
                            pool_set_naming(
                                old(self)@.descriptor_sets.entries,
                                old(self)@.handle.name,
                                order,
                            ),
                        )
                },
                Err(error) => naming_error(old(context)@, old(self)@.handle.name) == Some(error@)
                    && final(context)@ == old(context)@,
            },
    {
        let own_name = String::from_str(self.descriptor_pool.name());
        let handles = self.descriptor_sets.handles();
        let ghost order = Seq::new(handles@.len(), |i: int| handles@[i]@);
        proof {
            assert(order.take(0) =~= Seq::<u64>::empty());
            assert(context@.issue_all(Seq::empty()) == context@) by {
                assert(context@.calls + Seq::<DeviceCallView>::empty() =~= context@.calls);
            }
            context@.lemma_advanced_by_nothing();
            if old(self)@.has_no_sets() && handles@.len() > 0 {
                assert(old(self)@.descriptor_sets.entries.contains_key(handles@[0]@));
            }
        }
        let mut visited: usize = 0;
        while visited < handles.len()
            invariant
                visited <= handles@.len(),
                own_name@ == old(self)@.handle.name,
                forall|i: int|
                    0 <= i < handles@.len() ==> old(self)@.descriptor_sets.entries.contains_key(
                        #[trigger] handles@[i]@,
                    ),
                forall|i: int, j: int|
                    0 <= i < j < handles@.len() ==> handles@[i]@ != handles@[j]@,
                forall|index: u64| #[trigger]
                    old(self)@.descriptor_sets.entries.contains_key(index) ==> exists|i: int|
                        0 <= i < handles@.len() && #[trigger] handles@[i]@ == index,
                self@.handle == old(self)@.handle,
                self@.descriptor_sets.issued == old(self)@.descriptor_sets.issued,
                self@.descriptor_sets.entries.dom() =~= old(self)@.descriptor_sets.entries.dom(),
                forall|i: int|
                    0 <= i < visited ==> sets_named(
                        self@.descriptor_sets.entries[#[trigger] handles@[i]@]@,
                        old(self)@.descriptor_sets.entries[handles@[i]@]@,
                        old(self)@.handle.name,
                        handles@[i]@,
                    ),
                forall|i: int|
                    visited <= i < handles@.len() ==> self@.descriptor_sets.entries[#[trigger] handles@[i]@]
                        == old(self)@.descriptor_sets.entries[handles@[i]@],
                context@.extends(old(context)@),
                only_names_since(context@, old(context)@),
                naming_error(old(context)@, old(self)@.handle.name) is Some ==> context@ == old(context)@,
                visited == 0 ==> context@ == old(context)@,
                order == Seq::new(handles@.len(), |i: int| handles@[i]@),
                context@ == old(context)@.issue_all(
                    pool_set_naming(
                        old(self)@.descriptor_sets.entries,
                        own_name@,
                        order.take(visited as int),
                    ),
                ),
                old(self)@.has_no_sets() ==> handles@.len() == 0,
            decreases handles@.len() - visited,
        {
            let handle = handles[visited];
            let ghost before = context@;
            let ghost entries = self@.descriptor_sets.entries;
            match self.descriptor_sets.get_mut(handle) {
                Some(batch) => {
                    let named = name_sets(
                        batch.as_mut_slice(),
                        context,
                        own_name.as_str(),
                        handle.index(),
                    );
                    match named {
                        Ok(()) => {},
                        Err(error) => {
                            proof {
                                let now = self@.descriptor_sets.entries;
                                assert forall|other: u64| #[trigger]
                                    old(self)@.descriptor_sets.entries.contains_key(
                                        other,
                                    ) implies sets_kept(
                                    now[other]@,
                                    old(self)@.descriptor_sets.entries[other]@,
                                ) by {
                                    let i = choose|i: int|
                                        0 <= i < handles@.len() && #[trigger] handles@[i]@
                                            == other;
                                    if i != visited {
                                        assert(now[other] == entries[other]);
                                    }
                                }
                            }
                            return Err(error);
                        },
                    }
                },
                None => {},
            }
            proof {
                let earlier = order.take(visited as int);
                let so_far = order.take(visited + 1);
                assert(so_far.drop_last() =~= earlier);
                assert(so_far.last() == handle@);
                assert(entries[handle@] == old(self)@.descriptor_sets.entries[handle@]);
                old(context)@.lemma_issue_all_twice(
                    pool_set_naming(old(self)@.descriptor_sets.entries, own_name@, earlier),
                    set_naming(entries[handle@]@, own_name@, handle@),
                );
            }
            proof {
                let now = self@.descriptor_sets.entries;
                if entries.contains_key(handle@) {
                    before.lemma_issue_all_advances(
                        set_naming(entries[handle@]@, own_name@, handle@),
                    );
                } else {
                    before.lemma_advanced_by_nothing();
                }
                assert(context@.advanced(
                    before,
                    (context@.calls.len() - before.calls.len()) as nat,
                    0,
                ));
                if !old(context)@.readable() {
                    context@.lemma_advanced_by_nothing_is_same(before);
                }
                context@.lemma_advanced_twice(
                    before,
                    old(context)@,
                    (before.calls.len() - old(context)@.calls.len()) as nat,
                    0,
                    (context@.calls.len() - before.calls.len()) as nat,
                    0,
                );
                assert forall|k: int|
                    old(context)@.calls.len() <= k < context@.calls.len() implies (
                #[trigger] context@.calls[k]) is SetObjectName by {
                    if k < before.calls.len() {
                        assert(context@.issued_since(
                            old(context)@,
                            k - old(context)@.calls.len(),
                        ) == before.issued_since(old(context)@, k - old(context)@.calls.len()));
                    } else {
                        assert(context@.issued_since(before, k - before.calls.len())
                            == set_naming(entries[handle@]@, own_name@, handle@)[k
                            - before.calls.len()]);
                    }
                }
                assert forall|i: int| 0 <= i < visited + 1 implies sets_named(
                    now[#[trigger] handles@[i]@]@,
                    old(self)@.descriptor_sets.entries[handles@[i]@]@,
                    old(self)@.handle.name,
                    handles@[i]@,
                ) by {
                    if i < visited {
                        assert(now[handles@[i]@] == entries[handles@[i]@]);
                    }
                }
                assert forall|i: int| visited + 1 <= i < handles@.len() implies now[#[trigger] handles@[i]@]
                    == old(self)@.descriptor_sets.entries[handles@[i]@] by {
                    assert(now[handles@[i]@] == entries[handles@[i]@]);
                }
            }
            visited += 1;
        }
        proof {
            let now = self@.descriptor_sets.entries;
            assert forall|other: u64| #[trigger]
                old(self)@.descriptor_sets.entries.contains_key(other) implies sets_named(
                now[other]@,
                old(self)@.descriptor_sets.entries[other]@,
                old(self)@.handle.name,
                other,
            ) by {
                let i = choose|i: int| 0 <= i < handles@.len() && #[trigger] handles@[i]@ == other;
                assert(sets_named(
                    now[handles@[i]@]@,
                    old(self)@.descriptor_sets.entries[handles@[i]@]@,
                    old(self)@.handle.name,
                    handles@[i]@,
                ));
            }
            assert(order.take(order.len() as int) =~= order);
            assert(old(self)@.descriptor_sets.walked_by(order)) by {
                assert forall|handle: u64| #[trigger]
                    old(self)@.descriptor_sets.entries.contains_key(handle) implies exists|i: int|
                    0 <= i < order.len() && #[trigger] order[i] == handle by {
                    let i = choose|i: int|
                        0 <= i < handles@.len() && #[trigger] handles@[i]@ == handle;
                    assert(order[i] == handle);
                }
            }
        }
        Ok(())
    }

    /// Writes resources into descriptor sets.
    pub fn update_descriptor_sets(&self, context: &mut Context, writes: Vec<WriteDescriptorSet>) -> (result:
        Result<(), FennecError>)
        ensures
            match result {
                Ok(()) => old(context)@.readable() && final(context)@ == old(context)@.issue(
                    DeviceCallView::UpdateDescriptorSets {
                        writes: writes@.map_values(|item: WriteDescriptorSet| item@),
                    },
                ),
                Err(error) => !old(context)@.readable() && error@ == old(context)@.borrow_error()
                    && final(context)@ == old(context)@,
            },
    {
        context.check_readable()?;
        context.issue(DeviceCall::UpdateDescriptorSets { writes });
        Ok(())
    }

    /// The pool under another name.
    pub open spec fn renamed(pool: DescriptorPoolView, name: Seq<char>) -> DescriptorPoolView {
        DescriptorPoolView { handle: VKHandleView { name, ..pool.handle }, ..pool }
    }

    /// Names the pool, here and on the device, and then its descriptor sets
    /// after it. Where the context is exclusively borrowed the call fails;
    /// the pool keeps its new name on this side, and its descriptor sets
    /// are not touched.
    pub fn set_name(&mut self, context: &mut Context, name: &str) -> (result: Result<
        (),
        FennecError,
    >)
        ensures
            final(self)@.handle == DescriptorPool::renamed(old(self)@, name@).handle,
            final(self)@.keeps_sets_of(old(self)@),
            match result {
                Ok(()) => {
                    &&& naming_error(old(context)@, name@) is None
                    &&& final(context)@.extends(old(context)@)
                    &&& final(context)@.calls.len() > old(context)@.calls.len()
                    &&& final(context)@.issued_since(old(context)@, 0) == VKHandle::naming(
                        old(self)@.handle,
                        name@,
                    )
                    &&& only_names_since(final(context)@, old(context)@)
                    &&& final(self)@.names_sets_of(old(self)@, name@)
                    &&& exists|order: Seq<u64>| #[trigger]
                        old(self)@.descriptor_sets.walked_by(order) && final(context)@ == old(context)@.issue(VKHandle::naming(old(self)@.handle, name@)).issue_all(
                            pool_set_naming(old(self)@.descriptor_sets.entries, name@, order),
                        )
                    &&& old(self)@.has_no_sets() ==> final(context)@ == old(context)@.issue(
                        VKHandle::naming(old(self)@.handle, name@),
                    ) && final(self)@ == DescriptorPool::renamed(
                        old(self)@,
                        name@,
                    )
                },
                Err(error) => {
                    &&& naming_error(old(context)@, name@) == Some(error@)
                    &&& final(context)@ == old(context)@
                    &&& final(self)@ == DescriptorPool::renamed(old(self)@, name@)
                },
            },
    {
        let annotated = self.descriptor_pool.annotate(context, name);
        match annotated {
            Ok(()) => {},
            Err(error) => {
                return Err(error);
            },
        }
        let ghost middle = context@;
        let ghost pool = self@;
        let named = self.set_children_names(context);
        proof {
            old(context)@.lemma_issue_advances(VKHandle::naming(old(self)@.handle, name@));
            context@.lemma_advanced_twice(
                middle,
                old(context)@,
                1,
                0,
                (context@.calls.len() - middle.calls.len()) as nat,
                0,
            );
            assert(middle.issued_since(old(context)@, 0) == middle.calls.last());
            assert forall|handle: u64| #[trigger]
                old(self)@.descriptor_sets.entries.contains_key(handle) implies sets_kept(
                self@.descriptor_sets.entries[handle]@,
                old(self)@.descriptor_sets.entries[handle]@,
            ) by {
                assert(pool.descriptor_sets.entries.contains_key(handle));
            }
            if old(self)@.has_no_sets() {
                assert(self@.descriptor_sets.entries =~= old(self)@.descriptor_sets.entries);
            }
        }
        named
    }

    /// What the context looks like after an object that could not be named
    /// was given up: the object is destroyed where a call can be issued.
    pub open spec fn abandoned(value: DescriptorPoolView, context: ContextView) -> ContextView {
        if context.readable() {
            VKHandle::released(value.handle, context)
        } else {
            context
        }
    }

    /// Names the pool and hands it back. Where it cannot be
    /// named it is given up: destroyed, where the context lets a call
    /// through.
    pub fn with_name(self, context: &mut Context, name: &str) -> (result: Result<
        Self,
        FennecError,
    >)
        ensures
            match result {
                Ok(named) => {
                    &&& naming_error(old(context)@, name@) is None
                    &&& named@.handle == DescriptorPool::renamed(self@, name@).handle
                    &&& named@.keeps_sets_of(self@)
                    &&& named@.names_sets_of(self@, name@)
                    &&& final(context)@.extends(old(context)@)
                    &&& final(context)@.calls.len() > old(context)@.calls.len()
                    &&& final(context)@.issued_since(old(context)@, 0) == VKHandle::naming(
                        self@.handle,
                        name@,
                    )
                    &&& only_names_since(final(context)@, old(context)@)
                    &&& exists|order: Seq<u64>| #[trigger]
                        self@.descriptor_sets.walked_by(order) && final(context)@ == old(context)@.issue(VKHandle::naming(self@.handle, name@)).issue_all(
                            pool_set_naming(self@.descriptor_sets.entries, name@, order),
                        )
                    &&& self@.has_no_sets() ==> final(context)@ == old(context)@.issue(
                        VKHandle::naming(self@.handle, name@),
                    ) && named@ == DescriptorPool::renamed(self@, name@)
                },
                Err(error) => naming_error(old(context)@, name@) == Some(error@)
                    && final(context)@ == Self::abandoned(self@, old(context)@),
            },
    {
        let mut named = self;
        match named.set_name(context, name) {
            Ok(()) => Ok(named),
            Err(error) => {
                match context.check_readable() {
                    Ok(()) => named.destroy(context),
                    Err(_) => {},
                }
                Err(error)
            },
        }
    }

    /// Ends the life of the pool: it is destroyed, and its descriptor sets
    /// with it.
    pub fn destroy(self, context: &mut Context)
        requires
            !self@.handle.protected && self@.handle.handle_type.spec_has_destroy_call() ==> old(context)@.readable(),
        ensures
            final(context)@ == VKHandle::released(self@.handle, old(context)@),
    {
        self.descriptor_pool.release(context)
    }
}

} // verus!
