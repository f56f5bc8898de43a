//! Samplers: how the texels of an image are read by shaders.

use crate::error::FennecError;
use crate::vm::graphicsengine::device::DeviceCall;
use crate::vm::graphicsengine::device::DeviceCallView;
use crate::vm::graphicsengine::device::Float;
use crate::vm::graphicsengine::device::SamplerCreateInfo;
use crate::vm::graphicsengine::vk;
use crate::vm::graphicsengine::vkobject::unnamed;
use crate::vm::graphicsengine::vkobject::HandleType;
use crate::vm::graphicsengine::vkobject::naming_error;
use crate::vm::graphicsengine::vkobject::VKHandle;
use crate::vm::graphicsengine::vkobject::VKHandleView;
use crate::vm::graphicsengine::vkobject::VKObject;
use crate::vm::graphicsengine::Context;
use crate::vm::graphicsengine::ContextView;
use vstd::prelude::*;

verus! {

/// How texels are blended when an image is shown smaller or larger.
#[derive(Clone, Copy, Debug, PartialEq, Eq)]
pub struct Filters {
    pub min: i32,
    pub mag: i32,
}

impl Default for Filters {
    fn default() -> (filters: Self)
        ensures
            filters == (Filters { min: vk::FILTER_LINEAR, mag: vk::FILTER_LINEAR }),
    {
        Filters { min: vk::filter_linear(), mag: vk::filter_linear() }
    }
}

/// What is read beyond the edges of an image.
#[derive(Clone, Copy, Debug, PartialEq, Eq)]
pub struct AddressModes {
    pub u: i32,
    pub v: i32,
    pub border_color: i32,
}

impl Default for AddressModes {
    fn default() -> (modes: Self)
        ensures
            modes == (AddressModes {
                u: vk::ADDRESS_MODE_REPEAT,
                v: vk::ADDRESS_MODE_REPEAT,
                border_color: vk::BORDER_FLOAT_OPAQUE_BLACK,
            }),
    {
        AddressModes {
            u: vk::address_mode_repeat(),
            v: vk::address_mode_repeat(),
            border_color: vk::border_float_opaque_black(),
        }
    }
}

/// Whether texels are read along the slant of a surface, and how many at
/// most.
#[derive(Clone, Copy, Debug, PartialEq, Eq)]
pub struct AnisotropySettings {
    pub enabled: bool,
    pub max: Float,
}

impl Default for AnisotropySettings {
    fn default() -> (settings: Self)
        ensures
            settings == (AnisotropySettings { enabled: false, max: Float::spec_zero() }),
    {
        AnisotropySettings { enabled: false, max: Float::zero() }
    }
}

/// Settings of a sampler that are rarely changed.
#[derive(Clone, Copy, Debug, PartialEq, Eq)]
pub struct AdvancedSamplerSettings {
    pub mipmap_mode: i32,
}

impl Default for AdvancedSamplerSettings {
    fn default() -> (settings: Self)
        ensures
            settings == (AdvancedSamplerSettings { mipmap_mode: vk::MIPMAP_MODE_LINEAR }),
    {
        AdvancedSamplerSettings { mipmap_mode: vk::mipmap_mode_linear() }
    }
}

/// The mathematical value of a [`Sampler`].
pub struct SamplerView {
    pub handle: VKHandleView,
}

/// A sampler.
#[derive(Debug)]
pub struct Sampler {
    sampler: VKHandle,
}

impl View for Sampler {
    type V = SamplerView;

    closed spec fn view(&self) -> SamplerView {
        SamplerView { handle: self.sampler@ }
    }
}

impl VKObject for Sampler {
    open spec fn wrapped(&self) -> VKHandleView {
        self@.handle
    }

    fn wrapped_handle(&self) -> (wrapped: &VKHandle) {
        &self.sampler
    }
}

impl Sampler {
    /// Creates a sampler.
    pub fn new(
        context: &mut Context,
        filters: Filters,
        address_modes: AddressModes,
        anisotropy_settings: AnisotropySettings,
        advanced_settings: &AdvancedSamplerSettings,
    ) -> (result: Result<Self, FennecError>)
        requires
            old(context)@.can_create(1),
        ensures
            match result {
                Ok(sampler) => old(context)@.readable() && sampler@ == (SamplerView {
                    handle: VKHandleView {
                        context: old(context)@.id,
                        handle_type: HandleType::Sampler,
                        handle: old(context)@.next_handle,
                        protected: false,
                        name: unnamed(),
                    },
                }) && final(context)@ == old(context)@.create(1).issue(
                    DeviceCallView::CreateSampler {
                        sampler: old(context)@.next_handle,
                        info: SamplerCreateInfo {
                            min_filter: filters.min,
                            mag_filter: filters.mag,
                            address_mode_u: address_modes.u,
                            address_mode_v: address_modes.v,
                            border_color: address_modes.border_color,
                            anisotropy_enable: anisotropy_settings.enabled,
                            max_anisotropy: anisotropy_settings.max,
                            mipmap_mode: advanced_settings.mipmap_mode,
                        },
                    },
                ),
                Err(error) => !old(context)@.readable() && error@ == old(context)@.borrow_error()
                    && final(context)@ == old(context)@,
            },
    {
        context.check_readable()?;
        let sampler = context.create_handle();
        context.issue(
            DeviceCall::CreateSampler {
                sampler,
                info: SamplerCreateInfo {
                    min_filter: filters.min,
                    mag_filter: filters.mag,
                    address_mode_u: address_modes.u,
                    address_mode_v: address_modes.v,
                    border_color: address_modes.border_color,
                    anisotropy_enable: anisotropy_settings.enabled,
                    max_anisotropy: anisotropy_settings.max,
                    mipmap_mode: advanced_settings.mipmap_mode,
                },
            },
        );
        Ok(Self { sampler: VKHandle::new(context, HandleType::Sampler, sampler, false) })
    }

    /// The sampler under another name.
    pub open spec fn renamed(value: SamplerView, name: Seq<char>) -> SamplerView {
        SamplerView { handle: VKHandleView { name, ..value.handle }, ..value }
    }

    /// Names the sampler, here and on the device.
    pub fn set_name(&mut self, context: &mut Context, name: &str) -> (result: Result<
        (),
        FennecError,
    >)
        ensures
            final(self)@ == Sampler::renamed(old(self)@, name@),
            match result {
                Ok(()) => naming_error(old(context)@, name@) is None && final(context)@ == old(context)@.issue(
                    VKHandle::naming(old(self)@.handle, name@),
                ),
                Err(error) => naming_error(old(context)@, name@) == Some(error@)
                    && final(context)@ == old(context)@,
            },
    {
        self.sampler.annotate(context, name)
    }

    /// What the context looks like after an object that could not be named
    /// was given up: the object is destroyed where a call can be issued.
    pub open spec fn abandoned(value: SamplerView, context: ContextView) -> ContextView {
        if context.readable() {
            VKHandle::released(value.handle, context)
        } else {
            context
        }
    }

    /// Names the sampler and hands it back. Where it cannot be
    /// named it is given up: destroyed, where the context lets a call
    /// through.
    pub fn with_name(self, context: &mut Context, name: &str) -> (result: Result<
        Self,
        FennecError,
    >)
        ensures
            match result {
                Ok(named) => named@ == Sampler::renamed(self@, name@) && naming_error(old(context)@, name@) is None
                    && final(context)@ == old(context)@.issue(
                    VKHandle::naming(self@.handle, name@),
                ),
                Err(error) => naming_error(old(context)@, name@) == Some(error@)
                    && final(context)@ == Self::abandoned(self@, old(context)@),
            },
    {
        let mut named = self;
        match named.set_name(context, name) {
            Ok(()) => Ok(named),
            Err(error) => {
                match context.check_readable() {
                    Ok(()) => named.destroy(context),
                    Err(_) => {},
                }
                Err(error)
            },
        }
    }

    /// Ends the life of the sampler: it is destroyed unless it is protected.
    pub fn destroy(self, context: &mut Context)
        requires
            !self@.handle.protected && self@.handle.handle_type.spec_has_destroy_call() ==> old(context)@.readable(),
        ensures
            final(context)@ == VKHandle::released(self@.handle, old(context)@),
    {
        self.sampler.release(context)
    }
}

} // verus!
