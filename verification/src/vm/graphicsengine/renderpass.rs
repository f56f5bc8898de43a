//! Render passes: the attachments that rendering works on, the subpasses
//! that use them, and what each subpass has to wait for.

use crate::error::FennecError;
use crate::vm::graphicsengine::device::DeviceCall;
use crate::vm::graphicsengine::device::DeviceCallView;
use crate::vm::graphicsengine::vkobject::unnamed;
use crate::vm::graphicsengine::vkobject::HandleType;
use crate::vm::graphicsengine::vkobject::naming_error;
use crate::vm::graphicsengine::vkobject::VKHandle;
use crate::vm::graphicsengine::vkobject::VKHandleView;
use crate::vm::graphicsengine::vkobject::VKObject;
use crate::vm::graphicsengine::Context;
use crate::vm::graphicsengine::ContextView;
use crate::vm::graphicsengine::device::AttachmentDescription;
use crate::vm::graphicsengine::device::AttachmentReference;
use crate::vm::graphicsengine::device::SubpassDependency;
use crate::vm::graphicsengine::device::SubpassDescription;
use crate::vm::graphicsengine::device::SubpassDescriptionView;
use crate::vm::graphicsengine::vk;
use vstd::prelude::*;
use vstd::slice::slice_to_vec;

verus! {

/// What a dependency of a subpass waits for.
#[derive(Clone, Copy, Debug, PartialEq, Eq, Structural)]
pub enum DependsOn {
    /// Work outside the render pass.
    ExternalSubpass,
    /// The subpass with this index.
    Subpass(u32),
}

impl Default for DependsOn {
    fn default() -> (depends_on: Self)
        ensures
            depends_on == DependsOn::ExternalSubpass,
    {
        DependsOn::ExternalSubpass
    }
}

impl DependsOn {
    /// The subpass index that the device knows the dependency by.
    pub open spec fn spec_source(self) -> u32 {
        match self {
            DependsOn::ExternalSubpass => vk::SUBPASS_EXTERNAL,
            DependsOn::Subpass(subpass) => subpass,
        }
    }

    /// The subpass index that the device knows the dependency by.
    #[verifier::when_used_as_spec(spec_source)]
    pub fn source(self) -> (source: u32)
        ensures
            source == self.spec_source(),
    {
        match self {
            DependsOn::ExternalSubpass => vk::subpass_external(),
            DependsOn::Subpass(subpass) => subpass,
        }
    }
}

/// What a subpass has to wait for before a part of its work starts.
#[derive(Clone, Copy, Debug)]
pub struct Dependency {
    /// The work that is waited for.
    pub depends_on: DependsOn,
    /// The stages that the work waited for must have passed.
    pub src_stage: u32,
    /// The stages of this subpass that wait.
    pub dst_stage: u32,
    /// The accesses that the work waited for must have finished.
    pub src_access: u32,
    /// The accesses of this subpass that wait.
    pub dst_access: u32,
}

impl Dependency {
    /// The dependency as the device takes it, for the subpass `subpass`.
    pub open spec fn spec_for_subpass(self, subpass: u32) -> SubpassDependency {
        SubpassDependency {
            src_subpass: self.depends_on.spec_source(),
            dst_subpass: subpass,
            src_stage_mask: self.src_stage,
            dst_stage_mask: self.dst_stage,
            src_access_mask: self.src_access,
            dst_access_mask: self.dst_access,
        }
    }

    /// The dependency as the device takes it, for the subpass `subpass`.
    #[verifier::when_used_as_spec(spec_for_subpass)]
    pub fn for_subpass(self, subpass: u32) -> (dependency: SubpassDependency)
        ensures
            dependency == self.spec_for_subpass(subpass),
    {
        SubpassDependency {
            src_subpass: self.depends_on.source(),
            dst_subpass: subpass,
            src_stage_mask: self.src_stage,
            dst_stage_mask: self.dst_stage,
            src_access_mask: self.src_access,
            dst_access_mask: self.dst_access,
        }
    }
}

/// One subpass of a render pass.
#[derive(Debug)]
pub struct Subpass {
    /// The attachments that shaders read.
    pub input_attachments: Vec<AttachmentReference>,
    /// The attachments that colors are written to.
    pub color_attachments: Vec<AttachmentReference>,
    /// The attachment for depth and stencil values.
    pub depth_stencil_attachment: Option<AttachmentReference>,
    /// The attachments that the subpass does not use and must keep.
    pub preserve_attachments: Vec<u32>,
    /// What the subpass has to wait for.
    pub dependencies: Vec<Dependency>,
}

impl Subpass {
    /// The attachments of the subpass, as the device takes them.
    pub open spec fn description(self) -> SubpassDescriptionView {
        SubpassDescriptionView {
            input_attachments: self.input_attachments@,
            color_attachments: self.color_attachments@,
            depth_stencil_attachment: self.depth_stencil_attachment,
            preserve_attachments: self.preserve_attachments@,
        }
    }

    /// The dependencies of the subpass, as the device takes them, where the
    /// subpass has the index `subpass`.
    pub open spec fn dependencies_for(self, subpass: u32) -> Seq<SubpassDependency> {
        Seq::new(
            self.dependencies@.len(),
            |k: int| self.dependencies@[k].spec_for_subpass(subpass),
        )
    }
}

/// The descriptions of a list of subpasses, in order.
pub open spec fn subpass_descriptions(subpasses: Seq<Subpass>) -> Seq<SubpassDescriptionView> {
    Seq::new(subpasses.len(), |i: int| subpasses[i].description())
}

/// The dependencies of the first `upto` of a list of subpasses, in the
/// order of the subpasses and, for each subpass, in the order it lists them.
pub open spec fn subpass_dependencies(subpasses: Seq<Subpass>, upto: nat) -> Seq<SubpassDependency>
    decreases upto,
{
    if upto == 0 {
        Seq::empty()
    } else {
        subpass_dependencies(subpasses, (upto - 1) as nat) + subpasses[upto - 1].dependencies_for(
            (upto - 1) as u32,
        )
    }
}

/// The mathematical value of a [`RenderPass`].
pub struct RenderPassView {
    pub handle: VKHandleView,
}

/// A render pass.
#[derive(Debug)]
pub struct RenderPass {
    render_pass: VKHandle,
}

impl View for RenderPass {
    type V = RenderPassView;

    closed spec fn view(&self) -> RenderPassView {
        RenderPassView { handle: self.render_pass@ }
    }
}

impl VKObject for RenderPass {
    open spec fn wrapped(&self) -> VKHandleView {
        self@.handle
    }

    fn wrapped_handle(&self) -> (wrapped: &VKHandle) {
        &self.render_pass
    }
}

impl RenderPass {
    /// The value of a render pass that was just created.
    pub open spec fn fresh(context: u64, handle: u64) -> RenderPassView {
        RenderPassView {
            handle: VKHandleView {
                context,
                handle_type: HandleType::RenderPass,
                handle,
                protected: false,
                name: unnamed(),
            },
        }
    }

    /// Creates a render pass with the given attachments and subpasses. Each
    /// dependency of a subpass is handed to the device with the index of the
    /// subpass as its target.
    pub fn new(
        context: &mut Context,
        attachments: &[AttachmentDescription],
        subpasses: &[Subpass],
    ) -> (result: Result<Self, FennecError>)
        requires
            old(context)@.can_create(1),
            subpasses@.len() <= u32::MAX,
        ensures
            match result {
                Ok(render_pass) => old(context)@.readable() && render_pass@ == RenderPass::fresh(
                    old(context)@.id,
                    old(context)@.next_handle,
                ) && final(context)@ == old(context)@.create(1).issue(
                    DeviceCallView::CreateRenderPass {
                        render_pass: old(context)@.next_handle,
                        attachments: attachments@,
                        subpasses: subpass_descriptions(subpasses@),
                        dependencies: subpass_dependencies(subpasses@, subpasses@.len()),
                    },
                ),
                Err(error) => !old(context)@.readable() && error@ == old(context)@.borrow_error()
                    && final(context)@ == old(context)@,
            },
    {
        context.check_readable()?;
        let mut descriptions: Vec<SubpassDescription> = Vec::new();
        let mut dependencies: Vec<SubpassDependency> = Vec::new();
        let mut index: usize = 0;
        while index < subpasses.len()
            invariant
                index <= subpasses@.len(),
                subpasses@.len() <= u32::MAX,
                descriptions@.len() == index,
                forall|i: int|
                    0 <= i < index ==> (#[trigger] descriptions@[i])@
                        == subpasses@[i].description(),
                dependencies@ == subpass_dependencies(subpasses@, index as nat),
            decreases subpasses@.len() - index,
        {
            let subpass = &subpasses[index];
            descriptions.push(
                SubpassDescription {
                    input_attachments: slice_to_vec(subpass.input_attachments.as_slice()),
                    color_attachments: slice_to_vec(subpass.color_attachments.as_slice()),
                    depth_stencil_attachment: subpass.depth_stencil_attachment,
                    preserve_attachments: slice_to_vec(subpass.preserve_attachments.as_slice()),
                },
            );
            let ghost before = dependencies@;
            let mut k: usize = 0;
            while k < subpass.dependencies.len()
                invariant
                    k <= subpass.dependencies@.len(),
                    index < subpasses@.len(),
                    subpasses@.len() <= u32::MAX,
                    *subpass == subpasses@[index as int],
                    dependencies@ == before + Seq::new(
                        k as nat,
                        |j: int| subpass.dependencies@[j].spec_for_subpass(index as u32),
                    ),
                decreases subpass.dependencies@.len() - k,
            {
                dependencies.push(subpass.dependencies[k].for_subpass(index as u32));
                assert(dependencies@ =~= before + Seq::new(
                    (k + 1) as nat,
                    |j: int| subpass.dependencies@[j].spec_for_subpass(index as u32),
                ));
                k += 1;
            }
            assert(dependencies@ =~= subpass_dependencies(subpasses@, (index + 1) as nat));
            index += 1;
        }
        let render_pass = context.create_handle();
        let ghost described = descriptions@.map_values(|item: SubpassDescription| item@);
        assert(described =~= subpass_descriptions(subpasses@));
        context.issue(
            DeviceCall::CreateRenderPass {
                render_pass,
                attachments: slice_to_vec(attachments),
                subpasses: descriptions,
                dependencies,
            },
        );
        Ok(Self { render_pass: VKHandle::new(context, HandleType::RenderPass, render_pass, false) })
    }

    /// The render pass under another name.
    pub open spec fn renamed(value: RenderPassView, name: Seq<char>) -> RenderPassView {
        RenderPassView { handle: VKHandleView { name, ..value.handle }, ..value }
    }

    /// Names the render pass, here and on the device.
    pub fn set_name(&mut self, context: &mut Context, name: &str) -> (result: Result<
        (),
        FennecError,
    >)
        ensures
            final(self)@ == RenderPass::renamed(old(self)@, name@),
            match result {
                Ok(()) => naming_error(old(context)@, name@) is None && final(context)@ == old(context)@.issue(
                    VKHandle::naming(old(self)@.handle, name@),
                ),
                Err(error) => naming_error(old(context)@, name@) == Some(error@)
                    && final(context)@ == old(context)@,
            },
    {
        self.render_pass.annotate(context, name)
    }

    /// What the context looks like after an object that could not be named
    /// was given up: the object is destroyed where a call can be issued.
    pub open spec fn abandoned(value: RenderPassView, context: ContextView) -> ContextView {
        if context.readable() {
            VKHandle::released(value.handle, context)
        } else {
            context
        }
    }

    /// Names the render pass and hands it back. Where it cannot be
    /// named it is given up: destroyed, where the context lets a call
    /// through.
    pub fn with_name(self, context: &mut Context, name: &str) -> (result: Result<
        Self,
        FennecError,
    >)
        ensures
            match result {
                Ok(named) => named@ == RenderPass::renamed(self@, name@) && naming_error(old(context)@, name@) is None
                    && final(context)@ == old(context)@.issue(
                    VKHandle::naming(self@.handle, name@),
                ),
                Err(error) => naming_error(old(context)@, name@) == Some(error@)
                    && final(context)@ == Self::abandoned(self@, old(context)@),
            },
    {
        let mut named = self;
        match named.set_name(context, name) {
            Ok(()) => Ok(named),
            Err(error) => {
                match context.check_readable() {
                    Ok(()) => named.destroy(context),
                    Err(_) => {},
                }
                Err(error)
            },
        }
    }

    /// Ends the life of the render pass: it is destroyed unless it is protected.
    pub fn destroy(self, context: &mut Context)
        requires
            !self@.handle.protected && self@.handle.handle_type.spec_has_destroy_call() ==> old(context)@.readable(),
        ensures
            final(context)@ == VKHandle::released(self@.handle, old(context)@),
    {
        self.render_pass.release(context)
    }
}

} // verus!
