//! Shader modules: SPIR-V code on the device, with the name of the
//! function that it starts at.

use crate::error::out_of_range;
use crate::error::plain_error;
use crate::error::ErrorKind;
use crate::error::ErrorView;
use crate::error::FennecError;
use crate::vm::graphicsengine::device::DeviceCall;
use crate::vm::graphicsengine::device::DeviceCallView;
use crate::vm::graphicsengine::vkobject::unnamed;
use crate::vm::graphicsengine::vkobject::HandleType;
use crate::vm::graphicsengine::vkobject::naming_error;
use crate::vm::graphicsengine::vkobject::VKHandle;
use crate::vm::graphicsengine::vkobject::VKHandleView;
use crate::vm::graphicsengine::vkobject::VKObject;
use crate::vm::graphicsengine::Context;
use crate::vm::graphicsengine::ContextView;
use vstd::prelude::*;
use vstd::slice::slice_subrange;
use vstd::slice::slice_to_vec;

verus! {

/// The greatest size of the code of a shader, in bytes. Code beyond it is
/// not read.
pub const MAX_SHADER_SIZE: usize = 1024 * 100;

/// The number of words in the header of SPIR-V code.
pub const HEADER_WORDS: usize = 5;

/// The number of words that the instruction at word `index` of `code` says
/// it has: the upper half of its first word, the words being stored with
/// their lowest byte first.
pub open spec fn instruction_words(code: Seq<u8>, index: int) -> int {
    code[4 * index + 2] + 256 * code[4 * index + 3]
}

/// Whether the words of `code` from word `index` on are a sequence of whole
/// instructions: each has at least one word, and the last ends where the
/// code ends.
pub open spec fn framed_from(code: Seq<u8>, index: int) -> bool
    decreases code.len() / 4 - index,
{
    if index >= code.len() / 4 {
        index == code.len() / 4
    } else if instruction_words(code, index) < 1 || index + instruction_words(code, index)
        > code.len() / 4 {
        false
    } else {
        framed_from(code, index + instruction_words(code, index))
    }
}

/// Whether `code` is framed as SPIR-V: whole words, a whole header, and
/// after the header a sequence of whole instructions. A walk over the
/// instructions by their word counts comes to an end on code of this form,
/// at the end of the code; whoever hands code to a parser can test it for
/// this form first.
pub open spec fn reflectable(code: Seq<u8>) -> bool {
    &&& code.len() % 4 == 0
    &&& code.len() >= 4 * HEADER_WORDS
    &&& framed_from(code, HEADER_WORDS as int)
}

/// Decides whether `code` is framed as SPIR-V.
pub fn is_reflectable(code: &[u8]) -> (framed: bool)
    ensures
        framed == reflectable(code@),
{
    if code.len() % 4 != 0 || code.len() < 4 * HEADER_WORDS {
        return false;
    }
    let words = code.len() / 4;
    let mut index: usize = HEADER_WORDS;
    while index < words
        invariant
            HEADER_WORDS <= index <= words,
            words == code@.len() / 4,
            code@.len() == 4 * words,
            4 * words <= usize::MAX,
            framed_from(code@, HEADER_WORDS as int) == framed_from(code@, index as int),
        decreases words - index,
    {
        let low: usize = code[4 * index + 2] as usize;
        let high: usize = code[4 * index + 3] as usize;
        let count: usize = low + 256 * high;
        if count == 0 || count > words - index {
            return false;
        }
        index = index + count;
    }
    true
}

/// The mathematical value of a [`ShaderModule`].
pub struct ShaderModuleView {
    pub handle: VKHandleView,
    /// The name of the function that the code starts at.
    pub entry_point: Seq<char>,
}

/// A shader module.
#[derive(Debug)]
pub struct ShaderModule {
    shader_module: VKHandle,
    entry_point: String,
}

impl View for ShaderModule {
    type V = ShaderModuleView;

    closed spec fn view(&self) -> ShaderModuleView {
        ShaderModuleView { handle: self.shader_module@, entry_point: self.entry_point@ }
    }
}

impl VKObject for ShaderModule {
    open spec fn wrapped(&self) -> VKHandleView {
        self@.handle
    }

    fn wrapped_handle(&self) -> (wrapped: &VKHandle) {
        &self.shader_module
    }
}

/// The description of the error for code that is no whole number of words.
pub open spec fn not_whole_words() -> Seq<char> {
    "Shader source length is not a multiple of 4"@
}

/// The part of a source that is read as the code of a shader: all of it, up
/// to the greatest size.
pub open spec fn code_read(source: Seq<u8>) -> Seq<u8> {
    if source.len() <= MAX_SHADER_SIZE {
        source
    } else {
        source.subrange(0, MAX_SHADER_SIZE as int)
    }
}

impl ShaderModule {
    /// The error that code is refused with, if it is: code that is no whole
    /// number of words, code that reflection refuses, and a context that is
    /// exclusively borrowed, in this order.
    pub open spec fn creation_error(
        context: ContextView,
        code: Seq<u8>,
        reflected: Result<Seq<char>, Seq<char>>,
    ) -> Option<ErrorView> {
        if code.len() % 4 != 0 {
            Some(out_of_range(not_whole_words()))
        } else if reflected is Err {
            Some(plain_error(ErrorKind::General, reflected->Err_0))
        } else if !context.readable() {
            Some(context.borrow_error())
        } else {
            None
        }
    }

    /// Creates a shader module from `code`, for which reflection found
    /// `reflected`.
    pub fn from_reflection(
        context: &mut Context,
        code: &[u8],
        reflected: Result<String, String>,
    ) -> (result: Result<Self, FennecError>)
        requires
            old(context)@.can_create(1),
        ensures
            match result {
                Ok(module) => {
                    &&& reflected matches Ok(entry_point)
                    &&& ShaderModule::creation_error(old(context)@, code@, Ok(entry_point@))
                        is None
                    &&& final(context)@ == old(context)@.create(1).issue(
                        DeviceCallView::CreateShaderModule {
                            module: old(context)@.next_handle,
                            code: code@,
                        },
                    )
                    &&& module@ == (ShaderModuleView {
                        handle: VKHandleView {
                            context: old(context)@.id,
                            handle_type: HandleType::ShaderModule,
                            handle: old(context)@.next_handle,
                            protected: false,
                            name: unnamed(),
                        },
                        entry_point: entry_point@,
                    })
                },
                Err(error) => ShaderModule::creation_error(
                    old(context)@,
                    code@,
                    match reflected {
                        Ok(entry_point) => Ok(entry_point@),
                        Err(refusal) => Err(refusal@),
                    },
                ) == Some(error@) && final(context)@ == old(context)@,
            },
    {
        if code.len() % 4 != 0 {
            return Err(
                FennecError::with_kind(
                    ErrorKind::OutOfRange,
                    "Shader source length is not a multiple of 4",
                ),
            );
        }
        let entry_point = match reflected {
            Ok(entry_point) => entry_point,
            Err(refusal) => {
                return Err(FennecError::with_kind(ErrorKind::General, refusal.as_str()));
            },
        };
        context.check_readable()?;
        let module = context.create_handle();
        context.issue(DeviceCall::CreateShaderModule { module, code: slice_to_vec(code) });
        Ok(
            Self {
                shader_module: VKHandle::new(context, HandleType::ShaderModule, module, false),
                entry_point,
            },
        )
    }

    /// The part of `source` that is read as the code of a shader.
    pub fn code_of(source: &[u8]) -> (code: &[u8])
        ensures
            code@ == code_read(source@),
    {
        if source.len() <= MAX_SHADER_SIZE {
            assert(source@.subrange(0, source@.len() as int) =~= source@);
            source
        } else {
            slice_subrange(source, 0, MAX_SHADER_SIZE)
        }
    }

    /// Creates a shader module from the SPIR-V code in `source`, of which at
    /// most [`MAX_SHADER_SIZE`] bytes are read. `reflected` is what
    /// reflection found in the code that is read: the name of the function
    /// that the code starts at, or the words in which the code is refused.
    pub fn new(context: &mut Context, source: &[u8], reflected: Result<String, String>) -> (result:
        Result<Self, FennecError>)
        requires
            old(context)@.can_create(1),
        ensures
            match result {
                Ok(module) => {
                    &&& reflected matches Ok(entry_point)
                    &&& ShaderModule::creation_error(
                        old(context)@,
                        code_read(source@),
                        Ok(entry_point@),
                    ) is None
                    &&& final(context)@ == old(context)@.create(1).issue(
                        DeviceCallView::CreateShaderModule {
                            module: old(context)@.next_handle,
                            code: code_read(source@),
                        },
                    )
                    &&& module@ == (ShaderModuleView {
                        handle: VKHandleView {
                            context: old(context)@.id,
                            handle_type: HandleType::ShaderModule,
                            handle: old(context)@.next_handle,
                            protected: false,
                            name: unnamed(),
                        },
                        entry_point: entry_point@,
                    })
                },
                Err(error) => ShaderModule::creation_error(
                    old(context)@,
                    code_read(source@),
                    match reflected {
                        Ok(entry_point) => Ok(entry_point@),
                        Err(refusal) => Err(refusal@),
                    },
                ) == Some(error@) && final(context)@ == old(context)@,
            },
    {
        let code = Self::code_of(source);
        Self::from_reflection(context, code, reflected)
    }

    /// The name of the function that the code starts at.
    pub fn entry_point(&self) -> (entry_point: String)
        ensures
            entry_point@ == self@.entry_point,
    {
        self.entry_point.clone()
    }

    /// The shader module under another name.
    pub open spec fn renamed(value: ShaderModuleView, name: Seq<char>) -> ShaderModuleView {
        ShaderModuleView { handle: VKHandleView { name, ..value.handle }, ..value }
    }

    /// Names the shader module, here and on the device.
    pub fn set_name(&mut self, context: &mut Context, name: &str) -> (result: Result<
        (),
        FennecError,
    >)
        ensures
            final(self)@ == ShaderModule::renamed(old(self)@, name@),
            match result {
                Ok(()) => naming_error(old(context)@, name@) is None && final(context)@ == old(context)@.issue(
                    VKHandle::naming(old(self)@.handle, name@),
                ),
                Err(error) => naming_error(old(context)@, name@) == Some(error@)
                    && final(context)@ == old(context)@,
            },
    {
        self.shader_module.annotate(context, name)
    }

    /// What the context looks like after an object that could not be named
    /// was given up: the object is destroyed where a call can be issued.
    pub open spec fn abandoned(value: ShaderModuleView, context: ContextView) -> ContextView {
        if context.readable() {
            VKHandle::released(value.handle, context)
        } else {
            context
        }
    }

    /// Names the shader module and hands it back. Where it cannot be
    /// named it is given up: destroyed, where the context lets a call
    /// through.
    pub fn with_name(self, context: &mut Context, name: &str) -> (result: Result<
        Self,
        FennecError,
    >)
        ensures
            match result {
                Ok(named) => named@ == ShaderModule::renamed(self@, name@) && naming_error(old(context)@, name@) is None
                    && final(context)@ == old(context)@.issue(
                    VKHandle::naming(self@.handle, name@),
                ),
                Err(error) => naming_error(old(context)@, name@) == Some(error@)
                    && final(context)@ == Self::abandoned(self@, old(context)@),
            },
    {
        let mut named = self;
        match named.set_name(context, name) {
            Ok(()) => Ok(named),
            Err(error) => {
                match context.check_readable() {
                    Ok(()) => named.destroy(context),
                    Err(_) => {},
                }
                Err(error)
            },
        }
    }

    /// Ends the life of the shader module: it is destroyed unless it is protected.
    pub fn destroy(self, context: &mut Context)
        requires
            !self@.handle.protected && self@.handle.handle_type.spec_has_destroy_call() ==> old(context)@.readable(),
        ensures
            final(context)@ == VKHandle::released(self@.handle, old(context)@),
    {
        self.shader_module.release(context)
    }
}

} // verus!
