//! The words in which the device interface writes status codes, memory
//! properties and descriptor types. They are read from `ash`, which keeps
//! the tables; contracts speak of them by name.

use vstd::prelude::*;

verus! {

/// The name of the status `code`, as `ash` writes it for diagnostics.
pub uninterp spec fn status_name(code: i32) -> Seq<char>;

/// The sentence that says what the status `code` means, as `ash` writes it.
pub uninterp spec fn status_words(code: i32) -> Seq<char>;

/// The names of the memory properties in `flags`, as `ash` writes them for
/// diagnostics.
pub uninterp spec fn memory_properties_name(flags: u32) -> Seq<char>;

/// The name of the descriptor type `raw`, as `ash` writes it for
/// diagnostics.
pub uninterp spec fn descriptor_type_name(raw: i32) -> Seq<char>;

/// Writes a status with the `Debug` form of `ash::vk::Result`, which looks
/// the code up in a table of names and writes the number where the table
/// has none. The contract gives the text a name, as a function of the code
/// alone.
#[verifier::external_body]
pub(crate) fn write_status_name(code: i32) -> (text: String)
    ensures
        text@ == status_name(code),
{
    format!("{:?}", ash::vk::Result::from_raw(code))
}

/// Writes a status with the `Display` form of `ash::vk::Result`, which looks
/// the code up in a table of sentences and writes the number where the
/// table has none. The contract gives the text a name, as a function of the
/// code alone.
#[verifier::external_body]
pub(crate) fn write_status_words(code: i32) -> (text: String)
    ensures
        text@ == status_words(code),
{
    format!("{}", ash::vk::Result::from_raw(code))
}

/// Writes memory properties with the `Debug` form of
/// `ash::vk::MemoryPropertyFlags`, which names the bits it knows and writes
/// the rest as a binary number. The contract gives the text a name, as a
/// function of the flags alone.
#[verifier::external_body]
pub(crate) fn write_memory_properties(flags: u32) -> (text: String)
    ensures
        text@ == memory_properties_name(flags),
{
    format!("{:?}", ash::vk::MemoryPropertyFlags::from_raw(flags))
}

/// Writes a descriptor type with the `Debug` form of
/// `ash::vk::DescriptorType`, which looks the type up in a table of names
/// and writes the number where the table has none. The contract gives the
/// text a name, as a function of the type alone.
#[verifier::external_body]
pub(crate) fn write_descriptor_type(raw: i32) -> (text: String)
    ensures
        text@ == descriptor_type_name(raw),
{
    format!("{:?}", ash::vk::DescriptorType::from_raw(raw))
}

} // verus!
