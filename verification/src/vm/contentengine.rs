//! Where content lives: the place of each kind of content below the
//! working directory, and the name of the file of an item.

use crate::text::join;
use vstd::prelude::*;

verus! {

/// A kind of content.
#[derive(Clone, Copy, Debug, PartialEq, Eq, Hash, Structural)]
pub enum ContentType {
    ShaderModule,
    Image,
}

/// Finds content by kind and name.
pub struct ContentEngine {}

impl ContentEngine {
    /// The directory of a kind of content, below the working directory.
    pub open spec fn spec_content_root(content_type: ContentType) -> Seq<char> {
        match content_type {
            ContentType::ShaderModule => "data/shaders"@,
            ContentType::Image => "data/images"@,
        }
    }

    /// The directory of a kind of content, below the working directory.
    pub fn content_root(content_type: ContentType) -> (root: &'static str)
        ensures
            root@ == ContentEngine::spec_content_root(content_type),
    {
        match content_type {
            ContentType::ShaderModule => "data/shaders",
            ContentType::Image => "data/images",
        }
    }

    /// The ending of the files of a kind of content.
    pub open spec fn spec_content_extension(content_type: ContentType) -> Seq<char> {
        match content_type {
            ContentType::ShaderModule => "spv"@,
            ContentType::Image => "png"@,
        }
    }

    /// The ending of the files of a kind of content.
    pub fn content_extension(content_type: ContentType) -> (extension: &'static str)
        ensures
            extension@ == ContentEngine::spec_content_extension(content_type),
    {
        match content_type {
            ContentType::ShaderModule => "spv",
            ContentType::Image => "png",
        }
    }

    /// The path of the item called `name`, below the working directory.
    pub open spec fn spec_content_path(name: Seq<char>, content_type: ContentType) -> Seq<char> {
        ContentEngine::spec_content_root(content_type) + "/"@ + name + "."@
            + ContentEngine::spec_content_extension(content_type)
    }

    /// The path of the item called `name`, below the working directory: the
    /// directory of its kind, the name, a dot and the ending of its kind.
    pub fn content_path(name: &str, content_type: ContentType) -> (path: String)
        ensures
            path@ == ContentEngine::spec_content_path(name@, content_type),
    {
        let a = join(Self::content_root(content_type), "/");
        let b = join(a.as_str(), name);
        let c = join(b.as_str(), ".");
        let path = join(c.as_str(), Self::content_extension(content_type));
        assert(path@ =~= ContentEngine::spec_content_path(name@, content_type));
        path
    }
}

} // verus!
