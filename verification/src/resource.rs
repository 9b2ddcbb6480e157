//! The three kinds of payload the store accepts, and where each is posted.
use vstd::prelude::*;

verus! {

/// What is being uploaded. The kind only selects the path of the request.
#[derive(Debug, Clone, Copy, PartialEq, Eq, Structural)]
pub enum Resource {
    /// An unprocessed image.
    Raw,
    /// Metadata that accompanies an image.
    Sidecar,
    /// A processed image.
    Image,
}

impl Resource {
    /// The path of the resource below the base endpoint.
    pub open spec fn spec_path(self) -> Seq<char> {
        match self {
            Resource::Raw => "/raw"@,
            Resource::Sidecar => "/sidecar"@,
            Resource::Image => "/image"@,
        }
    }

    /// The path of the resource below the base endpoint.
    pub fn path(&self) -> (p: &'static str)
        ensures
            p@ == self.spec_path(),
    {
        match self {
            Resource::Raw => "/raw",
            Resource::Sidecar => "/sidecar",
            Resource::Image => "/image",
        }
    }
}

/// The three paths differ, so a request's path tells its resource.
pub proof fn lemma_paths_distinct(a: Resource, b: Resource)
    ensures
        a.spec_path() == b.spec_path() <==> a == b,
{
    reveal_strlit("/raw");
    reveal_strlit("/sidecar");
    reveal_strlit("/image");
    assert("/raw"@.len() == 4);
    assert("/sidecar"@.len() == 8);
    assert("/image"@.len() == 6);
}

} // verus!
