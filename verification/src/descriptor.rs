//! Script identity: a stable identifier plus human-readable name and
//! description, fixed at registration and immutable for the lifetime of a
//! loaded instance.

use vstd::prelude::*;

verus! {

/// Identity of one registered script. `id` is the key the host uses to
/// address the script; it is unique across concurrently loaded scripts.
pub struct ScriptDescriptor {
    pub id: String,
    pub name: String,
    pub description: String,
}

/// Mathematical abstraction of [`ScriptDescriptor`].
pub struct DescriptorModel {
    pub id: Seq<char>,
    pub name: Seq<char>,
    pub description: Seq<char>,
}

impl View for ScriptDescriptor {
    type V = DescriptorModel;

    open spec fn view(&self) -> DescriptorModel {
        DescriptorModel { id: self.id@, name: self.name@, description: self.description@ }
    }
}

} // verus!
