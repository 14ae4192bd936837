//! Identities: the handles by which images are named.
//!
//! Every handle is a small copyable value. Two handles are equal exactly when
//! their parts are equal, and nothing else about them is ever inspected.

use vstd::prelude::*;

verus! {

/// The name space within which a host allocates its numeric ids.
#[derive(Clone, Copy, Debug, PartialEq, Eq, Hash, Structural)]
pub struct IdNamespace(pub u32);

/// The stable identity of one image resource: a name space and an id local to it.
///
/// The key with name space 0 and id 0 is reserved to mean "no image"; see
/// [`ImageKey::dummy`].
#[derive(Clone, Copy, Debug, PartialEq, Eq, Hash, Structural)]
pub struct ImageKey(pub IdNamespace, pub u32);

impl ImageKey {
    /// The key made of `namespace` and `key`.
    pub open spec fn spec_new(namespace: IdNamespace, key: u32) -> ImageKey {
        ImageKey(namespace, key)
    }

    /// The reserved key that names no image.
    pub open spec fn spec_dummy() -> ImageKey {
        ImageKey(IdNamespace(0), 0)
    }

    /// Whether this key can name a real image, that is, whether it differs
    /// from the reserved key.
    pub open spec fn is_real(self) -> bool {
        self.0.0 != 0 || self.1 != 0
    }

    #[verifier::when_used_as_spec(spec_new)]
    pub fn new(namespace: IdNamespace, key: u32) -> (image_key: ImageKey)
        ensures
            image_key == ImageKey(namespace, key),
    {
        ImageKey(namespace, key)
    }

    #[verifier::when_used_as_spec(spec_dummy)]
    pub fn dummy() -> (image_key: ImageKey)
        ensures
            image_key == ImageKey(IdNamespace(0), 0),
            !image_key.is_real(),
    {
        ImageKey(IdNamespace(0), 0)
    }
}

/// A host-chosen identifier of an external image. The host keeps these
/// unique; nothing here checks that.
#[derive(Clone, Copy, Debug, PartialEq, Eq, Hash, Structural)]
pub struct ExternalImageId(pub u64);

/// A key built from a non-zero name space or a non-zero id is never the
/// reserved key.
pub proof fn lemma_dummy_is_no_real_key(namespace: IdNamespace, key: u32)
    requires
        namespace.0 != 0 || key != 0,
    ensures
        ImageKey::new(namespace, key) != ImageKey::dummy(),
        ImageKey::new(namespace, key).is_real(),
{
}

/// Equality of keys is equality of their parts: the same name space and the
/// same id give the same key, and any difference in either gives another.
pub proof fn lemma_key_equality_is_structural(
    namespace_a: IdNamespace,
    key_a: u32,
    namespace_b: IdNamespace,
    key_b: u32,
)
    ensures
        ImageKey::new(namespace_a, key_a) == ImageKey::new(namespace_b, key_b) <==> (namespace_a
            == namespace_b && key_a == key_b),
        namespace_a == namespace_b <==> namespace_a.0 == namespace_b.0,
{
}

} // verus!
