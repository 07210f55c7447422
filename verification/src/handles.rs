use vstd::prelude::*;

verus! {

/// Opaque token naming the native system context.
///
/// Conceptually a raw address; this layer never dereferences it and
/// observes only whether it is null (`0`, invalid/absent) or non-null
/// (refers to a live native resource). Equality is identity.
#[derive(Clone, Copy, Debug, PartialEq, Eq, Structural)]
pub struct BlurSystemHandle(pub u64);

impl BlurSystemHandle {
    pub open spec fn spec_is_null(self) -> bool {
        self.0 == 0
    }

    /// True exactly when the token is the null (absent) value.
    #[verifier::when_used_as_spec(spec_is_null)]
    pub fn is_null(self) -> (r: bool)
        ensures
            r == self.spec_is_null(),
    {
        self.0 == 0
    }

    /// The null token.
    pub fn null() -> (r: Self)
        ensures
            r.spec_is_null(),
    {
        BlurSystemHandle(0)
    }
}

/// Opaque token naming one native window session.
///
/// Same observable states as [`BlurSystemHandle`]: null or non-null.
#[derive(Clone, Copy, Debug, PartialEq, Eq, Structural)]
pub struct BlurWindowHandle(pub u64);

impl BlurWindowHandle {
    pub open spec fn spec_is_null(self) -> bool {
        self.0 == 0
    }

    /// True exactly when the token is the null (absent) value.
    #[verifier::when_used_as_spec(spec_is_null)]
    pub fn is_null(self) -> (r: bool)
        ensures
            r == self.spec_is_null(),
    {
        self.0 == 0
    }

    /// The null token.
    pub fn null() -> (r: Self)
        ensures
            r.spec_is_null(),
    {
        BlurWindowHandle(0)
    }
}

} // verus!
