//! The host's value types that a transition carries: colors and image
//! handles. The library stores them and hands them on; it never looks inside
//! one. What this file says of them is taken on trust from the host's
//! crates.

use vstd::prelude::*;

verus! {

/// `bevy_color::Color`, carried as an opaque value.
#[verifier::external_type_specification]
#[verifier::external_body]
pub struct ExColor(bevy_color::Color);

/// A handle to an image asset of the host: a `bevy_asset::Handle` of a
/// `bevy_image::Image`.
///
/// The handle is opaque to the proofs. Two values of this type are equal in
/// contracts exactly when they are the same handle; nothing is claimed about
/// the asset behind it, nor about whether it is loaded.
#[verifier::external_body]
pub struct ImageHandle(pub bevy_asset::Handle<bevy_image::Image>);

/// `Clone::clone` of `bevy_asset::Handle`. Trusted: the clone is the same
/// handle as the one cloned, strong for a strong handle and weak for a weak
/// one.
#[verifier::external_body]
pub(crate) fn clone_handle(handle: &ImageHandle) -> (copy: ImageHandle)
    ensures
        copy == *handle,
{
    ImageHandle(handle.0.clone())
}

impl Clone for ImageHandle {
    /// Another handle to the same image.
    fn clone(&self) -> (copy: Self)
        ensures
            copy == *self,
    {
        clone_handle(self)
    }
}

} // verus!
