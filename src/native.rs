use std::path::{Path, PathBuf};
use vstd::prelude::*;

use crate::components::{components_of, Components};
use crate::path::{RelativePath, RelativePathBuf};

verus! {

#[verifier::external_type_specification]
#[verifier::external_body]
pub struct ExPath(Path);

#[verifier::external_type_specification]
#[verifier::external_body]
pub struct ExPathBuf(PathBuf);

/// The owned copy that `Path::to_path_buf` makes of `base`.
pub uninterp spec fn native_owned(base: &Path) -> PathBuf;

/// The native path that `PathBuf::push` makes of `p` extended by `segment`.
pub uninterp spec fn native_pushed(p: PathBuf, segment: Seq<char>) -> PathBuf;

/// `p` extended by each of `segments` in turn, one push each, in order.
pub open spec fn native_extended(p: PathBuf, segments: Seq<Seq<char>>) -> PathBuf
    decreases segments.len(),
{
    if segments.len() == 0 {
        p
    } else {
        native_extended(native_pushed(p, segments[0]), segments.drop_first())
    }
}

/// Relies on `Path::to_path_buf`: an owned copy of the base path, which
/// depends on the base alone.
#[verifier::external_body]
fn native_copy(base: &Path) -> (r: PathBuf)
    ensures
        r == native_owned(base),
{
    base.to_path_buf()
}

/// Relies on `PathBuf::push`: extends the native path by one segment; the
/// outcome depends on the path and the segment alone.
#[verifier::external_body]
fn native_push(p: &mut PathBuf, segment: &str)
    ensures
        *final(p) == native_pushed(*old(p), segment@),
{
    p.push(segment)
}

/// A copy of `base` extended by each of the `components`, in order.
fn extend_native(base: &Path, components: Components) -> (r: PathBuf)
    ensures
        r == native_extended(native_owned(base), components@),
{
    let mut p = native_copy(base);
    let mut it = components;
    loop
        invariant
            native_extended(p, it@) == native_extended(native_owned(base), components@),
        decreases it@.len(),
    {
        match it.next() {
            Some(c) => native_push(&mut p, c),
            None => {
                return p;
            },
        }
    }
}

impl<'a> RelativePath<'a> {
    /// A native path: `relative_to` extended by each component of this path,
    /// in order. Separators never reach the native path as text.
    pub fn to_relative_of(&self, relative_to: &Path) -> (r: PathBuf)
        ensures
            r == native_extended(native_owned(relative_to), components_of(self@)),
    {
        extend_native(relative_to, self.components())
    }
}

impl RelativePathBuf {
    /// A native path: `relative_to` extended by each component of this path,
    /// in order. Separators never reach the native path as text.
    pub fn to_relative_of(&self, relative_to: &Path) -> (r: PathBuf)
        ensures
            r == native_extended(native_owned(relative_to), components_of(self@)),
    {
        extend_native(relative_to, self.components())
    }
}

} // verus!
