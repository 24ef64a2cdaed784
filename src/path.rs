use std::cmp::Ordering;
use vstd::prelude::*;

use crate::components::{components_of, joined, starts_with_sep, Components, SEP};
use crate::order::{cmp_components, compare_components, lemma_cmp_components_equal};
use vstd::std_specs::cmp::{PartialEqSpecImpl, PartialOrdSpecImpl};
use vstd::std_specs::convert::FromSpecImpl;

verus! {

/// A borrowed, immutable relative path: a view of a text, read with `/` as
/// the separator.
#[derive(Clone, Copy, Debug)]
pub struct RelativePath<'a> {
    inner: &'a str,
}

/// An owned, mutable relative path.
#[derive(Debug)]
pub struct RelativePathBuf {
    inner: String,
}

/// What can be read as a relative path without copying.
pub trait AsRelativePath {
    /// The raw text of the path it reads as.
    spec fn path_text(&self) -> Seq<char>;

    /// A borrowed path over the same text.
    fn as_relative_path(&self) -> (r: RelativePath<'_>)
        ensures
            r@ == self.path_text(),
    ;
}

impl<'a> AsRelativePath for &'a str {
    open spec fn path_text(&self) -> Seq<char> {
        (*self)@
    }

    fn as_relative_path(&self) -> (r: RelativePath<'_>) {
        RelativePath::new(*self)
    }
}

impl AsRelativePath for String {
    open spec fn path_text(&self) -> Seq<char> {
        self@
    }

    fn as_relative_path(&self) -> (r: RelativePath<'_>) {
        RelativePath::new(self.as_str())
    }
}

impl<'b> AsRelativePath for &'b String {
    open spec fn path_text(&self) -> Seq<char> {
        (*self)@
    }

    fn as_relative_path(&self) -> (r: RelativePath<'_>) {
        RelativePath::new(self.as_str())
    }
}

impl<'a> AsRelativePath for RelativePath<'a> {
    open spec fn path_text(&self) -> Seq<char> {
        self@
    }

    fn as_relative_path(&self) -> (r: RelativePath<'_>) {
        *self
    }
}

impl AsRelativePath for RelativePathBuf {
    open spec fn path_text(&self) -> Seq<char> {
        self@
    }

    fn as_relative_path(&self) -> (r: RelativePath<'_>) {
        RelativePath { inner: self.inner.as_str() }
    }
}

impl<'b> AsRelativePath for &'b RelativePathBuf {
    open spec fn path_text(&self) -> Seq<char> {
        (*self)@
    }

    fn as_relative_path(&self) -> (r: RelativePath<'_>) {
        RelativePath { inner: self.inner.as_str() }
    }
}

impl<'a> View for RelativePath<'a> {
    type V = Seq<char>;

    /// The raw text of the path, separators as written.
    closed spec fn view(&self) -> Seq<char> {
        self.inner@
    }
}

impl View for RelativePathBuf {
    type V = Seq<char>;

    /// The raw text of the path, separators as written.
    closed spec fn view(&self) -> Seq<char> {
        self.inner@
    }
}

impl<'a> RelativePath<'a> {
    /// Wraps a text as a relative path, as it is.
    pub fn new(s: &'a str) -> (r: RelativePath<'a>)
        ensures
            r@ == s@,
    {
        RelativePath { inner: s }
    }

    /// The raw text of the path.
    pub fn as_str(&self) -> (r: &'a str)
        ensures
            r@ == self@,
    {
        self.inner
    }

    /// Joins `path` onto this path. A `path` that starts with a separator
    /// replaces this path altogether.
    pub fn join<P: AsRelativePath>(&self, path: P) -> (r: RelativePathBuf)
        ensures
            r@ == joined(self@, path.path_text()),
    {
        let p = path.as_relative_path();
        if p.is_absolute() {
            return p.to_relative_path_buf();
        }
        let mut out = self.to_relative_path_buf();
        out.push(p);
        out
    }

    /// Iterates over all the components of this path.
    pub fn components(&self) -> (r: Components<'a>)
        ensures
            r@ == components_of(self@),
    {
        Components::new(self.inner)
    }

    /// An owned copy of this path, its text unchanged.
    pub fn to_relative_path_buf(&self) -> (r: RelativePathBuf)
        ensures
            r@ == self@,
    {
        RelativePathBuf { inner: self.inner.to_owned() }
    }

    /// Whether the path starts with a separator.
    pub fn is_absolute(&self) -> (r: bool)
        ensures
            r == starts_with_sep(self@),
    {
        !self.inner.is_empty() && self.inner.get_char(0) == SEP
    }
}

impl RelativePathBuf {
    /// An empty path: no components, not absolute.
    pub fn new() -> (r: RelativePathBuf)
        ensures
            r@ == Seq::<char>::empty(),
    {
        RelativePathBuf { inner: String::new() }
    }

    /// The raw text of the path, separators as written.
    pub fn into_string(self) -> (r: String)
        ensures
            r@ == self@,
    {
        self.inner
    }

    /// A new path: this one with `path` pushed onto it. This one is unchanged.
    pub fn join<P: AsRelativePath>(&self, path: P) -> (r: RelativePathBuf)
        ensures
            r@ == joined(self@, path.path_text()),
    {
        let mut out = self.to_relative_path_buf();
        out.push(path);
        out
    }

    /// Appends `path` to this path, as text. A `path` that starts with a
    /// separator replaces the content; otherwise one separator goes between
    /// a non-empty content and `path`. Repeated separators are kept as written.
    pub fn push<P: AsRelativePath>(&mut self, path: P)
        ensures
            final(self)@ == joined(old(self)@, path.path_text()),
    {
        let path = path.as_relative_path();
        if path.is_absolute() {
            self.inner = path.inner.to_owned();
            return;
        }
        if !self.inner.as_str().is_empty() {
            proof {
                reveal_strlit("/");
            }
            self.inner.append("/");
        }
        self.inner.append(path.inner);
    }

    /// An owned copy of this path, its text unchanged.
    pub fn to_relative_path_buf(&self) -> (r: RelativePathBuf)
        ensures
            r@ == self@,
    {
        RelativePathBuf { inner: self.inner.as_str().to_owned() }
    }

    /// Iterates over all the components of this path.
    pub fn components(&self) -> (r: Components<'_>)
        ensures
            r@ == components_of(self@),
    {
        Components::new(self.inner.as_str())
    }

    /// Whether the path starts with a separator.
    pub fn is_absolute(&self) -> (r: bool)
        ensures
            r == starts_with_sep(self@),
    {
        self.as_relative_path().is_absolute()
    }
}

impl From<String> for RelativePathBuf {
    /// Wraps the text as it is: separators are not rewritten.
    fn from(value: String) -> (r: RelativePathBuf)
        ensures
            r@ == value@,
    {
        RelativePathBuf { inner: value }
    }
}

impl FromSpecImpl<String> for RelativePathBuf {
    open spec fn obeys_from_spec() -> bool {
        true
    }

    closed spec fn from_spec(value: String) -> RelativePathBuf {
        RelativePathBuf { inner: value }
    }
}

/// Compares two paths by their component sequences.
pub fn compare_paths(a: RelativePath, b: RelativePath) -> (r: Ordering)
    ensures
        r == cmp_components(components_of(a@), components_of(b@)),
{
    compare_components(a.components(), b.components())
}

/// Whether two paths have the same component sequence; their raw texts may
/// differ in separators.
pub fn paths_eq(a: RelativePath, b: RelativePath) -> (r: bool)
    ensures
        r == (components_of(a@) == components_of(b@)),
{
    let o = compare_paths(a, b);
    proof {
        lemma_cmp_components_equal(components_of(a@), components_of(b@));
    }
    match o {
        Ordering::Equal => true,
        _ => false,
    }
}

impl<'a, 'b> PartialEq<RelativePath<'b>> for RelativePath<'a> {
    fn eq(&self, other: &RelativePath<'b>) -> (r: bool) {
        paths_eq(*self, *other)
    }
}

impl<'a, 'b> PartialEqSpecImpl<RelativePath<'b>> for RelativePath<'a> {
    open spec fn obeys_eq_spec() -> bool {
        true
    }

    open spec fn eq_spec(&self, other: &RelativePath<'b>) -> bool {
        components_of(self@) == components_of(other@)
    }
}

impl<'a, 'b> PartialOrd<RelativePath<'b>> for RelativePath<'a> {
    fn partial_cmp(&self, other: &RelativePath<'b>) -> (r: Option<Ordering>) {
        Some(compare_paths(*self, *other))
    }
}

impl<'a, 'b> PartialOrdSpecImpl<RelativePath<'b>> for RelativePath<'a> {
    open spec fn obeys_partial_cmp_spec() -> bool {
        true
    }

    open spec fn partial_cmp_spec(&self, other: &RelativePath<'b>) -> Option<Ordering> {
        Some(cmp_components(components_of(self@), components_of(other@)))
    }
}

impl PartialEq<RelativePathBuf> for RelativePathBuf {
    fn eq(&self, other: &RelativePathBuf) -> (r: bool) {
        paths_eq(self.as_relative_path(), other.as_relative_path())
    }
}

impl PartialEqSpecImpl<RelativePathBuf> for RelativePathBuf {
    open spec fn obeys_eq_spec() -> bool {
        true
    }

    open spec fn eq_spec(&self, other: &RelativePathBuf) -> bool {
        components_of(self@) == components_of(other@)
    }
}

impl PartialOrd<RelativePathBuf> for RelativePathBuf {
    fn partial_cmp(&self, other: &RelativePathBuf) -> (r: Option<Ordering>) {
        Some(compare_paths(self.as_relative_path(), other.as_relative_path()))
    }
}

impl PartialOrdSpecImpl<RelativePathBuf> for RelativePathBuf {
    open spec fn obeys_partial_cmp_spec() -> bool {
        true
    }

    open spec fn partial_cmp_spec(&self, other: &RelativePathBuf) -> Option<Ordering> {
        Some(cmp_components(components_of(self@), components_of(other@)))
    }
}

impl<'b> PartialEq<RelativePath<'b>> for RelativePathBuf {
    fn eq(&self, other: &RelativePath<'b>) -> (r: bool) {
        paths_eq(self.as_relative_path(), *other)
    }
}

impl<'b> PartialEqSpecImpl<RelativePath<'b>> for RelativePathBuf {
    open spec fn obeys_eq_spec() -> bool {
        true
    }

    open spec fn eq_spec(&self, other: &RelativePath<'b>) -> bool {
        components_of(self@) == components_of(other@)
    }
}

impl<'b> PartialOrd<RelativePath<'b>> for RelativePathBuf {
    fn partial_cmp(&self, other: &RelativePath<'b>) -> (r: Option<Ordering>) {
        Some(compare_paths(self.as_relative_path(), *other))
    }
}

impl<'b> PartialOrdSpecImpl<RelativePath<'b>> for RelativePathBuf {
    open spec fn obeys_partial_cmp_spec() -> bool {
        true
    }

    open spec fn partial_cmp_spec(&self, other: &RelativePath<'b>) -> Option<Ordering> {
        Some(cmp_components(components_of(self@), components_of(other@)))
    }
}

impl<'a> PartialEq<RelativePathBuf> for RelativePath<'a> {
    fn eq(&self, other: &RelativePathBuf) -> (r: bool) {
        paths_eq(*self, other.as_relative_path())
    }
}

impl<'a> PartialEqSpecImpl<RelativePathBuf> for RelativePath<'a> {
    open spec fn obeys_eq_spec() -> bool {
        true
    }

    open spec fn eq_spec(&self, other: &RelativePathBuf) -> bool {
        components_of(self@) == components_of(other@)
    }
}

impl<'a> PartialOrd<RelativePathBuf> for RelativePath<'a> {
    fn partial_cmp(&self, other: &RelativePathBuf) -> (r: Option<Ordering>) {
        Some(compare_paths(*self, other.as_relative_path()))
    }
}

impl<'a> PartialOrdSpecImpl<RelativePathBuf> for RelativePath<'a> {
    open spec fn obeys_partial_cmp_spec() -> bool {
        true
    }

    open spec fn partial_cmp_spec(&self, other: &RelativePathBuf) -> Option<Ordering> {
        Some(cmp_components(components_of(self@), components_of(other@)))
    }
}

impl<'a,'b> PartialEq<&'b str> for RelativePath<'a> {
    fn eq(&self, other: &&'b str) -> (r: bool) {
        paths_eq(*self, other.as_relative_path())
    }
}

impl<'a,'b> PartialEqSpecImpl<&'b str> for RelativePath<'a> {
    open spec fn obeys_eq_spec() -> bool {
        true
    }

    open spec fn eq_spec(&self, other: &&'b str) -> bool {
        components_of(self@) == components_of(other@)
    }
}

impl<'a,'b> PartialOrd<&'b str> for RelativePath<'a> {
    fn partial_cmp(&self, other: &&'b str) -> (r: Option<Ordering>) {
        Some(compare_paths(*self, other.as_relative_path()))
    }
}

impl<'a,'b> PartialOrdSpecImpl<&'b str> for RelativePath<'a> {
    open spec fn obeys_partial_cmp_spec() -> bool {
        true
    }

    open spec fn partial_cmp_spec(&self, other: &&'b str) -> Option<Ordering> {
        Some(cmp_components(components_of(self@), components_of(other@)))
    }
}

impl<'a,'b> PartialEq<RelativePath<'a>> for &'b str {
    fn eq(&self, other: &RelativePath<'a>) -> (r: bool) {
        paths_eq(self.as_relative_path(), *other)
    }
}

impl<'a,'b> PartialEqSpecImpl<RelativePath<'a>> for &'b str {
    open spec fn obeys_eq_spec() -> bool {
        true
    }

    open spec fn eq_spec(&self, other: &RelativePath<'a>) -> bool {
        components_of(self@) == components_of(other@)
    }
}

impl<'a,'b> PartialOrd<RelativePath<'a>> for &'b str {
    fn partial_cmp(&self, other: &RelativePath<'a>) -> (r: Option<Ordering>) {
        Some(compare_paths(self.as_relative_path(), *other))
    }
}

impl<'a,'b> PartialOrdSpecImpl<RelativePath<'a>> for &'b str {
    open spec fn obeys_partial_cmp_spec() -> bool {
        true
    }

    open spec fn partial_cmp_spec(&self, other: &RelativePath<'a>) -> Option<Ordering> {
        Some(cmp_components(components_of(self@), components_of(other@)))
    }
}

impl<'a> PartialEq<String> for RelativePath<'a> {
    fn eq(&self, other: &String) -> (r: bool) {
        paths_eq(*self, other.as_relative_path())
    }
}

impl<'a> PartialEqSpecImpl<String> for RelativePath<'a> {
    open spec fn obeys_eq_spec() -> bool {
        true
    }

    open spec fn eq_spec(&self, other: &String) -> bool {
        components_of(self@) == components_of(other@)
    }
}

impl<'a> PartialOrd<String> for RelativePath<'a> {
    fn partial_cmp(&self, other: &String) -> (r: Option<Ordering>) {
        Some(compare_paths(*self, other.as_relative_path()))
    }
}

impl<'a> PartialOrdSpecImpl<String> for RelativePath<'a> {
    open spec fn obeys_partial_cmp_spec() -> bool {
        true
    }

    open spec fn partial_cmp_spec(&self, other: &String) -> Option<Ordering> {
        Some(cmp_components(components_of(self@), components_of(other@)))
    }
}

impl<'a> PartialEq<RelativePath<'a>> for String {
    fn eq(&self, other: &RelativePath<'a>) -> (r: bool) {
        paths_eq(self.as_relative_path(), *other)
    }
}

impl<'a> PartialEqSpecImpl<RelativePath<'a>> for String {
    open spec fn obeys_eq_spec() -> bool {
        true
    }

    open spec fn eq_spec(&self, other: &RelativePath<'a>) -> bool {
        components_of(self@) == components_of(other@)
    }
}

impl<'a> PartialOrd<RelativePath<'a>> for String {
    fn partial_cmp(&self, other: &RelativePath<'a>) -> (r: Option<Ordering>) {
        Some(compare_paths(self.as_relative_path(), *other))
    }
}

impl<'a> PartialOrdSpecImpl<RelativePath<'a>> for String {
    open spec fn obeys_partial_cmp_spec() -> bool {
        true
    }

    open spec fn partial_cmp_spec(&self, other: &RelativePath<'a>) -> Option<Ordering> {
        Some(cmp_components(components_of(self@), components_of(other@)))
    }
}

impl<'b> PartialEq<&'b str> for RelativePathBuf {
    fn eq(&self, other: &&'b str) -> (r: bool) {
        paths_eq(self.as_relative_path(), other.as_relative_path())
    }
}

impl<'b> PartialEqSpecImpl<&'b str> for RelativePathBuf {
    open spec fn obeys_eq_spec() -> bool {
        true
    }

    open spec fn eq_spec(&self, other: &&'b str) -> bool {
        components_of(self@) == components_of(other@)
    }
}

impl<'b> PartialOrd<&'b str> for RelativePathBuf {
    fn partial_cmp(&self, other: &&'b str) -> (r: Option<Ordering>) {
        Some(compare_paths(self.as_relative_path(), other.as_relative_path()))
    }
}

impl<'b> PartialOrdSpecImpl<&'b str> for RelativePathBuf {
    open spec fn obeys_partial_cmp_spec() -> bool {
        true
    }

    open spec fn partial_cmp_spec(&self, other: &&'b str) -> Option<Ordering> {
        Some(cmp_components(components_of(self@), components_of(other@)))
    }
}

impl<'b> PartialEq<RelativePathBuf> for &'b str {
    fn eq(&self, other: &RelativePathBuf) -> (r: bool) {
        paths_eq(self.as_relative_path(), other.as_relative_path())
    }
}

impl<'b> PartialEqSpecImpl<RelativePathBuf> for &'b str {
    open spec fn obeys_eq_spec() -> bool {
        true
    }

    open spec fn eq_spec(&self, other: &RelativePathBuf) -> bool {
        components_of(self@) == components_of(other@)
    }
}

impl<'b> PartialOrd<RelativePathBuf> for &'b str {
    fn partial_cmp(&self, other: &RelativePathBuf) -> (r: Option<Ordering>) {
        Some(compare_paths(self.as_relative_path(), other.as_relative_path()))
    }
}

impl<'b> PartialOrdSpecImpl<RelativePathBuf> for &'b str {
    open spec fn obeys_partial_cmp_spec() -> bool {
        true
    }

    open spec fn partial_cmp_spec(&self, other: &RelativePathBuf) -> Option<Ordering> {
        Some(cmp_components(components_of(self@), components_of(other@)))
    }
}

impl PartialEq<String> for RelativePathBuf {
    fn eq(&self, other: &String) -> (r: bool) {
        paths_eq(self.as_relative_path(), other.as_relative_path())
    }
}

impl PartialEqSpecImpl<String> for RelativePathBuf {
    open spec fn obeys_eq_spec() -> bool {
        true
    }

    open spec fn eq_spec(&self, other: &String) -> bool {
        components_of(self@) == components_of(other@)
    }
}

impl PartialOrd<String> for RelativePathBuf {
    fn partial_cmp(&self, other: &String) -> (r: Option<Ordering>) {
        Some(compare_paths(self.as_relative_path(), other.as_relative_path()))
    }
}

impl PartialOrdSpecImpl<String> for RelativePathBuf {
    open spec fn obeys_partial_cmp_spec() -> bool {
        true
    }

    open spec fn partial_cmp_spec(&self, other: &String) -> Option<Ordering> {
        Some(cmp_components(components_of(self@), components_of(other@)))
    }
}

impl PartialEq<RelativePathBuf> for String {
    fn eq(&self, other: &RelativePathBuf) -> (r: bool) {
        paths_eq(self.as_relative_path(), other.as_relative_path())
    }
}

impl PartialEqSpecImpl<RelativePathBuf> for String {
    open spec fn obeys_eq_spec() -> bool {
        true
    }

    open spec fn eq_spec(&self, other: &RelativePathBuf) -> bool {
        components_of(self@) == components_of(other@)
    }
}

impl PartialOrd<RelativePathBuf> for String {
    fn partial_cmp(&self, other: &RelativePathBuf) -> (r: Option<Ordering>) {
        Some(compare_paths(self.as_relative_path(), other.as_relative_path()))
    }
}

impl PartialOrdSpecImpl<RelativePathBuf> for String {
    open spec fn obeys_partial_cmp_spec() -> bool {
        true
    }

    open spec fn partial_cmp_spec(&self, other: &RelativePathBuf) -> Option<Ordering> {
        Some(cmp_components(components_of(self@), components_of(other@)))
    }
}

impl<'a, 'b> PartialEq<&'b RelativePath<'a>> for RelativePathBuf {
    fn eq(&self, other: &&'b RelativePath<'a>) -> (r: bool) {
        paths_eq(self.as_relative_path(), **other)
    }
}

impl<'a, 'b> PartialEqSpecImpl<&'b RelativePath<'a>> for RelativePathBuf {
    open spec fn obeys_eq_spec() -> bool {
        true
    }

    open spec fn eq_spec(&self, other: &&'b RelativePath<'a>) -> bool {
        components_of(self@) == components_of((*other)@)
    }
}

impl<'a, 'b> PartialOrd<&'b RelativePath<'a>> for RelativePathBuf {
    fn partial_cmp(&self, other: &&'b RelativePath<'a>) -> (r: Option<Ordering>) {
        Some(compare_paths(self.as_relative_path(), **other))
    }
}

impl<'a, 'b> PartialOrdSpecImpl<&'b RelativePath<'a>> for RelativePathBuf {
    open spec fn obeys_partial_cmp_spec() -> bool {
        true
    }

    open spec fn partial_cmp_spec(&self, other: &&'b RelativePath<'a>) -> Option<Ordering> {
        Some(cmp_components(components_of(self@), components_of((*other)@)))
    }
}

impl<'a, 'b> PartialEq<RelativePathBuf> for &'b RelativePath<'a> {
    fn eq(&self, other: &RelativePathBuf) -> (r: bool) {
        paths_eq(**self, other.as_relative_path())
    }
}

impl<'a, 'b> PartialEqSpecImpl<RelativePathBuf> for &'b RelativePath<'a> {
    open spec fn obeys_eq_spec() -> bool {
        true
    }

    open spec fn eq_spec(&self, other: &RelativePathBuf) -> bool {
        components_of((*self)@) == components_of(other@)
    }
}

impl<'a, 'b> PartialOrd<RelativePathBuf> for &'b RelativePath<'a> {
    fn partial_cmp(&self, other: &RelativePathBuf) -> (r: Option<Ordering>) {
        Some(compare_paths(**self, other.as_relative_path()))
    }
}

impl<'a, 'b> PartialOrdSpecImpl<RelativePathBuf> for &'b RelativePath<'a> {
    open spec fn obeys_partial_cmp_spec() -> bool {
        true
    }

    open spec fn partial_cmp_spec(&self, other: &RelativePathBuf) -> Option<Ordering> {
        Some(cmp_components(components_of((*self)@), components_of(other@)))
    }
}

impl<'a> PartialEq<str> for RelativePath<'a> {
    fn eq(&self, other: &str) -> (r: bool) {
        paths_eq(*self, RelativePath::new(other))
    }
}

impl<'a> PartialEqSpecImpl<str> for RelativePath<'a> {
    open spec fn obeys_eq_spec() -> bool {
        true
    }

    open spec fn eq_spec(&self, other: &str) -> bool {
        components_of(self@) == components_of(other@)
    }
}

impl<'a> PartialOrd<str> for RelativePath<'a> {
    fn partial_cmp(&self, other: &str) -> (r: Option<Ordering>) {
        Some(compare_paths(*self, RelativePath::new(other)))
    }
}

impl<'a> PartialOrdSpecImpl<str> for RelativePath<'a> {
    open spec fn obeys_partial_cmp_spec() -> bool {
        true
    }

    open spec fn partial_cmp_spec(&self, other: &str) -> Option<Ordering> {
        Some(cmp_components(components_of(self@), components_of(other@)))
    }
}

impl<'a> PartialEq<RelativePath<'a>> for str {
    fn eq(&self, other: &RelativePath<'a>) -> (r: bool) {
        paths_eq(RelativePath::new(self), *other)
    }
}

impl<'a> PartialEqSpecImpl<RelativePath<'a>> for str {
    open spec fn obeys_eq_spec() -> bool {
        true
    }

    open spec fn eq_spec(&self, other: &RelativePath<'a>) -> bool {
        components_of(self@) == components_of(other@)
    }
}

impl<'a> PartialOrd<RelativePath<'a>> for str {
    fn partial_cmp(&self, other: &RelativePath<'a>) -> (r: Option<Ordering>) {
        Some(compare_paths(RelativePath::new(self), *other))
    }
}

impl<'a> PartialOrdSpecImpl<RelativePath<'a>> for str {
    open spec fn obeys_partial_cmp_spec() -> bool {
        true
    }

    open spec fn partial_cmp_spec(&self, other: &RelativePath<'a>) -> Option<Ordering> {
        Some(cmp_components(components_of(self@), components_of(other@)))
    }
}

impl PartialEq<str> for RelativePathBuf {
    fn eq(&self, other: &str) -> (r: bool) {
        paths_eq(self.as_relative_path(), RelativePath::new(other))
    }
}

impl PartialEqSpecImpl<str> for RelativePathBuf {
    open spec fn obeys_eq_spec() -> bool {
        true
    }

    open spec fn eq_spec(&self, other: &str) -> bool {
        components_of(self@) == components_of(other@)
    }
}

impl PartialOrd<str> for RelativePathBuf {
    fn partial_cmp(&self, other: &str) -> (r: Option<Ordering>) {
        Some(compare_paths(self.as_relative_path(), RelativePath::new(other)))
    }
}

impl PartialOrdSpecImpl<str> for RelativePathBuf {
    open spec fn obeys_partial_cmp_spec() -> bool {
        true
    }

    open spec fn partial_cmp_spec(&self, other: &str) -> Option<Ordering> {
        Some(cmp_components(components_of(self@), components_of(other@)))
    }
}

impl PartialEq<RelativePathBuf> for str {
    fn eq(&self, other: &RelativePathBuf) -> (r: bool) {
        paths_eq(RelativePath::new(self), other.as_relative_path())
    }
}

impl PartialEqSpecImpl<RelativePathBuf> for str {
    open spec fn obeys_eq_spec() -> bool {
        true
    }

    open spec fn eq_spec(&self, other: &RelativePathBuf) -> bool {
        components_of(self@) == components_of(other@)
    }
}

impl PartialOrd<RelativePathBuf> for str {
    fn partial_cmp(&self, other: &RelativePathBuf) -> (r: Option<Ordering>) {
        Some(compare_paths(RelativePath::new(self), other.as_relative_path()))
    }
}

impl PartialOrdSpecImpl<RelativePathBuf> for str {
    open spec fn obeys_partial_cmp_spec() -> bool {
        true
    }

    open spec fn partial_cmp_spec(&self, other: &RelativePathBuf) -> Option<Ordering> {
        Some(cmp_components(components_of(self@), components_of(other@)))
    }
}

impl<'a, 'b> PartialEq<str> for &'b RelativePath<'a> {
    fn eq(&self, other: &str) -> (r: bool) {
        paths_eq(**self, RelativePath::new(other))
    }
}

impl<'a, 'b> PartialEqSpecImpl<str> for &'b RelativePath<'a> {
    open spec fn obeys_eq_spec() -> bool {
        true
    }

    open spec fn eq_spec(&self, other: &str) -> bool {
        components_of((*self)@) == components_of(other@)
    }
}

impl<'a, 'b> PartialOrd<str> for &'b RelativePath<'a> {
    fn partial_cmp(&self, other: &str) -> (r: Option<Ordering>) {
        Some(compare_paths(**self, RelativePath::new(other)))
    }
}

impl<'a, 'b> PartialOrdSpecImpl<str> for &'b RelativePath<'a> {
    open spec fn obeys_partial_cmp_spec() -> bool {
        true
    }

    open spec fn partial_cmp_spec(&self, other: &str) -> Option<Ordering> {
        Some(cmp_components(components_of((*self)@), components_of(other@)))
    }
}

impl<'a, 'b> PartialEq<&'b RelativePath<'a>> for str {
    fn eq(&self, other: &&'b RelativePath<'a>) -> (r: bool) {
        paths_eq(RelativePath::new(self), **other)
    }
}

impl<'a, 'b> PartialEqSpecImpl<&'b RelativePath<'a>> for str {
    open spec fn obeys_eq_spec() -> bool {
        true
    }

    open spec fn eq_spec(&self, other: &&'b RelativePath<'a>) -> bool {
        components_of(self@) == components_of((*other)@)
    }
}

impl<'a, 'b> PartialOrd<&'b RelativePath<'a>> for str {
    fn partial_cmp(&self, other: &&'b RelativePath<'a>) -> (r: Option<Ordering>) {
        Some(compare_paths(RelativePath::new(self), **other))
    }
}

impl<'a, 'b> PartialOrdSpecImpl<&'b RelativePath<'a>> for str {
    open spec fn obeys_partial_cmp_spec() -> bool {
        true
    }

    open spec fn partial_cmp_spec(&self, other: &&'b RelativePath<'a>) -> Option<Ordering> {
        Some(cmp_components(components_of(self@), components_of((*other)@)))
    }
}

impl<'a, 'b> PartialEq<String> for &'b RelativePath<'a> {
    fn eq(&self, other: &String) -> (r: bool) {
        paths_eq(**self, other.as_relative_path())
    }
}

impl<'a, 'b> PartialEqSpecImpl<String> for &'b RelativePath<'a> {
    open spec fn obeys_eq_spec() -> bool {
        true
    }

    open spec fn eq_spec(&self, other: &String) -> bool {
        components_of((*self)@) == components_of(other@)
    }
}

impl<'a, 'b> PartialOrd<String> for &'b RelativePath<'a> {
    fn partial_cmp(&self, other: &String) -> (r: Option<Ordering>) {
        Some(compare_paths(**self, other.as_relative_path()))
    }
}

impl<'a, 'b> PartialOrdSpecImpl<String> for &'b RelativePath<'a> {
    open spec fn obeys_partial_cmp_spec() -> bool {
        true
    }

    open spec fn partial_cmp_spec(&self, other: &String) -> Option<Ordering> {
        Some(cmp_components(components_of((*self)@), components_of(other@)))
    }
}

impl<'a, 'b> PartialEq<&'b RelativePath<'a>> for String {
    fn eq(&self, other: &&'b RelativePath<'a>) -> (r: bool) {
        paths_eq(self.as_relative_path(), **other)
    }
}

impl<'a, 'b> PartialEqSpecImpl<&'b RelativePath<'a>> for String {
    open spec fn obeys_eq_spec() -> bool {
        true
    }

    open spec fn eq_spec(&self, other: &&'b RelativePath<'a>) -> bool {
        components_of(self@) == components_of((*other)@)
    }
}

impl<'a, 'b> PartialOrd<&'b RelativePath<'a>> for String {
    fn partial_cmp(&self, other: &&'b RelativePath<'a>) -> (r: Option<Ordering>) {
        Some(compare_paths(self.as_relative_path(), **other))
    }
}

impl<'a, 'b> PartialOrdSpecImpl<&'b RelativePath<'a>> for String {
    open spec fn obeys_partial_cmp_spec() -> bool {
        true
    }

    open spec fn partial_cmp_spec(&self, other: &&'b RelativePath<'a>) -> Option<Ordering> {
        Some(cmp_components(components_of(self@), components_of((*other)@)))
    }
}

impl<'a> Eq for RelativePath<'a> {}

impl Eq for RelativePathBuf {}

} // verus!
