//! Paths on a remote machine.
use vstd::prelude::*;

use crate::std_types::PathBuf;
use crate::text::copy_str;

verus! {

broadcast use vstd::string::group_string_axioms;

/// A path on a remote machine.
///
/// This is a thin newtype over [`String`] with no encoding assumptions.
/// Each plugin interprets the path according to its own context
/// (e.g. Docker always treats paths as Unix; SSH uses auto-detection).
#[derive(Clone, Debug, Hash, PartialEq, Eq, PartialOrd, Ord)]
pub struct RemotePath(String);

impl View for RemotePath {
    type V = Seq<char>;

    closed spec fn view(&self) -> Seq<char> {
        self.0@
    }
}

/// The text that `Path::to_string_lossy` gives for a local path.
pub uninterp spec fn text_of_path(p: PathBuf) -> Seq<char>;

/// The local path that `PathBuf::from(String)` gives for a text.
pub uninterp spec fn path_of_text(s: Seq<char>) -> PathBuf;

/// `PathBuf::to_string_lossy` followed by `into_owned`: the text of a local path, with any part
/// that is not valid unicode replaced. The contract claims only that the text is the same for the
/// same path.
#[verifier::external_body]
fn path_text(p: &PathBuf) -> (r: String)
    ensures
        r@ == text_of_path(*p),
{
    p.to_string_lossy().into_owned()
}

/// `PathBuf::from(String)`: the local path spelled by a string. The contract claims only that
/// the path is the same for the same text.
#[verifier::external_body]
fn path_from_text(s: String) -> (r: PathBuf)
    ensures
        r == path_of_text(s@),
{
    PathBuf::from(s)
}

impl RemotePath {
    /// Creates a new remote path from anything that can be converted into a [`String`].
    pub fn new<S: Into<String>>(s: S) -> (r: Self)
        ensures
            call_ensures(S::into, (s,), r.text()),
    {
        RemotePath(s.into())
    }

    /// The string the path holds.
    pub closed spec fn text(self) -> String {
        self.0
    }

    /// A path made by `new` from a `String` holds that string unchanged.
    pub proof fn lemma_new_from_string(s: String, p: RemotePath)
        requires
            call_ensures(<String as Into<String>>::into, (s,), p.text()),
        ensures
            p.text() == s,
            p@ == s@,
    {
        assert(call_ensures(<String as From<String>>::from, (s,), p.text()));
    }

    /// Returns the path as a string slice.
    pub fn as_str(&self) -> (r: &str)
        ensures
            r@ == self@,
    {
        self.0.as_str()
    }

    /// Consumes this value and returns the inner [`String`].
    pub fn into_string(self) -> (r: String)
        ensures
            r@ == self@,
    {
        self.0
    }

    /// The path as text, as it is displayed.
    pub fn to_string(&self) -> (r: String)
        ensures
            r@ == self@,
    {
        copy_str(self.0.as_str())
    }
}

impl From<String> for RemotePath {
    fn from(s: String) -> (r: RemotePath)
        ensures
            r@ == s@,
    {
        RemotePath(s)
    }
}

impl vstd::std_specs::convert::FromSpecImpl<String> for RemotePath {
    open spec fn obeys_from_spec() -> bool {
        true
    }

    closed spec fn from_spec(s: String) -> RemotePath {
        RemotePath(s)
    }
}

impl<'a> From<&'a str> for RemotePath {
    fn from(s: &'a str) -> (r: RemotePath)
        ensures
            r@ == s@,
    {
        RemotePath(copy_str(s))
    }
}

impl<'a> vstd::std_specs::convert::FromSpecImpl<&'a str> for RemotePath {
    /// Strings with the same characters are not known to be one value, so the result is
    /// described by the `ensures` of `from` alone.
    open spec fn obeys_from_spec() -> bool {
        false
    }

    open spec fn from_spec(s: &'a str) -> RemotePath {
        choose|r: RemotePath| r@ == s@
    }
}

impl From<PathBuf> for RemotePath {
    fn from(p: PathBuf) -> (r: RemotePath)
        ensures
            r@ == text_of_path(p),
    {
        RemotePath(path_text(&p))
    }
}

impl vstd::std_specs::convert::FromSpecImpl<PathBuf> for RemotePath {
    /// The result is described by the `ensures` of `from`, through the name `text_of_path`.
    open spec fn obeys_from_spec() -> bool {
        false
    }

    open spec fn from_spec(p: PathBuf) -> RemotePath {
        vstd::pervasive::arbitrary()
    }
}

impl From<RemotePath> for PathBuf {
    fn from(p: RemotePath) -> (r: PathBuf)
        ensures
            r == path_of_text(p@),
    {
        path_from_text(p.0)
    }
}

impl vstd::std_specs::convert::FromSpecImpl<RemotePath> for PathBuf {
    /// The result is described by the `ensures` of `from`, through the name `path_of_text`.
    open spec fn obeys_from_spec() -> bool {
        false
    }

    open spec fn from_spec(p: RemotePath) -> PathBuf {
        vstd::pervasive::arbitrary()
    }
}

} // verus!
