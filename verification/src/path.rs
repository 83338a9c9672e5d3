//! Folder and collection paths: `'/'`-separated segment strings.

use crate::text::{last_index_of, rfind_char, split_at_char};
use vstd::prelude::*;
use vstd::string::*;

verus! {

/// The name part of a path: everything after the last `'/'`, or the whole
/// path if there is none.
pub open spec fn spec_path_name(s: Seq<char>) -> Seq<char> {
    if last_index_of(s, '/') >= 0 {
        s.subrange(last_index_of(s, '/') + 1, s.len() as int)
    } else {
        s
    }
}

/// The parent part of a path: everything before the last `'/'`, or nothing if
/// there is none.
pub open spec fn spec_path_parent(s: Seq<char>) -> Option<Seq<char>> {
    if last_index_of(s, '/') >= 0 {
        Some(s.subrange(0, last_index_of(s, '/')))
    } else {
        None
    }
}

/// A borrowed path.
#[derive(Debug, Clone, Copy, PartialEq, Eq, Hash)]
pub struct Path<'a> {
    inner: &'a str,
}

impl<'a> View for Path<'a> {
    type V = Seq<char>;

    closed spec fn view(&self) -> Seq<char> {
        self.inner@
    }
}

impl<'a> Path<'a> {
    /// Borrow a string as a path.
    pub fn new(s: &'a str) -> (r: Self)
        ensures
            r@ == s@,
    {
        Self { inner: s }
    }

    /// The path as a string.
    pub fn as_str(&self) -> (r: &'a str)
        ensures
            r@ == self@,
    {
        self.inner
    }

    /// An owned copy of the path.
    pub fn to_path_buf(&self) -> (r: PathBuf)
        ensures
            r@ == self@,
    {
        PathBuf { inner: self.inner.to_owned() }
    }

    /// Everything before the last `'/'`, or nothing for a path of one
    /// segment.
    pub fn parent(&self) -> (r: Option<Path<'a>>)
        ensures
            r is Some <==> spec_path_parent(self@) is Some,
            r is Some ==> r->0@ == spec_path_parent(self@)->0,
    {
        proof {
            crate::text::lemma_last_index_of_bounds(self@, '/');
        }
        match rfind_char(self.inner, '/') {
            Some(idx) => Some(Path { inner: self.inner.substring_char(0, idx) }),
            None => None,
        }
    }

    /// Everything after the last `'/'`, or the whole path if there is none.
    pub fn name(&self) -> (r: &'a str)
        ensures
            r@ == spec_path_name(self@),
    {
        proof {
            crate::text::lemma_last_index_of_bounds(self@, '/');
        }
        let n = self.inner.unicode_len();
        match rfind_char(self.inner, '/') {
            Some(idx) => self.inner.substring_char(idx + 1, n),
            None => self.inner,
        }
    }

    /// This path with one more segment appended after a `'/'`.
    pub fn join(&self, path: &Path<'_>) -> (r: PathBuf)
        ensures
            r@ == self@ + seq!['/'] + path@,
    {
        let mut buf = self.to_path_buf();
        buf.push(path);
        buf
    }

    /// The segments of the path, in order.
    pub fn iter(&self) -> (r: Iter)
        ensures
            r@ == split_at_char(self@, '/'),
    {
        let parts = crate::text::split_on(self.inner, '/');
        let back = parts.len();
        proof {
            assert(parts.deep_view().subrange(0, back as int) =~= parts.deep_view());
        }
        Iter { parts, front: 0, back }
    }
}

/// The segments of a path, handed out from the front or from the back.
#[derive(Debug, Clone)]
pub struct Iter {
    parts: Vec<String>,
    front: usize,
    back: usize,
}

impl View for Iter {
    type V = Seq<Seq<char>>;

    closed spec fn view(&self) -> Seq<Seq<char>> {
        if self.front <= self.back <= self.parts.len() {
            self.parts.deep_view().subrange(self.front as int, self.back as int)
        } else {
            Seq::empty()
        }
    }
}

impl Iter {
    /// The next segment from the front, if one is left.
    pub fn next(&mut self) -> (r: Option<String>)
        ensures
            old(self)@.len() == 0 ==> r is None && final(self)@ == old(self)@,
            old(self)@.len() > 0 ==> r is Some && r->0@ == old(self)@[0] && final(self)@ == old(
                self,
            )@.drop_first(),
    {
        if self.front < self.back && self.back <= self.parts.len() {
            let seg = self.parts[self.front].clone();
            self.front += 1;
            proof {
                assert(final(self)@ =~= old(self)@.drop_first());
            }
            Some(seg)
        } else {
            None
        }
    }

    /// The next segment from the back, if one is left.
    pub fn next_back(&mut self) -> (r: Option<String>)
        ensures
            old(self)@.len() == 0 ==> r is None && final(self)@ == old(self)@,
            old(self)@.len() > 0 ==> r is Some && r->0@ == old(self)@.last() && final(self)@ == old(
                self,
            )@.drop_last(),
    {
        if self.front < self.back && self.back <= self.parts.len() {
            let seg = self.parts[self.back - 1].clone();
            self.back -= 1;
            proof {
                assert(final(self)@ =~= old(self)@.drop_last());
            }
            Some(seg)
        } else {
            None
        }
    }
}

/// An owned path.
#[derive(Debug, Clone, PartialEq, Eq, Hash)]
pub struct PathBuf {
    inner: String,
}

impl View for PathBuf {
    type V = Seq<char>;

    closed spec fn view(&self) -> Seq<char> {
        self.inner@
    }
}

impl PathBuf {
    /// An owned path holding `s`.
    pub fn new(s: String) -> (r: Self)
        ensures
            r@ == s@,
    {
        Self { inner: s }
    }

    /// Borrow this path.
    pub fn as_path(&self) -> (r: Path<'_>)
        ensures
            r@ == self@,
    {
        Path::new(self.inner.as_str())
    }

    /// Append one more segment after a `'/'`.
    pub fn push(&mut self, path: &Path<'_>)
        ensures
            final(self)@ == old(self)@ + seq!['/'] + path@,
    {
        self.inner.append("/");
        self.inner.append(path.as_str());
        proof {
            reveal_strlit("/");
            assert(("/")@ =~= seq!['/']);
        }
    }

    /// Remove the last segment and return it, or nothing for a path of one
    /// segment, which stays as it is.
    pub fn pop(&mut self) -> (r: Option<String>)
        ensures
            r is None <==> spec_path_parent(old(self)@) is None,
            r is None ==> final(self)@ == old(self)@,
            r is Some ==> r->0@ == spec_path_name(old(self)@) && final(self)@ == spec_path_parent(
                old(self)@,
            )->0,
    {
        proof {
            crate::text::lemma_last_index_of_bounds(self.inner@, '/');
        }
        let idx = match rfind_char(self.inner.as_str(), '/') {
            Some(idx) => idx,
            None => {
                return None;
            },
        };
        let n = self.inner.as_str().unicode_len();
        let name = self.inner.as_str().substring_char(idx + 1, n).to_owned();
        let rest = self.inner.as_str().substring_char(0, idx).to_owned();
        self.inner = rest;
        Some(name)
    }

    /// The path as its owned string.
    pub fn into_string(self) -> (r: String)
        ensures
            r@ == self@,
    {
        self.inner
    }
}

} // verus!
