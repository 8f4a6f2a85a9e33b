//! File-system paths as byte sequences.
use vstd::prelude::*;

verus! {

/// A path of the host file system: any sequence of bytes, with `/` between its components.
#[derive(Debug)]
pub struct FilePath {
    pub bytes: Vec<u8>,
}

impl View for FilePath {
    type V = Seq<u8>;

    open spec fn view(&self) -> Seq<u8> {
        self.bytes@
    }
}

/// A path is absolute when it starts with the separator.
pub open spec fn is_absolute(p: Seq<u8>) -> bool {
    p.len() > 0 && p[0] == 47
}

/// Whether a component `.` stands at position `i`.
pub open spec fn is_current_dir_at(p: Seq<u8>, i: int) -> bool {
    &&& 0 <= i < p.len()
    &&& p[i] == 46
    &&& i == 0 || p[i - 1] == 47
    &&& i + 1 == p.len() || p[i + 1] == 47
}

/// Whether a component `..` starts at position `i`.
pub open spec fn is_parent_dir_at(p: Seq<u8>, i: int) -> bool {
    &&& 0 <= i
    &&& i + 1 < p.len()
    &&& p[i] == 46
    &&& p[i + 1] == 46
    &&& i == 0 || p[i - 1] == 47
    &&& i + 2 == p.len() || p[i + 2] == 47
}

/// Whether one of the components of a path is `..`.
pub open spec fn has_parent_dir(p: Seq<u8>) -> bool {
    exists|i: int| is_parent_dir_at(p, i)
}

/// Whether a path names the root directory: it is absolute and has no component but `.`.
pub open spec fn is_root(p: Seq<u8>) -> bool {
    is_absolute(p) && forall|i: int|
        0 <= i < p.len() ==> p[i] == 47 || #[trigger] is_current_dir_at(p, i)
}

/// A path under another one; an absolute path replaces it.
pub open spec fn joined_path(base: Seq<u8>, part: Seq<u8>) -> Seq<u8> {
    if is_absolute(part) {
        part
    } else if base.len() == 0 || base.last() == 47 {
        base + part
    } else {
        base + seq![47u8] + part
    }
}

/// The contents of an optional path.
pub open spec fn optional_path(value: Option<FilePath>) -> Option<Seq<u8>> {
    match value {
        Some(p) => Some(p@),
        None => None,
    }
}

/// A copy of an optional path.
pub fn copy_optional_path(value: &Option<FilePath>) -> (r: Option<FilePath>)
    ensures
        optional_path(r) == optional_path(*value),
{
    match value {
        Some(p) => Some(p.copy()),
        None => None,
    }
}

/// What `String::from_utf8_lossy` makes of a sequence of bytes.
pub uninterp spec fn lossy(bytes: Seq<u8>) -> Seq<char>;

/// What the `Debug` format makes of a string: quoted and escaped.
pub uninterp spec fn debug_form(s: Seq<char>) -> Seq<char>;

/// Calls `std::str::from_utf8`: the text of a valid UTF-8 sequence, and nothing for any other.
#[verifier::external_body]
fn utf8_text(bytes: &[u8]) -> (r: Option<String>)
    ensures
        r is Some <==> vstd::utf8::valid_utf8(bytes@),
        r matches Some(s) ==> s@ == vstd::utf8::decode_utf8(bytes@),
{
    std::str::from_utf8(bytes).ok().map(|s| s.to_owned())
}

/// Calls `String::from_utf8_lossy`: the text of a valid UTF-8 sequence; what stands for the
/// invalid parts of another sequence is only named.
#[verifier::external_body]
pub(crate) fn lossy_text(bytes: &[u8]) -> (r: String)
    ensures
        r@ == lossy(bytes@),
        vstd::utf8::valid_utf8(bytes@) ==> r@ == vstd::utf8::decode_utf8(bytes@),
{
    String::from_utf8_lossy(bytes).into_owned()
}

/// Formats a string with `{:?}`, which quotes and escapes it; the form is only named.
#[verifier::external_body]
pub(crate) fn debug_text(s: &str) -> (r: String)
    ensures
        r@ == debug_form(s@),
{
    format!("{s:?}")
}

impl FilePath {
    /// The path that a string spells.
    pub fn from_text(s: &str) -> (r: FilePath)
        ensures
            r@ == vstd::utf8::encode_utf8(s@),
    {
        FilePath { bytes: s.as_bytes_vec() }
    }

    /// A copy of the path.
    pub fn copy(&self) -> (r: FilePath)
        ensures
            r@ == self@,
    {
        FilePath { bytes: self.bytes.clone() }
    }

    /// The path as text, where it is valid UTF-8.
    pub fn to_text(&self) -> (r: Option<String>)
        ensures
            r is Some <==> vstd::utf8::valid_utf8(self@),
            r matches Some(s) ==> s@ == vstd::utf8::decode_utf8(self@),
    {
        utf8_text(self.bytes.as_slice())
    }

    /// The path as text for messages.
    pub fn display(&self) -> (r: String)
        ensures
            r@ == lossy(self@),
            vstd::utf8::valid_utf8(self@) ==> r@ == vstd::utf8::decode_utf8(self@),
    {
        lossy_text(self.bytes.as_slice())
    }

    /// Tells whether the path is absolute.
    pub fn is_absolute(&self) -> (r: bool)
        ensures
            r == is_absolute(self@),
    {
        self.bytes.len() > 0 && self.bytes[0] == 47
    }

    /// Tells whether the path names the root directory.
    pub fn is_root(&self) -> (r: bool)
        ensures
            r == is_root(self@),
    {
        if !self.is_absolute() {
            return false;
        }
        let size: usize = self.bytes.len();
        let mut i: usize = 0;
        while i < size
            invariant
                i <= size,
                size == self@.len(),
                forall|k: int|
                    0 <= k < i ==> self@[k] == 47 || #[trigger] is_current_dir_at(self@, k),
            decreases size - i,
        {
            let dot: bool = self.bytes[i] == 46 && (i == 0 || self.bytes[i - 1] == 47) && (i
                == size - 1 || self.bytes[i + 1] == 47);
            if self.bytes[i] != 47 && !dot {
                assert(!is_current_dir_at(self@, i as int));
                return false;
            }
            i = i + 1;
        }
        true
    }

    /// Tells whether one of the components of the path is `..`.
    pub fn has_parent_dir(&self) -> (r: bool)
        ensures
            r == has_parent_dir(self@),
    {
        let size: usize = self.bytes.len();
        let mut i: usize = 0;
        while i < size
            invariant
                i <= size,
                size == self@.len(),
                forall|k: int| 0 <= k < i ==> !is_parent_dir_at(self@, k),
            decreases size - i,
        {
            if size - i >= 2 && self.bytes[i] == 46 && self.bytes[i + 1] == 46 && (i == 0
                || self.bytes[i - 1] == 47) && (size - i == 2 || self.bytes[i + 2] == 47) {
                assert(is_parent_dir_at(self@, i as int));
                return true;
            }
            i = i + 1;
        }
        false
    }

    /// The path `part` under this one; an absolute `part` replaces it.
    pub fn join(&self, part: &FilePath) -> (r: FilePath)
        ensures
            r@ == joined_path(self@, part@),
    {
        if part.is_absolute() {
            return part.copy();
        }
        let mut bytes: Vec<u8> = self.bytes.clone();
        if bytes.len() > 0 && bytes[bytes.len() - 1] != 47 {
            bytes.push(47);
        }
        let mut rest: Vec<u8> = part.bytes.clone();
        bytes.append(&mut rest);
        let r: FilePath = FilePath { bytes };
        proof {
            assert(r@ =~= joined_path(self@, part@));
        }
        r
    }

    /// The path that `name` spells, under this one.
    pub fn join_text(&self, name: &str) -> (r: FilePath)
        ensures
            r@ == joined_path(self@, vstd::utf8::encode_utf8(name@)),
    {
        self.join(&FilePath::from_text(name))
    }
}

/// A component `..` is found wherever it stands: at the start, in the middle or at the end of a path.
/// A path without two dots in a row has none.
pub proof fn law_parent_components_are_found(a: Seq<u8>, b: Seq<u8>, p: Seq<u8>)
    ensures
        has_parent_dir(seq![46u8, 46u8]),
        has_parent_dir(seq![46u8, 46u8, 47u8] + b),
        has_parent_dir(a + seq![47u8, 46u8, 46u8, 47u8] + b),
        has_parent_dir(a + seq![47u8, 46u8, 46u8]),
        (forall|i: int| 0 <= i && i + 1 < p.len() ==> !(#[trigger] p[i] == 46 && p[i + 1] == 46))
            ==> !has_parent_dir(p),
{
    let n = a.len() as int;
    assert(is_parent_dir_at(seq![46u8, 46u8], 0));
    assert(is_parent_dir_at(seq![46u8, 46u8, 47u8] + b, 0));
    assert(is_parent_dir_at(a + seq![47u8, 46u8, 46u8, 47u8] + b, n + 1));
    assert(is_parent_dir_at(a + seq![47u8, 46u8, 46u8], n + 1));
}

/// The root is a slash; a path that holds anything but slashes and dots is not the root, and neither
/// is one that is not absolute.
pub proof fn law_the_root_is_alone(p: Seq<u8>, at: int)
    ensures
        is_root(seq![47u8]),
        0 <= at < p.len() && p[at] != 47 && p[at] != 46 ==> !is_root(p),
        p.len() == 0 || p[0] != 47 ==> !is_root(p) && !is_absolute(p),
        p.len() > 0 && p[0] == 47 ==> is_absolute(p),
{
    if 0 <= at < p.len() && p[at] != 47 && p[at] != 46 {
        assert(!is_current_dir_at(p, at));
    }
}

/// A path is put under a directory with one slash between them, which is not doubled; an absolute
/// path stays as it is.
pub proof fn law_paths_are_joined(base: Seq<u8>, part: Seq<u8>)
    ensures
        part.len() > 0 && part[0] == 47 ==> joined_path(base, part) == part,
        (part.len() == 0 || part[0] != 47) && base.len() > 0 && base.last() != 47 ==> joined_path(
            base,
            part,
        ) == base + seq![47u8] + part,
        (part.len() == 0 || part[0] != 47) && (base.len() == 0 || base.last() == 47)
            ==> joined_path(base, part) == base + part,
{
}

} // verus!
