//! Syntactic validation of the path of the markdown file.
//!
//! A path is accepted when it holds no parent-directory token and its
//! extension is one of the markdown extensions. Nothing here touches the file
//! system.

use vstd::prelude::*;

verus! {

/// Why a raw path was turned down.
#[derive(Clone, Copy, Debug, PartialEq, Eq, Structural)]
pub enum PathError {
    /// The path holds the parent-directory token `..`.
    InvalidPath,
    /// The extension is neither `md` nor `markdown`.
    UnsupportedExtension,
}

/// Whether two dots stand side by side within the first `n` characters of
/// `path`.
pub open spec fn has_traversal_within(path: Seq<char>, n: int) -> bool {
    exists|i: int| 0 <= i && i + 1 < n && path[i] == '.' && #[trigger] path[i + 1] == '.'
}

/// Whether the token `..` occurs anywhere in `path`. This is a test on the
/// text alone: the path is not resolved, so an absolute path or a symbolic
/// link that leads elsewhere is not caught.
pub open spec fn has_traversal(path: Seq<char>) -> bool {
    has_traversal_within(path, path.len() as int)
}

/// The extension that the standard library finds in `path`, on the platform
/// the crate is built for.
pub uninterp spec fn path_extension(path: Seq<char>) -> Option<Seq<char>>;

/// The parent that the standard library finds for `path`, on the platform the
/// crate is built for.
pub uninterp spec fn path_parent(path: Seq<char>) -> Option<Seq<char>>;

/// The extensions of a markdown file, compared case-sensitively.
pub open spec fn allowed_extensions() -> Seq<Seq<char>> {
    seq!["md"@, "markdown"@]
}

/// Whether `extension` is present and is exactly one of the allowed ones.
pub open spec fn is_markdown_extension(extension: Option<Seq<char>>) -> bool {
    match extension {
        Some(e) => allowed_extensions().contains(e),
        None => false,
    }
}

/// The verdict on a path, given whether it holds `..` and what its extension
/// is. The traversal test comes first.
pub open spec fn classification(traversal: bool, extension: Option<Seq<char>>) -> Result<
    (),
    PathError,
> {
    if traversal {
        Err(PathError::InvalidPath)
    } else if !is_markdown_extension(extension) {
        Err(PathError::UnsupportedExtension)
    } else {
        Ok(())
    }
}

/// The directory to watch for changes to the file at `path`: its parent, or
/// the path itself where it has none.
pub open spec fn watch_directory(path: Seq<char>) -> Seq<char> {
    match path_parent(path) {
        Some(directory) => directory,
        None => path,
    }
}

/// What makes a path a validated one.
pub open spec fn is_valid_markdown_path(path: Seq<char>) -> bool {
    classification(has_traversal(path), path_extension(path)) is Ok
}

/// The view of an optional string slice.
pub open spec fn view_of(text: Option<&str>) -> Option<Seq<char>> {
    match text {
        Some(t) => Some(t@),
        None => None,
    }
}

/// Calls `std::path::Path::extension` on `path` and hands the extension back
/// as text. The contract only gives the result its name: which part of the
/// path counts as the extension is left to the standard library.
#[verifier::external_body]
fn extension_of(path: &str) -> (extension: Option<&str>)
    ensures
        view_of(extension) == path_extension(path@),
{
    std::path::Path::new(path).extension().and_then(|e| e.to_str())
}

/// Calls `std::path::Path::parent` on `path` and hands the parent back as
/// text. The contract only gives the result its name.
#[verifier::external_body]
fn parent_of(path: &str) -> (parent: Option<&str>)
    ensures
        view_of(parent) == path_parent(path@),
{
    std::path::Path::new(path).parent().and_then(|d| d.to_str())
}

/// The characters of `text`, in order.
fn chars_of(text: &str) -> (chars: Vec<char>)
    ensures
        chars@ == text@,
{
    let mut chars: Vec<char> = Vec::new();
    for c in it: text.chars()
        invariant
            it.seq() == text@,
            chars@ == text@.take(it.index() as int),
    {
        chars.push(c);
    }
    chars
}

/// Scans `path` once for the parent-directory token `..`.
pub fn contains_traversal(path: &str) -> (found: bool)
    ensures
        found == has_traversal(path@),
{
    let mut previous_dot = false;
    let mut found = false;
    for c in it: path.chars()
        invariant
            it.seq() == path@,
            previous_dot == (it.index() > 0 && path@[it.index() - 1] == '.'),
            found == has_traversal_within(path@, it.index() as int),
    {
        if c == '.' && previous_dot {
            proof {
                let i = it.index() - 1;
                assert(path@[i] == '.' && path@[i + 1] == '.');
            }
            found = true;
        }
        previous_dot = c == '.';
    }
    found
}

/// Whether two texts hold the same characters.
fn same_text(left: &str, right: &str) -> (same: bool)
    ensures
        same == (left@ == right@),
{
    let left_chars = chars_of(left);
    let right_chars = chars_of(right);
    if left_chars.len() != right_chars.len() {
        return false;
    }
    let mut i: usize = 0;
    while i < left_chars.len()
        invariant
            i <= left_chars.len(),
            left_chars.len() == right_chars.len(),
            left_chars@ == left@,
            right_chars@ == right@,
            forall|k: int| 0 <= k < i ==> left@[k] == right@[k],
        decreases left_chars.len() - i,
    {
        if left_chars[i] != right_chars[i] {
            return false;
        }
        i += 1;
    }
    assert(left@ =~= right@);
    true
}

/// The extensions of a markdown file, for a file dialog to offer.
pub fn markdown_extensions() -> (extensions: Vec<&'static str>)
    ensures
        extensions@.len() == allowed_extensions().len(),
        forall|i: int| 0 <= i < extensions@.len() ==> extensions@[i]@ == allowed_extensions()[i],
{
    let mut extensions: Vec<&'static str> = Vec::new();
    extensions.push("md");
    extensions.push("markdown");
    extensions
}

/// Whether `extension` is exactly `md` or `markdown`.
pub fn is_allowed_extension(extension: &str) -> (allowed: bool)
    ensures
        allowed == allowed_extensions().contains(extension@),
{
    let extensions = markdown_extensions();
    let mut i: usize = 0;
    while i < extensions.len()
        invariant
            i <= extensions.len(),
            extensions@.len() == allowed_extensions().len(),
            forall|k: int|
                0 <= k < extensions@.len() ==> extensions@[k]@ == allowed_extensions()[k],
            forall|k: int| 0 <= k < i ==> allowed_extensions()[k] != extension@,
        decreases extensions.len() - i,
    {
        if same_text(extensions[i], extension) {
            return true;
        }
        i += 1;
    }
    false
}

/// Decides on a path from the two facts that matter: whether it holds `..`,
/// and its extension.
pub fn classify(traversal: bool, extension: Option<&str>) -> (verdict: Result<(), PathError>)
    ensures
        verdict == classification(traversal, view_of(extension)),
{
    if traversal {
        return Err(PathError::InvalidPath);
    }
    match extension {
        Some(e) => {
            if is_allowed_extension(e) {
                Ok(())
            } else {
                Err(PathError::UnsupportedExtension)
            }
        },
        None => Err(PathError::UnsupportedExtension),
    }
}

/// A path that passed validation: it holds no `..` and its extension is `md`
/// or `markdown`. Only [`validate_md_path`] makes one.
#[derive(Debug, PartialEq, Eq)]
pub struct ValidatedPath {
    raw: String,
}

impl View for ValidatedPath {
    type V = Seq<char>;

    closed spec fn view(&self) -> Seq<char> {
        self.raw@
    }
}

impl Clone for ValidatedPath {
    fn clone(&self) -> (copy: Self)
        ensures
            copy@ == self@,
    {
        proof {
            use_type_invariant(self);
        }
        ValidatedPath { raw: self.raw.clone() }
    }
}

impl ValidatedPath {
    #[verifier::type_invariant]
    spec fn well_formed(self) -> bool {
        is_valid_markdown_path(self.raw@)
    }

    /// The path as text, unchanged from what was validated.
    pub fn as_str(&self) -> (text: &str)
        ensures
            text@ == self@,
            is_valid_markdown_path(self@),
    {
        proof {
            use_type_invariant(self);
        }
        self.raw.as_str()
    }

    /// The directory to watch for changes to this file. Editors often replace
    /// a file by writing a new one and renaming it, which a watch on the file
    /// itself can miss; a watch on the directory sees it.
    pub fn watch_directory(&self) -> (directory: String)
        ensures
            directory@ == watch_directory(self@),
    {
        let text = self.raw.as_str();
        match parent_of(text) {
            Some(parent) => parent.to_owned(),
            None => text.to_owned(),
        }
    }

    /// Gives the path up as an owned string.
    pub fn into_string(self) -> (text: String)
        ensures
            text@ == self@,
            is_valid_markdown_path(self@),
    {
        proof {
            use_type_invariant(&self);
        }
        self.raw
    }
}

/// Validates a raw path. A path that holds `..` anywhere is turned down as
/// [`PathError::InvalidPath`], whatever its extension; one whose extension is
/// not exactly `md` or `markdown` as [`PathError::UnsupportedExtension`]; any
/// other comes back unchanged, as a validated path.
pub fn validate_md_path(path: &str) -> (validated: Result<ValidatedPath, PathError>)
    ensures
        has_traversal(path@) ==> validated == Err::<ValidatedPath, PathError>(
            PathError::InvalidPath,
        ),
        !has_traversal(path@) && !is_markdown_extension(path_extension(path@)) ==> validated
            == Err::<ValidatedPath, PathError>(PathError::UnsupportedExtension),
        is_valid_markdown_path(path@) ==> validated is Ok && validated->Ok_0@ == path@,
{
    match classify(contains_traversal(path), extension_of(path)) {
        Ok(()) => Ok(ValidatedPath { raw: path.to_owned() }),
        Err(e) => Err(e),
    }
}

} // verus!
