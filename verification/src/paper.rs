//! The data model: one extracted text source, and one completed unit of work.
use vstd::prelude::*;
use vstd::string::StrSliceExecFns;

verus! {

/// One extracted source file: a single top-level path segment ending in the
/// target extension, and its raw content.
#[derive(Debug, Clone)]
pub struct TexFile {
    pub name: String,
    pub content: Vec<u8>,
}

impl View for TexFile {
    type V = (Seq<char>, Seq<u8>);

    open spec fn view(&self) -> (Seq<char>, Seq<u8>) {
        (self.name@, self.content@)
    }
}

impl DeepView for TexFile {
    type V = (Seq<char>, Seq<u8>);

    open spec fn deep_view(&self) -> (Seq<char>, Seq<u8>) {
        self@
    }
}

/// One completed unit of work: the identifier of the remote archive and the
/// qualifying files extracted from it, in container order.
#[derive(Debug, Clone)]
pub struct Paper {
    pub id: String,
    pub files: Vec<TexFile>,
}

impl Paper {
    /// A well-formed unit holds at least one file, and every file name is a
    /// qualifying name: an empty unit is a failure, never a success.
    pub open spec fn wf(&self) -> bool {
        &&& self.files@.len() > 0
        &&& forall|i: int| 0 <= i < self.files@.len() ==> tex_name(self.files@[i]@.0)
    }
}

/// A qualifying entry name: at least the four characters of the extension,
/// ending in `.tex`, with no path separator anywhere — only top-level entries
/// qualify, which rules out path traversal during persistence.
pub open spec fn tex_name(name: Seq<char>) -> bool {
    &&& name.len() >= 4
    &&& name[name.len() - 4] == '.'
    &&& name[name.len() - 3] == 't'
    &&& name[name.len() - 2] == 'e'
    &&& name[name.len() - 1] == 'x'
    &&& forall|i: int| 0 <= i < name.len() ==> name[i] != '/'
}

/// Decides whether an entry name qualifies for extraction.
pub fn name_qualifies(name: &str) -> (r: bool)
    ensures
        r == tex_name(name@),
{
    let n = name.unicode_len();
    if n < 4 {
        return false;
    }
    if name.get_char(n - 4) != '.' || name.get_char(n - 3) != 't' || name.get_char(n - 2) != 'e'
        || name.get_char(n - 1) != 'x' {
        return false;
    }
    let mut i: usize = 0;
    while i < n
        invariant
            i <= n,
            n == name@.len(),
            forall|j: int| 0 <= j < i ==> name@[j] != '/',
        decreases n - i,
    {
        if name.get_char(i) == '/' {
            return false;
        }
        i += 1;
    }
    true
}

} // verus!
