//! Names of entries, relative to the root of a storage.

use crate::error::RSyncError;
use crate::error::RSyncResult;
use vstd::prelude::*;

verus! {

/// `text` without the slashes it starts with.
pub open spec fn without_leading_slashes(text: Seq<char>) -> Seq<char>
    decreases text.len(),
{
    if text.len() > 0 && text[0] == '/' {
        without_leading_slashes(text.skip(1))
    } else {
        text
    }
}

/// A name is not empty and does not start with a slash.
pub open spec fn is_name(text: Seq<char>) -> bool {
    text.len() > 0 && text[0] != '/'
}

/// The name of an entry, relative to the root of the storage that holds it.
#[derive(Eq, PartialOrd, Ord)]
pub struct RelativePath {
    path: String,
}

impl View for RelativePath {
    type V = Seq<char>;

    closed spec fn view(&self) -> Seq<char> {
        self.path@
    }
}

impl RelativePath {
    /// Invariant: a name should not start with a slash, and is never empty.
    #[verifier::type_invariant]
    pub open spec fn well_formed(self) -> bool {
        is_name(self@)
    }

    /// The name that `path` denotes, once the slashes it starts with are gone.
    pub fn new(path: &str) -> (res: RSyncResult<Self>)
        ensures
            match res {
                Ok(name) => name@ == without_leading_slashes(path@) && is_name(name@),
                Err(e) => e == RSyncError::EmptyRelativePathError && without_leading_slashes(
                    path@,
                ).len() == 0,
            },
            match res {
                Ok(name) => {
                    &&& 0 < name@.len() <= path@.len()
                    &&& name@[0] != '/'
                    &&& name@ == path@.skip(path@.len() - name@.len())
                    &&& forall|i: int|
                        0 <= i < path@.len() - name@.len() ==> (#[trigger] path@[i]) == '/'
                },
                Err(e) => forall|i: int| 0 <= i < path@.len() ==> (#[trigger] path@[i]) == '/',
            },
    {
        let len: usize = path.unicode_len();
        let mut start: usize = 0;
        assert(path@.skip(0) =~= path@);
        while start < len && path.get_char(start) == '/'
            invariant
                start <= len,
                len == path@.len(),
                forall|i: int| 0 <= i < start ==> (#[trigger] path@[i]) == '/',
                without_leading_slashes(path@.skip(start as int)) == without_leading_slashes(path@),
            decreases len - start,
        {
            assert(path@.skip(start as int).skip(1) =~= path@.skip(start + 1));
            start = start + 1;
        }
        assert(path@.skip(start as int) =~= path@.subrange(start as int, len as int));
        if start == len {
            Err(RSyncError::EmptyRelativePathError)
        } else {
            Ok(RelativePath { path: path.substring_char(start, len).to_owned() })
        }
    }

    /// The text of the name.
    pub fn path(&self) -> (res: &str)
        ensures
            res@ == self@,
            is_name(res@),
            res@.len() > 0 && res@[0] != '/',
    {
        proof {
            use_type_invariant(self);
        }
        self.path.as_str()
    }
}

impl std::fmt::Debug for RelativePath {
    /// Prints the bare text of the name.
    fn fmt(&self, f: &mut std::fmt::Formatter<'_>) -> (res: std::fmt::Result)
        ensures
            res is Ok ==> crate::text::formatted(*final(f)) == crate::text::formatted(*old(f))
                + self@,
    {
        f.write_str(self.path.as_str())
    }
}

impl Clone for RelativePath {
    fn clone(&self) -> (res: Self)
        ensures
            res == *self,
    {
        proof {
            use_type_invariant(self);
        }
        RelativePath { path: self.path.clone() }
    }
}

impl PartialEq for RelativePath {
    fn eq(&self, other: &Self) -> (res: bool) {
        self.path == other.path
    }
}

impl vstd::std_specs::cmp::PartialEqSpecImpl for RelativePath {
    open spec fn obeys_eq_spec() -> bool {
        true
    }

    open spec fn eq_spec(&self, other: &Self) -> bool {
        self@ == other@
    }
}

} // verus!
