//! The development runner's rules: which paths are not watched, and how
//! the fingerprint of the watched files is accumulated.
use vstd::prelude::*;

use crate::text::{chars_of, ends_with, ends_with_chars, starts_with, starts_with_chars, same_chars};

verus! {

/// File names of editor and temporary files.
pub open spec fn temporary_name(name: Seq<char>) -> bool {
    ||| ends_with(name, "~"@)
    ||| ends_with(name, ".tmp"@)
    ||| ends_with(name, ".swp"@)
    ||| ends_with(name, ".swx"@)
    ||| starts_with(name, ".#"@)
}

pub fn is_temporary_file(name: &str) -> (r: bool)
    ensures
        r == temporary_name(name@),
{
    let n = chars_of(name);
    ends_with_chars(&n, &chars_of("~")) || ends_with_chars(&n, &chars_of(".tmp"))
        || ends_with_chars(&n, &chars_of(".swp")) || ends_with_chars(&n, &chars_of(".swx"))
        || starts_with_chars(&n, &chars_of(".#"))
}

/// Path components that are never watched: build output, version control,
/// caches, the program's data folder, and temporary files.
pub open spec fn ignored_component(c: Seq<char>) -> bool {
    ||| c == "target"@
    ||| c == ".git"@
    ||| c == ".cache"@
    ||| c == ".x360ce-data"@
    ||| temporary_name(c)
}

/// A path is ignored when any of its components is. Components that are
/// not valid Unicode (`None`) never match.
pub open spec fn ignored_path(components: Seq<Option<String>>) -> bool {
    exists|i: int| 0 <= i < components.len() && ignored_entry(#[trigger] components[i])
}

pub open spec fn ignored_entry(c: Option<String>) -> bool {
    match c {
        Some(t) => ignored_component(t@),
        None => false,
    }
}

fn is_ignored_component(c: &str) -> (r: bool)
    ensures
        r == ignored_component(c@),
{
    let n = chars_of(c);
    same_chars(&n, &chars_of("target")) || same_chars(&n, &chars_of(".git")) || same_chars(
        &n,
        &chars_of(".cache"),
    ) || same_chars(&n, &chars_of(".x360ce-data")) || is_temporary_file(c)
}

pub fn should_ignore(components: &Vec<Option<String>>) -> (r: bool)
    ensures
        r == ignored_path(components@),
{
    let mut i: usize = 0;
    while i < components.len()
        invariant
            i <= components@.len(),
            forall|j: int|
                0 <= j < i ==> !ignored_entry(#[trigger] components@[j]),
        decreases components.len() - i,
    {
        match &components[i] {
            Some(c) => {
                if is_ignored_component(c.as_str()) {
                    assert(ignored_entry(components@[i as int]));
                    return true;
                }
            },
            None => {},
        }
        i = i + 1;
    }
    false
}

/// A summary of the watched files: how many there are, their total size,
/// and the latest modification time (nanoseconds since the Unix epoch).
#[derive(Clone, Copy, Debug, Default, Eq, PartialEq, Structural)]
pub struct FileFingerprint {
    pub files: u64,
    pub modified_nanos: u128,
    pub bytes: u64,
}

impl FileFingerprint {
    /// Adds one file; the counters saturate.
    pub fn record_file(&mut self, len: u64, modified_nanos: u128)
        ensures
            final(self).files == (if old(self).files == u64::MAX {
                u64::MAX
            } else {
                (old(self).files + 1) as u64
            }),
            final(self).bytes == (if old(self).bytes + len > u64::MAX {
                u64::MAX
            } else {
                (old(self).bytes + len) as u64
            }),
            final(self).modified_nanos == (if modified_nanos > old(self).modified_nanos {
                modified_nanos
            } else {
                old(self).modified_nanos
            }),
    {
        self.files = self.files.saturating_add(1);
        self.bytes = self.bytes.saturating_add(len);
        if modified_nanos > self.modified_nanos {
            self.modified_nanos = modified_nanos;
        }
    }
}

} // verus!
