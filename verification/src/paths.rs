//! Path joining with the semantics of `PathBuf::push` on Unix, over strings.

use vstd::prelude::*;
use crate::text::{concat2, concat3, owned};

verus! {

/// `PathBuf::from(base).join(rel)` on Unix: an absolute `rel` replaces the
/// base; otherwise a `/` separates the two unless the base is empty or
/// already ends with one.
pub open spec fn spec_join(base: Seq<char>, rel: Seq<char>) -> Seq<char> {
    if rel.len() > 0 && rel[0] == '/' {
        rel
    } else if base.len() == 0 {
        rel
    } else if base.last() == '/' {
        base + rel
    } else {
        base + "/"@ + rel
    }
}

pub fn join(base: &str, rel: &str) -> (r: String)
    ensures
        r@ == spec_join(base@, rel@),
{
    let n = base.unicode_len();
    let m = rel.unicode_len();
    if m > 0 && rel.get_char(0) == '/' {
        owned(rel)
    } else if n == 0 {
        owned(rel)
    } else if base.get_char(n - 1) == '/' {
        concat2(base, rel)
    } else {
        concat3(base, "/", rel)
    }
}

/// `$HOME/<rel>` when the home directory is known, `fallback` otherwise.
pub open spec fn spec_home_path(home: Option<Seq<char>>, rel: Seq<char>, fallback: Seq<char>) -> Seq<char> {
    match home {
        Some(h) => spec_join(h, rel),
        None => fallback,
    }
}

pub fn home_path(home: Option<&str>, rel: &str, fallback: &str) -> (r: String)
    ensures
        r@ == spec_home_path(crate::seccomp::opt_str_view(home), rel@, fallback@),
{
    match home {
        Some(h) => join(h, rel),
        None => owned(fallback),
    }
}

} // verus!
