//! Making a file path relative to the scan root.
//!
//! Paths are plain strings here: the scan root as the user gave it, and a
//! file path as the traversal yields it, which begins with that root.

use vstd::prelude::*;
use vstd::string::StrSliceExecFns;

verus! {

/// What it means for `rel` to be `path` made relative to `root`: the path
/// is the root, then possibly one separator, then `rel`.
pub open spec fn is_relative_to(root: Seq<char>, path: Seq<char>, rel: Seq<char>) -> bool {
    path == root + rel || path == root + "/"@ + rel
}

/// The relative form of `path` with respect to `root`: defined exactly when
/// `path` begins with `root`, and then `path` stripped of `root` and of one
/// following separator, if any.
pub open spec fn rel_spec(root: Seq<char>, path: Seq<char>) -> Option<Seq<char>> {
    if path.len() >= root.len() && path.subrange(0, root.len() as int) == root {
        let rest = path.skip(root.len() as int);
        if rest.len() > 0 && rest.first() == '/' {
            Some(rest.drop_first())
        } else {
            Some(rest)
        }
    } else {
        None
    }
}

/// The view of an optional string.
pub open spec fn opt_str_view(o: Option<String>) -> Option<Seq<char>> {
    match o {
        Some(s) => Some(s@),
        None => None,
    }
}

/// Strip the scan root (and one following separator) from a path.
/// Returns `None` when the path does not begin with the root.
pub fn relativize(root: &str, path: &str) -> (r: Option<String>)
    ensures
        opt_str_view(r) == rel_spec(root@, path@),
{
    let lr: usize = root.unicode_len();
    let lp: usize = path.unicode_len();
    if lp < lr {
        return None;
    }
    let mut i: usize = 0;
    while i < lr
        invariant
            i <= lr,
            lr == root@.len(),
            lp == path@.len(),
            lp >= lr,
            forall|j: int| 0 <= j < i ==> path@[j] == root@[j],
        decreases lr - i,
    {
        if path.get_char(i) != root.get_char(i) {
            proof {
                assert(path@.subrange(0, root@.len() as int)[i as int] != root@[i as int]);
            }
            return None;
        }
        i = i + 1;
    }
    proof {
        assert(path@.subrange(0, lr as int) =~= root@);
    }
    if lr < lp && path.get_char(lr) == '/' {
        let s = path.substring_char(lr + 1, lp);
        proof {
            assert(s@ =~= path@.skip(lr as int).drop_first());
        }
        Some(s.to_owned())
    } else {
        let s = path.substring_char(lr, lp);
        proof {
            assert(s@ =~= path@.skip(lr as int));
        }
        Some(s.to_owned())
    }
}

/// A path made relative never keeps the root as a prefix: the original path
/// is the root itself, followed by at most one separator, followed by the
/// reported remainder.
pub proof fn lemma_relativize_strips_root(root: Seq<char>, path: Seq<char>)
    requires
        rel_spec(root, path) is Some,
    ensures
        is_relative_to(root, path, rel_spec(root, path).unwrap()),
{
    let rest = path.skip(root.len() as int);
    assert(path =~= root + rest);
    if rest.len() > 0 && rest.first() == '/' {
        reveal_strlit("/");
        assert(path =~= root + "/"@ + rest.drop_first());
    }
}

} // verus!
