//! Prefix-based path relativization: turning an absolute path that lies
//! under a worktree root into the corresponding relative path. No `.`/`..`
//! normalization and no symlink resolution takes place.

use vstd::prelude::*;

verus! {

/// Whether a path string is absolute: it starts with the path separator.
pub open spec fn is_absolute_path(p: Seq<char>) -> bool {
    p.len() > 0 && p[0] == '/'
}

/// The sequence with all leading path separators removed.
pub open spec fn strip_leading_slashes(s: Seq<char>) -> Seq<char>
    decreases s.len(),
{
    if s.len() > 0 && s[0] == '/' {
        strip_leading_slashes(s.drop_first())
    } else {
        s
    }
}

/// `strip_leading_slashes` keeps exactly the part of the sequence from the
/// first non-separator character on.
pub proof fn lemma_strip_slashes_range(s: Seq<char>, a: int)
    requires
        0 <= a <= s.len(),
        forall|k: int| 0 <= k < a ==> s[k] == '/',
        a == s.len() || s[a] != '/',
    ensures
        strip_leading_slashes(s) == s.subrange(a, s.len() as int),
    decreases a,
{
    if a == 0 {
        assert(s =~= s.subrange(0, s.len() as int));
    } else {
        let t = s.drop_first();
        lemma_strip_slashes_range(t, a - 1);
        assert(t.subrange(a - 1, t.len() as int) =~= s.subrange(a, s.len() as int));
    }
}

/// What `strip_leading_slashes` leaves never starts with a separator.
pub proof fn lemma_strip_slashes_relative(s: Seq<char>)
    ensures
        !is_absolute_path(strip_leading_slashes(s)),
    decreases s.len(),
{
    if s.len() > 0 && s[0] == '/' {
        lemma_strip_slashes_relative(s.drop_first());
    }
}

/// Whether the worktree root matches a textual prefix of the path and the
/// match ends at a path-component boundary: the whole path is the root, the
/// next character is a separator, or the root itself ends in one. An empty
/// root matches nothing. A match that ends inside a component (root `/a`
/// against path `/ab`) does not count: that path lies beside the root, not
/// under it.
pub open spec fn root_prefix_at_boundary(p: Seq<char>, root: Seq<char>) -> bool {
    root.len() > 0 && root.is_prefix_of(p) && (p.len() == root.len() || p[root.len() as int] == '/'
        || root[root.len() - 1] == '/')
}

/// The relativized form of path `p` against worktree root `root`:
/// a relative path is kept as it is; an absolute path whose leading
/// components are `root` loses that prefix and the separators that follow
/// it; any other absolute path is kept as it is.
pub open spec fn relativize_spec(p: Seq<char>, root: Seq<char>) -> Seq<char> {
    if !is_absolute_path(p) {
        p
    } else if root_prefix_at_boundary(p, root) {
        strip_leading_slashes(p.skip(root.len() as int))
    } else {
        p
    }
}

/// Relativizing an already-relative path returns it unchanged.
pub proof fn lemma_relativize_relative_unchanged(p: Seq<char>, root: Seq<char>)
    requires
        !is_absolute_path(p),
    ensures
        relativize_spec(p, root) == p,
{
}

/// Relativizing a path that does not lie under the root — the root is no
/// textual prefix of it, or the match ends inside a component — returns it
/// unchanged.
pub proof fn lemma_relativize_not_under_root(p: Seq<char>, root: Seq<char>)
    requires
        !(is_absolute_path(p) && root_prefix_at_boundary(p, root)),
    ensures
        relativize_spec(p, root) == p,
{
}

/// Relativizing is idempotent: a second pass over an already-relativized
/// path changes nothing.
pub proof fn lemma_relativize_idempotent(p: Seq<char>, root: Seq<char>)
    ensures
        relativize_spec(relativize_spec(p, root), root) == relativize_spec(p, root),
{
    if is_absolute_path(p) && root_prefix_at_boundary(p, root) {
        lemma_strip_slashes_relative(p.skip(root.len() as int));
    }
}

/// Runtime relativization for [`relativize_spec`], built from the prefix
/// test and character scans alone.
pub fn relativize_path(path: &str, worktree_path: &str) -> (r: String)
    ensures
        r@ == relativize_spec(path@, worktree_path@),
{
    let n = path.unicode_len();
    if n == 0 {
        return path.to_owned();
    }
    if path.get_char(0) != '/' {
        return path.to_owned();
    }
    if crate::text::starts_with_str(path, worktree_path) {
        let rl = worktree_path.unicode_len();
        if rl == 0 {
            return path.to_owned();
        }
        let at_boundary = if n == rl {
            true
        } else if path.get_char(rl) == '/' {
            true
        } else {
            worktree_path.get_char(rl - 1) == '/'
        };
        if !at_boundary {
            return path.to_owned();
        }
        let rest = path.substring_char(rl, n);
        proof {
            assert(rest@ =~= path@.skip(rl as int));
        }
        let rn = rest.unicode_len();
        let mut a: usize = 0;
        while a < rn && rest.get_char(a) == '/'
            invariant
                a <= rn,
                rn == rest@.len(),
                forall|k: int| 0 <= k < a ==> rest@[k] == '/',
            decreases rn - a,
        {
            a = a + 1;
        }
        proof {
            lemma_strip_slashes_range(rest@, a as int);
        }
        let stripped = rest.substring_char(a, rn);
        stripped.to_owned()
    } else {
        path.to_owned()
    }
}

} // verus!
