//! Where GitHub issues go.
use crate::text::owned;
use vstd::prelude::*;
use vstd::string::*;

verus! {

/// Index of the first `/` of `s` at or after `i`, or `s.len()`.
pub open spec fn first_slash(s: Seq<char>, i: int) -> int
    decreases s.len() - i,
{
    if i < 0 || i >= s.len() {
        s.len() as int
    } else if s[i] == '/' {
        i
    } else {
        first_slash(s, i + 1)
    }
}

/// Whether `s` holds a `/`.
pub open spec fn has_slash(s: Seq<char>) -> bool {
    exists|i: int| 0 <= i < s.len() && s[i] == '/'
}

proof fn lemma_first_slash(s: Seq<char>, i: int)
    requires
        0 <= i <= s.len(),
    ensures
        i <= first_slash(s, i) <= s.len(),
        first_slash(s, i) < s.len() ==> s[first_slash(s, i)] == '/',
        forall|k: int| i <= k < first_slash(s, i) ==> s[k] != '/',
    decreases s.len() - i,
{
    if i < s.len() && s[i] != '/' {
        lemma_first_slash(s, i + 1);
    }
}

/// Splits a repository path `owner/name` at its first `/`.
pub fn split_repository(repository: &str) -> (r: (String, String))
    requires
        has_slash(repository@),
    ensures
        ({
            let i = first_slash(repository@, 0);
            r.0@ == repository@.take(i) && r.1@ == repository@.skip(i + 1)
        }),
{
    proof {
        lemma_first_slash(repository@, 0);
        let k = choose|k: int| 0 <= k < repository@.len() && repository@[k] == '/';
    }
    let n = repository.unicode_len();
    let mut i: usize = 0;
    while i < n && repository.get_char(i) != '/'
        invariant
            n == repository@.len(),
            i <= n,
            first_slash(repository@, i as int) == first_slash(repository@, 0),
        decreases n - i,
    {
        i = i + 1;
    }
    proof {
        if i == n {
            lemma_first_slash(repository@, 0);
            let k = choose|k: int| 0 <= k < repository@.len() && repository@[k] == '/';
            assert(false);
        }
    }
    let owner = owned(repository.substring_char(0, i));
    let name = owned(repository.substring_char(i + 1, n));
    proof {
        assert(repository@.subrange(0, i as int) =~= repository@.take(i as int));
        assert(repository@.subrange(i + 1, n as int) =~= repository@.skip(i + 1));
    }
    (owner, name)
}

} // verus!
