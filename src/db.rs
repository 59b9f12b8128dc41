use vstd::prelude::*;

use crate::text::{split_on, split_spec};

verus! {

/// Where a database lives: its name, and the URL of the server's default
/// database, from which it can be created.
#[derive(Clone, Debug, PartialEq)]
pub struct DatabaseTarget {
    pub name: String,
    pub server_url: String,
}

/// `k` is the index of the last `c` in `s`.
pub open spec fn is_last_index(s: Seq<char>, c: char, k: int) -> bool {
    &&& 0 <= k < s.len()
    &&& s[k] == c
    &&& forall|j: int| k < j < s.len() ==> s[j] != c
}

/// The target that a database URL names: the text after its last `/`, up to
/// the first `?`, is the database's name; the text before it, followed by
/// `/postgres`, is the server's URL.
pub open spec fn target_of(url: Seq<char>, k: int) -> (Seq<char>, Seq<char>) {
    (split_spec(url.subrange(k + 1, url.len() as int), '?')[0], url.subrange(0, k) + "/postgres"@)
}

impl DatabaseTarget {
    /// The target that a database URL names; none where the URL holds no `/`.
    pub fn from_url(url: &str) -> (r: Option<DatabaseTarget>)
        ensures
            match r {
                Some(t) => exists|k: int|
                    is_last_index(url@, '/', k) && (t.name@, t.server_url@) == target_of(url@, k),
                None => forall|j: int| 0 <= j < url@.len() ==> url@[j] != '/',
            },
    {
        let n = url.unicode_len();
        let mut i: usize = n;
        while i > 0
            invariant
                n == url@.len(),
                i <= n,
                forall|j: int| i <= j < n ==> url@[j] != '/',
            decreases i,
        {
            if url.get_char(i - 1) == '/' {
                let k = i - 1;
                let rest = url.substring_char(k + 1, n);
                let parts = split_on(rest, '?');
                proof {
                    crate::text::lemma_split_nonempty(rest@, '?');
                    assert(parts@.map_values(|p: String| p@)[0] == parts@[0]@);
                }
                let name = parts[0].clone();
                let base = url.substring_char(0, k);
                let server_url = base.to_string().concat("/postgres");
                let t = DatabaseTarget { name, server_url };
                assert(is_last_index(url@, '/', k as int));
                assert((t.name@, t.server_url@) == target_of(url@, k as int));
                return Some(t);
            }
            i = i - 1;
        }
        None
    }

    /// The statement that creates the database.
    pub fn create_statement(&self) -> (r: String)
        ensures
            r@ == "CREATE DATABASE "@ + self.name@,
    {
        "CREATE DATABASE ".to_string().concat(self.name.as_str())
    }
}

} // verus!
