//! The server user's home directory, and paths that refer to it.

use vstd::prelude::*;

use crate::msg::ApiError;
use crate::text::{chars_of, text_of};

verus! {

/// A separator of either platform.
pub open spec fn separator(c: char) -> bool {
    c == '/' || c == '\\'
}

/// A shell's home reference: `~` alone, or `~` before a separator.
pub open spec fn is_home_ref(path: Seq<char>) -> bool {
    path.len() > 0 && path[0] == '~' && (path.len() == 1 || separator(path[1]))
}

/// `s` without the separators it ends with.
pub open spec fn bare(s: Seq<char>) -> Seq<char>
    decreases s.len(),
{
    if s.len() > 0 && separator(s.last()) {
        bare(s.drop_last())
    } else {
        s
    }
}

/// `s` without the separators it begins with.
pub open spec fn relative(s: Seq<char>) -> Seq<char>
    decreases s.len(),
{
    if s.len() > 0 && separator(s[0]) {
        relative(s.skip(1))
    } else {
        s
    }
}

/// `s` with every slash turned into a backslash.
pub open spec fn backslashed(s: Seq<char>) -> Seq<char> {
    s.map_values(|c: char| if c == '/' { '\\' } else { c })
}

/// A home reference rooted at `home`, in the home's own separator. A root as
/// the home keeps its one separator.
pub open spec fn joined(home: Seq<char>, path: Seq<char>) -> Seq<char> {
    let rest = path.skip(1);
    if bare(home).len() == 0 {
        home + relative(rest)
    } else if bare(home).contains('\\') {
        bare(home) + backslashed(rest)
    } else {
        bare(home) + rest
    }
}

/// A shell's home reference: `~` alone, or `~` before a separator. `~user` is
/// not one — here it is a folder called `~user`.
pub fn home_ref(path: &str) -> (r: bool)
    ensures
        r == is_home_ref(path@),
{
    let cs = chars_of(path);
    cs.len() > 0 && cs[0] == '~' && (cs.len() == 1 || cs[1] == '/' || cs[1] == '\\')
}

/// A home reference rooted at `home`, in the home's own separator — a Windows
/// server's `~/Music` becomes `C:\Users\me\Music`.
pub fn join_home(home: &str, path: &str) -> (out: String)
    requires
        path@.len() > 0,
        path@[0] as u32 <= 127,
    ensures
        out@ == joined(home@, path@),
{
    let h = chars_of(home);
    let p = chars_of(path);
    let mut n: usize = h.len();
    proof {
        assert(h@.take(n as int) =~= h@);
    }
    while n > 0 && (h[n - 1] == '/' || h[n - 1] == '\\')
        invariant
            n <= h@.len(),
            bare(h@.take(n as int)) == bare(h@),
        decreases n,
    {
        proof {
            assert(h@.take(n as int).drop_last() =~= h@.take(n - 1));
        }
        n -= 1;
    }
    let ghost trimmed = h@.take(n as int);
    proof {
        if n > 0 {
            assert(trimmed.last() == h@[n - 1]);
        }
        assert(trimmed == bare(h@));
    }
    if n == 0 {
        let mut from: usize = 1;
        while from < p.len() && (p[from] == '/' || p[from] == '\\')
            invariant
                1 <= from <= p@.len(),
                relative(p@.skip(from as int)) == relative(p@.skip(1)),
            decreases p@.len() - from,
        {
            proof {
                assert(p@.skip(from as int).skip(1) =~= p@.skip(from + 1));
                assert(p@.skip(from as int)[0] == p@[from as int]);
            }
            from += 1;
        }
        proof {
            if from < p@.len() {
                assert(p@.skip(from as int)[0] == p@[from as int]);
            }
            assert(p@.subrange(from as int, p@.len() as int) =~= relative(p@.skip(1)));
        }
        let mut out: String = home.to_owned();
        out.append(text_of(&p, from, p.len()).as_str());
        return out;
    }
    let mut windows = false;
    let mut i: usize = 0;
    while i < n
        invariant
            i <= n <= h@.len(),
            trimmed == h@.take(n as int),
            windows == exists|k: int| 0 <= k < i && trimmed[k] == '\\',
        decreases n - i,
    {
        proof {
            assert(trimmed[i as int] == h@[i as int]);
        }
        if h[i] == '\\' {
            windows = true;
        }
        i += 1;
    }
    let mut out: String = text_of(&h, 0, n);
    proof {
        assert(out@ =~= trimmed);
        assert(windows == trimmed.contains('\\'));
    }
    let ghost rest = p@.skip(1);
    let mut j: usize = 1;
    while j < p.len()
        invariant
            1 <= j <= p@.len(),
            rest == p@.skip(1),
            out@ == trimmed + (if windows { backslashed(rest).take(j - 1) } else { rest.take(j - 1) }),
        decreases p@.len() - j,
    {
        let c: char = if windows && p[j] == '/' { '\\' } else { p[j] };
        proof {
            assert(rest[j - 1] == p@[j as int]);
            assert(backslashed(rest).take(j as int) =~= backslashed(rest).take(j - 1).push(backslashed(rest)[j - 1]));
            assert(rest.take(j as int) =~= rest.take(j - 1).push(rest[j - 1]));
        }
        out.push(c);
        j += 1;
        proof {
            assert(out@ =~= trimmed + (if windows { backslashed(rest).take(j - 1) } else { rest.take(j - 1) }));
        }
    }
    proof {
        assert(rest.take(j - 1) =~= rest);
        assert(backslashed(rest).take(j - 1) =~= backslashed(rest));
    }
    out
}

/// The home the server's file explorer spells `~`, learned once.
pub struct ServerHome(pub Option<String>);

/// The error of a listing of `~` that names no path.
pub open spec fn nameless(e: ApiError) -> bool {
    e matches ApiError::Decode { endpoint, message } && endpoint@ == "api/v1/admin/file-explorer"@ && message@
        == "the listing of ~ names no path"@
}

impl ServerHome {
    pub fn new() -> (home: Self)
        ensures
            home.0 is None,
    {
        ServerHome(None)
    }

    /// `path` with a leading `~` — alone, or before a separator — replaced by
    /// the server's home; anything else comes back untouched. `None` asks for
    /// a listing of `~`: call again with the path that it named, or with its
    /// error. The home is kept: no path asks again once it is known.
    pub fn expand(&mut self, path: &str, listed: Option<Result<String, ApiError>>) -> (r: Option<Result<String, ApiError>>)
        ensures
            r is None <==> is_home_ref(path@) && old(self).0 is None && listed is None,
            r is None ==> *final(self) == *old(self),
            !is_home_ref(path@) ==> *final(self) == *old(self) && (r matches Some(Ok(p)) && p@ == path@),
            is_home_ref(path@) && old(self).0 is Some ==> *final(self) == *old(self) && (r matches Some(Ok(p)) && p@
                == joined(old(self).0->0@, path@)),
            is_home_ref(path@) && old(self).0 is None ==> match listed {
                None => r is None,
                Some(Err(e)) => *final(self) == *old(self) && r == Some(Err::<String, ApiError>(e)),
                Some(Ok(home)) => if home@.len() == 0 {
                    *final(self) == *old(self) && (r matches Some(Err(e)) && nameless(e))
                } else {
                    final(self).0 == Some(home) && (r matches Some(Ok(p)) && p@ == joined(home@, path@))
                },
            },
    {
        if !home_ref(path) {
            return Some(Ok(path.to_owned()));
        }
        if let Some(home) = &self.0 {
            return Some(Ok(join_home(home.as_str(), path)));
        }
        match listed {
            None => None,
            Some(Err(e)) => Some(Err(e)),
            Some(Ok(home)) => {
                if home.as_str().is_empty() {
                    return Some(
                        Err(
                            ApiError::Decode {
                                endpoint: "api/v1/admin/file-explorer".to_owned(),
                                message: "the listing of ~ names no path".to_owned(),
                            },
                        ),
                    );
                }
                let full = join_home(home.as_str(), path);
                self.0 = Some(home);
                Some(Ok(full))
            },
        }
    }
}

/// A path that names no home is never changed, and never asks.
pub proof fn plain_paths_stay(path: Seq<char>)
    requires
        path.len() == 0 || path[0] != '~',
    ensures
        !is_home_ref(path),
{
}

/// A home reference at a home with no trailing separator begins with the home.
pub proof fn rooted_at_home(home: Seq<char>, path: Seq<char>)
    requires
        is_home_ref(path),
        home.len() > 0,
        !separator(home.last()),
    ensures
        joined(home, path).take(home.len() as int) == home,
{
    assert(bare(home) == home);
    assert(joined(home, path).take(home.len() as int) =~= home);
}

/// What follows the tilde follows the home, in the home's own separators.
pub proof fn what_follows_follows_the_home(home: Seq<char>, path: Seq<char>)
    requires
        is_home_ref(path),
        home.len() > 0,
        !separator(home.last()),
    ensures
        !home.contains('\\') ==> joined(home, path) == home + path.skip(1),
        joined(home, path).len() == home.len() + path.len() - 1,
        home.contains('\\') ==> forall|i: int| home.len() <= i < joined(home, path).len() ==> #[trigger] joined(home, path)[i] != '/',
{
    assert(bare(home) == home);
}

} // verus!
