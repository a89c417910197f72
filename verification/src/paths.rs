use vstd::prelude::*;

verus! {

/// A path separator: the forward slash everywhere, and additionally the
/// backslash in Windows-style paths.
pub open spec fn spec_is_separator(c: char) -> bool {
    c == '/' || c == '\\'
}

/// A letter that can name a drive in a Windows-style drive prefix.
pub open spec fn spec_is_drive_letter(c: char) -> bool {
    ('A' <= c && c <= 'Z') || ('a' <= c && c <= 'z')
}

/// A path is absolute when it begins with the root separator, with a
/// drive prefix such as `C:\` or `C:/`, or with a UNC prefix `\\` — the
/// absolute forms of the supported platforms.
pub open spec fn spec_is_absolute(p: Seq<char>) -> bool {
    ||| p.len() > 0 && p[0] == '/'
    ||| p.len() >= 3 && spec_is_drive_letter(p[0]) && p[1] == ':' && spec_is_separator(p[2])
    ||| p.len() >= 2 && p[0] == '\\' && p[1] == '\\'
}

/// What joining `rel` onto the directory `dir` yields: the two parts
/// separated by exactly one separator, none added when `dir` already ends
/// in one. An empty directory leaves `rel` as it is.
pub open spec fn spec_join(dir: Seq<char>, rel: Seq<char>) -> Seq<char> {
    if dir.len() == 0 {
        rel
    } else if spec_is_separator(dir[dir.len() - 1]) {
        dir + rel
    } else {
        dir + "/"@ + rel
    }
}

/// Resolving a path against a directory: an absolute path passes through
/// unchanged, a relative one is joined onto the directory.
pub open spec fn spec_resolve(dir: Seq<char>, p: Seq<char>) -> Seq<char> {
    if spec_is_absolute(p) {
        p
    } else {
        spec_join(dir, p)
    }
}

/// True when `p` names an absolute path.
pub fn is_absolute_path(p: &str) -> (r: bool)
    ensures
        r == spec_is_absolute(p@),
{
    let n = p.unicode_len();
    if n > 0 && p.get_char(0) == '/' {
        return true;
    }
    if n >= 3 {
        let c0 = p.get_char(0);
        if (('A' <= c0 && c0 <= 'Z') || ('a' <= c0 && c0 <= 'z')) && p.get_char(1) == ':' {
            let c2 = p.get_char(2);
            if c2 == '/' || c2 == '\\' {
                return true;
            }
        }
    }
    n >= 2 && p.get_char(0) == '\\' && p.get_char(1) == '\\'
}

/// Join `rel` onto `dir` with exactly one separator between them.
pub fn join_path(dir: &str, rel: &str) -> (r: String)
    ensures
        r@ == spec_join(dir@, rel@),
{
    let n = dir.unicode_len();
    if n == 0 {
        String::from_str(rel)
    } else {
        let last = dir.get_char(n - 1);
        if last == '/' || last == '\\' {
            String::from_str(dir).concat(rel)
        } else {
            let r = String::from_str(dir).concat("/").concat(rel);
            proof {
                assert(r@ =~= spec_join(dir@, rel@));
            }
            r
        }
    }
}

/// Resolve `p` against the directory `dir`: absolute paths pass through
/// unchanged, relative ones are joined onto `dir`.
pub fn resolve_path(dir: &str, p: &str) -> (r: String)
    ensures
        r@ == spec_resolve(dir@, p@),
{
    if is_absolute_path(p) {
        String::from_str(p)
    } else {
        join_path(dir, p)
    }
}

/// Law: resolving a relative path against a directory yields a path that
/// begins with that directory.
pub proof fn lemma_resolve_relative_prefixed(dir: Seq<char>, p: Seq<char>)
    requires
        !spec_is_absolute(p),
    ensures
        spec_resolve(dir, p).len() >= dir.len(),
        spec_resolve(dir, p).subrange(0, dir.len() as int) == dir,
{
    assert(spec_resolve(dir, p).subrange(0, dir.len() as int) =~= dir);
}

/// Law: resolving an absolute path returns it unchanged, whatever the
/// directory.
pub proof fn lemma_resolve_absolute_unchanged(dir: Seq<char>, p: Seq<char>)
    requires
        spec_is_absolute(p),
    ensures
        spec_resolve(dir, p) == p,
{
}

/// Law: a path resolved against an absolute directory is itself absolute.
pub proof fn lemma_resolve_yields_absolute(dir: Seq<char>, p: Seq<char>)
    requires
        spec_is_absolute(dir),
    ensures
        spec_is_absolute(spec_resolve(dir, p)),
{
    if !spec_is_absolute(p) {
        lemma_resolve_relative_prefixed(dir, p);
        let r = spec_resolve(dir, p);
        assert forall|i: int| 0 <= i < dir.len() implies r[i] == dir[i] by {
            assert(dir[i] == r.subrange(0, dir.len() as int)[i]);
        }
    }
}

} // verus!
