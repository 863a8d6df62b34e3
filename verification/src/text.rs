//! Paths and file names as sequences of characters.
//!
//! A path is held as text with `/` between its components. A file name has
//! an extension `ext` when it is a non-empty stem followed by a dot and `ext`;
//! the comparison is exact, character by character.

use vstd::prelude::*;

verus! {

/// `s` ends with `suffix`.
pub open spec fn ends_with(s: Seq<char>, suffix: Seq<char>) -> bool {
    suffix.len() <= s.len() && s.subrange(s.len() - suffix.len(), s.len() as int) == suffix
}

/// The file name made of `stem`, a dot and `ext`.
pub open spec fn file_name(stem: Seq<char>, ext: Seq<char>) -> Seq<char> {
    stem + seq!['.'] + ext
}

/// `name` is a non-empty stem followed by a dot and `ext`.
pub open spec fn has_extension(name: Seq<char>, ext: Seq<char>) -> bool {
    name.len() >= ext.len() + 2 && ends_with(name, seq!['.'] + ext)
}

/// What is left of `name` once the dot and `ext` are taken from its end.
pub open spec fn stem_of(name: Seq<char>, ext: Seq<char>) -> Seq<char> {
    name.subrange(0, name.len() - ext.len() - 1)
}

/// `file` placed under the directory `dir`.
pub open spec fn joined(dir: Seq<char>, file: Seq<char>) -> Seq<char> {
    if dir.len() == 0 || dir.last() == '/' {
        dir + file
    } else {
        dir + seq!['/'] + file
    }
}

/// A name with the extension is its stem, a dot and the extension again,
/// and the stem is not empty.
pub proof fn lemma_stem_rebuilds(name: Seq<char>, ext: Seq<char>)
    requires
        has_extension(name, ext),
    ensures
        stem_of(name, ext).len() > 0,
        name == file_name(stem_of(name, ext), ext),
{
    let dotted = seq!['.'] + ext;
    let cut = name.len() - dotted.len();
    assert(name.subrange(cut, name.len() as int) == dotted);
    assert forall|i: int| 0 <= i < name.len() implies name[i] == file_name(
        stem_of(name, ext),
        ext,
    )[i] by {
        if i >= cut {
            assert(name.subrange(cut, name.len() as int)[i - cut] == dotted[i - cut]);
        }
    }
    assert(name =~= file_name(stem_of(name, ext), ext));
}

/// A stem, a dot and the extension make a name with that extension, whose
/// stem is the one it was made of.
pub proof fn lemma_file_name_has_extension(stem: Seq<char>, ext: Seq<char>)
    requires
        stem.len() > 0,
    ensures
        has_extension(file_name(stem, ext), ext),
        stem_of(file_name(stem, ext), ext) == stem,
{
    let name = file_name(stem, ext);
    let dotted = seq!['.'] + ext;
    assert(name.subrange(name.len() - dotted.len(), name.len() as int) =~= dotted);
    assert(stem_of(name, ext) =~= stem);
}

/// Two names with the same extension and the same stem are one name.
pub proof fn lemma_stem_injective(a: Seq<char>, b: Seq<char>, ext: Seq<char>)
    requires
        has_extension(a, ext),
        has_extension(b, ext),
        stem_of(a, ext) == stem_of(b, ext),
    ensures
        a == b,
{
    lemma_stem_rebuilds(a, ext);
    lemma_stem_rebuilds(b, ext);
}

/// A file placed under a directory keeps its name at the end of the path,
/// so the path is no shorter than the name.
pub proof fn lemma_joined_ends_with_file(dir: Seq<char>, file: Seq<char>)
    ensures
        ends_with(joined(dir, file), file),
        joined(dir, file).len() >= file.len(),
{
    let p = joined(dir, file);
    assert(p.subrange(p.len() - file.len(), p.len() as int) =~= file);
}

/// Two files placed under one directory have the same path only if they
/// have the same name.
pub proof fn lemma_joined_injective(dir: Seq<char>, a: Seq<char>, b: Seq<char>)
    requires
        joined(dir, a) == joined(dir, b),
    ensures
        a == b,
{
    let prefix = if dir.len() == 0 || dir.last() == '/' {
        dir
    } else {
        dir + seq!['/']
    };
    let pa = joined(dir, a);
    let pb = joined(dir, b);
    assert(pa =~= prefix + a);
    assert(pb =~= prefix + b);
    assert(pa.subrange(prefix.len() as int, pa.len() as int) =~= a);
    assert(pb.subrange(prefix.len() as int, pb.len() as int) =~= b);
}

/// Whether `s` ends with `suffix`.
pub fn str_ends_with(s: &str, suffix: &str) -> (b: bool)
    ensures
        b == ends_with(s@, suffix@),
{
    let n: usize = s.unicode_len();
    let m: usize = suffix.unicode_len();
    if m > n {
        return false;
    }
    let tail = String::from_str(s.substring_char(n - m, n));
    let wanted = String::from_str(suffix);
    tail == wanted
}

/// Whether `name` is a non-empty stem followed by a dot and `ext`.
pub fn extension_matches(name: &str, ext: &str) -> (b: bool)
    ensures
        b == has_extension(name@, ext@),
{
    let n: usize = name.unicode_len();
    let m: usize = ext.unicode_len();
    if n <= m || n - m < 2 {
        return false;
    }
    let dot_at: usize = n - m - 1;
    let dot = name.get_char(dot_at);
    let tail_matches = str_ends_with(name, ext);
    proof {
        let dotted = seq!['.'] + ext@;
        let tail = name@.subrange(dot_at as int, n as int);
        if dot == '.' && tail_matches {
            assert(tail =~= dotted) by {
                assert forall|i: int| 0 <= i < tail.len() implies tail[i] == dotted[i] by {
                    if i > 0 {
                        assert(name@.subrange(n - m, n as int)[i - 1] == ext@[i - 1]);
                    }
                }
            }
        }
        if tail == dotted {
            assert(tail[0] == dotted[0]);
            assert(name@.subrange(n - m, n as int) =~= ext@) by {
                assert forall|i: int| 0 <= i < m implies name@.subrange(n - m, n as int)[i]
                    == ext@[i] by {
                    assert(tail[i + 1] == dotted[i + 1]);
                }
            }
        }
    }
    dot == '.' && tail_matches
}

/// The stem of `name` where it has the extension `ext`, and `None` where it
/// has not.
pub fn stem(name: &str, ext: &str) -> (s: Option<String>)
    ensures
        s is Some <==> has_extension(name@, ext@),
        s matches Some(stem) ==> stem@ == stem_of(name@, ext@) && stem@.len() > 0,
{
    if extension_matches(name, ext) {
        let n: usize = name.unicode_len();
        let m: usize = ext.unicode_len();
        Some(String::from_str(name.substring_char(0, n - m - 1)))
    } else {
        None
    }
}

/// The file name made of `stem`, a dot and `ext`.
pub fn with_extension(stem: &str, ext: &str) -> (name: String)
    ensures
        name@ == file_name(stem@, ext@),
{
    let mut name = String::from_str(stem);
    name.append(".");
    name.append(ext);
    proof {
        reveal_strlit(".");
        assert("."@ =~= seq!['.']);
    }
    name
}

/// The path of `file` under the directory `dir`.
pub fn join_path(dir: &str, file: &str) -> (path: String)
    ensures
        path@ == joined(dir@, file@),
{
    let n: usize = dir.unicode_len();
    let mut path = String::from_str(dir);
    if n > 0 && dir.get_char(n - 1) != '/' {
        path.append("/");
        proof {
            reveal_strlit("/");
            assert("/"@ =~= seq!['/']);
        }
    }
    path.append(file);
    path
}

} // verus!
