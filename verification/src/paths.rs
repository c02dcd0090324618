//! Paths as text: joining a directory with a file name, and the final
//! component of a path.

use vstd::prelude::*;
use vstd::string::StringExecFns;

verus! {

/// Whether `name` is a single plain path component: non-empty, free of
/// separators, and free of `:` (so that Windows cannot read a drive in it).
pub open spec fn plain_component(name: Seq<char>) -> bool {
    &&& name.len() > 0
    &&& !name.contains('/')
    &&& !name.contains('\\')
    &&& !name.contains(':')
}

/// The two ways platforms write paths: with `/` only, or (Windows) with `\`
/// as the main separator and `/` accepted too.
#[derive(Debug, PartialEq, Eq, Structural, Clone, Copy)]
pub enum PathStyle {
    Unix,
    Windows,
}

/// `base` with the component `name` adjoined, as `Path::join` does outside
/// Windows: a `/` goes between them unless `base` is empty or already ends
/// with one.
pub open spec fn joined(base: Seq<char>, name: Seq<char>) -> Seq<char> {
    if base.len() == 0 {
        name
    } else if base.last() == '/' {
        base + name
    } else {
        base + seq!['/'] + name
    }
}

/// Whether `s` is a bare Windows drive such as `C:`.
pub open spec fn bare_drive(s: Seq<char>) -> bool {
    &&& s.len() == 2
    &&& s[1] == ':'
    &&& ('a' <= s[0] <= 'z' || 'A' <= s[0] <= 'Z')
}

/// `base` with the component `name` adjoined, as `Path::join` does on
/// Windows: a `\` goes between them unless `base` is empty, already ends with
/// `\` or `/`, or is a bare drive such as `C:`.
pub open spec fn windows_joined(base: Seq<char>, name: Seq<char>) -> Seq<char> {
    if base.len() == 0 || base.last() == '/' || base.last() == '\\' || bare_drive(base) {
        base + name
    } else {
        base + seq!['\\'] + name
    }
}

/// `base` with the component `name` adjoined in the given style.
pub open spec fn joined_in(style: PathStyle, base: Seq<char>, name: Seq<char>) -> Seq<char> {
    match style {
        PathStyle::Unix => joined(base, name),
        PathStyle::Windows => windows_joined(base, name),
    }
}

/// Adjoins the component `name` to the directory `base` in the given style,
/// as `Path::join` does there for a relative single-component name.
pub fn join_path(style: PathStyle, base: &str, name: &str) -> (r: String)
    requires
        plain_component(name@),
    ensures
        r@ == joined_in(style, base@, name@),
{
    let n = base.unicode_len();
    if n == 0 {
        return String::from_str(name);
    }
    let last = base.get_char(n - 1);
    let mut r = String::from_str(base);
    let needs_separator = match style {
        PathStyle::Unix => last != '/',
        PathStyle::Windows => {
            let drive = n == 2 && base.get_char(1) == ':' && {
                let d = base.get_char(0);
                ('a' <= d && d <= 'z') || ('A' <= d && d <= 'Z')
            };
            !(last == '/' || last == '\\' || drive)
        },
    };
    if needs_separator {
        match style {
            PathStyle::Unix => {
                r.append("/");
                proof {
                    reveal_strlit("/");
                }
            },
            PathStyle::Windows => {
                r.append("\\");
                proof {
                    reveal_strlit("\\");
                }
            },
        }
    }
    r.append(name);
    r
}

/// Where the text after the last `/` of `s` begins (0 when there is none).
pub open spec fn after_last_slash(s: Seq<char>) -> int
    decreases s.len(),
{
    if s.len() == 0 {
        0
    } else if s.last() == '/' {
        s.len() as int
    } else {
        after_last_slash(s.drop_last())
    }
}

/// The text after the last `/` of `s`.
pub open spec fn last_name(s: Seq<char>) -> Seq<char> {
    s.skip(after_last_slash(s))
}

/// `s` without its trailing separators and trailing `.` components, which
/// path parsing normalizes away.
pub open spec fn strip_path_tail(s: Seq<char>) -> Seq<char>
    decreases s.len(),
{
    if s.len() > 0 && s.last() == '/' {
        strip_path_tail(s.drop_last())
    } else if s.len() == 1 && s[0] == '.' {
        Seq::empty()
    } else if s.len() >= 2 && s.last() == '.' && s[s.len() - 2] == '/' {
        strip_path_tail(s.drop_last())
    } else {
        s
    }
}

/// The final component of a `/`-separated path, when it is a name: `None` for
/// a path with no components (empty, `/`, `.`) or one that ends in `..`.
pub open spec fn file_name_of(s: Seq<char>) -> Option<Seq<char>> {
    let n = last_name(strip_path_tail(s));
    if n.len() == 0 || (n.len() == 2 && n[0] == '.' && n[1] == '.') {
        None
    } else {
        Some(n)
    }
}

/// A path that every platform reads the same way: no `\`, no `:` and no
/// leading `//`, so nothing in it can be a Windows drive, UNC or verbatim
/// prefix.
pub open spec fn unprefixed(s: Seq<char>) -> bool {
    &&& !s.contains('\\')
    &&& !s.contains(':')
    &&& !(s.len() >= 2 && s[0] == '/' && s[1] == '/')
}

/// Whether `s` starts with a Windows drive such as `C:`.
pub open spec fn starts_with_drive(s: Seq<char>) -> bool {
    &&& s.len() >= 2
    &&& s[1] == ':'
    &&& ('a' <= s[0] <= 'z' || 'A' <= s[0] <= 'Z')
}

/// A path whose final name every platform reads the same way: no `\`, no
/// leading `//` (which Windows reads as a UNC or device prefix), and, when it
/// starts with a drive such as `C:`, a final name that comes after a `/`
/// (`C:/projects/app`), so that the drive is never part of it.
pub open spec fn portable_path(s: Seq<char>) -> bool {
    &&& !s.contains('\\')
    &&& !(s.len() >= 2 && s[0] == '/' && s[1] == '/')
    &&& starts_with_drive(s) ==> after_last_slash(strip_path_tail(s)) > 0
}

/// Calls `Path::file_name` on `path`. As its documentation says, the result is
/// the final component of the path when it is a name, with repeated and
/// trailing separators and `.` components normalized away, and `None` when the
/// path ends in `..` or has no component (`/usr/bin/` gives `bin`, `foo.txt/.`
/// gives `foo.txt`, `foo.txt/..` and `/` give none). For a `portable_path`
/// that is `file_name_of(path)`, on Windows as elsewhere: a drive is a prefix
/// there and a first component elsewhere, and in such a path the final name
/// lies after it. For any path, a name returned is a non-empty
/// piece of `path`; how Windows prefixes are read (a verbatim `\\?\` path,
/// for one, takes only `\` as a separator) is left unsaid.
#[verifier::external_body]
pub(crate) fn final_component(path: &str) -> (r: Option<String>)
    ensures
        portable_path(path@) && file_name_of(path@) is Some ==> r is Some && r->0@ == file_name_of(path@)->0,
        portable_path(path@) && file_name_of(path@) is None ==> r is None,
        r matches Some(n) ==> {
            &&& n@.len() > 0
            &&& exists|i: int| 0 <= i && i + n@.len() <= path@.len()
                && #[trigger] path@.subrange(i, i + n@.len()) == n@
        },
{
    match std::path::Path::new(path).file_name() {
        Some(n) => Some(n.to_string_lossy().into_owned()),
        None => None,
    }
}

} // verus!

verus! {

/// Adjoining a component keeps the directory as a prefix and puts the
/// component at the very end, separated by exactly one `/` unless the directory
/// is empty.
pub proof fn lemma_joined_shape(base: Seq<char>, name: Seq<char>)
    ensures
        joined(base, name).len() >= base.len() + name.len(),
        joined(base, name).take(base.len() as int) == base,
        joined(base, name).skip(joined(base, name).len() - name.len()) == name,
        base.len() > 0 ==> joined(base, name)[joined(base, name).len() - name.len() - 1] == '/',
{
    let j = joined(base, name);
    if base.len() == 0 {
        assert(j.take(0) =~= base);
        assert(j.skip(0) =~= name);
    } else if base.last() == '/' {
        assert(j.take(base.len() as int) =~= base);
        assert(j.skip(base.len() as int) =~= name);
        assert(j[base.len() - 1] == base.last());
    } else {
        assert(j.take(base.len() as int) =~= base);
        assert(j.skip(base.len() + 1int) =~= name);
    }
}


/// Paths without a final name: the empty path, `/` and `.`.
pub proof fn lemma_file_name_of_root()
    ensures
        file_name_of(Seq::<char>::empty()) is None,
        file_name_of(seq!['/']) is None,
        file_name_of(seq!['.']) is None,
{
    assert(seq!['/'].drop_last() =~= Seq::<char>::empty());
    assert(Seq::<char>::empty().skip(0) =~= Seq::<char>::empty());
}

/// A trailing separator and a trailing `.` component do not change the final
/// name: `/usr/bin/` and `/usr/bin/.` name `bin`, as `/usr/bin` does.
pub proof fn lemma_file_name_ignores_trailing(s: Seq<char>)
    ensures
        file_name_of(s.push('/')) == file_name_of(s),
        file_name_of(s + seq!['/', '.']) == file_name_of(s),
{
    assert(s.push('/').drop_last() =~= s);
    assert((s + seq!['/', '.']).drop_last() =~= s.push('/'));
}

/// A path that ends in a `..` component has no final name.
pub proof fn lemma_file_name_of_parent(p: Seq<char>)
    ensures
        file_name_of(seq!['.', '.']) is None,
        file_name_of(p + seq!['/', '.', '.']) is None,
{
    let d = seq!['.', '.'];
    assert(d.drop_last() =~= seq!['.']);
    assert(seq!['.'].drop_last() =~= Seq::<char>::empty());
    assert(after_last_slash(Seq::<char>::empty()) == 0);
    assert(after_last_slash(seq!['.']) == 0);
    assert(after_last_slash(d) == 0);
    assert(strip_path_tail(d) == d);
    assert(d.skip(0) =~= d);
    let s = p + seq!['/', '.', '.'];
    let q = p + seq!['/'];
    assert(s.drop_last() =~= p + seq!['/', '.']);
    assert((p + seq!['/', '.']).drop_last() =~= q);
    assert(after_last_slash(q) == q.len());
    assert(after_last_slash(p + seq!['/', '.']) == q.len());
    assert(after_last_slash(s) == q.len());
    assert(strip_path_tail(s) == s);
    assert(last_name(s) =~= d);
}

/// Appending text without a `/` keeps where the last name begins.
proof fn lemma_after_last_slash_append(q: Seq<char>, m: Seq<char>)
    requires
        !m.contains('/'),
        q.len() == 0 || q.last() == '/',
    ensures
        after_last_slash(q + m) == q.len(),
    decreases m.len(),
{
    if m.len() == 0 {
        assert(q + m =~= q);
        if q.len() > 0 {
            assert(after_last_slash(q) == q.len());
        }
    } else {
        assert((q + m).last() == m.last());
        assert((q + m).drop_last() =~= q + m.drop_last());
        lemma_after_last_slash_append(q, m.drop_last());
    }
}

/// The final component of a path is its last name: `name` and `dir/name` both
/// name `name`, for a name without `/` other than `.` and `..`.
pub proof fn lemma_file_name_of_name(dir: Seq<char>, name: Seq<char>)
    requires
        name.len() > 0,
        !name.contains('/'),
        !(name.len() == 1 && name[0] == '.'),
        !(name.len() == 2 && name[0] == '.' && name[1] == '.'),
    ensures
        file_name_of(name) == Some(name),
        file_name_of(dir + seq!['/'] + name) == Some(name),
        strip_path_tail(dir + seq!['/'] + name) == dir + seq!['/'] + name,
        after_last_slash(dir + seq!['/'] + name) == dir.len() + 1,
{
    assert(name.last() == name[name.len() - 1]);
    lemma_after_last_slash_append(Seq::<char>::empty(), name);
    assert(Seq::<char>::empty() + name =~= name);
    assert(name.skip(0) =~= name);
    let q = dir + seq!['/'];
    let s = q + name;
    assert(dir + seq!['/'] + name =~= s);
    assert(s.last() == name.last());
    if name.len() >= 2 {
        assert(s[s.len() - 2] == name[name.len() - 2]);
    } else {
        assert(s[s.len() - 2] == '/');
    }
    lemma_after_last_slash_append(q, name);
    assert(s.skip(q.len() as int) =~= name);
}

/// A path without Windows prefixes is portable.
pub proof fn lemma_unprefixed_is_portable(s: Seq<char>)
    requires
        unprefixed(s),
    ensures
        portable_path(s),
{
    if starts_with_drive(s) {
        assert(s[1] == ':');
    }
}

/// On every platform the final name of `X:dir/name`, for a drive letter `X`,
/// is `name`: the drive never takes the place of the name.
pub proof fn lemma_drive_path_name(drive: char, dir: Seq<char>, name: Seq<char>)
    requires
        'a' <= drive <= 'z' || 'A' <= drive <= 'Z',
        !dir.contains('\\'),
        name.len() > 0,
        !name.contains('/'),
        !name.contains('\\'),
        !(name.len() == 1 && name[0] == '.'),
        !(name.len() == 2 && name[0] == '.' && name[1] == '.'),
    ensures
        portable_path(seq![drive, ':'] + dir + seq!['/'] + name),
        file_name_of(seq![drive, ':'] + dir + seq!['/'] + name) == Some(name),
{
    let d = seq![drive, ':'] + dir;
    let s = d + seq!['/'] + name;
    assert(seq![drive, ':'] + dir + seq!['/'] + name =~= s);
    lemma_file_name_of_name(d, name);
    assert forall|k: int| 0 <= k < s.len() implies s[k] != '\\' by {
        if k >= d.len() + 1 {
            assert(s[k] == name[k - d.len() - 1]);
        } else if k >= 2 && k < d.len() {
            assert(s[k] == dir[k - 2]);
        }
    }
    assert(s[0] == drive && s[1] == ':');
}

} // verus!
