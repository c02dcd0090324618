//! What `whisphub push` uploads: which entries of the project directory are
//! skipped, the size limit, and how files are named inside the archive.

use vstd::prelude::*;
use vstd::string::StringExecFns;
use crate::project::CONFIG_FILENAME;
use crate::text::{push_char, same_text};

verus! {

/// The largest total size that may be pushed: 100 MiB.
pub const MAX_PUSH_SIZE_BYTES: u64 = 100 * 1024 * 1024;

/// One file to upload: its path relative to the project root, and its size in
/// bytes.
pub struct PushFile {
    pub path: String,
    pub size: u64,
}

/// Why a push stops before anything is uploaded.
#[derive(Debug, PartialEq, Eq, Structural)]
pub enum PushError {
    /// Nothing is left to upload once ignored entries are skipped.
    NothingToPush,
    /// The files add up to more than the limit.
    TooLarge { total: u64 },
}

/// The unit in which a size is shown.
#[derive(Debug, PartialEq, Eq, Structural, Clone, Copy)]
pub enum SizeUnit {
    Bytes,
    KiloBytes,
    MegaBytes,
}

/// Directories that are never entered: dependency caches, build output,
/// version-control data and editor settings.
pub open spec fn ignored_dir(name: Seq<char>) -> bool {
    ||| name == "node_modules"@
    ||| name == "target"@
    ||| name == "dist"@
    ||| name == "build"@
    ||| name == ".git"@
    ||| name == ".svn"@
    ||| name == "__pycache__"@
    ||| name == ".venv"@
    ||| name == "venv"@
    ||| name == ".next"@
    ||| name == ".nuxt"@
    ||| name == ".cache"@
    ||| name == ".idea"@
    ||| name == ".vscode"@
}

/// Files that are never uploaded by name: system clutter and local secrets.
pub open spec fn ignored_file(name: Seq<char>) -> bool {
    ||| name == ".DS_Store"@
    ||| name == "Thumbs.db"@
    ||| name == ".env"@
    ||| name == ".env.local"@
}

/// Hidden files that are uploaded all the same.
pub open spec fn kept_hidden_file(name: Seq<char>) -> bool {
    name == ".gitignore"@ || name == ".env.example"@
}

/// Whether a file named `name` stays out of the upload: an ignored name, the
/// project settings file, or a hidden file other than `.gitignore` and
/// `.env.example`.
pub open spec fn excluded_file(name: Seq<char>) -> bool {
    ||| ignored_file(name)
    ||| name == CONFIG_FILENAME@
    ||| (name.len() > 0 && name[0] == '.' && !kept_hidden_file(name))
}

/// Whether a directory named `name` is one the scan skips.
pub fn is_ignored_dir(name: &str) -> (r: bool)
    ensures
        r == ignored_dir(name@),
{
    same_text(name, "node_modules") || same_text(name, "target") || same_text(name, "dist")
        || same_text(name, "build") || same_text(name, ".git") || same_text(name, ".svn")
        || same_text(name, "__pycache__") || same_text(name, ".venv") || same_text(name, "venv")
        || same_text(name, ".next") || same_text(name, ".nuxt") || same_text(name, ".cache")
        || same_text(name, ".idea") || same_text(name, ".vscode")
}

/// Whether a file named `name` stays out of the upload.
pub fn is_excluded_file(name: &str) -> (r: bool)
    ensures
        r == excluded_file(name@),
{
    let ignored = same_text(name, ".DS_Store") || same_text(name, "Thumbs.db") || same_text(
        name,
        ".env",
    ) || same_text(name, ".env.local");
    if ignored || same_text(name, CONFIG_FILENAME) {
        return true;
    }
    if name.unicode_len() == 0 {
        return false;
    }
    let first = name.get_char(0);
    first == '.' && !(same_text(name, ".gitignore") || same_text(name, ".env.example"))
}

/// Whether the scan keeps walking below an entry: the project root itself,
/// whatever its name, and everything else except ignored directories.
pub fn should_descend(is_root: bool, is_dir: bool, name: &str) -> (r: bool)
    ensures
        r == (is_root || !(is_dir && ignored_dir(name@))),
{
    is_root || !(is_dir && is_ignored_dir(name))
}

/// Whether a scanned entry is uploaded: a regular file whose name is not
/// excluded.
pub fn should_upload(is_file: bool, name: &str) -> (r: bool)
    ensures
        r == (is_file && !excluded_file(name@)),
{
    is_file && !is_excluded_file(name)
}

/// The sum of the sizes of `files`.
pub open spec fn total_size(files: Seq<PushFile>) -> int
    decreases files.len(),
{
    if files.len() == 0 {
        0
    } else {
        total_size(files.drop_last()) + files.last().size
    }
}

proof fn lemma_total_size_monotone(files: Seq<PushFile>, i: int)
    requires
        0 <= i <= files.len(),
    ensures
        0 <= total_size(files.take(i)) <= total_size(files),
    decreases files.len() - i,
{
    if i < files.len() {
        lemma_total_size_monotone(files, i + 1);
        assert(files.take(i + 1).drop_last() =~= files.take(i));
    } else {
        assert(files.take(i) =~= files);
    }
    lemma_total_size_nonneg(files.take(i));
}

proof fn lemma_total_size_nonneg(files: Seq<PushFile>)
    ensures
        total_size(files) >= 0,
    decreases files.len(),
{
    if files.len() > 0 {
        lemma_total_size_nonneg(files.drop_last());
    }
}

/// The total size of `files`, or `None` when it does not fit in a `u64`.
pub fn sum_sizes(files: &Vec<PushFile>) -> (r: Option<u64>)
    ensures
        match r {
            Some(t) => t == total_size(files@),
            None => total_size(files@) > u64::MAX,
        },
{
    let mut total: u64 = 0;
    let mut i: usize = 0;
    assert(files@.take(0) =~= Seq::<PushFile>::empty());
    while i < files.len()
        invariant
            i <= files@.len(),
            total == total_size(files@.take(i as int)),
        decreases files.len() - i,
    {
        proof {
            assert(files@.take(i + 1).drop_last() =~= files@.take(i as int));
        }
        let size = files[i].size;
        if total > u64::MAX - size {
            proof {
                lemma_total_size_monotone(files@, i + 1);
            }
            return None;
        }
        total = total + size;
        i = i + 1;
    }
    assert(files@.take(files@.len() as int) =~= files@);
    Some(total)
}

/// Decides whether the scanned files may be pushed: there must be at least one,
/// and together they may not exceed `MAX_PUSH_SIZE_BYTES`. On success the total
/// size is returned.
pub fn check_push(files: &Vec<PushFile>) -> (r: Result<u64, PushError>)
    requires
        total_size(files@) <= u64::MAX,
    ensures
        files@.len() == 0 ==> r == Err::<u64, PushError>(PushError::NothingToPush),
        files@.len() > 0 && total_size(files@) > MAX_PUSH_SIZE_BYTES ==> r == Err::<u64, PushError>(
            PushError::TooLarge { total: total_size(files@) as u64 },
        ),
        files@.len() > 0 && total_size(files@) <= MAX_PUSH_SIZE_BYTES ==> r == Ok::<u64, PushError>(
            total_size(files@) as u64,
        ),
{
    if files.len() == 0 {
        return Err(PushError::NothingToPush);
    }
    let total = match sum_sizes(files) {
        Some(t) => t,
        None => {
            proof {
                assert(false);
            }
            0
        },
    };
    if total > MAX_PUSH_SIZE_BYTES {
        Err(PushError::TooLarge { total })
    } else {
        Ok(total)
    }
}

/// The unit a size is shown in: bytes below 1 KiB, kilobytes below 1 MiB,
/// megabytes from there on.
pub fn size_unit(bytes: u64) -> (r: SizeUnit)
    ensures
        bytes < 1024 ==> r == SizeUnit::Bytes,
        1024 <= bytes < 1024 * 1024 ==> r == SizeUnit::KiloBytes,
        1024 * 1024 <= bytes ==> r == SizeUnit::MegaBytes,
{
    if bytes < 1024 {
        SizeUnit::Bytes
    } else if bytes < 1024 * 1024 {
        SizeUnit::KiloBytes
    } else {
        SizeUnit::MegaBytes
    }
}

/// `s` with every `\` turned into `/`.
pub open spec fn forward_slashes(s: Seq<char>) -> Seq<char> {
    s.map_values(|c: char| if c == '\\' { '/' } else { c })
}

/// The name of a file inside the archive: its relative path with `/` as the
/// only separator.
pub fn zip_entry_name(rel_path: &str) -> (r: String)
    ensures
        r@ == forward_slashes(rel_path@),
        !r@.contains('\\'),
{
    let mut r = String::new();
    for c in it: rel_path.chars()
        invariant
            it.seq() == rel_path@,
            r@ == forward_slashes(it.seq().take(it.index())),
    {
        proof {
            assert(forward_slashes(it.seq().take(it.index() + 1)) =~= forward_slashes(
                it.seq().take(it.index()),
            ).push(if c == '\\' { '/' } else { c }));
        }
        if c == '\\' {
            push_char(&mut r, '/');
        } else {
            push_char(&mut r, c);
        }
    }
    assert(rel_path@.take(rel_path@.len() as int) =~= rel_path@);
    r
}

/// The slug a push is shown under: the one given on the command line, else the
/// one in `.whisphub.toml`.
pub fn effective_slug(configured: &str, requested: Option<String>) -> (r: String)
    ensures
        match requested {
            Some(s) => r@ == s@,
            None => r@ == configured@,
        },
{
    match requested {
        Some(s) => s,
        None => String::from_str(configured),
    }
}

/// The file name of the uploaded archive: `<slug>.zip`.
pub fn archive_file_name(slug: &str) -> (r: String)
    ensures
        r@ == slug@ + ".zip"@,
{
    let mut r = String::from_str(slug);
    r.append(".zip");
    r
}

/// The plural ending for a count of files: none for exactly one.
pub fn plural_suffix(count: usize) -> (r: &'static str)
    ensures
        count == 1 ==> r@.len() == 0,
        count != 1 ==> r@ == "s"@,
{
    proof {
        reveal_strlit("");
    }
    if count == 1 {
        ""
    } else {
        "s"
    }
}

/// The directories the scan skips are exactly these fourteen: `node_modules`,
/// `target`, `dist`, `build`, `.git`, `.svn`, `__pycache__`, `.venv`, `venv`,
/// `.next`, `.nuxt`, `.cache`, `.idea` and `.vscode`. Every other directory
/// (`src`, `lib`, `docs`, ...) is walked.
pub proof fn lemma_skipped_dirs(name: Seq<char>)
    ensures
        Set::new(|n: Seq<char>| ignored_dir(n)) == set![
            "node_modules"@, "target"@, "dist"@, "build"@, ".git"@, ".svn"@, "__pycache__"@,
            ".venv"@, "venv"@, ".next"@, ".nuxt"@, ".cache"@, ".idea"@, ".vscode"@,
        ],
        !set![
            "node_modules"@, "target"@, "dist"@, "build"@, ".git"@, ".svn"@, "__pycache__"@,
            ".venv"@, "venv"@, ".next"@, ".nuxt"@, ".cache"@, ".idea"@, ".vscode"@,
        ].contains(name) ==> !ignored_dir(name),
{
    assert(Set::new(|n: Seq<char>| ignored_dir(n)) =~= set![
        "node_modules"@, "target"@, "dist"@, "build"@, ".git"@, ".svn"@, "__pycache__"@,
        ".venv"@, "venv"@, ".next"@, ".nuxt"@, ".cache"@, ".idea"@, ".vscode"@,
    ]);
}

/// Sizes add up: no file, nothing; one more file adds exactly its size,
/// however many files came before; and the total of two lists together is the
/// sum of their totals.
pub proof fn lemma_total_size_adds(files: Seq<PushFile>, f: PushFile, more: Seq<PushFile>)
    ensures
        total_size(Seq::<PushFile>::empty()) == 0,
        total_size(files.push(f)) == total_size(files) + f.size,
        total_size(files + more) == total_size(files) + total_size(more),
    decreases more.len(),
{
    assert(files.push(f).drop_last() =~= files);
    if more.len() == 0 {
        assert(files + more =~= files);
    } else {
        lemma_total_size_adds(files, f, more.drop_last());
        assert((files + more).drop_last() =~= files + more.drop_last());
        assert((files + more).last() == more.last());
    }
}

/// An archive entry name is its path character for character, with each `\`
/// turned into `/` and every other character kept.
pub proof fn lemma_entry_name_chars(path: Seq<char>)
    ensures
        forward_slashes(path).len() == path.len(),
        forall|k: int|
            0 <= k < path.len() ==> #[trigger] forward_slashes(path)[k] == (if path[k] == '\\' {
                '/'
            } else {
                path[k]
            }),
        forall|k: int| 0 <= k < path.len() && path[k] != '\\' ==> #[trigger] forward_slashes(path)[k] == path[k],
{
}

/// The files left out of an upload are exactly `.DS_Store`, `Thumbs.db`,
/// `.env`, `.env.local`, the project settings file `.whisphub.toml`, and every
/// other hidden file (a name starting with `.`) except `.gitignore` and
/// `.env.example`; every other file is uploaded.
pub proof fn lemma_excluded_files(name: Seq<char>)
    ensures
        excluded_file(name) <==> (set![
            ".DS_Store"@, "Thumbs.db"@, ".env"@, ".env.local"@, ".whisphub.toml"@,
        ].contains(name) || (name.len() > 0 && name[0] == '.' && name != ".gitignore"@ && name
            != ".env.example"@)),
{
    reveal_strlit(".whisphub.toml");
    assert(CONFIG_FILENAME@ == ".whisphub.toml"@);
}

/// The push limit is 100 MiB: 104857600 bytes.
pub proof fn lemma_push_limit()
    ensures
        MAX_PUSH_SIZE_BYTES == 104_857_600,
{
}

} // verus!
