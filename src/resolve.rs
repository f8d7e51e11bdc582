//! Mapping request paths to files under the served root: the index file for
//! the root path, and the fallback for a file that cannot be read.

use vstd::prelude::*;

verus! {

/// The index file candidates, in priority order.
pub open spec fn index_files() -> Seq<Seq<char>> {
    seq!["index.html"@, "index.htm"@, "index.xhtml"@, "index.shtml"@]
}

/// The candidate at position `i`.
fn index_file(i: usize) -> (r: &'static str)
    requires
        i < 4,
    ensures
        r@ == index_files()[i as int],
{
    match i {
        0 => "index.html",
        1 => "index.htm",
        2 => "index.xhtml",
        _ => "index.shtml",
    }
}

/// The position of the last `true` among the first `n` flags, if any.
pub open spec fn last_present(present: Seq<bool>, n: int) -> Option<int>
    decreases n,
{
    if n <= 0 {
        None
    } else if present[n - 1] {
        Some(n - 1)
    } else {
        last_present(present, n - 1)
    }
}

/// The index file chosen when `present[i]` tells whether candidate `i`
/// exists: the last candidate that exists, else `index.htm`.
pub open spec fn chosen_index(present: Seq<bool>) -> Seq<char> {
    match last_present(present, 4) {
        Some(i) => index_files()[i],
        None => index_files()[1],
    }
}

/// `last_present` finds the last `true` below `n`, and nothing where there is none.
proof fn lemma_last_present(present: Seq<bool>, n: int)
    requires
        0 <= n <= present.len(),
    ensures
        forall|i: int|
            0 <= i < n && #[trigger] present[i] && (forall|j: int| i < j < n ==> !present[j])
                ==> last_present(present, n) == Some(i),
        (forall|i: int| 0 <= i < n ==> !present[i]) ==> last_present(present, n) is None,
    decreases n,
{
    if n > 0 {
        lemma_last_present(present, n - 1);
    }
}

/// The index file chosen is the last candidate, in priority order, that
/// exists, not the first; where none exists it is `index.htm`.
pub proof fn lemma_index_choice(present: Seq<bool>)
    requires
        present.len() == 4,
    ensures
        forall|i: int|
            0 <= i < 4 && #[trigger] present[i] && (forall|j: int| i < j < 4 ==> !present[j])
                ==> chosen_index(present) == index_files()[i],
        (forall|i: int| 0 <= i < 4 ==> !present[i]) ==> chosen_index(present) == "index.htm"@,
{
    lemma_last_present(present, 4);
}

/// `path` joined under `root`, with one separator between them.
pub open spec fn joined(root: Seq<char>, path: Seq<char>) -> Seq<char> {
    if root.len() > 0 && root.last() == '/' {
        root + path
    } else {
        root + seq!['/'] + path
    }
}

/// Joins `path` under `root`, adding a separator where `root` lacks one.
pub fn join_path(root: &str, path: &str) -> (r: String)
    ensures
        r@ == joined(root@, path@),
{
    let n = root.unicode_len();
    let mut r = String::from_str(root);
    if n == 0 || root.get_char(n - 1) != '/' {
        proof {
            reveal_strlit("/");
        }
        r.append("/");
    }
    r.append(path);
    r
}

/// The paths to test for existence, one per index candidate, in priority order.
pub fn index_candidates(root: &str) -> (r: Vec<String>)
    ensures
        r@.len() == 4,
        forall|i: int| 0 <= i < 4 ==> #[trigger] r@[i]@ == joined(root@, index_files()[i]),
{
    let mut r: Vec<String> = Vec::new();
    let mut i: usize = 0;
    while i < 4
        invariant
            i <= 4,
            r@.len() == i,
            forall|j: int| 0 <= j < i ==> #[trigger] r@[j]@ == joined(root@, index_files()[j]),
        decreases 4 - i,
    {
        r.push(join_path(root, index_file(i)));
        i = i + 1;
    }
    r
}

/// Chooses the index file from which candidates exist (`present[i]` for
/// candidate `i` of the priority order). Every candidate is looked at and a
/// later one that exists replaces an earlier one; where none exists the
/// choice is `index.htm`.
pub fn root_serve(present: &[bool; 4]) -> (r: String)
    ensures
        r@ == chosen_index(present@),
{
    let mut out: Option<usize> = None;
    let mut i: usize = 0;
    while i < 4
        invariant
            i <= 4,
            match last_present(present@, i as int) {
                Some(j) => 0 <= j < i && out == Some(j as usize),
                None => out is None,
            },
        decreases 4 - i,
    {
        if present[i] {
            out = Some(i);
        }
        i = i + 1;
    }
    match out {
        Some(j) => String::from_str(index_file(j)),
        None => String::from_str(index_file(1)),
    }
}

/// The name of the custom page served for a file that cannot be read.
pub fn not_found_page(root: &str) -> (r: String)
    ensures
        r@ == joined(root@, "404.html"@),
{
    join_path(root, "404.html")
}

/// What `new_mime_guess` guesses for an extension: the first known MIME type,
/// or `text/plain`.
pub uninterp spec fn mime_of_extension(ext: Seq<char>) -> Seq<char>;

/// What `String::from_utf8` decodes from bytes, where they are UTF-8.
pub uninterp spec fn utf8_text(bytes: Seq<u8>) -> Option<Seq<char>>;

/// The position of the last `c` among the first `n` characters of `s`, or -1.
pub open spec fn last_before(s: Seq<char>, c: char, n: int) -> int
    decreases n,
{
    if n <= 0 {
        -1
    } else if s[n - 1] == c {
        n - 1
    } else {
        last_before(s, c, n - 1)
    }
}

/// The extension of the file name that ends `path` (what follows its last
/// `/`): the part after the name's last `.`, where that `.` is not the
/// name's first character.
pub open spec fn extension_of_path(path: Seq<char>) -> Option<Seq<char>> {
    let name_start = last_before(path, '/', path.len() as int) + 1;
    let dot = last_before(path, '.', path.len() as int);
    if dot > name_start {
        Some(path.subrange(dot + 1, path.len() as int))
    } else {
        None
    }
}

/// The extension of the file that `path` names, if it has one.
pub fn file_extension(path: &str) -> (r: Option<String>)
    ensures
        r matches Some(e) ==> extension_of_path(path@) == Some(e@),
        r is None ==> extension_of_path(path@) is None,
{
    let n = path.unicode_len();
    let mut name_start: usize = 0;
    let mut dot: Option<usize> = None;
    let mut i: usize = 0;
    while i < n
        invariant
            n == path@.len(),
            i <= n,
            name_start as int == last_before(path@, '/', i as int) + 1,
            match dot {
                Some(d) => d < i && last_before(path@, '.', i as int) == d as int,
                None => last_before(path@, '.', i as int) == -1,
            },
        decreases n - i,
    {
        let c = path.get_char(i);
        if c == '/' {
            name_start = i + 1;
        } else if c == '.' {
            dot = Some(i);
        }
        i = i + 1;
    }
    match dot {
        Some(d) if d > name_start => Some(String::from_str(path.substring_char(d + 1, n))),
        _ => None,
    }
}

/// Relies on `new_mime_guess::from_ext(..).first_or_text_plain()`, rendered as
/// a string; an empty extension has no guess.
#[verifier::external_body]
fn guess_mime(ext: &str) -> (r: String)
    ensures
        r@ == mime_of_extension(ext@),
        ext@.len() == 0 ==> r@ == "text/plain"@,
{
    new_mime_guess::from_ext(ext).first_or_text_plain().to_string()
}

/// Relies on `String::from_utf8`, which succeeds exactly on UTF-8 input.
#[verifier::external_body]
fn decode_utf8(bytes: Vec<u8>) -> (r: Option<String>)
    ensures
        r matches Some(t) ==> utf8_text(bytes@) == Some(t@),
        r is None ==> utf8_text(bytes@) is None,
{
    String::from_utf8(bytes).ok()
}

/// The Content-Type for a file with the given extension; a file without one
/// is plain text.
pub fn content_type_of_extension(ext: Option<String>) -> (r: String)
    ensures
        r@ == match ext {
            Some(e) => mime_of_extension(e@),
            None => "text/plain"@,
        },
{
    match ext {
        Some(e) => guess_mime(e.as_str()),
        None => String::from_str("text/plain"),
    }
}

/// The Content-Type of a file, guessed from the extension of its path.
pub open spec fn content_type_of(path: Seq<char>) -> Seq<char> {
    match extension_of_path(path) {
        Some(e) => mime_of_extension(e),
        None => "text/plain"@,
    }
}

/// Guesses the Content-Type of a file from the extension of its path.
pub fn content_type_for(path: &str) -> (r: String)
    ensures
        r@ == content_type_of(path@),
{
    content_type_of_extension(file_extension(path))
}

/// What a read of a file gave.
pub enum FileText {
    /// The file could not be read.
    Missing,
    /// The file was read and holds this text.
    Text(String),
    /// The file was read but is not UTF-8.
    NotText,
}

/// The view of a `FileText`.
pub enum FileTextView {
    Missing,
    Text(Seq<char>),
    NotText,
}

impl View for FileText {
    type V = FileTextView;

    open spec fn view(&self) -> FileTextView {
        match self {
            FileText::Missing => FileTextView::Missing,
            FileText::Text(t) => FileTextView::Text(t@),
            FileText::NotText => FileTextView::NotText,
        }
    }
}

/// The outcome of reading a file, from its bytes (`None` where it could not be read).
pub open spec fn file_text_of(bytes: Option<Seq<u8>>) -> FileTextView {
    match bytes {
        None => FileTextView::Missing,
        Some(b) => match utf8_text(b) {
            Some(t) => FileTextView::Text(t),
            None => FileTextView::NotText,
        },
    }
}

/// Decodes the bytes of a read (`None` where the read failed).
pub fn file_text(bytes: Option<Vec<u8>>) -> (r: FileText)
    ensures
        r@ == file_text_of(
            match bytes {
                Some(b) => Some(b@),
                None => None,
            },
        ),
{
    match bytes {
        None => FileText::Missing,
        Some(b) => match decode_utf8(b) {
            Some(t) => FileText::Text(t),
            None => FileText::NotText,
        },
    }
}

/// What a request resolves to.
pub enum ResolvedTarget {
    /// The file was read: its MIME type and its text.
    File { mime: String, body: String },
    /// The file could not be read: the fallback body.
    NotFound { body: String },
}

/// The view of a `ResolvedTarget`.
pub enum TargetView {
    File { mime: Seq<char>, body: Seq<char> },
    NotFound { body: Seq<char> },
}

impl View for ResolvedTarget {
    type V = TargetView;

    open spec fn view(&self) -> TargetView {
        match self {
            ResolvedTarget::File { mime, body } => TargetView::File { mime: mime@, body: body@ },
            ResolvedTarget::NotFound { body } => TargetView::NotFound { body: body@ },
        }
    }
}

/// The body served when a file cannot be read and no custom page can be.
pub open spec fn default_not_found_body() -> Seq<char> {
    "File not found!"@
}

/// The target for a file of the given Content-Type, from what reading it gave
/// and what reading the custom not-found page gave. A file that is not text
/// is served with an empty body; a page that is missing or not text gives
/// the default body.
pub open spec fn resolved(content_type: Seq<char>, file: FileTextView, page: FileTextView) -> TargetView {
    match file {
        FileTextView::Text(t) => TargetView::File { mime: content_type, body: t },
        FileTextView::NotText => TargetView::File { mime: content_type, body: seq![] },
        FileTextView::Missing => TargetView::NotFound {
            body: match page {
                FileTextView::Text(t) => t,
                _ => default_not_found_body(),
            },
        },
    }
}

/// Resolves a request from the outcomes of the two reads.
pub fn resolve_target(content_type: String, file: FileText, page: FileText) -> (r: ResolvedTarget)
    ensures
        r@ == resolved(content_type@, file@, page@),
{
    match file {
        FileText::Text(t) => ResolvedTarget::File { mime: content_type, body: t },
        FileText::NotText => ResolvedTarget::File { mime: content_type, body: String::new() },
        FileText::Missing => {
            let body = match page {
                FileText::Text(t) => t,
                _ => String::from_str("File not found!"),
            };
            ResolvedTarget::NotFound { body }
        },
    }
}

/// Resolves the file at `path` from the bytes read from it and from the
/// custom not-found page (`None` for a read that failed).
pub fn resolve_file(path: &str, contents: Option<Vec<u8>>, page: Option<Vec<u8>>) -> (r: ResolvedTarget)
    ensures
        r@ == resolved(
            content_type_of(path@),
            file_text_of(
                match contents {
                    Some(b) => Some(b@),
                    None => None,
                },
            ),
            file_text_of(
                match page {
                    Some(b) => Some(b@),
                    None => None,
                },
            ),
        ),
{
    resolve_target(content_type_for(path), file_text(contents), file_text(page))
}

} // verus!
