use vstd::prelude::*;
use crate::error::{TeamderError, fails_with};
use crate::models::user::PortfolioItem;
use crate::text::{
    chars_of, concat, concat3, contains_chars, contains_seq, find_last, is_prefix, last_index_of,
    lemma_last_index_of, lowercase, occurs_at, push_char, starts_with_chars, string_from_chars,
    string_of, to_lowercase, all_ascii, ascii_lower, lemma_filter_idempotent,
};

verus! {

// ── Response DTOs ───────────────────────────────────────────────────────────

/// Where an uploaded file can be fetched.
pub struct UploadResponse {
    pub url: String,
}

/// Acknowledgement of a successful action.
pub struct SuccessResponse {
    pub success: bool,
}

// ── File names ──────────────────────────────────────────────────────────────

/// ASCII letters and digits, `.`, `-` and `_`: the characters kept in
/// uploaded file names.
pub open spec fn is_safe_name_char(c: char) -> bool {
    ('a' <= c && c <= 'z') || ('A' <= c && c <= 'Z') || ('0' <= c && c <= '9') || c == '.' || c
        == '-' || c == '_'
}

/// A file name with every character outside the safe set removed.
pub open spec fn sanitized(name: Seq<char>) -> Seq<char> {
    name.filter(|c: char| is_safe_name_char(c))
}

/// Whether `c` is kept in uploaded file names.
fn safe_name_char(c: char) -> (r: bool)
    ensures
        r == is_safe_name_char(c),
{
    ('a' <= c && c <= 'z') || ('A' <= c && c <= 'Z') || ('0' <= c && c <= '9') || c == '.' || c
        == '-' || c == '_'
}

/// Keeps only ASCII letters, digits, `.`, `-` and `_` of a file name.
pub fn sanitize_filename(name: &str) -> (r: String)
    ensures
        r@ == sanitized(name@),
{
    let mut out = String::new();
    for c in it: name.chars()
        invariant
            it.seq() == name@,
            out@ == sanitized(name@.take(it.index() as int)),
    {
        let ghost i = it.index();
        proof {
            assert(name@.take(i + 1) == name@.take(i as int).push(c));
            name@.take(i as int).lemma_filter_push(c, |c: char| is_safe_name_char(c));
        }
        if safe_name_char(c) {
            push_char(&mut out, c);
        }
    }
    proof {
        assert(name@.take(name@.len() as int) == name@);
    }
    out
}

/// Sanitizing is idempotent: a sanitized name is left as it is.
pub proof fn law_sanitize_idempotent(name: Seq<char>)
    ensures
        sanitized(sanitized(name)) == sanitized(name),
{
    lemma_filter_idempotent(name, |c: char| is_safe_name_char(c));
}

/// Only safe characters survive sanitizing.
pub proof fn law_sanitized_chars_are_safe(name: Seq<char>)
    ensures
        forall|i: int| 0 <= i < sanitized(name).len() ==> is_safe_name_char(#[trigger] sanitized(name)[i]),
{
    assert forall|i: int| 0 <= i < sanitized(name).len() implies is_safe_name_char(
        #[trigger] sanitized(name)[i],
    ) by {
        name.lemma_filter_pred(|c: char| is_safe_name_char(c), i);
    }
}

/// The text after the last `.` of a name, the whole name when it has none.
pub open spec fn after_last_dot(name: Seq<char>) -> Seq<char> {
    match last_index_of(name, '.') {
        Some(i) => name.subrange(i + 1, name.len() as int),
        None => name,
    }
}

/// The lower-cased extension of a file name: the text after its last `.`
/// (the whole name when it has none).
pub fn get_extension(filename: &str) -> (r: String)
    ensures
        r@ == lowercase(after_last_dot(filename@)),
        all_ascii(filename@) ==> r@ == after_last_dot(filename@).map_values(|c: char| ascii_lower(c)),
{
    let v = chars_of(filename);
    let n = v.len();
    let start: usize = match find_last(v.as_slice(), '.') {
        Some(i) => {
            proof {
                lemma_last_index_of(v@, '.');
            }
            i + 1
        },
        None => 0,
    };
    let mut tail: Vec<char> = Vec::new();
    let mut k: usize = start;
    while k < n
        invariant
            n == v@.len(),
            start <= k <= n,
            tail@ == v@.subrange(start as int, k as int),
        decreases n - k,
    {
        proof {
            assert(v@.subrange(start as int, k + 1) == v@.subrange(start as int, k as int).push(
                v@[k as int],
            ));
        }
        tail.push(v[k]);
        k = k + 1;
    }
    proof {
        if start == 0 {
            assert(v@.subrange(0, n as int) == v@);
        }
    }
    let ext = string_from_chars(tail.as_slice());
    proof {
        if all_ascii(filename@) {
            assert(all_ascii(ext@)) by {
                assert forall|i: int| 0 <= i < ext@.len() implies (ext@[i] as u32) < 128 by {
                    assert(ext@[i] == v@[start + i]);
                }
            }
        }
    }
    to_lowercase(ext.as_str())
}

// ── Where uploads go ────────────────────────────────────────────────────────

/// The five kinds of upload, each with a folder of its own.
pub enum UploadKind {
    Avatar,
    Portfolio,
    Resume,
    Banner,
    Application,
}

/// The folder of each kind of upload.
pub open spec fn folder_of(kind: UploadKind) -> Seq<char> {
    match kind {
        UploadKind::Avatar => "avatar"@,
        UploadKind::Portfolio => "portfolio"@,
        UploadKind::Resume => "resume"@,
        UploadKind::Banner => "banners"@,
        UploadKind::Application => "applications"@,
    }
}

/// The file name assumed when the client sends none, for each kind.
pub open spec fn default_name_of(kind: UploadKind) -> Seq<char> {
    match kind {
        UploadKind::Avatar => "avatar.png"@,
        UploadKind::Portfolio => "portfolio.bin"@,
        UploadKind::Resume => "resume.pdf"@,
        UploadKind::Banner => "banner.png"@,
        UploadKind::Application => "application.bin"@,
    }
}

impl UploadKind {
    /// The folder files of this kind are stored in.
    pub fn folder(&self) -> (f: &'static str)
        ensures
            f@ == folder_of(*self),
    {
        match self {
            UploadKind::Avatar => "avatar",
            UploadKind::Portfolio => "portfolio",
            UploadKind::Resume => "resume",
            UploadKind::Banner => "banners",
            UploadKind::Application => "applications",
        }
    }

    /// The file name assumed when the client sends none.
    pub fn default_name(&self) -> (f: &'static str)
        ensures
            f@ == default_name_of(*self),
    {
        match self {
            UploadKind::Avatar => "avatar.png",
            UploadKind::Portfolio => "portfolio.bin",
            UploadKind::Resume => "resume.pdf",
            UploadKind::Banner => "banner.png",
            UploadKind::Application => "application.bin",
        }
    }
}

/// The stored name of an upload: a fresh identifier and the extension of
/// the sanitized client name.
pub open spec fn stored_name(id: Seq<char>, raw_name: Seq<char>) -> Seq<char> {
    id + "."@ + lowercase(after_last_dot(sanitized(raw_name)))
}

/// The name an upload is stored under, from a fresh identifier and the
/// name the client sent.
pub fn stored_filename(id: &str, raw_name: &str) -> (r: String)
    ensures
        r@ == stored_name(id@, raw_name@),
{
    let safe = sanitize_filename(raw_name);
    let ext = get_extension(safe.as_str());
    concat3(id, ".", ext.as_str())
}

/// The directory, relative to the server's working directory, holding a
/// user's uploads of one kind.
pub open spec fn upload_dir_of(user_id: Seq<char>, folder: Seq<char>) -> Seq<char> {
    "uploads/"@ + user_id + "/"@ + folder
}

/// The public URL of an upload.
pub open spec fn upload_url_of(user_id: Seq<char>, folder: Seq<char>, filename: Seq<char>) -> Seq<char> {
    "/uploads/"@ + user_id + "/"@ + folder + "/"@ + filename
}

/// The directory a user's uploads of one kind are written to.
pub fn upload_dir(user_id: &str, kind: &UploadKind) -> (d: String)
    ensures
        d@ == upload_dir_of(user_id@, folder_of(*kind)),
{
    let mut d = concat3("uploads/", user_id, "/");
    d.append(kind.folder());
    d
}

/// The path a stored upload is written to.
pub fn upload_path(dir: &str, filename: &str) -> (p: String)
    ensures
        p@ == dir@ + "/"@ + filename@,
{
    concat3(dir, "/", filename)
}

/// The public URL of a stored upload.
pub fn upload_url(user_id: &str, kind: &UploadKind, filename: &str) -> (u: String)
    ensures
        u@ == upload_url_of(user_id@, folder_of(*kind), filename@),
{
    let mut u = concat3("/uploads/", user_id, "/");
    u.append(kind.folder());
    u.append("/");
    u.append(filename);
    u
}

/// The portfolio entry an upload adds: titled by the form or by the file
/// name, of the form's kind or `file`.
pub fn portfolio_item(title: &str, kind: &str, safe_name: &str, url: &str) -> (p: PortfolioItem)
    ensures
        p.title@ == (if title@.len() == 0 {
            safe_name@
        } else {
            title@
        }),
        p.kind@ == (if kind@.len() == 0 {
            "file"@
        } else {
            kind@
        }),
        p.description is None,
        p.url matches Some(u) && u@ == url@,
{
    let title = if title.unicode_len() == 0 {
        string_of(safe_name)
    } else {
        string_of(title)
    };
    let kind = if kind.unicode_len() == 0 {
        "file".to_string()
    } else {
        string_of(kind)
    };
    PortfolioItem { title, kind, description: None, url: Some(string_of(url)) }
}

// ── Deleting ────────────────────────────────────────────────────────────────

/// The prefix of every upload URL of a user.
pub open spec fn own_prefix(user_id: Seq<char>) -> Seq<char> {
    "/uploads/"@ + user_id + "/"@
}

/// The outcome of a deletion request for `path` by `user_id`: paths with
/// `..` are invalid, other users' files forbidden; a valid path is read
/// without its leading `/` as a path on disk.
pub open spec fn deletion_outcome(path: Seq<char>, user_id: Seq<char>) -> Result<Seq<char>, (u16, Seq<char>)> {
    if contains_seq(path, ".."@) {
        Err((422u16, "Invalid path"@))
    } else if !is_prefix(own_prefix(user_id), path) {
        Err((403u16, "Cannot delete another user's files"@))
    } else {
        Ok(path.subrange(1, path.len() as int))
    }
}

/// Checks a deletion request and gives the file's path on disk.
pub fn delete_upload_check(path: &str, user_id: &str) -> (r: Result<String, TeamderError>)
    ensures
        match deletion_outcome(path@, user_id@) {
            Ok(p) => r matches Ok(s) && s@ == p,
            Err((status, msg)) => fails_with(r, status, msg),
        },
{
    let v = chars_of(path);
    let dots = chars_of("..");
    proof {
        reveal_strlit("..");
    }
    if contains_chars(v.as_slice(), dots.as_slice()) {
        return Err(TeamderError::Validation("Invalid path".to_string()));
    }
    let prefix = concat3("/uploads/", user_id, "/");
    let pv = chars_of(prefix.as_str());
    if !starts_with_chars(v.as_slice(), pv.as_slice()) {
        return Err(TeamderError::Forbidden("Cannot delete another user's files".to_string()));
    }
    proof {
        reveal_strlit("/uploads/");
        assert(v@[0] == pv@[0]);
        assert(pv@[0] == '/');
    }
    let n = v.len();
    let mut rest: Vec<char> = Vec::new();
    let mut k: usize = 1;
    while k < n
        invariant
            n == v@.len(),
            1 <= k <= n,
            rest@ == v@.subrange(1, k as int),
        decreases n - k,
    {
        proof {
            assert(v@.subrange(1, k + 1) == v@.subrange(1, k as int).push(v@[k as int]));
        }
        rest.push(v[k]);
        k = k + 1;
    }
    Ok(string_from_chars(rest.as_slice()))
}

/// No character of `s` is a dot.
pub open spec fn dot_free(s: Seq<char>) -> bool {
    forall|i: int| 0 <= i < s.len() ==> s[i] != '.'
}

/// A user may delete what they uploaded: the URL of a file stored under a
/// dot-free identifier, for a user id without dots, passes the deletion
/// check and names the file on disk.
pub proof fn law_own_upload_deletable(user_id: Seq<char>, kind: UploadKind, id: Seq<char>, raw_name: Seq<char>)
    requires
        dot_free(user_id),
        dot_free(id),
        dot_free(lowercase(after_last_dot(sanitized(raw_name)))),
    ensures
        deletion_outcome(upload_url_of(user_id, folder_of(kind), stored_name(id, raw_name)), user_id)
            == Ok::<Seq<char>, (u16, Seq<char>)>(
            upload_dir_of(user_id, folder_of(kind)) + "/"@ + stored_name(id, raw_name),
        ),
{
    reveal_strlit("/uploads/");
    reveal_strlit("uploads/");
    reveal_strlit("/");
    reveal_strlit(".");
    reveal_strlit("..");
    reveal_strlit("avatar");
    reveal_strlit("portfolio");
    reveal_strlit("resume");
    reveal_strlit("banners");
    reveal_strlit("applications");
    let folder = folder_of(kind);
    let ext = lowercase(after_last_dot(sanitized(raw_name)));
    let head = "/uploads/"@ + user_id + "/"@ + folder + "/"@ + id;
    let url = upload_url_of(user_id, folder, stored_name(id, raw_name));
    assert(url =~= head + "."@ + ext);
    assert(dot_free(head)) by {
        assert forall|i: int| 0 <= i < head.len() implies head[i] != '.' by {
            let a = "/uploads/"@;
            if i < a.len() {
            } else if i < a.len() + user_id.len() {
                assert(head[i] == user_id[i - a.len()]);
            } else if i < a.len() + user_id.len() + 1 {
            } else if i < a.len() + user_id.len() + 1 + folder.len() {
                assert(head[i] == folder[i - a.len() - user_id.len() - 1]);
            } else if i < a.len() + user_id.len() + 1 + folder.len() + 1 {
            } else {
                assert(head[i] == id[i - a.len() - user_id.len() - 1 - folder.len() - 1]);
            }
        }
    }
    assert(!contains_seq(url, ".."@)) by {
        if exists|j: int| occurs_at(url, ".."@, j) {
            let j = choose|j: int| occurs_at(url, ".."@, j);
            assert(url.subrange(j, j + 2)[0] == '.');
            assert(url.subrange(j, j + 2)[1] == '.');
            assert(url[j] == '.');
            assert(url[j + 1] == '.');
            if j < head.len() {
                assert(url[j] == head[j]);
            } else if j == head.len() {
                assert(url[j + 1] == ext[0]);
            } else {
                assert(url[j] == ext[j - head.len() - 1]);
            }
        }
    }
    let prefix = own_prefix(user_id);
    assert(url.subrange(0, prefix.len() as int) =~= prefix);
    assert(url.subrange(1, url.len() as int) =~= upload_dir_of(user_id, folder) + "/"@ + stored_name(
        id,
        raw_name,
    ));
}

} // verus!
