//! The pure rules of photo storage: which files may be stored, which
//! relative paths are safe to resolve, and how stored photo paths are
//! formed. The surrounding file I/O lives outside the library and hands
//! plain strings in and out.

use vstd::prelude::*;
use vstd::string::{StrSliceExecFns, StringExecFns};

verus! {

broadcast use vstd::string::group_string_axioms;

/// The largest photo file accepted for storage, in bytes (5 MB).
pub const MAX_PHOTO_BYTES: u64 = 5 * 1024 * 1024;

/// Whether a photo of the given byte size may be stored.
pub fn photo_size_ok(len: u64) -> (r: bool)
    ensures
        r == (len <= MAX_PHOTO_BYTES),
{
    len <= MAX_PHOTO_BYTES
}

/// The index of the last occurrence of `c` in `s`, or `-1`.
pub open spec fn last_pos(s: Seq<char>, c: char) -> int
    decreases s.len(),
{
    if s.len() == 0 {
        -1
    } else if s[s.len() - 1] == c {
        s.len() - 1
    } else {
        last_pos(s.drop_last(), c)
    }
}

proof fn lemma_last_pos_range(s: Seq<char>, c: char)
    ensures
        -1 <= last_pos(s, c) < s.len(),
    decreases s.len(),
{
    if s.len() > 0 && s[s.len() - 1] != c {
        lemma_last_pos_range(s.drop_last(), c);
    }
}

proof fn lemma_last_pos_step(s: Seq<char>, i: int, c: char)
    requires
        0 <= i < s.len(),
    ensures
        last_pos(s.take(i + 1), c) == (if s[i] == c {
            i
        } else {
            last_pos(s.take(i), c)
        }),
{
    let t = s.take(i + 1);
    assert(t.drop_last() =~= s.take(i));
    assert(t[i] == s[i]);
}

/// Where the file name of a path begins: one past the last separator.
pub open spec fn spec_component_start(s: Seq<char>) -> int {
    last_pos(s, '/') + 1
}

/// Whether the path has a file extension: a dot strictly inside its file
/// name (a leading dot, as in a hidden file, does not count).
pub open spec fn spec_has_extension(s: Seq<char>) -> bool {
    last_pos(s, '.') > spec_component_start(s)
}

/// The extension: everything after the last dot.
pub open spec fn spec_extension(s: Seq<char>) -> Seq<char> {
    s.subrange(last_pos(s, '.') + 1, s.len() as int)
}

/// The accepted image extensions, compared without regard to ASCII case.
pub open spec fn spec_allowed_image_extension(e: Seq<char>) -> bool {
    ||| (e.len() == 3 && (e[0] == 'j' || e[0] == 'J') && (e[1] == 'p' || e[1] == 'P') && (e[2]
        == 'g' || e[2] == 'G'))
    ||| (e.len() == 4 && (e[0] == 'j' || e[0] == 'J') && (e[1] == 'p' || e[1] == 'P') && (e[2]
        == 'e' || e[2] == 'E') && (e[3] == 'g' || e[3] == 'G'))
    ||| (e.len() == 3 && (e[0] == 'p' || e[0] == 'P') && (e[1] == 'n' || e[1] == 'N') && (e[2]
        == 'g' || e[2] == 'G'))
}

/// Checks that a path names a storable image: it must carry an extension
/// and the extension must be JPG, JPEG or PNG in any ASCII case.
pub fn validate_image_file(file_path: &str) -> (r: Result<(), String>)
    ensures
        r is Ok <==> spec_has_extension(file_path@) && spec_allowed_image_extension(
            spec_extension(file_path@),
        ),
        !spec_has_extension(file_path@) ==> r is Err && r->Err_0@ == "Invalid file extension"@,
        spec_has_extension(file_path@) && !spec_allowed_image_extension(
            spec_extension(file_path@),
        ) ==> r is Err && r->Err_0@ == "Only JPG and PNG files are allowed"@,
{
    let n = file_path.unicode_len();
    let mut i: usize = 0;
    // One past the index of the last separator / dot seen so far; zero
    // while none was seen.
    let mut slash_end: usize = 0;
    let mut dot_end: usize = 0;
    while i < n
        invariant
            i <= n,
            n == file_path@.len(),
            slash_end as int == last_pos(file_path@.take(i as int), '/') + 1,
            dot_end as int == last_pos(file_path@.take(i as int), '.') + 1,
        decreases n - i,
    {
        let c = file_path.get_char(i);
        proof {
            lemma_last_pos_step(file_path@, i as int, '/');
            lemma_last_pos_step(file_path@, i as int, '.');
            lemma_last_pos_range(file_path@.take(i as int), '/');
            lemma_last_pos_range(file_path@.take(i as int), '.');
        }
        if c == '/' {
            slash_end = i + 1;
        }
        if c == '.' {
            dot_end = i + 1;
        }
        i = i + 1;
    }
    proof {
        assert(file_path@.take(n as int) =~= file_path@);
        lemma_last_pos_range(file_path@, '/');
        lemma_last_pos_range(file_path@, '.');
    }
    if dot_end == 0 || dot_end - 1 <= slash_end {
        return Err("Invalid file extension".to_owned());
    }
    let k = n - dot_end;
    let allowed: bool = if k == 3 {
        let c0 = file_path.get_char(dot_end);
        let c1 = file_path.get_char(dot_end + 1);
        let c2 = file_path.get_char(dot_end + 2);
        ((c0 == 'j' || c0 == 'J') && (c1 == 'p' || c1 == 'P') && (c2 == 'g' || c2 == 'G')) || ((c0
            == 'p' || c0 == 'P') && (c1 == 'n' || c1 == 'N') && (c2 == 'g' || c2 == 'G'))
    } else if k == 4 {
        let c0 = file_path.get_char(dot_end);
        let c1 = file_path.get_char(dot_end + 1);
        let c2 = file_path.get_char(dot_end + 2);
        let c3 = file_path.get_char(dot_end + 3);
        (c0 == 'j' || c0 == 'J') && (c1 == 'p' || c1 == 'P') && (c2 == 'e' || c2 == 'E') && (c3
            == 'g' || c3 == 'G')
    } else {
        false
    };
    if allowed {
        Ok(())
    } else {
        Err("Only JPG and PNG files are allowed".to_owned())
    }
}

/// A dot-dot segment anywhere in the path.
pub open spec fn spec_has_dotdot(s: Seq<char>) -> bool {
    exists|i: int| #![trigger s[i]] 0 <= i && i + 1 < s.len() && s[i] == '.' && s[i + 1] == '.'
}

/// A backslash anywhere in the path.
pub open spec fn spec_has_backslash(s: Seq<char>) -> bool {
    exists|i: int| 0 <= i < s.len() && s[i] == '\\'
}

/// A stored photo path may be resolved only if it cannot escape the
/// application's data directory: no dot-dot, not absolute, no backslash.
pub open spec fn spec_safe_relative_path(s: Seq<char>) -> bool {
    &&& !spec_has_dotdot(s)
    &&& !(s.len() > 0 && s[0] == '/')
    &&& !spec_has_backslash(s)
}

/// Checks a stored photo path against the traversal rule.
pub fn is_safe_relative_path(path: &str) -> (r: bool)
    ensures
        r == spec_safe_relative_path(path@),
{
    let n = path.unicode_len();
    if n > 0 && path.get_char(0) == '/' {
        return false;
    }
    let mut i: usize = 0;
    while i < n
        invariant
            i <= n,
            n == path@.len(),
            forall|j: int| 0 <= j < i ==> path@[j] != '\\',
            forall|j: int|
                #![trigger path@[j]]
                0 <= j < i && j + 1 < n ==> !(path@[j] == '.' && path@[j + 1] == '.'),
        decreases n - i,
    {
        let c = path.get_char(i);
        if c == '\\' {
            assert(spec_has_backslash(path@));
            return false;
        }
        if c == '.' && i + 1 < n {
            if path.get_char(i + 1) == '.' {
                assert(spec_has_dotdot(path@));
                return false;
            }
        }
        i = i + 1;
    }
    true
}

/// The storage directory for an entity kind: students and staff each have
/// their own photo directory; any other kind is rejected.
pub fn photo_subdir(entity_type: &str) -> (r: Option<&'static str>)
    ensures
        entity_type@ == "student"@ ==> (r matches Some(d) && d@ == "student_photos"@),
        entity_type@ == "staff"@ ==> (r matches Some(d) && d@ == "staff_photos"@),
        entity_type@ != "student"@ && entity_type@ != "staff"@ ==> r is None,
{
    proof {
        reveal_strlit("student");
        reveal_strlit("staff");
        assert("student"@.len() == 7);
        assert("staff"@.len() == 5);
    }
    if entity_type.to_owned() == "student".to_owned() {
        Some("student_photos")
    } else if entity_type.to_owned() == "staff".to_owned() {
        Some("staff_photos")
    } else {
        None
    }
}

/// The relative path under which an entity's photo is stored:
/// `<sub_dir>/<entity_id>.<ext>`.
pub fn photo_relative_path(sub_dir: &str, entity_id: &str, ext: &str) -> (r: String)
    ensures
        r@ == sub_dir@ + "/"@ + entity_id@ + "."@ + ext@,
{
    let mut out: String = sub_dir.to_owned();
    out.append("/");
    out.append(entity_id);
    out.append(".");
    out.append(ext);
    out
}

} // verus!
