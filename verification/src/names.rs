use crate::decimal::{decimal, push_decimal};
use crate::text::{
    chars_of, extend_chars, is_listed, is_whitespace, lemma_trimmed_ends, lemma_trimmed_fixed,
    opt_text, slice_of, string_of, texts, trim_chars, trimmed,
};
use vstd::prelude::*;

verus! {

/// Highest number that is tried when a file name is already taken.
pub const MAX_SUFFIX: u64 = 9999;

/// Characters that may not stand in a file name.
pub open spec fn is_reserved(c: char) -> bool {
    c == '\\' || c == '/' || c == ':' || c == '*' || c == '?' || c == '"' || c == '<' || c == '>'
        || c == '|'
}

/// `s` with a hyphen in place of each reserved character.
pub open spec fn replace_reserved(s: Seq<char>) -> Seq<char> {
    Seq::new(
        s.len(),
        |i: int|
            if is_reserved(s[i]) {
                '-'
            } else {
                s[i]
            },
    )
}

/// The name given to a file for which no other name is known.
pub open spec fn default_name() -> Seq<char> {
    "download"@
}

/// The file name made from `s`: trimmed, reserved characters replaced, and the default
/// name where nothing is left.
pub open spec fn sanitized(s: Seq<char>) -> Seq<char> {
    let t = replace_reserved(trimmed(s));
    if t.len() == 0 {
        default_name()
    } else {
        t
    }
}

/// The default name holds eight characters, none of them reserved or whitespace.
pub proof fn lemma_default_name()
    ensures
        default_name().len() == 8,
        forall|i: int|
            0 <= i < 8 ==> !is_reserved(#[trigger] default_name()[i]) && !is_whitespace(
                default_name()[i],
            ),
{
    reveal_strlit("download");
    let d = default_name();
    assert(d[0] == 'd' && d[1] == 'o' && d[2] == 'w' && d[3] == 'n' && d[4] == 'l' && d[5] == 'o'
        && d[6] == 'a' && d[7] == 'd');
}

/// Sanitizing a sanitized name changes nothing, and no sanitized name is empty.
pub proof fn lemma_sanitize_idempotent(s: Seq<char>)
    ensures
        sanitized(s).len() > 0,
        sanitized(sanitized(s)) == sanitized(s),
{
    lemma_default_name();
    lemma_trimmed_ends(s);
    let r = sanitized(s);
    assert(r.len() > 0);
    assert forall|i: int| 0 <= i < r.len() implies !is_reserved(#[trigger] r[i]) by {}
    assert(!is_whitespace(r.first()) && !is_whitespace(r.last())) by {
        if replace_reserved(trimmed(s)).len() == 0 {
            assert(r.first() == default_name()[0]);
            assert(r.last() == default_name()[7]);
        }
    }
    lemma_trimmed_fixed(r);
    assert(replace_reserved(r) =~= r);
}

fn char_is_reserved(c: char) -> (b: bool)
    ensures
        b == is_reserved(c),
{
    c == '\\' || c == '/' || c == ':' || c == '*' || c == '?' || c == '"' || c == '<' || c == '>'
        || c == '|'
}

/// Makes a file name out of user input: surrounding whitespace goes, each of
/// `\ / : * ? " < > |` becomes `-`, and an empty result becomes `download`.
pub fn sanitize_file_name(input: &str) -> (r: String)
    ensures
        r@ == sanitized(input@),
        r@.len() > 0,
{
    let chars = chars_of(input);
    let t = trim_chars(&chars);
    let mut out: Vec<char> = Vec::new();
    let mut i: usize = 0;
    while i < t.len()
        invariant
            i <= t.len(),
            out@ == replace_reserved(t@).take(i as int),
        decreases t.len() - i,
    {
        let c = t[i];
        if char_is_reserved(c) {
            out.push('-');
        } else {
            out.push(c);
        }
        assert(out@ =~= replace_reserved(t@).take(i + 1));
        i += 1;
    }
    assert(out@ =~= replace_reserved(t@));
    proof {
        lemma_default_name();
    }
    if out.len() == 0 {
        "download".to_owned()
    } else {
        string_of(&out)
    }
}

/// Position of the last `.` in `s`, or -1 where there is none.
pub open spec fn last_dot(s: Seq<char>) -> int
    decreases s.len(),
{
    if s.len() == 0 {
        -1
    } else if s.last() == '.' {
        s.len() - 1
    } else {
        last_dot(s.drop_last())
    }
}

/// Names that denote no file: the empty name, `.` and `..`.
pub open spec fn is_bare(name: Seq<char>) -> bool {
    name.len() == 0 || (name.len() == 1 && name[0] == '.') || (name.len() == 2 && name[0] == '.'
        && name[1] == '.')
}

/// The part of `name` before its extension. A name has an extension where a `.` stands
/// behind its first character; the extension starts at the last such `.`.
pub open spec fn stem_of(name: Seq<char>) -> Seq<char> {
    if is_bare(name) {
        default_name()
    } else if last_dot(name) <= 0 {
        name
    } else {
        name.take(last_dot(name))
    }
}

/// The extension of `name` with its leading `.`, or nothing where it has none.
pub open spec fn dotted_extension_of(name: Seq<char>) -> Seq<char> {
    if is_bare(name) || last_dot(name) <= 0 {
        Seq::empty()
    } else {
        name.skip(last_dot(name))
    }
}

/// The `k`-th name tried for `name`: the name itself, then `stem (k).ext`.
pub open spec fn candidate_name(name: Seq<char>, k: nat) -> Seq<char> {
    if k == 0 {
        name
    } else {
        stem_of(name) + seq![' ', '('] + decimal(k) + seq![')'] + dotted_extension_of(name)
    }
}

/// `name` inside the directory `dir`.
pub open spec fn joined(dir: Seq<char>, name: Seq<char>) -> Seq<char> {
    if dir.len() == 0 {
        name
    } else if dir.last() == '/' {
        dir + name
    } else {
        dir.push('/') + name
    }
}

/// The `k`-th path tried for `name` in `dir`.
pub open spec fn candidate_path(dir: Seq<char>, name: Seq<char>, k: nat) -> Seq<char> {
    joined(dir, candidate_name(name, k))
}

/// The first number from `k` on whose candidate path is not taken; the highest number
/// where all of them are.
pub open spec fn first_free(dir: Seq<char>, name: Seq<char>, taken: Seq<Seq<char>>, k: nat) -> nat
    decreases MAX_SUFFIX - k,
{
    if k < MAX_SUFFIX && taken.contains(candidate_path(dir, name, k)) {
        first_free(dir, name, taken, k + 1)
    } else {
        k
    }
}

/// The file name chosen for `name` in `dir`, given the paths that are taken.
pub open spec fn unique_name(dir: Seq<char>, name: Seq<char>, taken: Seq<Seq<char>>) -> Seq<char> {
    candidate_name(name, first_free(dir, name, taken, 0))
}

/// The path chosen for `name` in `dir`, given the paths that are taken.
pub open spec fn unique_path(dir: Seq<char>, name: Seq<char>, taken: Seq<Seq<char>>) -> Seq<char> {
    candidate_path(dir, name, first_free(dir, name, taken, 0))
}

/// The path of the partial file that belongs to `save_path`.
pub open spec fn temp_path_of(save_path: Seq<char>) -> Seq<char> {
    save_path + ".part"@
}

/// `last_dot` is a position of `s` that holds a `.`, or -1.
pub proof fn lemma_last_dot(s: Seq<char>)
    ensures
        -1 <= last_dot(s) < s.len(),
        last_dot(s) >= 0 ==> s[last_dot(s)] == '.',
    decreases s.len(),
{
    if s.len() > 0 && s.last() != '.' {
        lemma_last_dot(s.drop_last());
    }
}

/// `first_free` skips taken candidates only, and stops at a free one or at the end.
pub proof fn lemma_first_free(dir: Seq<char>, name: Seq<char>, taken: Seq<Seq<char>>, k: nat)
    requires
        k <= MAX_SUFFIX,
    ensures
        k <= first_free(dir, name, taken, k) <= MAX_SUFFIX,
        forall|j: nat|
            k <= j < first_free(dir, name, taken, k) ==> taken.contains(
                #[trigger] candidate_path(dir, name, j),
            ),
        first_free(dir, name, taken, k) < MAX_SUFFIX ==> !taken.contains(
            candidate_path(dir, name, first_free(dir, name, taken, k)),
        ),
    decreases MAX_SUFFIX - k,
{
    if k < MAX_SUFFIX && taken.contains(candidate_path(dir, name, k)) {
        lemma_first_free(dir, name, taken, k + 1);
    }
}

/// The chosen path is not taken, as long as one of the candidates is free.
pub proof fn lemma_unique_path_is_free(dir: Seq<char>, name: Seq<char>, taken: Seq<Seq<char>>)
    requires
        exists|k: nat| k <= MAX_SUFFIX && !taken.contains(#[trigger] candidate_path(dir, name, k)),
    ensures
        !taken.contains(unique_path(dir, name, taken)),
{
    lemma_first_free(dir, name, taken, 0);
}

fn find_last_dot(v: &Vec<char>) -> (r: Option<usize>)
    ensures
        match r {
            Some(i) => i == last_dot(v@),
            None => last_dot(v@) == -1,
        },
{
    let mut j: usize = v.len();
    assert(v@.take(j as int) =~= v@);
    while j > 0
        invariant
            j <= v.len(),
            last_dot(v@) == last_dot(v@.take(j as int)),
        decreases j,
    {
        if v[j - 1] == '.' {
            return Some(j - 1);
        }
        assert(v@.take(j as int).drop_last() =~= v@.take(j - 1));
        j -= 1;
    }
    None
}

fn split_name(name: &Vec<char>) -> (r: (Vec<char>, Vec<char>))
    ensures
        r.0@ == stem_of(name@),
        r.1@ == dotted_extension_of(name@),
{
    let n = name.len();
    if n == 0 || (n == 1 && name[0] == '.') || (n == 2 && name[0] == '.' && name[1] == '.') {
        return (chars_of("download"), Vec::new());
    }
    proof {
        lemma_last_dot(name@);
    }
    match find_last_dot(name) {
        Some(i) => {
            if i == 0 {
                (slice_of(name, 0, n), Vec::new())
            } else {
                (slice_of(name, 0, i), slice_of(name, i, n))
            }
        },
        None => (slice_of(name, 0, n), Vec::new()),
    }
}

fn numbered_name(stem: &Vec<char>, ext: &Vec<char>, k: u64) -> (r: Vec<char>)
    ensures
        r@ == stem@ + seq![' ', '('] + decimal(k as nat) + seq![')'] + ext@,
{
    let mut r: Vec<char> = Vec::new();
    extend_chars(&mut r, stem);
    r.push(' ');
    r.push('(');
    push_decimal(&mut r, k);
    r.push(')');
    extend_chars(&mut r, ext);
    assert(r@ =~= stem@ + seq![' ', '('] + decimal(k as nat) + seq![')'] + ext@);
    r
}

fn join_chars(dir: &Vec<char>, name: &Vec<char>) -> (r: Vec<char>)
    ensures
        r@ == joined(dir@, name@),
{
    let mut r: Vec<char> = Vec::new();
    extend_chars(&mut r, dir);
    if dir.len() > 0 && dir[dir.len() - 1] != '/' {
        r.push('/');
    }
    extend_chars(&mut r, name);
    assert(r@ =~= joined(dir@, name@));
    r
}

fn pick_unique(dir: &Vec<char>, name: &Vec<char>, occupied: &Vec<String>) -> (r: (
    Vec<char>,
    Vec<char>,
))
    ensures
        r.0@ == unique_path(dir@, name@, texts(occupied@)),
        r.1@ == unique_name(dir@, name@, texts(occupied@)),
{
    let ghost taken = texts(occupied@);
    let first = join_chars(dir, name);
    if !is_listed(occupied, &string_of(&first)) {
        return (first, slice_of(name, 0, name.len()));
    }
    let (stem, ext) = split_name(name);
    let mut k: u64 = 1;
    while k < MAX_SUFFIX
        invariant
            1 <= k <= MAX_SUFFIX,
            taken == texts(occupied@),
            stem@ == stem_of(name@),
            ext@ == dotted_extension_of(name@),
            first_free(dir@, name@, taken, 0) == first_free(dir@, name@, taken, k as nat),
        decreases MAX_SUFFIX - k,
    {
        let chosen = numbered_name(&stem, &ext, k);
        let path = join_chars(dir, &chosen);
        if !is_listed(occupied, &string_of(&path)) {
            return (path, chosen);
        }
        k += 1;
    }
    let chosen = numbered_name(&stem, &ext, MAX_SUFFIX);
    (join_chars(dir, &chosen), chosen)
}

/// `name` inside the directory `dir`, the two joined by one `/`.
pub fn join_path(dir: &str, name: &str) -> (r: String)
    ensures
        r@ == joined(dir@, name@),
{
    string_of(&join_chars(&chars_of(dir), &chars_of(name)))
}

/// Picks a path for `file_name` in `directory` that is not among the `occupied` paths:
/// `directory/file_name` itself, else the first free one of `directory/stem (k).ext` for
/// `k` from 1 to 9999, else the last of these.
pub fn build_unique_path(directory: &str, file_name: &str, occupied: &Vec<String>) -> (r: String)
    ensures
        r@ == unique_path(directory@, file_name@, texts(occupied@)),
        (exists|k: nat|
            k <= MAX_SUFFIX && !texts(occupied@).contains(
                #[trigger] candidate_path(directory@, file_name@, k),
            )) ==> !texts(occupied@).contains(r@),
{
    let picked = pick_unique(&chars_of(directory), &chars_of(file_name), occupied);
    proof {
        if exists|k: nat|
            k <= MAX_SUFFIX && !texts(occupied@).contains(
                #[trigger] candidate_path(directory@, file_name@, k),
            ) {
            lemma_unique_path_is_free(directory@, file_name@, texts(occupied@));
        }
    }
    string_of(&picked.0)
}

/// The file name that [`build_unique_path`] gives the file, without its directory.
pub fn build_unique_name(directory: &str, file_name: &str, occupied: &Vec<String>) -> (r: String)
    ensures
        r@ == unique_name(directory@, file_name@, texts(occupied@)),
{
    let picked = pick_unique(&chars_of(directory), &chars_of(file_name), occupied);
    string_of(&picked.1)
}

/// The path of the partial file for `save_path`: `.part` is appended, nothing replaced.
pub fn temp_path_for(save_path: &str) -> (r: String)
    ensures
        r@ == temp_path_of(save_path@),
{
    let mut r = save_path.to_owned();
    r.append(".part");
    r
}

/// The directory that a download goes to: the one asked for, else the downloads
/// directory of the system, else `Downloads` under the home directory.
pub open spec fn resolved_directory(
    explicit: Option<Seq<char>>,
    system_downloads: Option<Seq<char>>,
    home: Option<Seq<char>>,
) -> Option<Seq<char>> {
    match (explicit, system_downloads, home) {
        (Some(d), _, _) => Some(d),
        (None, Some(d), _) => Some(d),
        (None, None, Some(h)) => Some(joined(h, "Downloads"@)),
        (None, None, None) => None,
    }
}

/// Chooses the target directory by precedence; fails where none of the three is known.
pub fn resolve_download_directory(
    explicit: Option<String>,
    system_downloads: Option<String>,
    home: Option<String>,
) -> (r: Result<String, String>)
    ensures
        match resolved_directory(opt_text(explicit), opt_text(system_downloads), opt_text(home)) {
            Some(d) => r is Ok && r->Ok_0@ == d,
            None => r is Err && r->Err_0@ == "Unable to resolve a download directory"@,
        },
{
    if let Some(d) = explicit {
        return Ok(d);
    }
    if let Some(d) = system_downloads {
        return Ok(d);
    }
    if let Some(h) = home {
        return Ok(join_path(h.as_str(), "Downloads"));
    }
    Err("Unable to resolve a download directory".to_owned())
}

} // verus!
