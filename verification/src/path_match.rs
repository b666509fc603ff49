use vstd::prelude::*;

verus! {

/// Whether `std::path::Path` considers the two paths equal (component by
/// component, by the platform's rules).
pub uninterp spec fn path_components_equal(a: Seq<char>, b: Seq<char>) -> bool;

/// Whether `std::path::Path::starts_with` holds: the components of `base` are
/// a prefix of those of `path` (by the platform's rules).
pub uninterp spec fn path_has_prefix(path: Seq<char>, base: Seq<char>) -> bool;

/// The Unicode lowercase mapping that `str::to_lowercase` applies.
pub uninterp spec fn unicode_lowercase(s: Seq<char>) -> Seq<char>;

/// Calls `PartialEq` of `std::path::Path`: equal component by component. A path
/// equals itself.
#[verifier::external_body]
fn paths_equal(a: &str, b: &str) -> (r: bool)
    ensures
        r == path_components_equal(a@, b@),
        a@ == b@ ==> r,
{
    std::path::Path::new(a) == std::path::Path::new(b)
}

/// Calls `std::path::Path::starts_with`: only whole components match. A path
/// starts with itself.
#[verifier::external_body]
fn path_starts_with(path: &str, base: &str) -> (r: bool)
    ensures
        r == path_has_prefix(path@, base@),
        path@ == base@ ==> r,
{
    std::path::Path::new(path).starts_with(base)
}

/// Calls `str::to_lowercase`.
#[verifier::external_body]
fn to_lowercase(s: &str) -> (r: String)
    ensures
        r@ == unicode_lowercase(s@),
{
    s.to_lowercase()
}

/// Whether `source` lies strictly inside `root`: its components start with
/// those of `root` and it is not `root` itself. Only whole components count, so
/// a sibling whose name merely begins with the root's text is outside.
pub fn source_within_root(root: &str, source: &str) -> (r: bool)
    ensures
        r == (path_has_prefix(source@, root@) && !path_components_equal(source@, root@)),
        source@ == root@ ==> !r,
{
    path_starts_with(source, root) && !paths_equal(source, root)
}

/// `s` without trailing `\` and `/` characters.
pub open spec fn trim_trailing_separators(s: Seq<char>) -> Seq<char>
    decreases s.len(),
{
    if s.len() > 0 && (s.last() == '\\' || s.last() == '/') {
        trim_trailing_separators(s.drop_last())
    } else {
        s
    }
}

/// `prefix` is a prefix of `s`.
pub open spec fn has_prefix(s: Seq<char>, prefix: Seq<char>) -> bool {
    prefix.len() <= s.len() && s.take(prefix.len() as int) == prefix
}

/// The Windows rule: compared in lowercase, the stored path is the event path
/// (without trailing separators) or lies below it after a `\` or `/`.
pub open spec fn windows_descends(stored: Seq<char>, event: Seq<char>) -> bool {
    let s = unicode_lowercase(stored);
    let e = trim_trailing_separators(unicode_lowercase(event));
    s == e || has_prefix(s, e.push('\\')) || has_prefix(s, e.push('/'))
}

/// The stored path is the event path or lies below it: equal or prefixed as
/// paths, or, under Windows rules, by the case-insensitive text rule.
pub open spec fn matches_or_descends(stored: Seq<char>, event: Seq<char>, windows_rules: bool) -> bool {
    ||| path_components_equal(stored, event)
    ||| path_has_prefix(stored, event)
    ||| (windows_rules && windows_descends(stored, event))
}

fn trim_separators_end(s: &Vec<char>) -> (r: Vec<char>)
    ensures
        r@ == trim_trailing_separators(s@),
{
    let mut n = s.len();
    assert(s@.take(n as int) == s@);
    while n > 0 && (s[n - 1] == '\\' || s[n - 1] == '/')
        invariant
            n <= s@.len(),
            trim_trailing_separators(s@) == trim_trailing_separators(s@.take(n as int)),
        decreases n,
    {
        assert(s@.take(n as int).drop_last() == s@.take(n - 1));
        n = n - 1;
    }
    let mut out: Vec<char> = Vec::new();
    let mut i: usize = 0;
    while i < n
        invariant
            n <= s@.len(),
            i <= n,
            out@ == s@.take(i as int),
        decreases n - i,
    {
        out.push(s[i]);
        assert(s@.take((i + 1) as int) == s@.take(i as int).push(s@[i as int]));
        i = i + 1;
    }
    out
}

fn starts_with_chars(s: &Vec<char>, prefix: &Vec<char>) -> (r: bool)
    ensures
        r == has_prefix(s@, prefix@),
{
    if prefix.len() > s.len() {
        return false;
    }
    let mut i: usize = 0;
    while i < prefix.len()
        invariant
            prefix@.len() <= s@.len(),
            i <= prefix@.len(),
            forall|j: int| 0 <= j < i ==> s@[j] == prefix@[j],
        decreases prefix@.len() - i,
    {
        if s[i] != prefix[i] {
            return false;
        }
        i = i + 1;
    }
    assert(s@.take(prefix@.len() as int) == prefix@);
    true
}

fn chars_of(s: &str) -> (r: Vec<char>)
    ensures
        r@ == s@,
{
    let n = s.unicode_len();
    let mut out: Vec<char> = Vec::new();
    let mut i: usize = 0;
    while i < n
        invariant
            n == s@.len(),
            i <= n,
            out@ == s@.take(i as int),
        decreases n - i,
    {
        out.push(s.get_char(i));
        assert(s@.take((i + 1) as int) == s@.take(i as int).push(s@[i as int]));
        i = i + 1;
    }
    assert(s@.take(n as int) == s@);
    out
}

fn vec_chars_equal(a: &Vec<char>, b: &Vec<char>) -> (r: bool)
    ensures
        r == (a@ == b@),
{
    if a.len() != b.len() {
        return false;
    }
    let r = starts_with_chars(a, b);
    proof {
        assert(a@.take(b@.len() as int) == a@);
    }
    r
}

/// Whether the stored path of an index entry is `event_path` or lies below it,
/// so that an event on `event_path` concerns it. `windows_rules` adds the
/// case-insensitive comparison that Windows paths need.
pub fn path_matches_or_descends(stored_path: &str, event_path: &str, windows_rules: bool) -> (r: bool)
    ensures
        r == matches_or_descends(stored_path@, event_path@, windows_rules),
        stored_path@ == event_path@ ==> r,
{
    if paths_equal(stored_path, event_path) || path_starts_with(stored_path, event_path) {
        return true;
    }
    if !windows_rules {
        return false;
    }
    let stored = chars_of(to_lowercase(stored_path).as_str());
    let event = trim_separators_end(&chars_of(to_lowercase(event_path).as_str()));
    let mut with_backslash = event.clone();
    with_backslash.push('\\');
    let mut with_slash = event.clone();
    with_slash.push('/');
    vec_chars_equal(&stored, &event) || starts_with_chars(&stored, &with_backslash)
        || starts_with_chars(&stored, &with_slash)
}

/// The ids of the stored entries `(id, path)` whose path is `event_path` or
/// lies below it, in order.
pub open spec fn matching_ids(rows: Seq<(i64, String)>, event_path: Seq<char>, windows_rules: bool) -> Seq<i64>
    decreases rows.len(),
{
    if rows.len() == 0 {
        Seq::empty()
    } else {
        let rest = matching_ids(rows.drop_last(), event_path, windows_rules);
        if matches_or_descends(rows.last().1@, event_path, windows_rules) {
            rest.push(rows.last().0)
        } else {
            rest
        }
    }
}

/// The ids of the stored entries that an event on `event_path` concerns.
pub fn entries_at_or_below(rows: &Vec<(i64, String)>, event_path: &str, windows_rules: bool) -> (r: Vec<i64>)
    ensures
        r@ == matching_ids(rows@, event_path@, windows_rules),
{
    let mut ids: Vec<i64> = Vec::new();
    let mut i: usize = 0;
    while i < rows.len()
        invariant
            i <= rows@.len(),
            ids@ == matching_ids(rows@.take(i as int), event_path@, windows_rules),
        decreases rows@.len() - i,
    {
        assert(rows@.take((i + 1) as int).drop_last() == rows@.take(i as int));
        if path_matches_or_descends(rows[i].1.as_str(), event_path, windows_rules) {
            ids.push(rows[i].0);
        }
        i = i + 1;
    }
    assert(rows@.take(rows@.len() as int) == rows@);
    ids
}

/// The Windows rules only add matches: what matches without them matches with them.
pub proof fn lemma_windows_rules_only_add_matches(stored: Seq<char>, event: Seq<char>)
    ensures
        matches_or_descends(stored, event, false) ==> matches_or_descends(stored, event, true),
{
}

/// A stored path below the event path by whole components matches, with or
/// without the Windows rules.
pub proof fn lemma_descendants_match(stored: Seq<char>, event: Seq<char>, windows_rules: bool)
    requires
        path_has_prefix(stored, event),
    ensures
        matches_or_descends(stored, event, windows_rules),
{
}

} // verus!
