use vstd::prelude::*;

verus! {

/// The separator that every key uses.
pub open spec fn canonical_separator() -> char {
    '/'
}

/// A character that separates path components: `/` everywhere, and `\`
/// too on platforms where it is a separator. Elsewhere `\` is an ordinary
/// character of a file name.
pub open spec fn is_separator(backslash_separates: bool, c: char) -> bool {
    c == '/' || (backslash_separates && c == '\\')
}

/// A character of a key: every separator becomes the canonical one.
pub open spec fn key_char(backslash_separates: bool, c: char) -> char {
    if is_separator(backslash_separates, c) {
        canonical_separator()
    } else {
        c
    }
}

/// The key of a resolved path: the same characters, with each separator
/// rewritten to the canonical one.
pub open spec fn key_of(backslash_separates: bool, p: Seq<char>) -> Seq<char> {
    Seq::new(p.len(), |i: int| key_char(backslash_separates, p[i]))
}

/// Whether a text is already a key.
pub open spec fn is_key(backslash_separates: bool, k: Seq<char>) -> bool {
    key_of(backslash_separates, k) == k
}

/// Builds the key of a path that has already been resolved to its
/// canonical absolute form (or kept as given when it could not be).
pub fn project_key(backslash_separates: bool, resolved: &str) -> (r: String)
    ensures
        r@ == key_of(backslash_separates, resolved@),
{
    let n = resolved.unicode_len();
    let mut out = String::new();
    let mut i: usize = 0;
    while i < n
        invariant
            n == resolved@.len(),
            i <= n,
            out@ == key_of(backslash_separates, resolved@.subrange(0, i as int)),
        decreases n - i,
    {
        let c = resolved.get_char(i);
        if c == '/' || (backslash_separates && c == '\\') {
            out.append("/");
        } else {
            out.append(resolved.substring_char(i, i + 1));
        }
        proof {
            reveal_strlit("/");
            assert(key_of(backslash_separates, resolved@.subrange(0, i + 1)) =~= key_of(
                backslash_separates,
                resolved@.subrange(0, i as int),
            ).push(key_char(backslash_separates, c)));
        }
        i = i + 1;
    }
    assert(resolved@.subrange(0, n as int) =~= resolved@);
    out
}

/// The view of an optional path.
pub open spec fn opt_view(o: Option<&str>) -> Option<Seq<char>> {
    match o {
        Some(c) => Some(c@),
        None => None,
    }
}

/// The key of a project root: its canonical form when the path could be
/// resolved, else the path as given; separators rewritten either way.
pub open spec fn root_key(
    backslash_separates: bool,
    resolved: Option<Seq<char>>,
    given: Seq<char>,
) -> Seq<char> {
    match resolved {
        Some(c) => key_of(backslash_separates, c),
        None => key_of(backslash_separates, given),
    }
}

/// Builds the key of a project root from the result of resolving it
/// (`None` when resolution failed) and the path as the caller gave it.
pub fn project_root_key(backslash_separates: bool, resolved: Option<&str>, given: &str) -> (r: String)
    ensures
        r@ == root_key(backslash_separates, opt_view(resolved), given@),
        is_key(backslash_separates, r@),
{
    let r = match resolved {
        Some(c) => project_key(backslash_separates, c),
        None => project_key(backslash_separates, given),
    };
    proof {
        match resolved {
            Some(c) => lemma_key_idempotent(backslash_separates, c@),
            None => lemma_key_idempotent(backslash_separates, given@),
        }
    }
    r
}

/// Normalising a key again gives the same key.
pub proof fn lemma_key_idempotent(backslash_separates: bool, p: Seq<char>)
    ensures
        key_of(backslash_separates, key_of(backslash_separates, p)) == key_of(backslash_separates, p),
{
    assert(key_of(backslash_separates, key_of(backslash_separates, p)) =~= key_of(
        backslash_separates,
        p,
    ));
}

/// Where `\` is no separator, the key is the resolved path itself, so two
/// distinct resolved paths never share a key.
pub proof fn lemma_key_exact_without_backslash(a: Seq<char>, b: Seq<char>)
    ensures
        key_of(false, a) == a,
        key_of(false, a) == key_of(false, b) ==> a == b,
{
    assert(key_of(false, a) =~= a);
    assert(key_of(false, b) =~= b);
}

/// Two spellings of a path that differ only in which separator they use
/// give the same key.
pub proof fn lemma_key_ignores_separator_spelling(backslash_separates: bool, a: Seq<char>, b: Seq<char>)
    requires
        a.len() == b.len(),
        forall|i: int|
            0 <= i < a.len() ==> a[i] == b[i] || (is_separator(backslash_separates, a[i])
                && is_separator(backslash_separates, b[i])),
    ensures
        key_of(backslash_separates, a) == key_of(backslash_separates, b),
{
    assert(key_of(backslash_separates, a) =~= key_of(backslash_separates, b));
}

/// Two spellings that resolve to the same canonical location (absolute or
/// relative, through a link or not) give the same key, whatever separators
/// the resolved forms use.
pub proof fn lemma_same_location_same_key(
    backslash_separates: bool,
    ra: Seq<char>,
    ga: Seq<char>,
    rb: Seq<char>,
    gb: Seq<char>,
)
    requires
        ra.len() == rb.len(),
        forall|i: int|
            0 <= i < ra.len() ==> ra[i] == rb[i] || (is_separator(backslash_separates, ra[i])
                && is_separator(backslash_separates, rb[i])),
    ensures
        root_key(backslash_separates, Some(ra), ga) == root_key(backslash_separates, Some(rb), gb),
{
    lemma_key_ignores_separator_spelling(backslash_separates, ra, rb);
}

} // verus!
