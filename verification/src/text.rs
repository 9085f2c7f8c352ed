use vstd::prelude::*;

verus! {

/// Unicode `White_Space` characters, the set that `str::trim` removes.
pub open spec fn is_unicode_whitespace(c: char) -> bool {
    let n = c as u32;
    (0x09 <= n && n <= 0x0D) || n == 0x20 || n == 0x85 || n == 0xA0 || n == 0x1680
        || (0x2000 <= n && n <= 0x200A) || n == 0x2028 || n == 0x2029 || n == 0x202F
        || n == 0x205F || n == 0x3000
}

/// `s` with its leading white space removed.
pub open spec fn trim_start_spec(s: Seq<char>) -> Seq<char>
    decreases s.len(),
{
    if s.len() > 0 && is_unicode_whitespace(s[0]) {
        trim_start_spec(s.drop_first())
    } else {
        s
    }
}

/// `s` with its trailing white space removed.
pub open spec fn trim_end_spec(s: Seq<char>) -> Seq<char>
    decreases s.len(),
{
    if s.len() > 0 && is_unicode_whitespace(s.last()) {
        trim_end_spec(s.drop_last())
    } else {
        s
    }
}

/// `s` with leading and trailing white space removed.
pub open spec fn trim_spec(s: Seq<char>) -> Seq<char> {
    trim_end_spec(trim_start_spec(s))
}

/// One character mapped to ASCII lower case; other characters are kept.
pub open spec fn ascii_lower_char(c: char) -> char {
    if 'A' <= c && c <= 'Z' {
        ((c as u32) + 32) as char
    } else {
        c
    }
}

/// Every ASCII upper-case letter of `s` mapped to lower case.
pub open spec fn ascii_lower_spec(s: Seq<char>) -> Seq<char> {
    s.map_values(|c: char| ascii_lower_char(c))
}

/// `trim_start_spec` drops a prefix and leaves no white space in front.
proof fn lemma_trim_start_shape(s: Seq<char>)
    ensures
        exists|k: int| 0 <= k <= s.len() && trim_start_spec(s) == s.subrange(k, s.len() as int),
        trim_start_spec(s).len() > 0 ==> !is_unicode_whitespace(trim_start_spec(s)[0]),
    decreases s.len(),
{
    if s.len() > 0 && is_unicode_whitespace(s[0]) {
        lemma_trim_start_shape(s.drop_first());
        let k = choose|k: int|
            0 <= k <= s.drop_first().len() && trim_start_spec(s.drop_first()) == s.drop_first().subrange(
                k,
                s.drop_first().len() as int,
            );
        assert(s.drop_first().subrange(k, s.drop_first().len() as int) =~= s.subrange(k + 1, s.len() as int));
    } else {
        assert(s.subrange(0, s.len() as int) =~= s);
    }
}

/// `trim_end_spec` keeps a prefix and leaves no white space at the end.
proof fn lemma_trim_end_shape(s: Seq<char>)
    ensures
        exists|m: int| 0 <= m <= s.len() && trim_end_spec(s) == s.subrange(0, m),
        trim_end_spec(s).len() > 0 ==> !is_unicode_whitespace(trim_end_spec(s).last()),
    decreases s.len(),
{
    if s.len() > 0 && is_unicode_whitespace(s.last()) {
        lemma_trim_end_shape(s.drop_last());
        let m = choose|m: int|
            0 <= m <= s.drop_last().len() && trim_end_spec(s.drop_last()) == s.drop_last().subrange(0, m);
        assert(s.drop_last().subrange(0, m) =~= s.subrange(0, m));
    } else {
        assert(s.subrange(0, s.len() as int) =~= s);
    }
}

/// A trimmed text starts and ends with a character other than white space.
pub proof fn lemma_trim_shape(s: Seq<char>)
    ensures
        trim_spec(s).len() > 0 ==> !is_unicode_whitespace(trim_spec(s)[0])
            && !is_unicode_whitespace(trim_spec(s).last()),
{
    let t = trim_start_spec(s);
    lemma_trim_start_shape(s);
    lemma_trim_end_shape(t);
    let m = choose|m: int| 0 <= m <= t.len() && trim_end_spec(t) == t.subrange(0, m);
    if trim_spec(s).len() > 0 {
        assert(trim_spec(s)[0] == t[0]);
    }
}

/// Lowering ASCII letters neither makes nor removes white space.
pub proof fn lemma_lower_keeps_whitespace(c: char)
    ensures
        is_unicode_whitespace(ascii_lower_char(c)) == is_unicode_whitespace(c),
{
    if 'A' <= c && c <= 'Z' {
        assert(65 <= (c as u32) <= 90);
        assert((((c as u32) + 32) as char) as u32 == (c as u32) + 32);
    }
}

/// Lowering ASCII letters twice is lowering them once.
pub proof fn lemma_lower_idempotent(s: Seq<char>)
    ensures
        ascii_lower_spec(ascii_lower_spec(s)) == ascii_lower_spec(s),
{
    assert forall|i: int| 0 <= i < s.len() implies ascii_lower_char(ascii_lower_char(s[i])) == ascii_lower_char(
        s[i],
    ) by {
        let c = s[i];
        if 'A' <= c && c <= 'Z' {
            assert(65 <= (c as u32) <= 90);
            assert((((c as u32) + 32) as char) as u32 == (c as u32) + 32);
        }
    }
    assert(ascii_lower_spec(ascii_lower_spec(s)) =~= ascii_lower_spec(s));
}

/// Lowering a trimmed text leaves it trimmed.
pub proof fn lemma_lower_trimmed(t: Seq<char>)
    requires
        t.len() > 0 ==> !is_unicode_whitespace(t[0]) && !is_unicode_whitespace(t.last()),
    ensures
        trim_spec(ascii_lower_spec(t)) == ascii_lower_spec(t),
{
    let x = ascii_lower_spec(t);
    if t.len() > 0 {
        lemma_lower_keeps_whitespace(t[0]);
        lemma_lower_keeps_whitespace(t.last());
        assert(x[0] == ascii_lower_char(t[0]));
        assert(x.last() == ascii_lower_char(t.last()));
        assert(trim_start_spec(x) == x);
    }
}

/// Calls `str::trim`, which removes leading and trailing Unicode white space.
#[verifier::external_body]
pub(crate) fn trim_text(s: &str) -> (r: &str)
    ensures
        r@ == trim_spec(s@),
{
    s.trim()
}

/// Calls `str::to_ascii_lowercase`, which maps `A`..`Z` to `a`..`z` and keeps
/// every other character.
#[verifier::external_body]
pub(crate) fn ascii_lowercase(s: &str) -> (r: String)
    ensures
        r@ == ascii_lower_spec(s@),
{
    s.to_ascii_lowercase()
}

} // verus!
