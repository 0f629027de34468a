use vstd::prelude::*;

verus! {

/// Unicode `White_Space`: the characters that `char::is_whitespace` accepts and
/// that `str::trim` removes.
pub open spec fn is_white_space(c: char) -> bool {
    let u = c as u32;
    ||| (0x9 <= u && u <= 0xd)
    ||| u == 0x20
    ||| u == 0x85
    ||| u == 0xa0
    ||| u == 0x1680
    ||| (0x2000 <= u && u <= 0x200a)
    ||| u == 0x2028
    ||| u == 0x2029
    ||| u == 0x202f
    ||| u == 0x205f
    ||| u == 0x3000
}

/// Number of white-space characters at the front of `s`.
pub open spec fn leading_white_space(s: Seq<char>) -> nat
    decreases s.len(),
{
    if s.len() > 0 && is_white_space(s[0]) {
        1 + leading_white_space(s.drop_first())
    } else {
        0
    }
}

/// Number of white-space characters at the back of `s`.
pub open spec fn trailing_white_space(s: Seq<char>) -> nat
    decreases s.len(),
{
    if s.len() > 0 && is_white_space(s.last()) {
        1 + trailing_white_space(s.drop_last())
    } else {
        0
    }
}

/// `s` without its leading white space.
pub open spec fn trim_start(s: Seq<char>) -> Seq<char> {
    s.skip(leading_white_space(s) as int)
}

/// `s` without its trailing white space.
pub open spec fn trim_end(s: Seq<char>) -> Seq<char> {
    s.take(s.len() - trailing_white_space(s))
}

/// `s` without leading and trailing white space, as `str::trim` gives it.
pub open spec fn trimmed(s: Seq<char>) -> Seq<char> {
    trim_end(trim_start(s))
}

pub proof fn lemma_leading_white_space_bound(s: Seq<char>)
    ensures
        leading_white_space(s) <= s.len(),
    decreases s.len(),
{
    if s.len() > 0 && is_white_space(s[0]) {
        lemma_leading_white_space_bound(s.drop_first());
    }
}

pub proof fn lemma_trailing_white_space_bound(s: Seq<char>)
    ensures
        trailing_white_space(s) <= s.len(),
    decreases s.len(),
{
    if s.len() > 0 && is_white_space(s.last()) {
        lemma_trailing_white_space_bound(s.drop_last());
    }
}

/// Whether every character of `s` is ASCII.
pub open spec fn all_ascii(s: Seq<char>) -> bool {
    forall|i: int| 0 <= i < s.len() ==> (#[trigger] s[i] as u32) < 128
}

/// `c` with an ASCII capital letter turned into its small letter.
pub open spec fn ascii_lower_char(c: char) -> char {
    let u = c as u32;
    if 0x41 <= u && u <= 0x5a {
        (u + 32) as char
    } else {
        c
    }
}

/// `s` with every ASCII capital letter turned into its small letter.
pub open spec fn ascii_lower(s: Seq<char>) -> Seq<char> {
    Seq::new(s.len(), |i: int| ascii_lower_char(s[i]))
}

/// The characters of `trimmed(s)` are those of `s` from its first
/// non-white-space character on.
proof fn lemma_trimmed_elements(s: Seq<char>)
    ensures
        leading_white_space(s) + trimmed(s).len() <= s.len(),
        forall|i: int|
            0 <= i < trimmed(s).len() ==> #[trigger] trimmed(s)[i] == s[i + leading_white_space(
                s,
            )],
{
    lemma_leading_white_space_bound(s);
    lemma_trailing_white_space_bound(trim_start(s));
}

proof fn lemma_leading_ascii_lower(s: Seq<char>)
    ensures
        leading_white_space(ascii_lower(s)) == leading_white_space(s),
    decreases s.len(),
{
    if s.len() > 0 {
        assert(ascii_lower(s).drop_first() =~= ascii_lower(s.drop_first()));
        lemma_leading_ascii_lower(s.drop_first());
    }
}

proof fn lemma_trailing_ascii_lower(s: Seq<char>)
    ensures
        trailing_white_space(ascii_lower(s)) == trailing_white_space(s),
    decreases s.len(),
{
    if s.len() > 0 {
        assert(ascii_lower(s).drop_last() =~= ascii_lower(s.drop_last()));
        lemma_trailing_ascii_lower(s.drop_last());
    }
}

/// Trimming and lowering ASCII letters can be done in either order.
proof fn lemma_trim_ascii_lower(s: Seq<char>)
    ensures
        trimmed(ascii_lower(s)) == ascii_lower(trimmed(s)),
{
    lemma_leading_ascii_lower(s);
    lemma_leading_white_space_bound(s);
    let rest = trim_start(s);
    assert(trim_start(ascii_lower(s)) =~= ascii_lower(rest));
    lemma_trailing_ascii_lower(rest);
    lemma_trailing_white_space_bound(rest);
    assert(trim_end(ascii_lower(rest)) =~= ascii_lower(trim_end(rest)));
}

/// Two e-mail addresses in ASCII that differ only in the case of their
/// letters normalize alike, as far as lowering ASCII letters goes.
pub proof fn ascii_case_does_not_change_trimmed_lowering(a: Seq<char>, b: Seq<char>)
    requires
        ascii_lower(a) == ascii_lower(b),
    ensures
        ascii_lower(trimmed(a)) == ascii_lower(trimmed(b)),
{
    lemma_trim_ascii_lower(a);
    lemma_trim_ascii_lower(b);
}

proof fn lemma_leading_white_space_all(s: Seq<char>)
    ensures
        (leading_white_space(s) == s.len()) <==> (forall|i: int|
            0 <= i < s.len() ==> is_white_space(#[trigger] s[i])),
        leading_white_space(s) < s.len() ==> !is_white_space(s[leading_white_space(s) as int]),
    decreases s.len(),
{
    lemma_leading_white_space_bound(s);
    if s.len() > 0 {
        let t = s.drop_first();
        lemma_leading_white_space_all(t);
        if is_white_space(s[0]) {
            assert forall|i: int| 1 <= i < s.len() implies (#[trigger] s[i]) == t[i - 1] by {}
            if forall|i: int| 0 <= i < t.len() ==> is_white_space(#[trigger] t[i]) {
                assert forall|i: int| 0 <= i < s.len() implies is_white_space(#[trigger] s[i]) by {
                    if i > 0 {
                        assert(s[i] == t[i - 1]);
                    }
                }
            } else {
                let j = choose|j: int| 0 <= j < t.len() && !is_white_space(#[trigger] t[j]);
                assert(s[j + 1] == t[j]);
            }
        }
    }
}

proof fn lemma_trailing_white_space_all(s: Seq<char>)
    ensures
        (trailing_white_space(s) == s.len()) ==> (forall|i: int|
            0 <= i < s.len() ==> is_white_space(#[trigger] s[i])),
        trailing_white_space(s) < s.len() ==> !is_white_space(
            s[s.len() - 1 - trailing_white_space(s)],
        ),
    decreases s.len(),
{
    lemma_trailing_white_space_bound(s);
    if s.len() > 0 && is_white_space(s.last()) {
        let t = s.drop_last();
        lemma_trailing_white_space_all(t);
        assert forall|i: int| 0 <= i < t.len() implies (#[trigger] s[i]) == t[i] by {}
    }
}

/// Trimming leaves nothing exactly when the text is white space only.
pub proof fn trimmed_is_empty_exactly_for_white_space(s: Seq<char>)
    ensures
        (trimmed(s).len() == 0) <==> (forall|i: int|
            0 <= i < s.len() ==> is_white_space(#[trigger] s[i])),
{
    lemma_leading_white_space_all(s);
    lemma_leading_white_space_bound(s);
    let rest = trim_start(s);
    lemma_trailing_white_space_all(rest);
    lemma_trailing_white_space_bound(rest);
    if leading_white_space(s) < s.len() {
        assert(rest[0] == s[leading_white_space(s) as int]);
        assert(!is_white_space(rest[0]));
        assert(trailing_white_space(rest) < rest.len());
        assert(trimmed(s).len() > 0);
        assert(!is_white_space(s[leading_white_space(s) as int]));
    } else {
        assert(rest.len() == 0);
        assert(trimmed(s).len() == 0);
    }
}

/// Text that neither starts nor ends with white space is left as it is by
/// trimming.
pub proof fn trimming_keeps_text_without_outer_white_space(s: Seq<char>)
    requires
        s.len() > 0,
        !is_white_space(s[0]),
        !is_white_space(s.last()),
    ensures
        trimmed(s) == s,
{
    assert(leading_white_space(s) == 0);
    assert(trim_start(s) =~= s);
    assert(trailing_white_space(s) == 0);
    assert(trimmed(s) =~= s);
}

/// What trimming leaves is a stretch of the text that neither starts nor
/// ends with white space.
pub proof fn trimmed_has_no_outer_white_space(s: Seq<char>)
    ensures
        trimmed(s).len() <= s.len(),
        trimmed(s).len() > 0 ==> !is_white_space(trimmed(s)[0]) && !is_white_space(
            trimmed(s).last(),
        ),
        forall|i: int|
            0 <= i < trimmed(s).len() ==> #[trigger] trimmed(s)[i] == s[i + leading_white_space(s)],
{
    lemma_trimmed_elements(s);
    lemma_leading_white_space_all(s);
    let rest = trim_start(s);
    lemma_trailing_white_space_all(rest);
    lemma_trailing_white_space_bound(rest);
    if trimmed(s).len() > 0 {
        assert(trimmed(s)[0] == rest[0]);
        assert(rest[0] == s[leading_white_space(s) as int]);
        assert(trimmed(s).last() == rest[rest.len() - 1 - trailing_white_space(rest)]);
    }
}

/// Whether `c` is white space.
pub fn white_space(c: char) -> (r: bool)
    ensures
        r == is_white_space(c),
{
    let u = c as u32;
    (0x9 <= u && u <= 0xd) || u == 0x20 || u == 0x85 || u == 0xa0 || u == 0x1680 || (0x2000 <= u
        && u <= 0x200a) || u == 0x2028 || u == 0x2029 || u == 0x202f || u == 0x205f || u == 0x3000
}

/// The characters of `s`, in order.
pub fn chars_of(s: &str) -> (v: Vec<char>)
    ensures
        v@ == s@,
{
    let mut v: Vec<char> = Vec::new();
    for c in it: s.chars()
        invariant
            v@ == it.seq().take(it.index() as int),
            it.seq() == s@,
    {
        v.push(c);
    }
    v
}

/// The number of characters in `s`.
pub fn char_count(s: &str) -> (n: usize)
    ensures
        n == s@.len(),
{
    chars_of(s).len()
}

/// `s` with leading and trailing white space removed.
pub fn trim(s: &str) -> (r: &str)
    ensures
        r@ == trimmed(s@),
{
    let v = chars_of(s);
    let n = v.len();
    let ghost whole = s@;
    let mut i: usize = 0;
    assert(whole.skip(0) =~= whole);
    while i < n && white_space(v[i])
        invariant
            v@ == whole,
            n == whole.len(),
            i <= n,
            leading_white_space(whole) == i + leading_white_space(whole.skip(i as int)),
        decreases n - i,
    {
        assert(whole.skip(i as int).drop_first() =~= whole.skip(i + 1));
        i = i + 1;
    }
    let ghost rest = whole.skip(i as int);
    assert(leading_white_space(rest) == 0);
    assert(trim_start(whole) == rest);
    let mut j: usize = n - i;
    let ghost m = (n - i) as int;
    assert(rest.take(m) =~= rest);
    while j > 0 && white_space(v[i + j - 1])
        invariant
            v@ == whole,
            n == whole.len(),
            i <= n,
            rest == whole.skip(i as int),
            m == n - i,
            j <= m,
            trailing_white_space(rest) == (m - j) + trailing_white_space(rest.take(j as int)),
        decreases j,
    {
        assert(rest.take(j as int).drop_last() =~= rest.take(j - 1));
        j = j - 1;
    }
    assert(trailing_white_space(rest.take(j as int)) == 0);
    assert(trim_end(rest) =~= rest.take(j as int));
    let r = s.substring_char(i, i + j);
    assert(r@ =~= rest.take(j as int));
    r
}

/// Whether `prefix` begins `s`, as `str::starts_with` answers.
pub fn has_prefix(s: &str, prefix: &str) -> (r: bool)
    ensures
        r == prefix@.is_prefix_of(s@),
{
    let sv = chars_of(s);
    let pv = chars_of(prefix);
    if pv.len() > sv.len() {
        return false;
    }
    let mut k: usize = 0;
    while k < pv.len()
        invariant
            sv@ == s@,
            pv@ == prefix@,
            pv.len() <= sv.len(),
            k <= pv.len(),
            forall|t: int| 0 <= t < k ==> sv@[t] == pv@[t],
        decreases pv.len() - k,
    {
        if sv[k] != pv[k] {
            assert(s@.subrange(0, prefix@.len() as int)[k as int] != prefix@[k as int]);
            return false;
        }
        k = k + 1;
    }
    assert(prefix@ =~= s@.subrange(0, prefix@.len() as int));
    true
}

/// Whether `c` occurs in `s`, as `str::contains` with a `char` answers.
pub fn contains_char(s: &str, c: char) -> (r: bool)
    ensures
        r == s@.contains(c),
{
    let v = chars_of(s);
    let mut k: usize = 0;
    while k < v.len()
        invariant
            v@ == s@,
            k <= v.len(),
            forall|t: int| 0 <= t < k ==> v@[t] != c,
        decreases v.len() - k,
    {
        if v[k] == c {
            assert(s@[k as int] == c);
            return true;
        }
        k = k + 1;
    }
    false
}

/// What `str::to_lowercase` gives for a string with these characters: the
/// Unicode lowercase mapping, which depends on the characters alone.
pub uninterp spec fn lowercase(s: Seq<char>) -> Seq<char>;

/// Calls `str::to_lowercase`. Its result is named `lowercase`; of ASCII text
/// the Unicode lowercase mapping turns each capital letter `A` to `Z` into its
/// small letter and keeps every other character.
#[verifier::external_body]
fn to_lowercase(s: &str) -> (r: String)
    ensures
        r@ == lowercase(s@),
        all_ascii(s@) ==> r@ == ascii_lower(s@),
{
    s.to_lowercase()
}

/// The form in which an e-mail address is stored and looked up: trimmed,
/// then lowercased.
pub open spec fn normalized_email(email: Seq<char>) -> Seq<char> {
    lowercase(trimmed(email))
}

/// Normalizes an e-mail address for storage and lookup.
pub fn normalize_email(email: &str) -> (r: String)
    ensures
        r@ == normalized_email(email@),
        all_ascii(email@) ==> r@ == ascii_lower(trimmed(email@)),
{
    let trimmed_email = trim(email);
    proof {
        lemma_trimmed_elements(email@);
        if all_ascii(email@) {
            assert forall|i: int| 0 <= i < trimmed_email@.len() implies (
            #[trigger] trimmed_email@[i] as u32) < 128 by {
                assert(trimmed(email@)[i] == email@[i + leading_white_space(email@)]);
            }
        }
    }
    to_lowercase(trimmed_email)
}

} // verus!
