//! ASCII text helpers: lower-casing and substring search.

use vstd::prelude::*;

verus! {

/// The ASCII lower-case equivalent of one character; any other character stands for itself.
pub open spec fn ascii_lower(c: char) -> char {
    if 'A' <= c <= 'Z' {
        (c as u8 + 32) as char
    } else {
        c
    }
}

/// A text with every character in its ASCII lower-case equivalent.
pub open spec fn ascii_lower_all(s: Seq<char>) -> Seq<char> {
    s.map_values(|c: char| ascii_lower(c))
}

/// `needle` stands in `hay` at position `at`.
pub open spec fn occurs_at(needle: Seq<char>, hay: Seq<char>, at: int) -> bool {
    &&& 0 <= at
    &&& at + needle.len() <= hay.len()
    &&& forall|j: int| 0 <= j < needle.len() ==> needle[j] == #[trigger] hay[at + j]
}

/// `needle` stands somewhere in `hay`.
pub open spec fn occurs_in(needle: Seq<char>, hay: Seq<char>) -> bool {
    exists|at: int| occurs_at(needle, hay, at)
}

fn lower_char(c: char) -> (r: char)
    ensures
        r == ascii_lower(c),
{
    if 'A' <= c && c <= 'Z' {
        (c as u8 + 32) as char
    } else {
        c
    }
}

/// The characters of `s`, each in its ASCII lower-case equivalent.
pub fn to_ascii_lowercase(s: &str) -> (r: Vec<char>)
    ensures
        r@ == ascii_lower_all(s@),
{
    let mut r: Vec<char> = Vec::new();
    for c in it: s.chars()
        invariant
            it.seq() == s@,
            r@ == ascii_lower_all(s@.take(it.index())),
    {
        proof {
            assert(s@.take(it.index() + 1) =~= s@.take(it.index()).push(c));
        }
        r.push(lower_char(c));
    }
    assert(s@.take(s@.len() as int) =~= s@);
    r
}

/// Whether `needle` stands somewhere in `hay`.
pub fn contains(hay: &Vec<char>, needle: &str) -> (found: bool)
    ensures
        found == occurs_in(needle@, hay@),
{
    let n: usize = needle.unicode_len();
    let mut at: usize = 0;
    while n <= hay.len() - at
        invariant
            n == needle@.len(),
            at <= hay@.len(),
            forall|k: int| k < at ==> !occurs_at(needle@, hay@, k),
        decreases hay@.len() - at,
    {
        let mut j: usize = 0;
        while j < n && needle.get_char(j) == hay[at + j]
            invariant
                n == needle@.len(),
                at + n <= hay.len(),
                j <= n,
                forall|k: int| 0 <= k < j ==> needle@[k] == #[trigger] hay@[at + k],
            decreases n - j,
        {
            j += 1;
        }
        if j == n {
            assert(occurs_at(needle@, hay@, at as int));
            return true;
        }
        if at == hay.len() {
            return false;
        }
        at += 1;
    }
    false
}

/// Lower-casing moves the capital letters of ASCII to the small letters at the same place of
/// the alphabet, leaves every other character as it is, and keeps their number and order.
pub proof fn only_capitals_are_lowered(s: Seq<char>, i: int)
    requires
        0 <= i < s.len(),
    ensures
        ascii_lower_all(s).len() == s.len(),
        'A' <= s[i] <= 'Z' ==> 'a' <= ascii_lower_all(s)[i] <= 'z' && ascii_lower_all(
            s,
        )[i] as int - 'a' as int == s[i] as int - 'A' as int,
        !('A' <= s[i] <= 'Z') ==> ascii_lower_all(s)[i] == s[i],
{
}

/// A text stands in another exactly where that other one is made of something, the text, and
/// something more.
pub proof fn a_text_that_occurs_can_be_cut_out(needle: Seq<char>, hay: Seq<char>)
    ensures
        occurs_in(needle, hay) <==> exists|before: Seq<char>, behind: Seq<char>|
            hay == #[trigger] (before + needle + behind),
{
    if occurs_in(needle, hay) {
        let at = choose|at: int| occurs_at(needle, hay, at);
        let before = hay.take(at);
        let behind = hay.skip(at + needle.len());
        let whole = before + needle + behind;
        assert forall|j: int| 0 <= j < hay.len() implies #[trigger] hay[j] == whole[j] by {
            if at <= j < at + needle.len() {
                assert(needle[j - at] == hay[at + (j - at)]);
            }
        }
        assert(hay =~= before + needle + behind);
    }
    if exists|before: Seq<char>, behind: Seq<char>| hay == #[trigger] (before + needle + behind) {
        let (before, behind) = choose|before: Seq<char>, behind: Seq<char>|
            hay == #[trigger] (before + needle + behind);
        assert(occurs_at(needle, hay, before.len() as int));
    }
}

} // verus!
