//! Text helpers shared by the generator: comparison, joining, and the
//! case conversions that come from outside crates.
use case::CaseExt;
use vstd::prelude::*;

verus! {

/// What `str::to_lowercase` returns for a string.
pub uninterp spec fn lower_of(s: Seq<char>) -> Seq<char>;

/// What `case`'s `to_camel_lowercase` returns for a string.
pub uninterp spec fn camel_lower_of(s: Seq<char>) -> Seq<char>;

/// What `case`'s `to_camel` returns for a string.
pub uninterp spec fn camel_upper_of(s: Seq<char>) -> Seq<char>;

/// Every character is ASCII and none is an upper-case letter.
pub open spec fn is_lower_ascii(s: Seq<char>) -> bool {
    forall|i: int| 0 <= i < s.len() ==> (s[i] as u32) < 128 && !('A' <= #[trigger] s[i] <= 'Z')
}

/// Relies on `str::to_lowercase`: the result depends on the characters alone,
/// and ASCII text without upper-case letters comes back as it is.
#[verifier::external_body]
pub(crate) fn lowercase(s: &str) -> (r: String)
    ensures
        r@ == lower_of(s@),
        is_lower_ascii(s@) ==> r@ == s@,
{
    s.to_lowercase()
}

/// Relies on `case::CaseExt::to_camel_lowercase` (snake case to camel case
/// with a lower-case first letter): the result depends on the characters alone.
#[verifier::external_body]
pub(crate) fn camel_lower(s: &str) -> (r: String)
    ensures
        r@ == camel_lower_of(s@),
{
    s.to_camel_lowercase()
}

/// Relies on `case::CaseExt::to_camel` (snake case to camel case with an
/// upper-case first letter): the result depends on the characters alone.
#[verifier::external_body]
pub(crate) fn camel_upper(s: &str) -> (r: String)
    ensures
        r@ == camel_upper_of(s@),
{
    s.to_camel()
}

/// The parts, in order, with `sep` between each two neighbours.
pub open spec fn join_with(parts: Seq<Seq<char>>, sep: Seq<char>) -> Seq<char>
    decreases parts.len(),
{
    if parts.len() == 0 {
        Seq::empty()
    } else if parts.len() == 1 {
        parts[0]
    } else {
        join_with(parts.drop_last(), sep) + sep + parts.last()
    }
}

/// Joining one more part appends the separator (if anything came before)
/// and then the part.
pub proof fn lemma_join_push(parts: Seq<Seq<char>>, sep: Seq<char>, p: Seq<char>)
    ensures
        join_with(parts.push(p), sep) == if parts.len() == 0 {
            p
        } else {
            join_with(parts, sep) + sep + p
        },
{
    assert(parts.push(p).drop_last() =~= parts);
}

/// Whether two strings hold the same characters.
pub fn same_text(a: &str, b: &str) -> (r: bool)
    ensures
        r == (a@ == b@),
{
    let n = a.unicode_len();
    if n != b.unicode_len() {
        return false;
    }
    let mut i: usize = 0;
    while i < n
        invariant
            n == a@.len(),
            n == b@.len(),
            i <= n,
            forall|k: int| 0 <= k < i ==> a@[k] == b@[k],
        decreases n - i,
    {
        if a.get_char(i) != b.get_char(i) {
            return false;
        }
        i = i + 1;
    }
    assert(a@ =~= b@);
    true
}

} // verus!
