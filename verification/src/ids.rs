//! Random identifiers.

use vstd::prelude::*;
use vstd::string::StrSliceExecFns;
use vstd::string::StringExecFns;

use crate::text;

verus! {

/// A lower-case hexadecimal digit.
pub open spec fn is_hex(c: char) -> bool {
    '0' <= c <= '9' || 'a' <= c <= 'f'
}

/// The digit that tells the variant of a UUID.
pub open spec fn is_variant(c: char) -> bool {
    c == '8' || c == '9' || c == 'a' || c == 'b'
}

/// The text of a random UUID in groups: 8, 4, 4, 4 and 12 digits, among them those of the
/// version, a 4, and of the variant.
pub open spec fn is_grouped_uuid(s: Seq<char>) -> bool {
    &&& s.len() == 36
    &&& s[8] == '-' && s[13] == '-' && s[18] == '-' && s[23] == '-'
    &&& forall|i: int|
        0 <= i < 36 && i != 8 && i != 13 && i != 18 && i != 23 ==> is_hex(#[trigger] s[i])
    &&& s[14] == '4'
    &&& is_variant(s[19])
}

/// The text of a random UUID without groups: 32 digits, among them those of the version,
/// a 4, and of the variant.
pub open spec fn is_plain_uuid(s: Seq<char>) -> bool {
    &&& s.len() == 32
    &&& forall|i: int| 0 <= i < 32 ==> is_hex(#[trigger] s[i])
    &&& s[12] == '4'
    &&& is_variant(s[16])
}

/// `uuid::Uuid::new_v4`, shown by its `Display`: the digits in groups. Which
/// digits they are is left to chance.
#[verifier::external_body]
pub(crate) fn grouped_uuid() -> (r: String)
    ensures
        is_grouped_uuid(r@),
{
    uuid::Uuid::new_v4().to_string()
}

/// `uuid::Uuid::new_v4`, shown by `uuid::Uuid::simple`: the digits alone. Which
/// digits they are is left to chance.
#[verifier::external_body]
pub(crate) fn plain_uuid() -> (r: String)
    ensures
        is_plain_uuid(r@),
{
    uuid::Uuid::new_v4().simple().to_string()
}

/// `rand::random` of a `u32`. Which number it is, is left to chance.
#[verifier::external_body]
pub(crate) fn random_u32() -> (r: u32) {
    rand::random::<u32>()
}

/// The text without its hyphens.
pub open spec fn unhyphenated(s: Seq<char>) -> Seq<char>
    decreases s.len(),
{
    if s.len() == 0 {
        Seq::empty()
    } else if s.last() == '-' {
        unhyphenated(s.drop_last())
    } else {
        unhyphenated(s.drop_last()).push(s.last())
    }
}

/// The text without its hyphens.
pub fn without_hyphens(s: &str) -> (r: String)
    ensures
        r@ == unhyphenated(s@),
{
    let n: usize = s.unicode_len();
    let mut out = String::new();
    for i in 0..n
        invariant
            n == s@.len(),
            out@ == unhyphenated(s@.take(i as int)),
    {
        assert(s@.take(i + 1).drop_last() =~= s@.take(i as int));
        if s.get_char(i) != '-' {
            let c = s.substring_char(i, i + 1);
            out.append(c);
            assert(out@ =~= unhyphenated(s@.take(i as int)).push(s@[i as int]));
        }
    }
    assert(s@.take(s@.len() as int) =~= s@);
    out
}

/// A prefix, an underscore and the digits of a random UUID.
pub open spec fn is_item_id(s: Seq<char>, prefix: Seq<char>) -> bool {
    exists|digits: Seq<char>|
        #![trigger is_plain_uuid(digits)]
        is_plain_uuid(digits) && s == prefix + "_"@ + digits
}

proof fn lemma_unhyphenated_prefix(s: Seq<char>, n: int, k: int)
    requires
        0 <= k <= n <= s.len(),
        forall|i: int| k <= i < n ==> s[i] != '-',
    ensures
        unhyphenated(s.take(n)) == unhyphenated(s.take(k)) + s.subrange(k, n),
    decreases n - k,
{
    if k < n {
        lemma_unhyphenated_prefix(s, n - 1, k);
        assert(s.take(n).drop_last() =~= s.take(n - 1));
        assert(s.subrange(k, n) =~= s.subrange(k, n - 1).push(s[n - 1]));
        assert(unhyphenated(s.take(k)) + s.subrange(k, n) =~= (unhyphenated(s.take(k))
            + s.subrange(k, n - 1)).push(s[n - 1]));
    } else {
        assert(s.subrange(k, n) =~= Seq::empty());
        assert(unhyphenated(s.take(k)) + Seq::<char>::empty() =~= unhyphenated(s.take(k)));
    }
}

proof fn lemma_unhyphenated_skip(s: Seq<char>, k: int)
    requires
        0 <= k < s.len(),
        s[k] == '-',
    ensures
        unhyphenated(s.take(k + 1)) == unhyphenated(s.take(k)),
{
    assert(s.take(k + 1).drop_last() =~= s.take(k));
}

/// Without its hyphens, a UUID in groups is one without groups.
proof fn lemma_ungrouped(s: Seq<char>)
    requires
        is_grouped_uuid(s),
    ensures
        is_plain_uuid(unhyphenated(s)),
{
    assert(s.take(0) =~= Seq::empty());
    lemma_unhyphenated_prefix(s, 8, 0);
    lemma_unhyphenated_skip(s, 8);
    lemma_unhyphenated_prefix(s, 13, 9);
    lemma_unhyphenated_skip(s, 13);
    lemma_unhyphenated_prefix(s, 18, 14);
    lemma_unhyphenated_skip(s, 18);
    lemma_unhyphenated_prefix(s, 23, 19);
    lemma_unhyphenated_skip(s, 23);
    lemma_unhyphenated_prefix(s, 36, 24);
    assert(s.take(36) =~= s);
    let digits = s.subrange(0, 8) + s.subrange(9, 13) + s.subrange(14, 18) + s.subrange(19, 23)
        + s.subrange(24, 36);
    assert(unhyphenated(s) =~= digits);
    assert forall|i: int| 0 <= i < 32 implies is_hex(#[trigger] digits[i]) by {
        let j = if i < 8 {
            i
        } else if i < 12 {
            i + 1
        } else if i < 16 {
            i + 2
        } else if i < 20 {
            i + 3
        } else {
            i + 4
        };
        assert(digits[i] == s[j]);
    }
    assert(digits[12] == s[14]);
    assert(digits[16] == s[19]);
}

/// A new identifier of an output item.
pub fn generate_item_id(prefix: &str) -> (r: String)
    ensures
        is_item_id(r@, prefix@),
{
    let grouped = grouped_uuid();
    let digits = without_hyphens(grouped.as_str());
    proof {
        lemma_ungrouped(grouped@);
    }
    text::join3(prefix, "_", digits.as_str())
}

/// Without hyphens means all other characters, in their order, and no hyphen.
pub proof fn law_only_hyphens_are_left_out(s: &str, r: String)
    requires
        call_ensures(without_hyphens, (s,), r),
    ensures
        r@ == s@.filter(|c: char| c != '-'),
{
    lemma_unhyphenated_is_filter(s@);
}

proof fn lemma_unhyphenated_is_filter(s: Seq<char>)
    ensures
        unhyphenated(s) == s.filter(|c: char| c != '-'),
    decreases s.len(),
{
    reveal(Seq::filter);
    if s.len() > 0 {
        lemma_unhyphenated_is_filter(s.drop_last());
    } else {
        assert(unhyphenated(s) =~= s);
    }
}

/// An identifier of an item is its prefix, an underscore and 32 hexadecimal digits.
pub proof fn law_item_identifiers(prefix: &str, r: String)
    requires
        call_ensures(generate_item_id, (prefix,), r),
    ensures
        r@.len() == prefix@.len() + 33,
        prefix@.is_prefix_of(r@),
        r@[prefix@.len() as int] == '_',
        forall|i: int| prefix@.len() < i < r@.len() ==> is_hex(#[trigger] r@[i]),
{
    reveal_strlit("_");
    let digits = choose|digits: Seq<char>|
        #![trigger is_plain_uuid(digits)]
        is_plain_uuid(digits) && r@ == prefix@ + "_"@ + digits;
    assert(r@.take(prefix@.len() as int) =~= prefix@);
    assert forall|i: int| prefix@.len() < i < r@.len() implies is_hex(#[trigger] r@[i]) by {
        assert(r@[i] == digits[i - prefix@.len() - 1]);
    }
}

} // verus!
