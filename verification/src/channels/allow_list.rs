//! The access filter: which senders a channel lets through.

use crate::text::{ascii_lower, eq_ignore_ascii_case, eq_ignoring_ascii_case, views};
use vstd::prelude::*;

verus! {

/// The pattern that lets every sender through.
pub open spec fn wildcard() -> Seq<char> {
    seq!['*']
}

/// Some entry of the list is the wildcard, character for character.
pub open spec fn has_wildcard(list: Seq<Seq<char>>) -> bool {
    exists|i: int| 0 <= i < list.len() && #[trigger] list[i] == wildcard()
}

/// Some entry of the list equals `sender` up to the case of ASCII letters.
pub open spec fn names_sender(list: Seq<Seq<char>>, sender: Seq<char>) -> bool {
    exists|i: int| 0 <= i < list.len() && eq_ignoring_ascii_case(#[trigger] list[i], sender)
}

/// The senders that an allow-list lets through: all of them if it holds the
/// wildcard, else those that it names.
pub open spec fn permits(list: Seq<Seq<char>>, sender: Seq<char>) -> bool {
    has_wildcard(list) || names_sender(list, sender)
}

/// Whether `entry` is the wildcard pattern.
pub fn is_wildcard(entry: &str) -> (r: bool)
    ensures
        r == (entry@ == wildcard()),
{
    if entry.unicode_len() != 1 {
        return false;
    }
    let c = entry.get_char(0);
    assert(c == '*' ==> entry@ =~= wildcard());
    c == '*'
}

/// Whether `allow_list` lets `sender` through.
pub fn is_allowed(allow_list: &Vec<String>, sender: &str) -> (r: bool)
    ensures
        r == permits(views(allow_list@), sender@),
{
    let ghost list = views(allow_list@);
    let mut i: usize = 0;
    while i < allow_list.len()
        invariant
            i <= allow_list.len(),
            list == views(allow_list@),
            forall|j: int| 0 <= j < i ==> #[trigger] list[j] != wildcard(),
        decreases allow_list.len() - i,
    {
        if is_wildcard(allow_list[i].as_str()) {
            assert(list[i as int] == wildcard());
            return true;
        }
        i = i + 1;
    }
    let mut k: usize = 0;
    while k < allow_list.len()
        invariant
            k <= allow_list.len(),
            list == views(allow_list@),
            !has_wildcard(list),
            forall|j: int| 0 <= j < k ==> !eq_ignoring_ascii_case(#[trigger] list[j], sender@),
        decreases allow_list.len() - k,
    {
        if eq_ignore_ascii_case(allow_list[k].as_str(), sender) {
            assert(eq_ignoring_ascii_case(list[k as int], sender@));
            return true;
        }
        k = k + 1;
    }
    false
}

/// A list that holds the wildcard lets every sender through, the empty
/// sender too.
pub proof fn lemma_wildcard_permits_all(list: Seq<Seq<char>>, sender: Seq<char>)
    requires
        has_wildcard(list),
    ensures
        permits(list, sender),
        permits(list, Seq::<char>::empty()),
{
}

/// Without the wildcard, a sender passes exactly when some entry equals it up
/// to ASCII case; the empty list lets nobody through.
pub proof fn lemma_without_wildcard(list: Seq<Seq<char>>, sender: Seq<char>)
    requires
        !has_wildcard(list),
    ensures
        permits(list, sender) <==> exists|i: int|
            0 <= i < list.len() && eq_ignoring_ascii_case(#[trigger] list[i], sender),
        list.len() == 0 ==> !permits(list, sender),
{
}

/// A match is exact but for the case of ASCII letters: both texts have the
/// same length, and where they differ both hold the same ASCII letter in
/// different case. White space is compared as it stands.
pub proof fn lemma_match_is_exact_but_for_case(entry: Seq<char>, sender: Seq<char>)
    requires
        eq_ignoring_ascii_case(entry, sender),
    ensures
        entry.len() == sender.len(),
        forall|i: int|
            0 <= i < entry.len() && #[trigger] entry[i] != sender[i] ==> {
                &&& ('a' <= ascii_lower(entry[i]) && ascii_lower(entry[i]) <= 'z')
                &&& ascii_lower(entry[i]) == ascii_lower(sender[i])
                &&& (entry[i] == ascii_lower(entry[i]) || sender[i] == ascii_lower(sender[i]))
            },
{
    assert forall|i: int| 0 <= i < entry.len() && #[trigger] entry[i] != sender[i] implies {
        &&& ('a' <= ascii_lower(entry[i]) && ascii_lower(entry[i]) <= 'z')
        &&& ascii_lower(entry[i]) == ascii_lower(sender[i])
        &&& (entry[i] == ascii_lower(entry[i]) || sender[i] == ascii_lower(sender[i]))
    } by {
        let a = entry[i];
        let b = sender[i];
        assert(ascii_lower(a) == ascii_lower(b));
        lemma_ascii_lower_range(a);
        lemma_ascii_lower_range(b);
    }
}

/// Folding changes an upper-case ASCII letter into its lower-case form and
/// nothing else, and no other character folds to a lower-case ASCII letter
/// but that letter itself.
pub proof fn lemma_ascii_lower_range(c: char)
    ensures
        ascii_lower(c) != c ==> ('A' <= c && c <= 'Z' && 'a' <= ascii_lower(c) && ascii_lower(c)
            <= 'z'),
        ascii_lower(ascii_lower(c)) == ascii_lower(c),
        ('A' <= c && c <= 'Z') ==> (ascii_lower(c) as u32) == (c as u32) + 32,
{
}

/// Every text matches itself, and matches the text folded to lower case.
pub proof fn lemma_match_ignores_case(s: Seq<char>)
    ensures
        eq_ignoring_ascii_case(s, s),
        eq_ignoring_ascii_case(s, s.map_values(|c: char| ascii_lower(c))),
{
    let folded = s.map_values(|c: char| ascii_lower(c));
    assert forall|i: int| 0 <= i < s.len() implies ascii_lower(#[trigger] s[i]) == ascii_lower(
        folded[i],
    ) by {
        lemma_ascii_lower_range(s[i]);
    }
}

} // verus!
