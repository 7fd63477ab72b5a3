//! Which files of the sound directory count as notification sounds, and the
//! order in which the sound screen lists them.
//!
//! Paths are plain text whose components are separated by `/`.

use vstd::prelude::*;
use vstd::relations::{sorted_by, total_ordering};
use vstd::seq_lib::*;
use vstd::string::*;
use crate::text::chars_of;

verus! {

/// The index of the last `c` in `text`, or -1 if there is none.
pub open spec fn last_index_of(text: Seq<char>, c: char) -> int
    decreases text.len(),
{
    if text.len() == 0 {
        -1
    } else if text.last() == c {
        text.len() - 1
    } else {
        last_index_of(text.drop_last(), c)
    }
}

/// The final component of `path`: what follows its last separator, or all
/// of it where there is none.
pub open spec fn file_name_of(path: Seq<char>) -> Seq<char> {
    path.skip(last_index_of(path, '/') + 1)
}

/// The extension of `path`: what follows the last dot of its final
/// component, where that component has a dot that is not its first
/// character.
pub open spec fn extension_of(path: Seq<char>) -> Option<Seq<char>> {
    let name = file_name_of(path);
    let dot = last_index_of(name, '.');
    if dot <= 0 {
        None
    } else {
        Some(name.skip(dot + 1))
    }
}

/// The lower-case form of an ASCII capital letter, and any other character
/// as it is.
pub open spec fn lower_of(c: char) -> char {
    if 'A' <= c && c <= 'Z' {
        ((c as u8 + 32) as u8) as char
    } else {
        c
    }
}

/// Whether the extension of `path` is `mp3`, `wav` or `ogg`, in capital or
/// small letters or any mix of them.
pub open spec fn has_sound_extension(path: Seq<char>) -> bool {
    match extension_of(path) {
        Some(ext) => {
            let low = ext.map_values(|c: char| lower_of(c));
            low == seq!['m', 'p', '3'] || low == seq!['w', 'a', 'v'] || low == seq!['o', 'g', 'g']
        },
        None => false,
    }
}

/// Whether `a` comes before `b`, or is `b`, in the order of a dictionary
/// whose alphabet is the characters by their code.
pub open spec fn lex_le(a: Seq<char>, b: Seq<char>) -> bool
    decreases a.len(),
{
    if a.len() == 0 {
        true
    } else if b.len() == 0 {
        false
    } else if a[0] != b[0] {
        a[0] < b[0]
    } else {
        lex_le(a.drop_first(), b.drop_first())
    }
}

/// The sound files among `candidates`, as the sound screen lists them:
/// `listing` holds every candidate with a sound extension as often as
/// `candidates` does, and nothing else, in dictionary order.
pub open spec fn is_sound_listing(candidates: Seq<Seq<char>>, listing: Seq<Seq<char>>) -> bool {
    &&& sorted_by(listing, |a: Seq<char>, b: Seq<char>| lex_le(a, b))
    &&& listing.to_multiset() == candidates.filter(
        |p: Seq<char>| has_sound_extension(p),
    ).to_multiset()
}

/// Every text is before or at itself.
pub proof fn lemma_lex_le_reflexive(a: Seq<char>)
    ensures
        lex_le(a, a),
    decreases a.len(),
{
    if a.len() > 0 {
        lemma_lex_le_reflexive(a.drop_first());
    }
}

/// Of two texts one is before or at the other.
pub proof fn lemma_lex_le_total(a: Seq<char>, b: Seq<char>)
    ensures
        lex_le(a, b) || lex_le(b, a),
    decreases a.len(),
{
    if a.len() > 0 && b.len() > 0 && a[0] == b[0] {
        lemma_lex_le_total(a.drop_first(), b.drop_first());
    }
}

/// Two texts that are each before or at the other are the same text.
pub proof fn lemma_lex_le_antisymmetric(a: Seq<char>, b: Seq<char>)
    requires
        lex_le(a, b),
        lex_le(b, a),
    ensures
        a == b,
    decreases a.len(),
{
    if a.len() > 0 && b.len() > 0 {
        lemma_lex_le_antisymmetric(a.drop_first(), b.drop_first());
        assert(a =~= seq![a[0]] + a.drop_first());
        assert(b =~= seq![b[0]] + b.drop_first());
    } else {
        assert(a =~= b);
    }
}

/// What is before a text is before all that the text is before.
pub proof fn lemma_lex_le_transitive(a: Seq<char>, b: Seq<char>, c: Seq<char>)
    requires
        lex_le(a, b),
        lex_le(b, c),
    ensures
        lex_le(a, c),
    decreases a.len(),
{
    if a.len() > 0 && b.len() > 0 && c.len() > 0 && a[0] == b[0] && b[0] == c[0] {
        lemma_lex_le_transitive(a.drop_first(), b.drop_first(), c.drop_first());
    }
}

/// The dictionary order is a total order.
pub proof fn lemma_lex_le_total_ordering()
    ensures
        total_ordering(|a: Seq<char>, b: Seq<char>| lex_le(a, b)),
{
    let leq = |a: Seq<char>, b: Seq<char>| lex_le(a, b);
    assert forall|a: Seq<char>| #[trigger] leq(a, a) by {
        lemma_lex_le_reflexive(a);
    }
    assert forall|a: Seq<char>, b: Seq<char>| #[trigger] leq(a, b) && #[trigger] leq(b, a) implies a
        == b by {
        lemma_lex_le_antisymmetric(a, b);
    }
    assert forall|a: Seq<char>, b: Seq<char>, c: Seq<char>| #[trigger]
        leq(a, b) && #[trigger] leq(b, c) implies leq(a, c) by {
        lemma_lex_le_transitive(a, b, c);
    }
    assert forall|a: Seq<char>, b: Seq<char>| #[trigger] leq(a, b) || #[trigger] leq(b, a) by {
        lemma_lex_le_total(a, b);
    }
}

/// The candidates fix their listing: two listings of the same candidates
/// are equal.
pub proof fn lemma_sound_listing_unique(
    candidates: Seq<Seq<char>>,
    first: Seq<Seq<char>>,
    second: Seq<Seq<char>>,
)
    requires
        is_sound_listing(candidates, first),
        is_sound_listing(candidates, second),
    ensures
        first == second,
{
    lemma_lex_le_total_ordering();
    lemma_sorted_unique(first, second, |a: Seq<char>, b: Seq<char>| lex_le(a, b));
}

/// The lower-case form of an ASCII capital letter, and any other character
/// as it is.
pub fn ascii_lower(c: char) -> (low: char)
    ensures
        low == lower_of(c),
{
    if c >= 'A' && c <= 'Z' {
        ((c as u8) + 32) as char
    } else {
        c
    }
}

/// The place of the last `c` among the characters from `from` on.
fn find_last(chars: &Vec<char>, from: usize, c: char) -> (at: Option<usize>)
    requires
        from <= chars.len(),
    ensures
        match at {
            Some(i) => from <= i < chars.len() && last_index_of(chars@.skip(from as int), c) == i
                - from,
            None => last_index_of(chars@.skip(from as int), c) == -1,
        },
{
    let ghost tail = chars@.skip(from as int);
    let mut at: Option<usize> = None;
    let mut i: usize = from;
    while i < chars.len()
        invariant
            from <= i <= chars.len(),
            tail == chars@.skip(from as int),
            match at {
                Some(k) => from <= k < i && last_index_of(tail.take(i - from), c) == k - from,
                None => last_index_of(tail.take(i - from), c) == -1,
            },
        decreases chars.len() - i,
    {
        proof {
            assert(tail.take(i + 1 - from).drop_last() =~= tail.take(i - from));
            assert(tail.take(i + 1 - from).last() == chars@[i as int]);
        }
        if chars[i] == c {
            at = Some(i);
        }
        i += 1;
    }
    proof {
        assert(tail.take(chars.len() - from) =~= tail);
    }
    at
}

/// Whether `path` names a notification sound by its extension.
pub fn is_sound_file(path: &str) -> (yes: bool)
    ensures
        yes == has_sound_extension(path@),
{
    let chars = chars_of(path);
    proof {
        assert(chars@.skip(0) =~= chars@);
    }
    let start = match find_last(&chars, 0, '/') {
        Some(i) => i + 1,
        None => 0,
    };
    match find_last(&chars, start, '.') {
        Some(dot) => {
            let ghost ext = chars@.skip(dot + 1);
            let ghost low = ext.map_values(|c: char| lower_of(c));
            proof {
                assert(file_name_of(path@).skip(dot - start + 1) =~= ext);
            }
            if dot > start && chars.len() - dot == 4 {
                let a = ascii_lower(chars[dot + 1]);
                let b = ascii_lower(chars[dot + 2]);
                let c = ascii_lower(chars[dot + 3]);
                proof {
                    assert(low =~= seq![a, b, c]);
                }
                (a == 'm' && b == 'p' && c == '3') || (a == 'w' && b == 'a' && c == 'v') || (a
                    == 'o' && b == 'g' && c == 'g')
            } else {
                proof {
                    if dot > start {
                        assert(low.len() != 3);
                    }
                }
                false
            }
        },
        None => false,
    }
}

/// The final component of `path`, by which the sound screen lists it.
pub fn file_name(path: &str) -> (name: &str)
    ensures
        name@ == file_name_of(path@),
{
    let chars = chars_of(path);
    proof {
        assert(chars@.skip(0) =~= chars@);
    }
    let start = match find_last(&chars, 0, '/') {
        Some(i) => i + 1,
        None => 0,
    };
    proof {
        assert(path@.skip(start as int) =~= path@.subrange(start as int, chars.len() as int));
    }
    path.substring_char(start, chars.len())
}

/// Whether `a` comes before `b`, or is `b`, in dictionary order.
pub fn path_le(a: &str, b: &str) -> (before: bool)
    ensures
        before == lex_le(a@, b@),
{
    let x = chars_of(a);
    let y = chars_of(b);
    let mut i: usize = 0;
    proof {
        assert(x@.skip(0) =~= x@);
        assert(y@.skip(0) =~= y@);
    }
    while i < x.len() && i < y.len()
        invariant
            x@ == a@,
            y@ == b@,
            i <= x.len(),
            i <= y.len(),
            lex_le(x@, y@) == lex_le(x@.skip(i as int), y@.skip(i as int)),
        decreases x.len() - i,
    {
        if x[i] != y[i] {
            return x[i] < y[i];
        }
        proof {
            assert(x@.skip(i as int).drop_first() =~= x@.skip(i + 1));
            assert(y@.skip(i as int).drop_first() =~= y@.skip(i + 1));
        }
        i += 1;
    }
    x.len() <= y.len()
}

/// The sound files among `candidates`, in the order in which the sound
/// screen lists them.
pub fn sound_files(candidates: &Vec<String>) -> (listing: Vec<String>)
    ensures
        is_sound_listing(candidates.deep_view(), listing.deep_view()),
{
    let ghost leq = |a: Seq<char>, b: Seq<char>| lex_le(a, b);
    let ghost wanted = |p: Seq<char>| has_sound_extension(p);
    let ghost all = candidates.deep_view();
    let mut listing: Vec<String> = Vec::new();
    let mut i: usize = 0;
    proof {
        assert(all.take(0) =~= Seq::<Seq<char>>::empty());
        assert(all.take(0).filter(wanted) =~= Seq::<Seq<char>>::empty()) by {
            reveal(Seq::filter);
        }
        assert(listing.deep_view() =~= Seq::<Seq<char>>::empty());
    }
    while i < candidates.len()
        invariant
            i <= candidates.len(),
            all == candidates.deep_view(),
            leq == |a: Seq<char>, b: Seq<char>| lex_le(a, b),
            wanted == |p: Seq<char>| has_sound_extension(p),
            sorted_by(listing.deep_view(), leq),
            listing.deep_view().to_multiset() == all.take(i as int).filter(wanted).to_multiset(),
        decreases candidates.len() - i,
    {
        let candidate = &candidates[i];
        proof {
            assert(all.take(i + 1) =~= all.take(i as int).push(candidate@));
            all.take(i as int).lemma_filter_push(candidate@, wanted);
        }
        if is_sound_file(candidate.as_str()) {
            let mut at: usize = 0;
            while at < listing.len() && path_le(listing[at].as_str(), candidate.as_str())
                invariant
                    at <= listing.len(),
                    forall|k: int| 0 <= k < at ==> lex_le(#[trigger] listing@[k]@, candidate@),
                decreases listing.len() - at,
            {
                at += 1;
            }
            let ghost before = listing.deep_view();
            listing.insert(at, candidate.clone());
            proof {
                let after = listing.deep_view();
                assert(after =~= before.insert(at as int, candidate@));
                to_multiset_insert(before, at as int, candidate@);
                to_multiset_build(all.take(i as int).filter(wanted), candidate@);
                assert forall|m: int, n: int| 0 <= m < n < after.len() implies #[trigger] leq(
                    after[m],
                    after[n],
                ) by {
                    if n == at {
                        assert(after[m] == before[m]);
                    } else if m == at {
                        assert(after[n] == before[n - 1]);
                        lemma_lex_le_total(before[at as int], candidate@);
                        if n - 1 > at {
                            assert(leq(before[at as int], before[n - 1]));
                            lemma_lex_le_transitive(candidate@, before[at as int], before[n - 1]);
                        }
                    } else {
                        let m0 = if m < at { m } else { m - 1 };
                        let n0 = if n < at { n } else { n - 1 };
                        assert(after[m] == before[m0]);
                        assert(after[n] == before[n0]);
                        assert(leq(before[m0], before[n0]));
                    }
                }
            }
        }
        i += 1;
    }
    proof {
        assert(all.take(candidates.len() as int) =~= all);
    }
    listing
}

} // verus!
