//! Deleting a tag from every card: the tag list ordered by use, the plan of
//! which cards and decks the deletion touches, the edit of one card's tags,
//! and the message once it is done.
use vstd::prelude::*;
use vstd::string::*;
use crate::app_commands::{StoreView, msg};
use crate::model::{CardSummary, DeckSummary};
use crate::store::{MessageLevel, StoreMessage, UiAppState};
use crate::text::{decimal, str_eq, u64_to_text};

verus! {

pub open spec fn tag_texts(v: Seq<String>) -> Seq<Seq<char>> {
    v.map_values(|s: String| s@)
}

/// The tags of a list of cards, card by card.
pub open spec fn card_tags(cards: Seq<CardSummary>) -> Seq<Seq<char>>
    decreases cards.len(),
{
    if cards.len() == 0 {
        Seq::empty()
    } else {
        card_tags(cards.drop_last()) + tag_texts(cards.last().tags@)
    }
}

/// Every tag use of every card of every deck, in order.
pub open spec fn all_tags(decks: Seq<(DeckSummary, Vec<CardSummary>)>) -> Seq<Seq<char>>
    decreases decks.len(),
{
    if decks.len() == 0 {
        Seq::empty()
    } else {
        all_tags(decks.drop_last()) + card_tags(decks.last().1@)
    }
}

/// How often a tag is used in a list of uses.
pub open spec fn occurrences(s: Seq<Seq<char>>, t: Seq<char>) -> nat
    decreases s.len(),
{
    if s.len() == 0 {
        0
    } else {
        occurrences(s.drop_last(), t) + if s.last() == t {
            1nat
        } else {
            0nat
        }
    }
}

/// A tag with its number of uses, as listed for deletion.
pub open spec fn count_entry_ok(uses: Seq<Seq<char>>, e: (String, usize)) -> bool {
    &&& uses.contains(e.0@)
    &&& e.1 == occurrences(uses, e.0@)
}

pub open spec fn distinct_tags(s: Seq<(String, usize)>) -> bool {
    forall|a: int, c: int| 0 <= a < c < s.len() ==> (#[trigger] s[a]).0@ != (#[trigger] s[c]).0@
}

pub open spec fn most_used_first(s: Seq<(String, usize)>) -> bool {
    forall|a: int, c: int| 0 <= a < c < s.len() ==> (#[trigger] s[a]).1 >= (#[trigger] s[c]).1
}

/// Every tag used is listed.
pub open spec fn lists_all(uses: Seq<Seq<char>>, s: Seq<(String, usize)>) -> bool {
    forall|k: int| 0 <= k < uses.len() ==> exists|a: int| 0 <= a < s.len() && (#[trigger] s[a]).0@ == #[trigger] uses[k]
}

proof fn lemma_occurrences_step(s: Seq<Seq<char>>, i: int, t: Seq<char>)
    requires
        0 <= i < s.len(),
    ensures
        occurrences(s.take(i + 1), t) == occurrences(s.take(i), t) + if s[i] == t {
            1nat
        } else {
            0nat
        },
{
    assert(s.take(i + 1).drop_last() =~= s.take(i));
}

proof fn lemma_occurrences_bound(s: Seq<Seq<char>>, t: Seq<char>)
    ensures
        occurrences(s, t) <= s.len(),
        s.contains(t) ==> occurrences(s, t) >= 1,
        !s.contains(t) ==> occurrences(s, t) == 0,
    decreases s.len(),
{
    if s.len() > 0 {
        lemma_occurrences_bound(s.drop_last(), t);
        if s.contains(t) && s.last() != t {
            let k = choose|k: int| 0 <= k < s.len() && s[k] == t;
            assert(s.drop_last()[k] == t);
        }
        if !s.contains(t) {
            assert(s[s.len() - 1] != t);
            assert forall|k: int| 0 <= k < s.drop_last().len() implies s.drop_last()[k] != t by {
                assert(s[k] != t);
            }
        }
    }
}

/// Whether a list of counts has an entry for a tag.
pub open spec fn key_in(s: Seq<(String, usize)>, k: Seq<char>) -> bool {
    exists|a: int| 0 <= a < s.len() && (#[trigger] s[a]).0@ == k
}

fn find_count(counts: &Vec<(String, usize)>, t: &String) -> (r: Option<usize>)
    ensures
        match r {
            Some(a) => a < counts@.len() && counts@[a as int].0@ == t@,
            None => !key_in(counts@, t@),
        },
{
    let mut a: usize = 0;
    while a < counts.len()
        invariant
            a <= counts@.len(),
            forall|b: int| 0 <= b < a ==> (#[trigger] counts@[b]).0@ != t@,
        decreases counts@.len() - a,
    {
        if str_eq(counts[a].0.as_str(), t.as_str()) {
            return Some(a);
        }
        a = a + 1;
    }
    None
}

/// All tag uses, flattened.
fn collect_tags(decks: &Vec<(DeckSummary, Vec<CardSummary>)>) -> (uses: Vec<String>)
    ensures
        tag_texts(uses@) == all_tags(decks@),
{
    let mut uses: Vec<String> = Vec::new();
    let mut i: usize = 0;
    while i < decks.len()
        invariant
            i <= decks@.len(),
            tag_texts(uses@) == all_tags(decks@.take(i as int)),
        decreases decks@.len() - i,
    {
        let cards = &decks[i].1;
        let ghost base = uses@;
        let mut j: usize = 0;
        while j < cards.len()
            invariant
                j <= cards@.len(),
                cards@ == decks@[i as int].1@,
                tag_texts(uses@) == tag_texts(base) + card_tags(cards@.take(j as int)),
            decreases cards@.len() - j,
        {
            let tags = &cards[j].tags;
            let ghost base2 = uses@;
            let mut k: usize = 0;
            while k < tags.len()
                invariant
                    k <= tags@.len(),
                    tags@ == cards@[j as int].tags@,
                    tag_texts(uses@) == tag_texts(base2) + tag_texts(tags@.take(k as int)),
                decreases tags@.len() - k,
            {
                let ghost before_push = uses@;
                uses.push(tags[k].clone());
                proof {
                    assert(tag_texts(uses@) =~= tag_texts(before_push).push(tags@[k as int]@));
                    assert(tag_texts(tags@.take(k + 1)) =~= tag_texts(tags@.take(k as int)).push(tags@[k as int]@));
                    assert(tag_texts(uses@) =~= tag_texts(base2) + tag_texts(tags@.take(k + 1)));
                }
                k = k + 1;
            }
            proof {
                assert(tags@.take(tags@.len() as int) =~= tags@);
                assert(cards@.take(j + 1).drop_last() =~= cards@.take(j as int));
                assert(tag_texts(uses@) =~= tag_texts(base) + card_tags(cards@.take(j + 1)));
            }
            j = j + 1;
        }
        proof {
            assert(cards@.take(cards@.len() as int) =~= cards@);
            assert(decks@.take(i + 1).drop_last() =~= decks@.take(i as int));
        }
        i = i + 1;
    }
    assert(decks@.take(decks@.len() as int) =~= decks@);
    uses
}

/// A list of the used tags, each once with its number of uses, most used
/// first; tags used equally often may come in any order.
pub open spec fn valid_tag_list(uses: Seq<Seq<char>>, counts: Seq<(String, usize)>) -> bool {
    &&& forall|a: int| 0 <= a < counts.len() ==> count_entry_ok(uses, #[trigger] counts[a])
    &&& lists_all(uses, counts)
    &&& distinct_tags(counts)
    &&& most_used_first(counts)
}

/// Where a count goes in a list ordered most used first: after every entry
/// used at least as often.
fn count_position(s: &Vec<(String, usize)>, n: usize) -> (p: usize)
    ensures
        p <= s@.len(),
        forall|a: int| 0 <= a < p ==> (#[trigger] s@[a]).1 >= n,
        forall|a: int| p <= a < s@.len() ==> (#[trigger] s@[a]).1 < n || !most_used_first(s@),
{
    let mut p: usize = 0;
    while p < s.len() && s[p].1 >= n
        invariant
            p <= s@.len(),
            forall|a: int| 0 <= a < p ==> (#[trigger] s@[a]).1 >= n,
        decreases s@.len() - p,
    {
        p = p + 1;
    }
    proof {
        if p < s@.len() && most_used_first(s@) {
            assert forall|a: int| p <= a < s@.len() implies (#[trigger] s@[a]).1 < n by {
                if a > p {
                    assert(s@[p as int].1 >= s@[a].1);
                }
            }
        }
    }
    p
}

/// The tags used by the cards of the decks, each once with its number of
/// uses, most used first.
pub fn tag_counts(decks: &Vec<(DeckSummary, Vec<CardSummary>)>) -> (counts: Vec<(String, usize)>)
    ensures
        valid_tag_list(all_tags(decks@), counts@),
{
    let uses = collect_tags(decks);
    let ghost u = tag_texts(uses@);
    let mut counts: Vec<(String, usize)> = Vec::new();
    let mut i: usize = 0;
    while i < uses.len()
        invariant
            i <= uses@.len(),
            u == tag_texts(uses@),
            forall|a: int| 0 <= a < counts@.len() ==> (#[trigger] counts@[a]).1 == occurrences(u.take(i as int), counts@[a].0@),
            forall|a: int| 0 <= a < counts@.len() ==> u.take(i as int).contains((#[trigger] counts@[a]).0@),
            lists_all(u.take(i as int), counts@),
            distinct_tags(counts@),
        decreases uses@.len() - i,
    {
        let found = find_count(&counts, &uses[i]);
        let ghost old_counts = counts@;
        let ghost t = u[i as int];
        let ghost ti = u.take(i as int);
        let ghost ui = u.take(i + 1);
        proof {
            assert(uses@[i as int]@ == t);
            assert(ui[i as int] == t);
            assert(ti.len() == i);
            assert forall|k: int| 0 <= k < i implies ui[k] == ti[k] by {}
        }
        match found {
            Some(a) => {
                let n = counts[a].1;
                proof {
                    lemma_occurrences_bound(ti, t);
                }
                let key = counts[a].0.clone();
                counts.set(a, (key, n + 1));
            },
            None => {
                proof {
                    assert(!ti.contains(t)) by {
                        if ti.contains(t) {
                            let k = choose|k: int| 0 <= k < ti.len() && ti[k] == t;
                            assert(exists|c: int| 0 <= c < old_counts.len() && (#[trigger] old_counts[c]).0@ == ti[k]);
                        }
                    }
                    lemma_occurrences_bound(ti, t);
                }
                counts.push((uses[i].clone(), 1));
            },
        }
        proof {
            assert forall|b: int| 0 <= b < counts@.len() implies (#[trigger] counts@[b]).1 == occurrences(
                ui,
                counts@[b].0@,
            ) by {
                lemma_occurrences_step(u, i as int, counts@[b].0@);
                if b < old_counts.len() {
                    if found != Some(b as usize) {
                        assert(counts@[b] == old_counts[b]);
                        if let Some(a) = found {
                            assert(old_counts[a as int].0@ == t);
                            assert(old_counts[b].0@ != t);
                        } else {
                            assert(old_counts[b].0@ != t);
                        }
                    }
                }
            }
            assert forall|b: int| 0 <= b < counts@.len() implies ui.contains((#[trigger] counts@[b]).0@) by {
                if b < old_counts.len() {
                    assert(counts@[b].0@ == old_counts[b].0@);
                    assert(ti.contains(old_counts[b].0@));
                    let k = choose|k: int| 0 <= k < ti.len() && ti[k] == old_counts[b].0@;
                    assert(ui[k] == ti[k]);
                } else {
                    assert(ui[i as int] == t);
                }
            }
            assert forall|k: int| 0 <= k < ui.len() implies exists|c: int|
                0 <= c < counts@.len() && (#[trigger] counts@[c]).0@ == #[trigger] ui[k] by {
                if k < i {
                    assert(ui[k] == ti[k]);
                    let w = choose|w: int| 0 <= w < old_counts.len() && (#[trigger] old_counts[w]).0@ == #[trigger] ti[k];
                    assert(counts@[w].0@ == old_counts[w].0@);
                } else if let Some(a) = found {
                    assert(counts@[a as int].0@ == t);
                } else {
                    assert(counts@[old_counts.len() as int].0@ == t);
                }
            }
            assert forall|b: int, c: int| 0 <= b < c < counts@.len() implies (#[trigger] counts@[b]).0@
                != (#[trigger] counts@[c]).0@ by {
                if c < old_counts.len() {
                    assert(counts@[b].0@ == old_counts[b].0@);
                    assert(counts@[c].0@ == old_counts[c].0@);
                } else {
                    assert(counts@[b].0@ == old_counts[b].0@);
                }
            }
        }
        i = i + 1;
    }
    proof {
        assert(u.take(uses@.len() as int) =~= u);
    }
    let mut sorted: Vec<(String, usize)> = Vec::new();
    let mut j: usize = 0;
    while j < counts.len()
        invariant
            j <= counts@.len(),
            u == all_tags(decks@),
            forall|a: int| 0 <= a < counts@.len() ==> count_entry_ok(u, #[trigger] counts@[a]),
            lists_all(u, counts@),
            distinct_tags(counts@),
            forall|a: int| 0 <= a < sorted@.len() ==> count_entry_ok(u, #[trigger] sorted@[a]),
            forall|a: int| 0 <= a < sorted@.len() ==> key_in(counts@.take(j as int), (#[trigger] sorted@[a]).0@),
            forall|b: int| 0 <= b < j ==> key_in(sorted@, (#[trigger] counts@[b]).0@),
            distinct_tags(sorted@),
            most_used_first(sorted@),
        decreases counts@.len() - j,
    {
        let n = counts[j].1;
        let pos = count_position(&sorted, n);
        let ghost old_sorted = sorted@;
        let item = (counts[j].0.clone(), n);
        sorted.insert(pos, item);
        proof {
            lemma_insert_count(counts@, j as int, u, old_sorted, sorted@, pos as int, item);
        }
        j = j + 1;
    }
    proof {
        assert forall|k: int| 0 <= k < u.len() implies exists|a: int|
            0 <= a < sorted@.len() && (#[trigger] sorted@[a]).0@ == #[trigger] u[k] by {
            let b = choose|b: int| 0 <= b < counts@.len() && (#[trigger] counts@[b]).0@ == #[trigger] u[k];
            assert(key_in(sorted@, counts@[b].0@));
        }
    }
    sorted
}

proof fn lemma_insert_count(
    counts: Seq<(String, usize)>,
    j: int,
    u: Seq<Seq<char>>,
    old_s: Seq<(String, usize)>,
    new_s: Seq<(String, usize)>,
    pos: int,
    item: (String, usize),
)
    requires
        0 <= j < counts.len(),
        forall|a: int| 0 <= a < counts.len() ==> count_entry_ok(u, #[trigger] counts[a]),
        distinct_tags(counts),
        item.0@ == counts[j].0@,
        item.1 == counts[j].1,
        0 <= pos <= old_s.len(),
        new_s == old_s.insert(pos, item),
        forall|a: int| 0 <= a < pos ==> (#[trigger] old_s[a]).1 >= item.1,
        forall|a: int| pos <= a < old_s.len() ==> (#[trigger] old_s[a]).1 < item.1 || !most_used_first(old_s),
        forall|a: int| 0 <= a < old_s.len() ==> count_entry_ok(u, #[trigger] old_s[a]),
        forall|a: int| 0 <= a < old_s.len() ==> key_in(counts.take(j), (#[trigger] old_s[a]).0@),
        forall|b: int| 0 <= b < j ==> key_in(old_s, (#[trigger] counts[b]).0@),
        distinct_tags(old_s),
        most_used_first(old_s),
    ensures
        forall|a: int| 0 <= a < new_s.len() ==> count_entry_ok(u, #[trigger] new_s[a]),
        forall|a: int| 0 <= a < new_s.len() ==> key_in(counts.take(j + 1), (#[trigger] new_s[a]).0@),
        forall|b: int| 0 <= b < j + 1 ==> key_in(new_s, (#[trigger] counts[b]).0@),
        distinct_tags(new_s),
        most_used_first(new_s),
{
    assert forall|a: int| 0 <= a < new_s.len() implies new_s[a] == (if a < pos {
        old_s[a]
    } else if a == pos {
        item
    } else {
        old_s[a - 1]
    }) by {}
    assert forall|a: int| 0 <= a < old_s.len() implies (#[trigger] old_s[a]).0@ != item.0@ by {
        assert(key_in(counts.take(j), old_s[a].0@));
        let b = choose|b: int| 0 <= b < counts.take(j).len() && (#[trigger] counts.take(j)[b]).0@ == old_s[a].0@;
        assert(counts.take(j)[b] == counts[b]);
        assert(counts[b].0@ != counts[j].0@);
    }
    assert forall|a: int| 0 <= a < new_s.len() implies count_entry_ok(u, #[trigger] new_s[a]) by {
        if a < pos {
            assert(new_s[a] == old_s[a]);
        } else if a > pos {
            assert(new_s[a] == old_s[a - 1]);
        } else {
            assert(count_entry_ok(u, counts[j]));
        }
    }
    assert forall|a: int| 0 <= a < new_s.len() implies key_in(counts.take(j + 1), (#[trigger] new_s[a]).0@) by {
        let ct = counts.take(j + 1);
        if a == pos {
            assert(ct[j] == counts[j]);
        } else {
            let oa = if a < pos {
                a
            } else {
                a - 1
            };
            assert(new_s[a] == old_s[oa]);
            assert(key_in(counts.take(j), old_s[oa].0@));
            let b = choose|b: int| 0 <= b < counts.take(j).len() && (#[trigger] counts.take(j)[b]).0@ == old_s[oa].0@;
            assert(ct[b] == counts.take(j)[b]);
        }
    }
    assert forall|b: int| 0 <= b < j + 1 implies key_in(new_s, (#[trigger] counts[b]).0@) by {
        if b == j {
            assert(new_s[pos].0@ == counts[b].0@);
        } else {
            assert(key_in(old_s, counts[b].0@));
            let a = choose|a: int| 0 <= a < old_s.len() && (#[trigger] old_s[a]).0@ == counts[b].0@;
            if a < pos {
                assert(new_s[a] == old_s[a]);
            } else {
                assert(new_s[a + 1] == old_s[a]);
            }
        }
    }
    assert forall|a: int, c: int| 0 <= a < c < new_s.len() implies (#[trigger] new_s[a]).0@ != (#[trigger] new_s[c]).0@ by {
        let oa = if a < pos {
            a
        } else {
            a - 1
        };
        let oc = if c < pos {
            c
        } else {
            c - 1
        };
        if a != pos && c != pos {
            assert(new_s[a] == old_s[oa]);
            assert(new_s[c] == old_s[oc]);
        } else if a == pos {
            assert(new_s[c] == old_s[oc]);
        } else {
            assert(new_s[a] == old_s[oa]);
        }
    }
    assert forall|a: int, c: int| 0 <= a < c < new_s.len() implies (#[trigger] new_s[a]).1 >= (#[trigger] new_s[c]).1 by {
        let oa = if a < pos {
            a
        } else {
            a - 1
        };
        let oc = if c < pos {
            c
        } else {
            c - 1
        };
        if a != pos && c != pos {
            assert(new_s[a] == old_s[oa]);
            assert(new_s[c] == old_s[oc]);
        } else if a == pos {
            assert(new_s[c] == old_s[oc]);
        } else {
            assert(new_s[a] == old_s[oa]);
        }
    }
}

fn contains_id(ids: &Vec<u128>, id: u128) -> (b: bool)
    ensures
        b == ids@.contains(id),
{
    let mut k: usize = 0;
    while k < ids.len()
        invariant
            k <= ids@.len(),
            forall|m: int| 0 <= m < k ==> ids@[m] != id,
        decreases ids@.len() - k,
    {
        if ids[k] == id {
            assert(ids@[k as int] == id);
            return true;
        }
        k = k + 1;
    }
    false
}

/// Whether a card carries a tag.
pub open spec fn card_has_tag(c: CardSummary, t: Seq<char>) -> bool {
    tag_texts(c.tags@).contains(t)
}

/// How many cards of the decks carry a tag.
pub open spec fn cards_with_tag(decks: Seq<(DeckSummary, Vec<CardSummary>)>, t: Seq<char>) -> nat
    decreases decks.len(),
{
    if decks.len() == 0 {
        0
    } else {
        cards_with_tag(decks.drop_last(), t) + decks.last().1@.filter(|c: CardSummary| card_has_tag(c, t)).len()
    }
}

/// What deleting the highlighted tag will do.
#[derive(Debug)]
pub enum TagDeletion {
    /// No tag is listed at the highlighted position.
    NoTag,
    /// The tag is used by no card.
    Unused { tag: String },
    /// Remove the tag from `affected_cards` cards, in the listed decks.
    Remove { tag: String, affected_cards: usize, decks: Vec<u128> },
}

fn card_has_tag_exec(c: &CardSummary, t: &String) -> (b: bool)
    ensures
        b == card_has_tag(*c, t@),
{
    let mut k: usize = 0;
    while k < c.tags.len()
        invariant
            k <= c.tags@.len(),
            forall|m: int| 0 <= m < k ==> (#[trigger] c.tags@[m])@ != t@,
        decreases c.tags@.len() - k,
    {
        if str_eq(c.tags[k].as_str(), t.as_str()) {
            assert(tag_texts(c.tags@)[k as int] == t@);
            return true;
        }
        k = k + 1;
    }
    proof {
        if tag_texts(c.tags@).contains(t@) {
            let m = choose|m: int| 0 <= m < tag_texts(c.tags@).len() && tag_texts(c.tags@)[m] == t@;
            assert(c.tags@[m]@ == t@);
        }
    }
    false
}

/// Plans the deletion of the tag at `tag_index` of the list `tag_counts`
/// gives: the tag, the number of cards that carry it, and the decks that
/// hold them, each once, in list order.
pub fn plan_tag_deletion(decks: &Vec<(DeckSummary, Vec<CardSummary>)>, tag_index: usize) -> (plan: TagDeletion)
    requires
        all_tags(decks@).len() <= usize::MAX,
    ensures
        exists|counts: Seq<(String, usize)>|
            {
                &&& valid_tag_list(all_tags(decks@), counts)
                &&& (plan is NoTag <==> tag_index >= counts.len())
                &&& plan matches TagDeletion::Unused { tag } ==> tag@ == counts[tag_index as int].0@
                &&& plan matches TagDeletion::Remove { tag, .. } ==> tag@ == counts[tag_index as int].0@
            },
        match plan {
            TagDeletion::NoTag => true,
            TagDeletion::Unused { tag } => cards_with_tag(decks@, tag@) == 0,
            TagDeletion::Remove { tag, affected_cards, decks: ids } => {
                &&& affected_cards == cards_with_tag(decks@, tag@)
                &&& affected_cards > 0
                &&& forall|a: int| 0 <= a < ids@.len() ==> exists|d: int| 0 <= d < decks@.len() && (#[trigger] decks@[d]).0.uuid == #[trigger] ids@[a]
                    && decks@[d].1@.filter(|c: CardSummary| card_has_tag(c, tag@)).len() > 0
                &&& forall|d: int| 0 <= d < decks@.len() && (#[trigger] decks@[d]).1@.filter(|c: CardSummary| card_has_tag(c, tag@)).len() > 0 ==> ids@.contains(decks@[d].0.uuid)
                &&& forall|a: int, b: int| 0 <= a < b < ids@.len() ==> ids@[a] != ids@[b]
            },
        },
{
    let counts = tag_counts(decks);
    if tag_index >= counts.len() {
        assert(valid_tag_list(all_tags(decks@), counts@));
        return TagDeletion::NoTag;
    }
    let ghost cv = counts@;
    let tag = counts[tag_index].0.clone();
    let mut affected: usize = 0;
    let mut ids: Vec<u128> = Vec::new();
    let mut i: usize = 0;
    while i < decks.len()
        invariant
            i <= decks@.len(),
            affected == cards_with_tag(decks@.take(i as int), tag@),
            affected <= all_tags(decks@.take(i as int)).len(),
            all_tags(decks@).len() <= usize::MAX,
            forall|a: int| 0 <= a < ids@.len() ==> exists|d: int| 0 <= d < i && (#[trigger] decks@[d]).0.uuid == #[trigger] ids@[a]
                && decks@[d].1@.filter(|c: CardSummary| card_has_tag(c, tag@)).len() > 0,
            forall|d: int| 0 <= d < i && (#[trigger] decks@[d]).1@.filter(|c: CardSummary| card_has_tag(c, tag@)).len() > 0 ==> ids@.contains(decks@[d].0.uuid),
            forall|a: int, b: int| 0 <= a < b < ids@.len() ==> ids@[a] != ids@[b],
        decreases decks@.len() - i,
    {
        let cards = &decks[i].1;
        let mut in_deck: usize = 0;
        let mut j: usize = 0;
        while j < cards.len()
            invariant
                j <= cards@.len(),
                cards@ == decks@[i as int].1@,
                in_deck == cards@.take(j as int).filter(|c: CardSummary| card_has_tag(c, tag@)).len(),
                in_deck <= card_tags(cards@.take(j as int)).len(),
            decreases cards@.len() - j,
        {
            let has = card_has_tag_exec(&cards[j], &tag);
            proof {
                let t1 = cards@.take(j + 1);
                assert(t1.drop_last() =~= cards@.take(j as int));
                reveal_with_fuel(Seq::filter, 1);
                assert(card_tags(t1) == card_tags(cards@.take(j as int)) + tag_texts(cards@[j as int].tags@));
                if has {
                    assert(tag_texts(cards@[j as int].tags@).len() > 0);
                }
            }
            if has {
                in_deck = in_deck + 1;
            }
            j = j + 1;
        }
        proof {
            assert(cards@.take(cards@.len() as int) =~= cards@);
            assert(decks@.take(i + 1).drop_last() =~= decks@.take(i as int));
            lemma_all_tags_prefix(decks@, i as int + 1);
        }
        affected = affected + in_deck;
        if in_deck > 0 {
            let id = decks[i].0.uuid;
            let seen = contains_id(&ids, id);
            let ghost old_ids = ids@;
            if !seen {
                ids.push(id);
            }
            proof {
                assert forall|a: int| 0 <= a < ids@.len() implies exists|d: int| 0 <= d < i + 1 && (#[trigger] decks@[d]).0.uuid == #[trigger] ids@[a]
                    && decks@[d].1@.filter(|c: CardSummary| card_has_tag(c, tag@)).len() > 0 by {
                    if a < old_ids.len() {
                        assert(ids@[a] == old_ids[a]);
                    } else {
                        assert(decks@[i as int].0.uuid == ids@[a]);
                    }
                }
                assert forall|d: int| 0 <= d < i + 1 && (#[trigger] decks@[d]).1@.filter(|c: CardSummary| card_has_tag(c, tag@)).len() > 0 implies ids@.contains(decks@[d].0.uuid) by {
                    if d < i {
                        assert(old_ids.contains(decks@[d].0.uuid));
                        let m = choose|m: int| 0 <= m < old_ids.len() && old_ids[m] == decks@[d].0.uuid;
                        assert(ids@[m] == old_ids[m]);
                    } else if seen {
                        assert(ids@.contains(id));
                    } else {
                        assert(ids@[old_ids.len() as int] == id);
                    }
                }
            }
        } else {
            proof {
                assert forall|d: int| 0 <= d < i + 1 && (#[trigger] decks@[d]).1@.filter(|c: CardSummary| card_has_tag(c, tag@)).len() > 0 implies ids@.contains(decks@[d].0.uuid) by {}
            }
        }
        i = i + 1;
    }
    assert(decks@.take(decks@.len() as int) =~= decks@);
    assert(valid_tag_list(all_tags(decks@), cv));
    if affected == 0 {
        TagDeletion::Unused { tag }
    } else {
        TagDeletion::Remove { tag, affected_cards: affected, decks: ids }
    }
}

proof fn lemma_all_tags_prefix(decks: Seq<(DeckSummary, Vec<CardSummary>)>, k: int)
    requires
        0 <= k <= decks.len(),
    ensures
        all_tags(decks.take(k)).len() <= all_tags(decks).len(),
    decreases decks.len() - k,
{
    if k < decks.len() {
        lemma_all_tags_prefix(decks, k + 1);
        assert(decks.take(k + 1).drop_last() =~= decks.take(k));
    } else {
        assert(decks.take(k) =~= decks);
    }
}

/// Removes every use of a tag from a card's tags, keeping the others in
/// order.
pub fn remove_tag(tags: &mut Vec<String>, tag: &str)
    ensures
        tag_texts(final(tags)@) == tag_texts(old(tags)@).filter(|t: Seq<char>| t != tag@),
{
    let mut kept: Vec<String> = Vec::new();
    let mut i: usize = 0;
    while i < tags.len()
        invariant
            i <= tags@.len(),
            tags@ == old(tags)@,
            tag_texts(kept@) == tag_texts(tags@.take(i as int)).filter(|t: Seq<char>| t != tag@),
        decreases tags@.len() - i,
    {
        proof {
            let t1 = tag_texts(tags@.take(i + 1));
            assert(t1.drop_last() =~= tag_texts(tags@.take(i as int)));
            assert(t1.last() == tags@[i as int]@);
            reveal_with_fuel(Seq::filter, 1);
        }
        if !str_eq(tags[i].as_str(), tag) {
            kept.push(tags[i].clone());
            proof {
                assert(tag_texts(kept@) =~= tag_texts(tags@.take(i as int)).filter(|t: Seq<char>| t != tag@).push(tags@[i as int]@));
            }
        }
        i = i + 1;
    }
    assert(tags@.take(tags@.len() as int) =~= tags@);
    *tags = kept;
}

/// The message once a planned tag deletion has been carried out, or why
/// nothing was deleted.
pub open spec fn tag_deletion_message(v: StoreView, plan: TagDeletion) -> StoreView {
    match plan {
        TagDeletion::NoTag => msg(v, MessageLevel::Warning, "No Tag Selected"@, "Please select a valid tag"@),
        TagDeletion::Unused { tag } => msg(
            v,
            MessageLevel::Info,
            "No Cards Found"@,
            "Tag '"@ + tag@ + "' is not used by any cards"@,
        ),
        TagDeletion::Remove { tag, affected_cards, .. } => msg(
            v,
            MessageLevel::Success,
            "Tag Deleted"@,
            "Removed '"@ + tag@ + "' from "@ + decimal(affected_cards as nat) + " cards"@,
        ),
    }
}

/// Reports a tag deletion; for a removal, once every deck was updated.
pub fn finish_tag_deletion(state: &mut UiAppState, plan: &TagDeletion)
    ensures
        final(state).wf() == old(state).wf(),
        final(state)@ == tag_deletion_message(old(state)@, *plan),
{
    match plan {
        TagDeletion::NoTag => {
            state.say(MessageLevel::Warning, "No Tag Selected", "Please select a valid tag");
        },
        TagDeletion::Unused { tag } => {
            let text = String::from_str("Tag '").concat(tag.as_str()).concat("' is not used by any cards");
            state.message = Some(
                StoreMessage { level: MessageLevel::Info, title: String::from_str("No Cards Found"), content: text },
            );
            assert(final(state)@ =~= tag_deletion_message(old(state)@, *plan));
        },
        TagDeletion::Remove { tag, affected_cards, .. } => {
            let n = u64_to_text(*affected_cards as u64);
            let text = String::from_str("Removed '").concat(tag.as_str()).concat("' from ").concat(n.as_str()).concat(
                " cards",
            );
            state.message = Some(
                StoreMessage { level: MessageLevel::Success, title: String::from_str("Tag Deleted"), content: text },
            );
            assert(final(state)@ =~= tag_deletion_message(old(state)@, *plan));
        },
    }
}

} // verus!
