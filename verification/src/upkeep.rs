//! What upkeep of a loaded campaign promises across calls: applying it to a
//! campaign it has already brought up to date changes nothing more.

use vstd::prelude::*;
use crate::campaign::{find_entry, CampaignState};
use crate::defaults::{capped_memories, chapter_part, first_decision, last_n, spec_filled_demand, spec_filled_stock, spec_normalized, upkept};
use crate::economy::EconomicOutbox;
use crate::market::MarketCatalogItem;
use crate::quests::{memories_view, StoryProgress};
use crate::quest_graph::texts_view;
use crate::story::{MainStoryChapter, MainStoryDecisionRecord};

verus! {

proof fn lemma_last_n_idempotent<T>(s: Seq<T>, cap: nat)
    ensures
        last_n(last_n(s, cap), cap) == last_n(s, cap),
{
}

/// Pushing an entry keeps every id that was found where it was, and finds
/// the pushed id at the end when it was missing.
proof fn lemma_find_entry_push<T>(s: Seq<(String, T)>, x: (String, T), id: Seq<char>, start: int)
    requires
        0 <= start <= s.len(),
    ensures
        find_entry(s.push(x), id, start) == if find_entry(s, id, start) >= 0 {
            find_entry(s, id, start)
        } else if x.0@ == id {
            s.len() as int
        } else {
            -1
        },
    decreases s.len() - start,
{
    if start < s.len() {
        assert(s.push(x)[start] == s[start]);
        lemma_find_entry_push(s, x, id, start + 1);
    } else {
        assert(s.push(x)[start] == x);
        assert(find_entry(s.push(x), id, start + 1) == -1);
    }
}

pub(crate) proof fn lemma_find_entry_range<T>(s: Seq<(String, T)>, id: Seq<char>, start: int)
    ensures
        find_entry(s, id, start) == -1 || (0 <= find_entry(s, id, start) < s.len()),
    decreases s.len() - start,
{
    if 0 <= start < s.len() {
        lemma_find_entry_range(s, id, start + 1);
    }
}

/// Filling demand adds entries of demand 0 only, so demand within ±20
/// stays within ±20.
pub(crate) proof fn lemma_filled_demand_bounded(s: Seq<(String, i16)>, catalog: Seq<MarketCatalogItem>)
    requires
        forall|i: int| 0 <= i < s.len() ==> -20 <= #[trigger] s[i].1 <= 20,
    ensures
        forall|i: int| 0 <= i < spec_filled_demand(s, catalog).len() ==> -20 <= #[trigger] spec_filled_demand(s, catalog)[i].1 <= 20,
    decreases catalog.len(),
{
    if catalog.len() > 0 {
        let f = spec_filled_demand(s, catalog.drop_last());
        let c = catalog.last();
        lemma_filled_demand_bounded(s, catalog.drop_last());
        if find_entry(f, c.id@, 0) < 0 {
            let g = f.push((c.id, 0i16));
            assert(spec_filled_demand(s, catalog) == g);
            assert forall|i: int| 0 <= i < g.len() implies -20 <= #[trigger] g[i].1 <= 20 by {
                if i < f.len() {
                    assert(g[i] == f[i]);
                }
            }
        }
    }
}

/// After filling, every catalog item has a stock entry.
pub(crate) proof fn lemma_filled_stock_covers(s: Seq<(String, u16)>, catalog: Seq<MarketCatalogItem>)
    ensures
        forall|k: int| 0 <= k < catalog.len() ==> find_entry(spec_filled_stock(s, catalog), #[trigger] catalog[k].id@, 0) >= 0,
    decreases catalog.len(),
{
    if catalog.len() > 0 {
        let rest = catalog.drop_last();
        let f = spec_filled_stock(s, rest);
        let c = catalog.last();
        lemma_filled_stock_covers(s, rest);
        let x = (c.id, if c.material { 12u16 } else { 4u16 });
        assert forall|k: int| 0 <= k < catalog.len() implies find_entry(spec_filled_stock(s, catalog), #[trigger] catalog[k].id@, 0) >= 0 by {
            if find_entry(f, c.id@, 0) < 0 {
                lemma_find_entry_push(f, x, catalog[k].id@, 0);
                if k < catalog.len() - 1 {
                    assert(rest[k] == catalog[k]);
                }
            } else if k < catalog.len() - 1 {
                assert(rest[k] == catalog[k]);
            }
        }
    }
}

/// Filling stock in which every catalog item already has an entry changes
/// nothing.
pub(crate) proof fn lemma_filled_stock_fixed(s: Seq<(String, u16)>, catalog: Seq<MarketCatalogItem>)
    requires
        forall|k: int| 0 <= k < catalog.len() ==> find_entry(s, #[trigger] catalog[k].id@, 0) >= 0,
    ensures
        spec_filled_stock(s, catalog) == s,
    decreases catalog.len(),
{
    if catalog.len() > 0 {
        let rest = catalog.drop_last();
        assert forall|k: int| 0 <= k < rest.len() implies find_entry(s, #[trigger] rest[k].id@, 0) >= 0 by {
            assert(rest[k] == catalog[k]);
        }
        lemma_filled_stock_fixed(s, rest);
        assert(catalog.last() == catalog[catalog.len() - 1]);
    }
}

pub(crate) proof fn lemma_filled_demand_covers(s: Seq<(String, i16)>, catalog: Seq<MarketCatalogItem>)
    ensures
        forall|k: int| 0 <= k < catalog.len() ==> find_entry(spec_filled_demand(s, catalog), #[trigger] catalog[k].id@, 0) >= 0,
    decreases catalog.len(),
{
    if catalog.len() > 0 {
        let rest = catalog.drop_last();
        let f = spec_filled_demand(s, rest);
        let c = catalog.last();
        lemma_filled_demand_covers(s, rest);
        let x = (c.id, 0i16);
        assert forall|k: int| 0 <= k < catalog.len() implies find_entry(spec_filled_demand(s, catalog), #[trigger] catalog[k].id@, 0) >= 0 by {
            if find_entry(f, c.id@, 0) < 0 {
                lemma_find_entry_push(f, x, catalog[k].id@, 0);
                if k < catalog.len() - 1 {
                    assert(rest[k] == catalog[k]);
                }
            } else if k < catalog.len() - 1 {
                assert(rest[k] == catalog[k]);
            }
        }
    }
}

pub(crate) proof fn lemma_filled_demand_fixed(s: Seq<(String, i16)>, catalog: Seq<MarketCatalogItem>)
    requires
        forall|k: int| 0 <= k < catalog.len() ==> find_entry(s, #[trigger] catalog[k].id@, 0) >= 0,
    ensures
        spec_filled_demand(s, catalog) == s,
    decreases catalog.len(),
{
    if catalog.len() > 0 {
        let rest = catalog.drop_last();
        assert forall|k: int| 0 <= k < rest.len() implies find_entry(s, #[trigger] rest[k].id@, 0) >= 0 by {
            assert(rest[k] == catalog[k]);
        }
        lemma_filled_demand_fixed(s, rest);
        assert(catalog.last() == catalog[catalog.len() - 1]);
    }
}

proof fn lemma_first_decision_sound(d: Seq<MainStoryDecisionRecord>, chapter: MainStoryChapter, start: int)
    requires
        0 <= start,
    ensures
        first_decision(d, chapter, start) == -1 || (start <= first_decision(d, chapter, start) < d.len()
            && d[first_decision(d, chapter, start)].chapter == chapter),
        first_decision(d, chapter, start) == -1 ==> forall|i: int| start <= i < d.len() ==> #[trigger] d[i].chapter != chapter,
    decreases d.len() - start,
{
    if start < d.len() {
        lemma_first_decision_sound(d, chapter, start + 1);
    }
}

proof fn lemma_first_decision_at(d: Seq<MainStoryDecisionRecord>, chapter: MainStoryChapter, start: int, j: int)
    requires
        0 <= start <= j < d.len(),
        d[j].chapter == chapter,
        forall|i: int| start <= i < j ==> #[trigger] d[i].chapter != chapter,
    ensures
        first_decision(d, chapter, start) == j,
    decreases j - start,
{
    if start < j {
        lemma_first_decision_at(d, chapter, start + 1, j);
    }
}

proof fn lemma_first_decision_none(d: Seq<MainStoryDecisionRecord>, chapter: MainStoryChapter, start: int)
    requires
        0 <= start,
        forall|i: int| start <= i < d.len() ==> #[trigger] d[i].chapter != chapter,
    ensures
        first_decision(d, chapter, start) == -1,
    decreases d.len() - start,
{
    if start < d.len() {
        lemma_first_decision_none(d, chapter, start + 1);
    }
}

/// A chapter's part of the decisions is empty or the one decision that
/// settles it.
proof fn lemma_chapter_part_shape(d: Seq<MainStoryDecisionRecord>, chapter: MainStoryChapter)
    ensures
        chapter_part(d, chapter).len() <= 1,
        chapter_part(d, chapter).len() == 1 ==> chapter_part(d, chapter)[0].chapter == chapter,
{
    lemma_first_decision_sound(d, chapter, 0);
}

/// Normalising normalised decisions changes nothing.
proof fn lemma_normalized_idempotent(d: Seq<MainStoryDecisionRecord>)
    ensures
        spec_normalized(spec_normalized(d)) == spec_normalized(d),
{
    let c1 = MainStoryChapter::MirrorCityOaths;
    let c2 = MainStoryChapter::SignalRoadReckoning;
    let c3 = MainStoryChapter::AshenFringeCountermarch;
    let c4 = MainStoryChapter::ChapterComplete;
    let p1 = chapter_part(d, c1);
    let p2 = chapter_part(d, c2);
    let p3 = chapter_part(d, c3);
    let p4 = chapter_part(d, c4);
    lemma_chapter_part_shape(d, c1);
    lemma_chapter_part_shape(d, c2);
    lemma_chapter_part_shape(d, c3);
    lemma_chapter_part_shape(d, c4);
    let n = spec_normalized(d);
    assert(n == p1 + p2 + p3 + p4);
    assert forall|i: int| 0 <= i < n.len() implies {
        ||| (p1.len() == 1 && i == 0 && n[i] == p1[0])
        ||| (p2.len() == 1 && i == p1.len() && n[i] == p2[0])
        ||| (p3.len() == 1 && i == p1.len() + p2.len() && n[i] == p3[0])
        ||| (p4.len() == 1 && i == p1.len() + p2.len() + p3.len() && n[i] == p4[0])
    } by {
    }
    assert forall|i: int, j: int| 0 <= i < j < n.len() implies #[trigger] n[i].chapter != #[trigger] n[j].chapter by {
    }
    lemma_part_kept(d, n, c1, p1, 0);
    lemma_part_kept(d, n, c2, p2, p1.len() as int);
    lemma_part_kept(d, n, c3, p3, (p1.len() + p2.len()) as int);
    lemma_part_kept(d, n, c4, p4, (p1.len() + p2.len() + p3.len()) as int);
}

/// The part of `chapter` in the normalised decisions `n` is its part in `d`.
proof fn lemma_part_kept(d: Seq<MainStoryDecisionRecord>, n: Seq<MainStoryDecisionRecord>, chapter: MainStoryChapter,
    p: Seq<MainStoryDecisionRecord>, at: int)
    requires
        p == chapter_part(d, chapter),
        p.len() <= 1,
        p.len() == 1 ==> (0 <= at < n.len() && n[at] == p[0] && p[0].chapter == chapter),
        forall|i: int| 0 <= i < n.len() && i != at ==> #[trigger] n[i].chapter != chapter,
        p.len() == 0 ==> forall|i: int| 0 <= i < n.len() ==> #[trigger] n[i].chapter != chapter,
    ensures
        chapter_part(n, chapter) == p,
{
    if p.len() == 1 {
        assert forall|i: int| 0 <= i < at implies #[trigger] n[i].chapter != chapter by {}
        lemma_first_decision_at(n, chapter, 0, at);
        assert(chapter_part(n, chapter) =~= p);
    } else {
        lemma_first_decision_none(n, chapter, 0);
        assert(chapter_part(n, chapter) =~= p);
    }
}

/// Upkeep is idempotent: applied to a campaign that upkeep has already
/// brought up to date (`b`, from `a`), it gives back the same campaign —
/// every field equal, and every list holding the same entries in the same
/// order.
pub proof fn lemma_upkeep_is_idempotent(a: CampaignState, b: CampaignState, c: CampaignState, catalog: Seq<MarketCatalogItem>)
    requires
        upkept(a, b, catalog),
        upkept(b, c, catalog),
    ensures
        c.social_event_history@ == b.social_event_history@,
        c.conversation_history@ == b.conversation_history@,
        memories_view(c.npc_memory@) == memories_view(b.npc_memory@),
        c.main_story_decisions@ == b.main_story_decisions@,
        c.market_stock@ == b.market_stock@,
        c.market_demand@ == b.market_demand@,
        c.outbox.dead_letters@ == b.outbox.dead_letters@,
        c.world_flags@ == b.world_flags@,
        c.story.unlocked_rooms@ == b.story.unlocked_rooms@,
        c == (CampaignState {
            social_event_history: c.social_event_history,
            conversation_history: c.conversation_history,
            npc_memory: c.npc_memory,
            main_story_decisions: c.main_story_decisions,
            market_stock: c.market_stock,
            market_demand: c.market_demand,
            outbox: EconomicOutbox { dead_letters: c.outbox.dead_letters, ..b.outbox },
            world_flags: c.world_flags,
            story: StoryProgress { unlocked_rooms: c.story.unlocked_rooms, ..b.story },
            ..b
        }),
{
    lemma_last_n_idempotent(a.social_event_history@, 16);
    lemma_last_n_idempotent(a.outbox.dead_letters@, 64);
    lemma_last_n_idempotent(a.conversation_history@, 24);
    let m = capped_memories(memories_view(a.npc_memory@));
    assert(capped_memories(m) =~= m) by {
        assert forall|i: int| 0 <= i < m.len() implies #[trigger] capped_memories(m)[i] == m[i] by {
            lemma_last_n_idempotent(memories_view(a.npc_memory@)[i].lines, 8);
        }
    }
    lemma_normalized_idempotent(a.main_story_decisions@);
    lemma_filled_stock_covers(a.market_stock@, catalog);
    lemma_filled_stock_fixed(b.market_stock@, catalog);
    lemma_filled_demand_covers(a.market_demand@, catalog);
    lemma_filled_demand_fixed(b.market_demand@, catalog);
    let gate = "expedition_gate_open"@;
    if b.mentor_met {
        assert(texts_view(b.world_flags@).to_set().contains(gate));
        assert(texts_view(b.world_flags@).contains(gate));
    }
}

/// Upkeep leaves a campaign that is already up to date (one that upkeep
/// would keep as it is, such as a new campaign) as it was: every field
/// equal, and every list holding the same entries in the same order. So a
/// saved campaign that was up to date reloads unchanged.
pub proof fn lemma_upkeep_keeps_an_up_to_date_campaign(a: CampaignState, b: CampaignState, catalog: Seq<MarketCatalogItem>)
    requires
        upkept(a, a, catalog),
        upkept(a, b, catalog),
    ensures
        b.social_event_history@ == a.social_event_history@,
        b.conversation_history@ == a.conversation_history@,
        memories_view(b.npc_memory@) == memories_view(a.npc_memory@),
        b.main_story_decisions@ == a.main_story_decisions@,
        b.market_stock@ == a.market_stock@,
        b.market_demand@ == a.market_demand@,
        b.outbox.dead_letters@ == a.outbox.dead_letters@,
        b.world_flags@ == a.world_flags@,
        b.story.unlocked_rooms@ == a.story.unlocked_rooms@,
        b == (CampaignState {
            social_event_history: b.social_event_history,
            conversation_history: b.conversation_history,
            npc_memory: b.npc_memory,
            main_story_decisions: b.main_story_decisions,
            market_stock: b.market_stock,
            market_demand: b.market_demand,
            outbox: EconomicOutbox { dead_letters: b.outbox.dead_letters, ..a.outbox },
            world_flags: b.world_flags,
            story: StoryProgress { unlocked_rooms: b.story.unlocked_rooms, ..a.story },
            ..a
        }),
{
    let gate = "expedition_gate_open"@;
    if a.mentor_met && !texts_view(a.world_flags@).contains(gate) {
        assert(a.world_flags@.len() == a.world_flags@.len() + 1);
    }
}

} // verus!
