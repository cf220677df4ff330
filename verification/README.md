# trnm_campaign_core

The rules of the Trillionnium RPG -> RTS -> RPG campaign loop, written in
Verus with their contracts proved.

`src/` is the verified library:

- `campaign`, `seed`, `canonical`, `deployment`, `settle`, `reconcile`,
  `defaults`, `social` — the campaign state, the only record that changes
  persistent progression, with its consistency check; the battle seed it
  issues and its canonical JSON, whose hash seals it; deployment of the
  active party, staging and exactly-once settlement of battle results;
  reconciliation of offline reward receipts; schema upkeep of a loaded
  campaign; and the NPC social step;
- `commands`, `npc_goals`, `upkeep` — town commands on the campaign
  (mentor, training, expedition preparation, mission acceptance, waiting,
  healing, the Cistern Relief chain), the goals NPCs take up after meeting,
  and the laws of upkeep across calls;
- `catalog`, `story`, `quests`, `quest_graph`, `journal` — typed catalogs,
  the three-chapter main story and its endings, the story quest and the
  Cistern Relief chain, quest readiness, the campaign journal;
- `town`, `cistern`, `skirmish`, `clock` — the decisions of town commands,
  expedition preparation, the world clock and supplies;
- `battle_map`, `stats`, `settlement`, `party`, `loot` — battle maps and
  mission objectives, unit stats, validation and settlement of battle
  results, party progression, loot inventories;
- `economy`, `market`, `logistics` — the exactly-once economic outbox,
  wallet effects, tradeable purchases, regional markets and caravans;
- `hashing`, `settings`, `text`, `error` — content hashes (SHA-256 via the
  `sha2` crate), save slots and player settings, text helpers, errors.

`app/` holds what is not verified: JSON forms of the records (serde),
the campaign store (whole-file atomic saves, each command run on a copy
that is kept only once saved), the save slots and settings files, and the
battle result's JSON form for the RTS client.
