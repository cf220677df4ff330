//! Playing the Signal Cistern Relief quest chain: starting it, advancing
//! its nodes and choosing how the relief ends.

use vstd::prelude::*;
use crate::catalog::{CampaignPhase, CampaignRoom};
use crate::error::CampaignError;
use crate::quests::{
    cistern_relief_quest_chain_definition, spec_cistern_relief_chain, ChainRewardView, QuestBranch, QuestChainId,
    QuestChainNodeId, QuestChainProgress, QuestChainReward,
};
use crate::town::{msg_not_in_town, msg_wrong_room, require_room, require_town};

verus! {

pub open spec fn msg_road_closed() -> Seq<char> {
    "the outer signal road must be open before cistern relief"@
}

pub open spec fn msg_chain_active() -> Seq<char> {
    "another quest-chain step is already active"@
}

/// Whether a chain is under way and not yet complete.
pub open spec fn chain_active(chain: Option<QuestChainProgress>) -> bool {
    chain matches Some(c) && !c.complete
}

/// Starts the chain in the relay quarter once the outer Signal Road is
/// open, unless a chain is already under way.
pub fn start_cistern_relief(
    chain: &mut Option<QuestChainProgress>,
    phase: CampaignPhase,
    room: CampaignRoom,
    outer_signal_road_open: bool,
) -> (r: Result<(), CampaignError>)
    ensures
        phase != CampaignPhase::Town ==> (r matches Err(e) && e.is_state(msg_not_in_town())),
        phase == CampaignPhase::Town && room != CampaignRoom::RelayQuarter
            ==> (r matches Err(e) && e.is_state(msg_wrong_room(CampaignRoom::RelayQuarter, room))),
        phase == CampaignPhase::Town && room == CampaignRoom::RelayQuarter && !outer_signal_road_open
            ==> (r matches Err(e) && e.is_state(msg_road_closed())),
        phase == CampaignPhase::Town && room == CampaignRoom::RelayQuarter && outer_signal_road_open && chain_active(*old(chain))
            ==> (r matches Err(e) && e.is_state(msg_chain_active())),
        r is Err ==> *final(chain) == *old(chain),
        r is Ok ==> (*final(chain) matches Some(c) && c.id == QuestChainId::CisternRelief
            && c.current_node == QuestChainNodeId::SurveyDamage && c.chosen_branch is None
            && c.completed_nodes@.len() == 0 && !c.complete),
        phase == CampaignPhase::Town && room == CampaignRoom::RelayQuarter && outer_signal_road_open && !chain_active(*old(chain))
            ==> r is Ok,
{
    require_room(phase, room, CampaignRoom::RelayQuarter)?;
    if !outer_signal_road_open {
        return Err(CampaignError::InvalidState("the outer signal road must be open before cistern relief".to_owned()));
    }
    let active = match chain {
        Some(c) => !c.complete,
        None => false,
    };
    if active {
        return Err(CampaignError::InvalidState("another quest-chain step is already active".to_owned()));
    }
    *chain = Some(QuestChainProgress {
        id: QuestChainId::CisternRelief,
        current_node: QuestChainNodeId::SurveyDamage,
        chosen_branch: None,
        completed_nodes: Vec::new(),
        complete: false,
    });
    Ok(())
}

/// Where a chain node is played.
pub open spec fn spec_node_room(node: QuestChainNodeId) -> CampaignRoom {
    match node {
        QuestChainNodeId::GatherSupplies => CampaignRoom::ExpeditionGate,
        _ => CampaignRoom::RelayQuarter,
    }
}

pub open spec fn msg_chain_inactive() -> Seq<char> {
    "cistern relief is not active"@
}

pub open spec fn msg_chain_room(required: CampaignRoom) -> Seq<char> {
    "cistern relief step requires "@ + required.spec_title()
}

pub open spec fn msg_supplies_cost() -> Seq<char> {
    "gathering cistern supplies costs 40 credits"@
}

pub open spec fn msg_choose_branch() -> Seq<char> {
    "choose reinforce or evacuate to complete cistern relief"@
}

pub open spec fn msg_relief_done() -> Seq<char> {
    "cistern relief is already complete"@
}

/// The credits the relief supplies cost.
pub const CISTERN_SUPPLIES_COST: i64 = 40;

fn insert_node(nodes: &mut Vec<QuestChainNodeId>, node: QuestChainNodeId)
    ensures
        final(nodes)@.to_set() == old(nodes)@.to_set().insert(node),
{
    let mut i: usize = 0;
    while i < nodes.len()
        invariant
            i <= nodes@.len(),
            forall|j: int| 0 <= j < i ==> nodes@[j] != node,
        decreases nodes@.len() - i,
    {
        if nodes[i] == node {
            assert(nodes@.to_set() =~= nodes@.to_set().insert(node));
            return;
        }
        i = i + 1;
    }
    let ghost before = nodes@;
    nodes.push(node);
    assert(nodes@.to_set() =~= before.to_set().insert(node)) by {
        assert forall|x: QuestChainNodeId| nodes@.to_set().contains(x) <==> before.to_set().insert(node).contains(x) by {
            if before.contains(x) {
                let j = choose|j: int| 0 <= j < before.len() && before[j] == x;
                assert(nodes@[j] == x);
            }
            if x == node {
                assert(nodes@[before.len() as int] == x);
            }
        }
    }
}

/// Advances the active chain by one node in the node's room: surveying the
/// damage leads to gathering supplies, and gathering supplies costs 40
/// credits and leads to the choice of relief plan. The choice itself and a
/// finished chain cannot be advanced this way. A refusal changes nothing.
pub fn advance_cistern_relief(
    chain: &mut Option<QuestChainProgress>,
    phase: CampaignPhase,
    room: CampaignRoom,
    credits: &mut i64,
) -> (r: Result<QuestChainNodeId, CampaignError>)
    ensures
        r is Err ==> *final(chain) == *old(chain) && *final(credits) == *old(credits),
        phase != CampaignPhase::Town ==> (r matches Err(e) && e.is_state(msg_not_in_town())),
        phase == CampaignPhase::Town && !chain_active(*old(chain)) ==> (r matches Err(e) && e.is_state(msg_chain_inactive())),
        phase == CampaignPhase::Town && chain_active(*old(chain)) ==> ({
            let c = old(chain)->Some_0;
            let node = c.current_node;
            if room != spec_node_room(node) {
                r matches Err(e) && e.is_state(msg_chain_room(spec_node_room(node)))
            } else if node == QuestChainNodeId::ChooseReliefPlan {
                r matches Err(e) && e.is_state(msg_choose_branch())
            } else if node == QuestChainNodeId::ReliefComplete {
                r matches Err(e) && e.is_state(msg_relief_done())
            } else if node == QuestChainNodeId::GatherSupplies && *old(credits) < CISTERN_SUPPLIES_COST {
                r matches Err(e) && e.is_state(msg_supplies_cost())
            } else {
                let next = if node == QuestChainNodeId::SurveyDamage {
                    QuestChainNodeId::GatherSupplies
                } else {
                    QuestChainNodeId::ChooseReliefPlan
                };
                &&& r == Ok::<QuestChainNodeId, CampaignError>(next)
                &&& *final(chain) matches Some(after) && after.current_node == next
                    && after.completed_nodes@.to_set() == c.completed_nodes@.to_set().insert(node)
                    && after.id == c.id && after.chosen_branch == c.chosen_branch && after.complete == c.complete
                &&& *final(credits) == (if node == QuestChainNodeId::GatherSupplies {
                    (*old(credits) - CISTERN_SUPPLIES_COST) as i64
                } else {
                    *old(credits)
                })
            }
        }),
{
    require_town(phase)?;
    let node = match chain {
        Some(c) => {
            if c.complete {
                return Err(CampaignError::InvalidState("cistern relief is not active".to_owned()));
            }
            c.current_node
        },
        None => {
            return Err(CampaignError::InvalidState("cistern relief is not active".to_owned()));
        },
    };
    let required = match node {
        QuestChainNodeId::GatherSupplies => CampaignRoom::ExpeditionGate,
        _ => CampaignRoom::RelayQuarter,
    };
    if room != required {
        let mut message = "cistern relief step requires ".to_owned();
        message.append(required.title());
        return Err(CampaignError::InvalidState(message));
    }
    let next = match node {
        QuestChainNodeId::SurveyDamage => QuestChainNodeId::GatherSupplies,
        QuestChainNodeId::GatherSupplies => {
            if *credits < CISTERN_SUPPLIES_COST {
                return Err(CampaignError::InvalidState("gathering cistern supplies costs 40 credits".to_owned()));
            }
            QuestChainNodeId::ChooseReliefPlan
        },
        QuestChainNodeId::ChooseReliefPlan => {
            return Err(CampaignError::InvalidState("choose reinforce or evacuate to complete cistern relief".to_owned()));
        },
        QuestChainNodeId::ReliefComplete => {
            return Err(CampaignError::InvalidState("cistern relief is already complete".to_owned()));
        },
    };
    if node == QuestChainNodeId::GatherSupplies {
        *credits = *credits - CISTERN_SUPPLIES_COST;
    }
    let mut c = chain.take().unwrap();
    insert_node(&mut c.completed_nodes, node);
    c.current_node = next;
    *chain = Some(c);
    Ok(next)
}

pub open spec fn msg_not_awaiting_branch() -> Seq<char> {
    "cistern relief is not awaiting a branch"@
}

pub open spec fn msg_branch_chosen() -> Seq<char> {
    "cistern relief branch has already been chosen"@
}

/// The rewards of the branch: the chain definition's closing node for it.
pub open spec fn spec_branch_rewards(branch: QuestBranch) -> Seq<ChainRewardView> {
    match branch {
        QuestBranch::ReinforceCistern => spec_cistern_relief_chain().nodes[3].rewards,
        QuestBranch::EvacuateFamilies => spec_cistern_relief_chain().nodes[4].rewards,
    }
}

/// Chooses how the relief ends, in the relay quarter, when the chain
/// awaits its relief plan: the chain completes on that branch, both final
/// nodes counted, and the branch's rewards are answered for the campaign to
/// grant. A branch is chosen once; a refusal changes nothing.
pub fn choose_cistern_relief_branch(
    chain: &mut Option<QuestChainProgress>,
    phase: CampaignPhase,
    room: CampaignRoom,
    branch: QuestBranch,
) -> (r: Result<Vec<QuestChainReward>, CampaignError>)
    ensures
        r is Err ==> *final(chain) == *old(chain),
        phase != CampaignPhase::Town ==> (r matches Err(e) && e.is_state(msg_not_in_town())),
        phase == CampaignPhase::Town && room != CampaignRoom::RelayQuarter
            ==> (r matches Err(e) && e.is_state(msg_wrong_room(CampaignRoom::RelayQuarter, room))),
        phase == CampaignPhase::Town && room == CampaignRoom::RelayQuarter ==> ({
            let awaiting = *old(chain) matches Some(c) && !c.complete && c.current_node == QuestChainNodeId::ChooseReliefPlan;
            if !awaiting {
                r matches Err(e) && e.is_state(msg_not_awaiting_branch())
            } else if old(chain)->Some_0.chosen_branch is Some {
                r matches Err(e) && e.is_state(msg_branch_chosen())
            } else {
                let c = old(chain)->Some_0;
                &&& r matches Ok(rewards) && rewards@.map_values(|x: QuestChainReward| x@) == spec_branch_rewards(branch)
                &&& *final(chain) matches Some(after) && after.complete && after.chosen_branch == Some(branch)
                    && after.current_node == QuestChainNodeId::ReliefComplete && after.id == c.id
                    && after.completed_nodes@.to_set() == c.completed_nodes@.to_set()
                        .insert(QuestChainNodeId::ChooseReliefPlan).insert(QuestChainNodeId::ReliefComplete)
            }
        }),
{
    require_room(phase, room, CampaignRoom::RelayQuarter)?;
    let chosen = match chain {
        Some(c) => {
            if c.complete || c.current_node != QuestChainNodeId::ChooseReliefPlan {
                return Err(CampaignError::InvalidState("cistern relief is not awaiting a branch".to_owned()));
            }
            c.chosen_branch.is_some()
        },
        None => {
            return Err(CampaignError::InvalidState("cistern relief is not awaiting a branch".to_owned()));
        },
    };
    if chosen {
        return Err(CampaignError::InvalidState("cistern relief branch has already been chosen".to_owned()));
    }
    let mut definition = cistern_relief_quest_chain_definition();
    let index: usize = match branch {
        QuestBranch::ReinforceCistern => 3,
        QuestBranch::EvacuateFamilies => 4,
    };
    assert(definition@.nodes.len() == 5);
    assert(definition.nodes@.len() == 5);
    let ghost spec_node = spec_cistern_relief_chain().nodes[index as int];
    assert(definition.nodes@[index as int]@ == spec_node);
    let node = definition.nodes.remove(index);
    assert(node@ == spec_node);
    let rewards = node.rewards;
    let mut c = chain.take().unwrap();
    insert_node(&mut c.completed_nodes, QuestChainNodeId::ChooseReliefPlan);
    insert_node(&mut c.completed_nodes, QuestChainNodeId::ReliefComplete);
    c.current_node = QuestChainNodeId::ReliefComplete;
    c.chosen_branch = Some(branch);
    c.complete = true;
    *chain = Some(c);
    Ok(rewards)
}

} // verus!
