//! Block and ommer rewards of the proof-of-work era.

use vstd::prelude::*;

verus! {

/// One ether, in wei.
pub const ETH_TO_WEI: u128 = 1_000_000_000_000_000_000;

/// First mainnet block of the Byzantium era.
pub const MAINNET_BYZANTIUM_BLOCK: u64 = 4_370_000;

/// First mainnet block of the Constantinople era.
pub const MAINNET_CONSTANTINOPLE_BLOCK: u64 = 7_280_000;

/// First mainnet block after the merge transition.
pub const MAINNET_PARIS_BLOCK: u64 = 15_537_394;

/// First Sepolia block after the merge transition.
pub const SEPOLIA_PARIS_BLOCK: u64 = 1_450_409;

/// The networks whose merge-transition height is known, and all the others.
#[derive(Clone, Copy, Debug, PartialEq, Eq, Structural)]
pub enum Network {
    Mainnet,
    Sepolia,
    Other,
}

/// What the reward rules read of a block header.
#[derive(Clone, Copy, Debug, PartialEq, Eq)]
pub struct BlockHeader {
    pub number: u64,
    pub beneficiary: [u8; 20],
}

/// Whether a reward goes to the author of the block or to the author of an ommer.
#[derive(Clone, Copy, Debug, PartialEq, Eq, Structural)]
pub enum RewardType {
    Block,
    Uncle,
}

/// One reward: who receives it, of which kind it is, and how much, in wei.
#[derive(Clone, Copy, Debug, PartialEq, Eq)]
pub struct RewardTraceEntry {
    pub author: [u8; 20],
    pub reward_type: RewardType,
    pub value: u128,
}

/// The height at which a network stopped issuing block rewards, if it is known.
pub open spec fn merge_transition_block(network: Network) -> Option<u64> {
    match network {
        Network::Mainnet => Some(MAINNET_PARIS_BLOCK),
        Network::Sepolia => Some(SEPOLIA_PARIS_BLOCK),
        Network::Other => None,
    }
}

/// Whether the merge transition has happened at `number`. A network whose
/// transition height is unknown counts as past it.
pub open spec fn is_past_merge_transition(network: Network, number: u64) -> bool {
    match merge_transition_block(network) {
        Some(height) => number >= height,
        None => true,
    }
}

/// The base reward of the era that `number` falls into: a step function of
/// the height that never rises. On mainnet it is five ether, three from
/// Byzantium on and two from Constantinople on; on Sepolia, where
/// Constantinople holds from the first block, two ether at every height. A
/// network whose transition height is unknown has no era of rewards.
pub open spec fn era_base_reward(network: Network, number: u64) -> u128 {
    match network {
        Network::Mainnet => {
            if number >= MAINNET_CONSTANTINOPLE_BLOCK {
                (2 * ETH_TO_WEI) as u128
            } else if number >= MAINNET_BYZANTIUM_BLOCK {
                (3 * ETH_TO_WEI) as u128
            } else {
                (5 * ETH_TO_WEI) as u128
            }
        },
        Network::Sepolia => (2 * ETH_TO_WEI) as u128,
        Network::Other => 0,
    }
}

/// The base block reward at `number`: none once the merge transition has
/// happened, the era's base reward before it.
pub open spec fn base_block_reward(network: Network, number: u64) -> Option<u128> {
    if is_past_merge_transition(network, number) {
        None
    } else {
        Some(era_base_reward(network, number))
    }
}

/// The reward of a block that includes `ommers` ommers: the base reward and one
/// thirty-second of it for each ommer.
pub open spec fn block_reward_value(base: u128, ommers: nat) -> int {
    base + (base / 32) * ommers
}

/// The reward of an ommer at height `ommer` that a block at height `block`
/// includes: an eighth of the base reward for each of the eight heights up to
/// which it may lag, less one eighth for each height it does lag.
pub open spec fn ommer_reward_value(base: u128, block: u64, ommer: u64) -> int {
    ((8 + ommer - block) * base) / 8
}

/// Whether the reward of an ommer can be computed in machine integers.
pub open spec fn ommer_reward_computable(base: u128, block: u64, ommer: u64) -> bool {
    &&& 8 + ommer <= u64::MAX
    &&& block <= 8 + ommer
    &&& (8 + ommer - block) * base <= u128::MAX
}

/// The ommers of a block as a sequence; no list is no ommers.
pub open spec fn ommer_seq(ommers: Option<&[BlockHeader]>) -> Seq<BlockHeader> {
    match ommers {
        Some(list) => list@,
        None => Seq::empty(),
    }
}

/// Whether every reward of a block can be computed in machine integers.
pub open spec fn rewards_computable(header: BlockHeader, ommers: Seq<BlockHeader>, base: u128) -> bool {
    &&& block_reward_value(base, ommers.len()) <= u128::MAX
    &&& forall|i: int| 0 <= i < ommers.len() ==> ommer_reward_computable(base, header.number, #[trigger] ommers[i].number)
}

/// The reward entry of the block itself.
pub open spec fn block_entry(header: BlockHeader, ommers: nat, base: u128) -> RewardTraceEntry {
    RewardTraceEntry {
        author: header.beneficiary,
        reward_type: RewardType::Block,
        value: block_reward_value(base, ommers) as u128,
    }
}

/// The reward entry of one ommer.
pub open spec fn ommer_entry(header: BlockHeader, ommer: BlockHeader, base: u128) -> RewardTraceEntry {
    RewardTraceEntry {
        author: ommer.beneficiary,
        reward_type: RewardType::Uncle,
        value: ommer_reward_value(base, header.number, ommer.number) as u128,
    }
}

/// The reward entries of a block: the block's own, then one for each ommer in
/// the order of the ommer headers.
pub open spec fn reward_entries(header: BlockHeader, ommers: Seq<BlockHeader>, base: u128) -> Seq<RewardTraceEntry> {
    Seq::new(
        ommers.len() + 1,
        |i: int| if i == 0 {
            block_entry(header, ommers.len(), base)
        } else {
            ommer_entry(header, ommers[i - 1], base)
        },
    )
}

/// The reward entries that a block is owed on a network: none once the merge
/// transition has happened; before it those of `reward_entries`, as far as
/// they can be computed.
pub open spec fn block_reward_entries(network: Network, header: BlockHeader, ommers: Seq<BlockHeader>) -> Option<Seq<RewardTraceEntry>> {
    match base_block_reward(network, header.number) {
        None => Some(Seq::empty()),
        Some(base) => if rewards_computable(header, ommers, base) {
            Some(reward_entries(header, ommers, base))
        } else {
            None
        },
    }
}

/// Calls `EthereumHardfork::Paris.mainnet_activation_block()` of alloy-hardforks,
/// which returns the constant height of the first mainnet block after the merge.
#[verifier::external_body]
fn paris_mainnet_activation_block() -> (res: Option<u64>)
    ensures
        res == Some(MAINNET_PARIS_BLOCK),
{
    alloy_hardforks::EthereumHardfork::Paris.mainnet_activation_block()
}

/// Calls `EthereumHardfork::Paris.sepolia_activation_block()` of alloy-hardforks,
/// which returns the constant height of the first Sepolia block after the merge.
#[verifier::external_body]
fn paris_sepolia_activation_block() -> (res: Option<u64>)
    ensures
        res == Some(SEPOLIA_PARIS_BLOCK),
{
    alloy_hardforks::EthereumHardfork::Paris.sepolia_activation_block()
}

/// Calls `base_block_reward_pre_merge` of alloy-evm with the mainnet fork
/// table: two ether from Constantinople on, three from Byzantium on, five
/// before.
#[verifier::external_body]
fn mainnet_base_reward_pre_merge(number: u64) -> (res: u128)
    ensures
        res == era_base_reward(Network::Mainnet, number),
{
    alloy_evm::block::calc::base_block_reward_pre_merge(
        alloy_hardforks::EthereumChainHardforks::mainnet(),
        number,
    )
}

/// Calls `base_block_reward_pre_merge` of alloy-evm with the Sepolia fork
/// table, in which Constantinople is active from the first block: two ether at
/// every height.
#[verifier::external_body]
fn sepolia_base_reward_pre_merge(number: u64) -> (res: u128)
    ensures
        res == era_base_reward(Network::Sepolia, number),
{
    alloy_evm::block::calc::base_block_reward_pre_merge(
        alloy_hardforks::EthereumChainHardforks::sepolia(),
        number,
    )
}

/// Calls `block_reward` of alloy-evm, which adds to the base reward its
/// thirty-second part (a shift by five bits) times the number of ommers. The
/// sum has to fit.
#[verifier::external_body]
fn block_reward(base: u128, ommers: usize) -> (res: u128)
    requires
        block_reward_value(base, ommers as nat) <= u128::MAX,
    ensures
        res == block_reward_value(base, ommers as nat),
{
    alloy_evm::block::calc::block_reward(base, ommers)
}

/// Calls `ommer_reward` of alloy-evm, which multiplies the base reward by
/// `8 + ommer - block` and shifts the product right by three bits. Neither the
/// sum, the difference nor the product may leave its type.
#[verifier::external_body]
fn ommer_reward(base: u128, block: u64, ommer: u64) -> (res: u128)
    requires
        ommer_reward_computable(base, block, ommer),
    ensures
        res == ommer_reward_value(base, block, ommer),
{
    alloy_evm::block::calc::ommer_reward(base, block, ommer)
}

/// Whether the merge transition has happened at `number` on `network`.
pub fn past_merge_transition(network: Network, number: u64) -> (res: bool)
    ensures
        res == is_past_merge_transition(network, number),
{
    let activation = match network {
        Network::Mainnet => paris_mainnet_activation_block(),
        Network::Sepolia => paris_sepolia_activation_block(),
        Network::Other => None,
    };
    match activation {
        Some(height) => number >= height,
        None => true,
    }
}

/// The base block reward for `header`: none once the merge transition has
/// happened, the base reward of the header's era before it.
pub fn calculate_base_block_reward(network: Network, header: &BlockHeader) -> (res: Option<u128>)
    ensures
        res == base_block_reward(network, header.number),
{
    if past_merge_transition(network, header.number) {
        return None;
    }
    match network {
        Network::Mainnet => Some(mainnet_base_reward_pre_merge(header.number)),
        Network::Sepolia => Some(sepolia_base_reward_pre_merge(header.number)),
        Network::Other => None,
    }
}

/// The reward entries of a block with the given ommers and base reward.
pub fn extract_reward_traces(
    header: &BlockHeader,
    ommers: Option<&[BlockHeader]>,
    base_block_reward: u128,
) -> (traces: Vec<RewardTraceEntry>)
    requires
        rewards_computable(*header, ommer_seq(ommers), base_block_reward),
    ensures
        traces@ == reward_entries(*header, ommer_seq(ommers), base_block_reward),
{
    let ommers_cnt: usize = match ommers {
        Some(list) => list.len(),
        None => 0,
    };
    let mut traces: Vec<RewardTraceEntry> = Vec::new();
    let reward: u128 = block_reward(base_block_reward, ommers_cnt);
    traces.push(
        RewardTraceEntry { author: header.beneficiary, reward_type: RewardType::Block, value: reward },
    );
    let list = match ommers {
        Some(list) => list,
        None => {
            assert(traces@ =~= reward_entries(*header, ommer_seq(ommers), base_block_reward));
            return traces;
        },
    };
    let mut i: usize = 0;
    while i < list.len()
        invariant
            i <= list.len(),
            list@ == ommer_seq(ommers),
            rewards_computable(*header, list@, base_block_reward),
            traces@.len() == i + 1,
            forall|j: int| 0 <= j <= i ==> traces@[j] == reward_entries(*header, list@, base_block_reward)[j],
        decreases list.len() - i,
    {
        let uncle = &list[i];
        let reward: u128 = ommer_reward(base_block_reward, header.number, uncle.number);
        traces.push(
            RewardTraceEntry { author: uncle.beneficiary, reward_type: RewardType::Uncle, value: reward },
        );
        i = i + 1;
    }
    assert(traces@ =~= reward_entries(*header, list@, base_block_reward));
    traces
}

/// Whether every reward of a block can be computed in machine integers.
pub fn can_compute_rewards(
    header: &BlockHeader,
    ommers: Option<&[BlockHeader]>,
    base_block_reward: u128,
) -> (res: bool)
    ensures
        res == rewards_computable(*header, ommer_seq(ommers), base_block_reward),
{
    let list = match ommers {
        Some(list) => list,
        None => {
            return true;
        },
    };
    let count: u128 = list.len() as u128;
    let fits: bool = match (base_block_reward / 32).checked_mul(count) {
        Some(bonus) => base_block_reward.checked_add(bonus).is_some(),
        None => false,
    };
    if !fits {
        return false;
    }
    let mut i: usize = 0;
    while i < list.len()
        invariant
            i <= list.len(),
            list@ == ommer_seq(ommers),
            block_reward_value(base_block_reward, list@.len()) <= u128::MAX,
            forall|j: int| 0 <= j < i ==> ommer_reward_computable(base_block_reward, header.number, #[trigger] list@[j].number),
        decreases list.len() - i,
    {
        let ommer: u64 = list[i].number;
        let ok: bool = ommer <= u64::MAX - 8 && header.number <= ommer + 8 && (((ommer + 8 - header.number) as u128).checked_mul(base_block_reward)).is_some();
        if !ok {
            assert(!ommer_reward_computable(base_block_reward, header.number, list@[i as int].number));
            return false;
        }
        i = i + 1;
    }
    true
}

/// The rewards that a block is owed on `network`: none once the merge
/// transition has happened, else the block's reward and one for each ommer.
/// Returns nothing where a reward does not fit in machine integers.
pub fn block_rewards(
    network: Network,
    header: &BlockHeader,
    ommers: Option<&[BlockHeader]>,
) -> (res: Option<Vec<RewardTraceEntry>>)
    ensures
        match block_reward_entries(network, *header, ommer_seq(ommers)) {
            Some(entries) => res.is_some() && res.unwrap()@ == entries,
            None => res.is_none(),
        },
{
    match calculate_base_block_reward(network, header) {
        None => Some(Vec::new()),
        Some(base) => {
            if can_compute_rewards(header, ommers, base) {
                Some(extract_reward_traces(header, ommers, base))
            } else {
                None
            }
        },
    }
}

/// What the rewards are computed from: a block's header and the headers of
/// its ommers, where the block has a list of them.
#[derive(Clone, Debug, PartialEq, Eq)]
pub struct RewardSource {
    pub header: BlockHeader,
    pub ommers: Option<Vec<BlockHeader>>,
}

impl RewardSource {
    /// The ommers as a sequence; no list is no ommers.
    pub open spec fn ommer_headers(self) -> Seq<BlockHeader> {
        match self.ommers {
            Some(list) => list@,
            None => Seq::empty(),
        }
    }
}

/// The reward entries of a request: none where the backend has no block to
/// compute them from, else those that the block is owed.
pub open spec fn fetched_reward_entries(network: Network, source: Option<RewardSource>) -> Option<Seq<RewardTraceEntry>> {
    match source {
        None => Some(Seq::empty()),
        Some(source) => block_reward_entries(network, source.header, source.ommer_headers()),
    }
}

/// The unit of work that computes the rewards, from what the backend
/// returned for the block. Returns nothing where a reward does not fit in
/// machine integers.
pub fn compute_rewards(network: Network, source: &Option<RewardSource>) -> (res: Option<Vec<RewardTraceEntry>>)
    ensures
        match fetched_reward_entries(network, *source) {
            Some(entries) => res.is_some() && res.unwrap()@ == entries,
            None => res.is_none(),
        },
{
    match source {
        None => Some(Vec::new()),
        Some(source) => match &source.ommers {
            Some(list) => block_rewards(network, &source.header, Some(list.as_slice())),
            None => block_rewards(network, &source.header, None),
        },
    }
}

/// Once the merge transition has happened, and on every network whose
/// transition height is unknown, a block is owed no reward entries.
pub proof fn no_rewards_after_transition(network: Network, header: BlockHeader, ommers: Seq<BlockHeader>)
    requires
        is_past_merge_transition(network, header.number),
    ensures
        block_reward_entries(network, header, ommers) == Some(Seq::<RewardTraceEntry>::empty()),
{
}

/// A block with K ommers has K + 1 reward entries: first the block's own, for
/// its beneficiary, then one for each ommer, for the ommer's beneficiary, in
/// the order of the ommer headers.
pub proof fn reward_entries_follow_ommers(header: BlockHeader, ommers: Seq<BlockHeader>, base: u128)
    ensures
        reward_entries(header, ommers, base).len() == ommers.len() + 1,
        reward_entries(header, ommers, base)[0].reward_type == RewardType::Block,
        reward_entries(header, ommers, base)[0].author == header.beneficiary,
        forall|i: int| 0 <= i < ommers.len() ==> {
            &&& (#[trigger] reward_entries(header, ommers, base)[i + 1]).reward_type == RewardType::Uncle
            &&& reward_entries(header, ommers, base)[i + 1].author == ommers[i].beneficiary
            &&& reward_entries(header, ommers, base)[i + 1].value == ommer_reward_value(base, header.number, ommers[i].number) as u128
        },
{
}

/// Before the merge transition, where the rewards fit in machine integers, a
/// block with K ommers is owed K + 1 reward entries: the block's own first,
/// then one of the uncle kind for each ommer, in the order of the ommers.
pub proof fn rewards_before_transition(network: Network, header: BlockHeader, ommers: Seq<BlockHeader>)
    requires
        !is_past_merge_transition(network, header.number),
        rewards_computable(header, ommers, era_base_reward(network, header.number)),
    ensures
        block_reward_entries(network, header, ommers).is_some(),
        block_reward_entries(network, header, ommers).unwrap().len() == ommers.len() + 1,
        block_reward_entries(network, header, ommers).unwrap()[0].reward_type == RewardType::Block,
        block_reward_entries(network, header, ommers).unwrap()[0].author == header.beneficiary,
        forall|i: int| 0 <= i < ommers.len() ==> {
            &&& (#[trigger] block_reward_entries(network, header, ommers).unwrap()[i + 1]).reward_type == RewardType::Uncle
            &&& block_reward_entries(network, header, ommers).unwrap()[i + 1].author == ommers[i].beneficiary
        },
{
    reward_entries_follow_ommers(header, ommers, era_base_reward(network, header.number));
}

/// The base reward never rises with the height.
pub proof fn base_reward_never_rises(network: Network, lower: u64, higher: u64)
    requires
        lower <= higher,
    ensures
        era_base_reward(network, higher) <= era_base_reward(network, lower),
{
}

} // verus!
