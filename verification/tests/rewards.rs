use enriched_block::reward::{
    compute_rewards, RewardSource, block_rewards, calculate_base_block_reward, can_compute_rewards, extract_reward_traces,
    past_merge_transition, BlockHeader, Network, RewardTraceEntry, RewardType,
};

const ETH: u128 = 1_000_000_000_000_000_000;

fn header(number: u64, tag: u8) -> BlockHeader {
    BlockHeader { number, beneficiary: [tag; 20] }
}

#[test]
fn base_reward_steps_down_with_the_eras_on_mainnet() {
    assert_eq!(calculate_base_block_reward(Network::Mainnet, &header(0, 1)), Some(5 * ETH));
    assert_eq!(calculate_base_block_reward(Network::Mainnet, &header(4_369_999, 1)), Some(5 * ETH));
    assert_eq!(calculate_base_block_reward(Network::Mainnet, &header(4_370_000, 1)), Some(3 * ETH));
    assert_eq!(calculate_base_block_reward(Network::Mainnet, &header(7_279_999, 1)), Some(3 * ETH));
    assert_eq!(calculate_base_block_reward(Network::Mainnet, &header(7_280_000, 1)), Some(2 * ETH));
    assert_eq!(calculate_base_block_reward(Network::Mainnet, &header(15_537_393, 1)), Some(2 * ETH));
}

#[test]
fn base_reward_ends_at_the_merge_transition() {
    assert_eq!(calculate_base_block_reward(Network::Mainnet, &header(15_537_394, 1)), None);
    assert_eq!(calculate_base_block_reward(Network::Mainnet, &header(u64::MAX, 1)), None);
    assert_eq!(calculate_base_block_reward(Network::Sepolia, &header(1_450_408, 1)), Some(2 * ETH));
    assert_eq!(calculate_base_block_reward(Network::Sepolia, &header(0, 1)), Some(2 * ETH));
    assert_eq!(calculate_base_block_reward(Network::Sepolia, &header(1_450_409, 1)), None);
}

#[test]
fn unknown_network_counts_as_past_the_transition() {
    assert!(past_merge_transition(Network::Other, 0));
    assert_eq!(calculate_base_block_reward(Network::Other, &header(0, 1)), None);
    assert_eq!(block_rewards(Network::Other, &header(5, 1), None), Some(vec![]));
}

#[test]
fn transition_heights_are_those_of_the_networks() {
    assert!(!past_merge_transition(Network::Mainnet, 15_537_393));
    assert!(past_merge_transition(Network::Mainnet, 15_537_394));
    assert!(!past_merge_transition(Network::Sepolia, 1_450_408));
    assert!(past_merge_transition(Network::Sepolia, 1_450_409));
}

#[test]
fn one_ommer_gives_block_and_uncle_reward() {
    let base = 5 * ETH;
    let block = header(100, 0xaa);
    let ommers = [header(98, 0xbb)];
    let traces = extract_reward_traces(&block, Some(&ommers), base);
    assert_eq!(
        traces,
        vec![
            RewardTraceEntry { author: [0xaa; 20], reward_type: RewardType::Block, value: base + base / 32 },
            RewardTraceEntry { author: [0xbb; 20], reward_type: RewardType::Uncle, value: (6 * base) / 8 },
        ]
    );
    assert_eq!(traces[0].value, 5_156_250_000_000_000_000);
    assert_eq!(traces[1].value, 3_750_000_000_000_000_000);
}

#[test]
fn ommers_keep_their_order() {
    let base = 3 * ETH;
    let block = header(4_400_000, 1);
    let ommers = [header(4_399_999, 2), header(4_399_994, 3), header(4_399_997, 4)];
    let traces = extract_reward_traces(&block, Some(&ommers), base);
    assert_eq!(traces.len(), 4);
    assert_eq!(traces[0].reward_type, RewardType::Block);
    assert_eq!(traces[0].author, [1; 20]);
    assert_eq!(traces[0].value, base + 3 * (base / 32));
    let lags: [u128; 3] = [1, 6, 3];
    for i in 0..3 {
        assert_eq!(traces[i + 1].reward_type, RewardType::Uncle);
        assert_eq!(traces[i + 1].author, ommers[i].beneficiary);
        assert_eq!(traces[i + 1].value, ((8 - lags[i]) * base) / 8);
    }
}

#[test]
fn no_ommer_list_gives_the_block_reward_alone() {
    let traces = extract_reward_traces(&header(10, 7), None, 3200);
    assert_eq!(
        traces,
        vec![RewardTraceEntry { author: [7; 20], reward_type: RewardType::Block, value: 3200 }]
    );
    let empty: [BlockHeader; 0] = [];
    assert_eq!(extract_reward_traces(&header(10, 7), Some(&empty), 3200), traces);
}

#[test]
fn block_rewards_before_and_after_the_transition() {
    let ommers = [header(7_279_990, 9)];
    let before = block_rewards(Network::Mainnet, &header(7_279_995, 8), Some(&ommers)).unwrap();
    assert_eq!(before.len(), 2);
    assert_eq!(before[0].value, 3 * ETH + (3 * ETH) / 32);
    assert_eq!(before[1].value, (3 * (3 * ETH)) / 8);
    let after = block_rewards(Network::Mainnet, &header(15_537_394, 8), Some(&ommers));
    assert_eq!(after, Some(vec![]));
    let sepolia = block_rewards(Network::Sepolia, &header(1_450_409, 8), Some(&ommers));
    assert_eq!(sepolia, Some(vec![]));
}

#[test]
fn rewards_that_do_not_fit_are_refused() {
    let block = header(100, 1);
    assert!(can_compute_rewards(&block, Some(&[header(92, 2)]), 5 * ETH));
    assert!(!can_compute_rewards(&block, Some(&[header(91, 2)]), 5 * ETH));
    assert!(!can_compute_rewards(&block, Some(&[header(u64::MAX, 2)]), 5 * ETH));
    assert!(!can_compute_rewards(&block, Some(&[header(99, 2)]), u128::MAX));
    assert!(!can_compute_rewards(&block, Some(&[header(100, 2)]), u128::MAX / 8 + 1));
    assert!(can_compute_rewards(&block, None, u128::MAX));
    assert_eq!(block_rewards(Network::Mainnet, &block, Some(&[header(91, 2)])), None);
    let zero = extract_reward_traces(&block, Some(&[header(92, 2)]), 5 * ETH);
    assert_eq!(zero[1].value, 0);
}

#[test]
fn repeated_reward_computation_agrees() {
    let ommers = [header(50, 3), header(49, 4)];
    let first = block_rewards(Network::Mainnet, &header(52, 2), Some(&ommers));
    let second = block_rewards(Network::Mainnet, &header(52, 2), Some(&ommers));
    assert_eq!(first, second);
    assert_eq!(first.unwrap().len(), 3);
}

#[test]
fn reward_unit_computes_from_what_was_fetched() {
    assert_eq!(compute_rewards(Network::Mainnet, &None), Some(vec![]));
    let source = RewardSource { header: header(1_000, 5), ommers: Some(vec![header(999, 6)]) };
    let rewards = compute_rewards(Network::Mainnet, &Some(source.clone())).unwrap();
    assert_eq!(rewards.len(), 2);
    assert_eq!(rewards[0].author, [5; 20]);
    assert_eq!(rewards[0].value, 5 * ETH + (5 * ETH) / 32);
    assert_eq!(rewards[1].author, [6; 20]);
    assert_eq!(rewards[1].value, (7 * 5 * ETH) / 8);
    let bare = RewardSource { header: header(1_000, 5), ommers: None };
    assert_eq!(compute_rewards(Network::Mainnet, &Some(bare)).unwrap().len(), 1);
    assert_eq!(compute_rewards(Network::Other, &Some(source)), Some(vec![]));
    let late = RewardSource { header: header(1_000, 5), ommers: Some(vec![header(10, 6)]) };
    assert_eq!(compute_rewards(Network::Mainnet, &Some(late)), None);
}
