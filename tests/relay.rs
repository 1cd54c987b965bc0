use ethabi::ParamType;
use juice_bot_eth_predictor::contract::{
    execute, get_arb_job_id, get_eth_job_id, instantiate, query, send_reward, set_active_epoch,
    set_arb_paloma, set_eth_paloma, set_reward_token, set_winner_list, update_arb_compass,
    update_eth_compass,
};
use juice_bot_eth_predictor::msg::{
    ContractError, EpochInfo, ExecuteMsg, InstantiateMsg, QueryMsg, Uint256, WinnerInfo,
};
use juice_bot_eth_predictor::state::{is_eligible, Ledger, State};

const ADDR_1: &str = "0x1111111111111111111111111111111111111111";
const ADDR_2: &str = "0x2222222222222222222222222222222222222222";

fn secs(n: u64) -> u64 {
    n * 1_000_000_000
}

fn uint(v: u128) -> Uint256 {
    let mut be = [0u8; 32];
    be[16..].copy_from_slice(&v.to_be_bytes());
    Uint256 { be }
}

fn word(v: u128) -> Vec<u8> {
    uint(v).be.to_vec()
}

fn address_word(byte: u8) -> Vec<u8> {
    let mut w = vec![0u8; 12];
    w.extend(vec![byte; 20]);
    w
}

fn setup() -> State {
    let (state, _) = instantiate(
        &"alice".to_string(),
        InstantiateMsg {
            retry_delay: 3600,
            job_arb_id: "jobB".to_string(),
            job_eth_id: "jobA".to_string(),
            creator: "creator".to_string(),
            signers: vec!["s1".to_string(), "s2".to_string()],
        },
    );
    state
}

fn alice() -> String {
    "alice".to_string()
}

fn epoch(id: u128, prize: Option<u128>) -> EpochInfo {
    EpochInfo {
        epoch_id: uint(id),
        competition_start: uint(100),
        competition_end: uint(200),
        entry_cnt: uint(5),
        prize_amount: prize.map(uint),
    }
}

fn winner(addr: &str, amount: u128) -> WinnerInfo {
    WinnerInfo { winner: addr.to_string(), claimable_amount: uint(amount) }
}

fn selector(name: &str, params: &[ParamType]) -> Vec<u8> {
    ethabi::short_signature(name, params).to_vec()
}

fn pair_type() -> ParamType {
    ParamType::Array(Box::new(ParamType::Tuple(vec![ParamType::Address, ParamType::Uint(256)])))
}

#[test]
fn instantiate_sets_owner_and_attributes() {
    let (state, attrs) = instantiate(
        &"alice".to_string(),
        InstantiateMsg {
            retry_delay: 3600,
            job_arb_id: "jobB".to_string(),
            job_eth_id: "jobA".to_string(),
            creator: "c".to_string(),
            signers: vec!["s".to_string()],
        },
    );
    assert_eq!(state.owner, "alice");
    assert_eq!(state.retry_delay, 3600);
    assert_eq!(state.job_eth_id, "jobA");
    assert_eq!(state.job_arb_id, "jobB");
    assert_eq!(state.metadata.creator, "c");
    assert_eq!(state.metadata.signers, vec!["s".to_string()]);
    let pairs: Vec<(String, String)> = attrs.into_iter().map(|a| (a.key, a.value)).collect();
    assert_eq!(
        pairs,
        vec![
            ("method".to_string(), "instantiate".to_string()),
            ("owner".to_string(), "alice".to_string()),
            ("job_arb_id".to_string(), "jobB".to_string()),
            ("job_eth_id".to_string(), "jobA".to_string()),
        ]
    );
}

#[test]
fn active_epoch_scenario_then_all_pending() {
    let state = setup();
    let mut ledger = Ledger::new();
    let r = set_active_epoch(&state, &mut ledger, &alice(), secs(1_000), epoch(1, None)).unwrap();
    assert_eq!(r.message.job_id, "jobB");
    assert_eq!(r.action, "set_active_epoch");
    assert_eq!(r.message.metadata.creator, "creator");
    assert_eq!(r.message.metadata.signers, vec!["s1".to_string(), "s2".to_string()]);
    let mut expected = selector(
        "set_active_epoch",
        &[ParamType::Tuple(vec![ParamType::Uint(256); 4])],
    );
    for v in [1u128, 100, 200, 5] {
        expected.extend(word(v));
    }
    assert_eq!(r.message.payload, expected);
    assert_eq!(
        ledger.last_attempt(&"1".to_string(), &"set_active_epoch".to_string()),
        Some(secs(1_000))
    );
    let again = set_active_epoch(&state, &mut ledger, &alice(), secs(1_010), epoch(1, None));
    assert!(matches!(again, Err(ContractError::AllPending)));
    assert_eq!(
        ledger.last_attempt(&"1".to_string(), &"set_active_epoch".to_string()),
        Some(secs(1_000))
    );
}

#[test]
fn active_epoch_with_prize_has_five_fields() {
    let state = setup();
    let mut ledger = Ledger::new();
    let r = set_active_epoch(&state, &mut ledger, &alice(), 50, epoch(7, Some(42))).unwrap();
    let mut expected = selector(
        "set_active_epoch",
        &[ParamType::Tuple(vec![ParamType::Uint(256); 5])],
    );
    for v in [7u128, 100, 200, 5, 42] {
        expected.extend(word(v));
    }
    assert_eq!(r.message.payload, expected);
    assert_eq!(r.message.payload.len(), 4 + 5 * 32);
}

#[test]
fn epoch_subject_is_decimal() {
    let state = setup();
    let mut ledger = Ledger::new();
    set_active_epoch(&state, &mut ledger, &alice(), 50, epoch(1_000_000_000_000_000_000_000, None))
        .unwrap();
    assert_eq!(
        ledger.last_attempt(
            &"1000000000000000000000".to_string(),
            &"set_active_epoch".to_string()
        ),
        Some(50)
    );
    set_active_epoch(&state, &mut ledger, &alice(), 50, epoch(0, None)).unwrap();
    assert_eq!(
        ledger.last_attempt(&"0".to_string(), &"set_active_epoch".to_string()),
        Some(50)
    );
}

#[test]
fn epoch_retry_window_boundary() {
    let state = setup();
    let mut ledger = Ledger::new();
    ledger.record("3".to_string(), "set_active_epoch".to_string(), secs(1_000));
    let at_edge = set_active_epoch(&state, &mut ledger, &alice(), secs(4_600), epoch(3, None));
    assert!(matches!(at_edge, Err(ContractError::AllPending)));
    assert_eq!(
        ledger.last_attempt(&"3".to_string(), &"set_active_epoch".to_string()),
        Some(secs(1_000))
    );
    let past = set_active_epoch(&state, &mut ledger, &alice(), secs(4_600) + 1, epoch(3, None));
    assert!(past.is_ok());
    assert_eq!(
        ledger.last_attempt(&"3".to_string(), &"set_active_epoch".to_string()),
        Some(secs(4_600) + 1)
    );
}

#[test]
fn winner_list_excludes_recent_winner() {
    let state = setup();
    let mut ledger = Ledger::new();
    ledger.record(ADDR_2.to_string(), "set_winner".to_string(), secs(9_999));
    let r = set_winner_list(
        &state,
        &mut ledger,
        &alice(),
        secs(10_000),
        vec![winner(ADDR_1, 500), winner(ADDR_2, 700)],
    )
    .unwrap();
    assert_eq!(r.message.job_id, "jobA");
    assert_eq!(r.action, "set_winner_list");
    let mut expected = selector("set_winner_list", &[pair_type()]);
    expected.extend(word(32));
    expected.extend(word(1));
    expected.extend(address_word(0x11));
    expected.extend(word(500));
    assert_eq!(r.message.payload, expected);
    assert_eq!(
        ledger.last_attempt(&ADDR_1.to_string(), &"set_winner".to_string()),
        Some(secs(10_000))
    );
    assert_eq!(
        ledger.last_attempt(&ADDR_2.to_string(), &"set_winner".to_string()),
        Some(secs(9_999))
    );
}

#[test]
fn winner_list_all_pending_still_emits_empty_batch() {
    let state = setup();
    let mut ledger = Ledger::new();
    ledger.record(ADDR_1.to_string(), "set_winner".to_string(), 100);
    let r = set_winner_list(&state, &mut ledger, &alice(), 200, vec![winner(ADDR_1, 1)]).unwrap();
    let mut expected = selector("set_winner_list", &[pair_type()]);
    expected.extend(word(32));
    expected.extend(word(0));
    assert_eq!(r.message.payload, expected);
    assert_eq!(ledger.last_attempt(&ADDR_1.to_string(), &"set_winner".to_string()), Some(100));
}

#[test]
fn winner_list_sends_each_address_once() {
    let state = setup();
    let mut ledger = Ledger::new();
    let r = set_winner_list(
        &state,
        &mut ledger,
        &alice(),
        77,
        vec![winner(ADDR_1, 5), winner(ADDR_2, 6), winner(ADDR_1, 8)],
    )
    .unwrap();
    let mut expected = selector("set_winner_list", &[pair_type()]);
    expected.extend(word(32));
    expected.extend(word(2));
    expected.extend(address_word(0x11));
    expected.extend(word(5));
    expected.extend(address_word(0x22));
    expected.extend(word(6));
    assert_eq!(r.message.payload, expected);
    assert_eq!(ledger.last_attempt(&ADDR_2.to_string(), &"set_winner".to_string()), Some(77));
}

#[test]
fn winner_list_invalid_address_changes_nothing() {
    let state = setup();
    let mut ledger = Ledger::new();
    let r = set_winner_list(
        &state,
        &mut ledger,
        &alice(),
        77,
        vec![winner(ADDR_1, 5), winner("0xnothex", 6)],
    );
    assert!(matches!(r, Err(ContractError::InvalidAddress)));
    assert_eq!(ledger.last_attempt(&ADDR_1.to_string(), &"set_winner".to_string()), None);
    assert!(ledger.entries().is_empty());
}

#[test]
fn winner_list_skips_parsing_pending_address() {
    let state = setup();
    let mut ledger = Ledger::new();
    ledger.record("junk".to_string(), "set_winner".to_string(), 70);
    let r = set_winner_list(&state, &mut ledger, &alice(), 77, vec![winner("junk", 6)]);
    assert!(r.is_ok());
}

#[test]
fn update_router_with_malformed_address_fails() {
    let state = setup();
    let mut ledger = Ledger::new();
    for bad in ["0x1234", "0x111111111111111111111111111111111111111g", "", "0x"] {
        let r = execute(
            &state,
            &mut ledger,
            &alice(),
            5,
            ExecuteMsg::UpdateEthCompass { new_compass: bad.to_string() },
        );
        assert!(matches!(r, Err(ContractError::InvalidAddress)));
    }
    assert!(ledger.entries().is_empty());
}

#[test]
fn update_router_round_trip() {
    let state = setup();
    let text = "0x00112233445566778899AabBccDdEeFf01234567";
    let r = update_eth_compass(&state, &alice(), text.to_string()).unwrap();
    let p = r.message.payload;
    assert_eq!(p.len(), 36);
    assert_eq!(p[..4].to_vec(), selector("update_compass", &[ParamType::Address]));
    assert_eq!(p[4..16].to_vec(), vec![0u8; 12]);
    let expected: Vec<u8> = vec![
        0x00, 0x11, 0x22, 0x33, 0x44, 0x55, 0x66, 0x77, 0x88, 0x99, 0xaa, 0xbb, 0xcc, 0xdd, 0xee,
        0xff, 0x01, 0x23, 0x45, 0x67,
    ];
    assert_eq!(p[16..].to_vec(), expected);
    assert_eq!(r.message.job_id, "jobA");
    assert_eq!(r.action, "update_compass");
}

#[test]
fn update_arb_router_accepts_address_without_prefix() {
    let state = setup();
    let r = update_arb_compass(&state, &alice(), "2222222222222222222222222222222222222222".to_string())
        .unwrap();
    let mut expected = selector("update_compass", &[ParamType::Address]);
    expected.extend(address_word(0x22));
    assert_eq!(r.message.payload, expected);
    assert_eq!(r.message.job_id, "jobB");
}

#[test]
fn trigger_sync_payload_is_selector_only() {
    let state = setup();
    let a = set_eth_paloma(&state, &alice()).unwrap();
    let b = set_arb_paloma(&state, &alice()).unwrap();
    assert_eq!(a.message.payload, selector("set_paloma", &[]));
    assert_eq!(a.message.payload.len(), 4);
    assert_eq!(a.message.job_id, "jobA");
    assert_eq!(b.message.job_id, "jobB");
    assert_eq!(a.action, "set_paloma");
}

#[test]
fn reward_token_and_send_reward_payloads() {
    let state = setup();
    let r = set_reward_token(&state, &alice(), ADDR_1.to_string(), uint(18)).unwrap();
    let mut expected = selector("set_reward_token", &[ParamType::Address, ParamType::Uint(256)]);
    expected.extend(address_word(0x11));
    expected.extend(word(18));
    assert_eq!(r.message.payload, expected);
    assert_eq!(r.action, "set_reward_token");
    let bad = set_reward_token(&state, &alice(), "0x12".to_string(), uint(18));
    assert!(matches!(bad, Err(ContractError::InvalidAddress)));
    let s = send_reward(&state, &alice(), uint(1_000_000)).unwrap();
    let mut expected = selector("send_reward", &[ParamType::Uint(256)]);
    expected.extend(word(1_000_000));
    assert_eq!(s.message.payload, expected);
    assert_eq!(s.action, "send_reward");
}

#[test]
fn non_owner_is_unauthorized_for_every_command() {
    let state = setup();
    let mut ledger = Ledger::new();
    ledger.record("1".to_string(), "set_active_epoch".to_string(), 3);
    let bob = "bob".to_string();
    let msgs = vec![
        ExecuteMsg::SetEthPaloma {},
        ExecuteMsg::UpdateEthCompass { new_compass: ADDR_1.to_string() },
        ExecuteMsg::SetRewardToken { new_reward_token: ADDR_1.to_string(), new_decimals: uint(6) },
        ExecuteMsg::SendReward { amount: uint(1) },
        ExecuteMsg::SetWinnerList { winner_infos: vec![winner(ADDR_1, 1)] },
        ExecuteMsg::SetArbPaloma {},
        ExecuteMsg::UpdateArbCompass { new_compass: "bad".to_string() },
        ExecuteMsg::SetActiveEpoch { epoch_info: epoch(2, None) },
    ];
    for m in msgs {
        let r = execute(&state, &mut ledger, &bob, 1_000_000, m);
        assert!(matches!(r, Err(ContractError::Unauthorized)));
    }
    assert_eq!(ledger.entries().len(), 1);
    assert_eq!(ledger.last_attempt(&"2".to_string(), &"set_active_epoch".to_string()), None);
}

#[test]
fn execute_dispatches_to_handlers() {
    let state = setup();
    let mut ledger = Ledger::new();
    let r = execute(
        &state,
        &mut ledger,
        &alice(),
        10,
        ExecuteMsg::SetWinnerList { winner_infos: vec![winner(ADDR_2, 3)] },
    )
    .unwrap();
    assert_eq!(r.action, "set_winner_list");
    assert_eq!(ledger.last_attempt(&ADDR_2.to_string(), &"set_winner".to_string()), Some(10));
    let e = execute(&state, &mut ledger, &alice(), 10, ExecuteMsg::SetActiveEpoch { epoch_info: epoch(9, None) })
        .unwrap();
    assert_eq!(e.message.job_id, "jobB");
}

#[test]
fn eligibility_rule() {
    assert!(is_eligible(None, 3600, 0));
    assert!(!is_eligible(Some(secs(10)), 5, secs(15)));
    assert!(is_eligible(Some(secs(10)), 5, secs(15) + 1));
    assert!(!is_eligible(Some(secs(10)), 5, 3));
    assert!(is_eligible(Some(7), 0, 8));
    assert!(!is_eligible(Some(7), 0, 7));
    assert!(!is_eligible(Some(u64::MAX - 1), u64::MAX, u64::MAX));
}

#[test]
fn ledger_records_and_overrides() {
    let mut ledger = Ledger::new();
    let s = "s".to_string();
    let a = "a".to_string();
    assert_eq!(ledger.last_attempt(&s, &a), None);
    ledger.record(s.clone(), a.clone(), 4);
    ledger.record(s.clone(), "b".to_string(), 9);
    ledger.record(s.clone(), a.clone(), 6);
    assert_eq!(ledger.last_attempt(&s, &a), Some(6));
    assert_eq!(ledger.last_attempt(&s, &"b".to_string()), Some(9));
}

#[test]
fn queries_return_job_ids() {
    let state = setup();
    assert_eq!(get_eth_job_id(&state).job_id, "jobA");
    assert_eq!(get_arb_job_id(&state).job_id, "jobB");
    assert_eq!(query(&state, QueryMsg::GetEthJobId {}).job_id, "jobA");
    assert_eq!(query(&state, QueryMsg::GetArbJobId {}).job_id, "jobB");
}

#[test]
fn empty_winner_list_emits_empty_batch() {
    let state = setup();
    let mut ledger = Ledger::new();
    let r = set_winner_list(&state, &mut ledger, &alice(), 1, vec![]).unwrap();
    let mut expected = selector("set_winner_list", &[pair_type()]);
    expected.extend(word(32));
    expected.extend(word(0));
    assert_eq!(r.message.payload, expected);
    assert!(ledger.entries().is_empty());
}

#[test]
fn address_text_refuses_blanks_and_allows_either_case() {
    let state = setup();
    let mut ledger = Ledger::new();
    for blank in [
        "0x11111111111111111111 11111111111111111111",
        " 0x1111111111111111111111111111111111111111",
        "0x1111111111111111111111111111111111111111\n",
        "1111111111111111111111111111111111111111\t",
    ] {
        let r = update_eth_compass(&state, &alice(), blank.to_string());
        assert!(matches!(r, Err(ContractError::InvalidAddress)));
        let r = update_arb_compass(&state, &alice(), blank.to_string());
        assert!(matches!(r, Err(ContractError::InvalidAddress)));
        let r = execute(
            &state,
            &mut ledger,
            &alice(),
            1,
            ExecuteMsg::SetRewardToken { new_reward_token: blank.to_string(), new_decimals: uint(6) },
        );
        assert!(matches!(r, Err(ContractError::InvalidAddress)));
        let r = set_winner_list(&state, &mut ledger, &alice(), 1, vec![winner(blank, 2)]);
        assert!(matches!(r, Err(ContractError::InvalidAddress)));
    }
    assert!(ledger.entries().is_empty());
    let r = update_eth_compass(
        &state,
        &alice(),
        "0xABABababABABababABABababABABababABABabab".to_string(),
    )
    .unwrap();
    let mut expected = selector("update_compass", &[ParamType::Address]);
    expected.extend(address_word(0xab));
    assert_eq!(r.message.payload, expected);
    let upper_prefix = update_eth_compass(
        &state,
        &alice(),
        "0X1111111111111111111111111111111111111111".to_string(),
    );
    assert!(matches!(upper_prefix, Err(ContractError::InvalidAddress)));
    let too_long = update_eth_compass(
        &state,
        &alice(),
        "0x11111111111111111111111111111111111111111".to_string(),
    );
    assert!(matches!(too_long, Err(ContractError::InvalidAddress)));
}
