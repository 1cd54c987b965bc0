use crate::abi::{
    address_bytes, address_from_text, shape_of, address_word, call_payload, encode_call, is_canonical_address,
    selector_of, signature_text, word_of, CallArgs, CallShape, MAX_ARRAY_LEN,
};
use crate::msg::{
    Attribute, ContractError, EpochInfo, ExecuteMsg, GetJobIdResponse, InstantiateMsg, Metadata,
    PalomaMsg, QueryMsg, Response, Uint256, WinnerInfo,
};
use crate::state::{eligible, is_eligible, last_attempt, stamp, Ledger, LedgerKey, State};
use vstd::prelude::*;

verus! {

/// The model of a successful response: envelope (job, payload, metadata) and
/// action.
pub open spec fn envelope(
    job_id: Seq<char>,
    payload: Seq<u8>,
    metadata: (Seq<char>, Seq<Seq<char>>),
    action: Seq<char>,
) -> ((Seq<char>, Seq<u8>, (Seq<char>, Seq<Seq<char>>)), Seq<char>) {
    ((job_id, payload, metadata), action)
}

/// The ledger action under which winners are recorded.
pub open spec fn winner_action() -> Seq<char> {
    "set_winner"@
}

/// The ledger action under which epochs are recorded.
pub open spec fn epoch_action() -> Seq<char> {
    "set_active_epoch"@
}

/// The value of a big-endian byte string.
pub open spec fn be_value(b: Seq<u8>) -> nat
    decreases b.len(),
{
    if b.len() == 0 {
        0
    } else {
        be_value(b.drop_last()) * 256 + b.last() as nat
    }
}

pub open spec fn digit_char(d: nat) -> char {
    ((d + 48) as u8) as char
}

/// The decimal text of `n`, without leading zeros.
pub open spec fn decimal_of(n: nat) -> Seq<char>
    decreases n,
{
    if n < 10 {
        seq![digit_char(n)]
    } else {
        decimal_of(n / 10).push(digit_char(n % 10))
    }
}

/// The ledger subject of an epoch: its number in decimal.
pub open spec fn epoch_subject(e: EpochInfo) -> Seq<char> {
    decimal_of(be_value(e.epoch_id.be@))
}

/// The integers of an epoch, in the order the remote tuple takes them.
pub open spec fn epoch_fields(e: EpochInfo) -> Seq<Uint256> {
    let base = seq![e.epoch_id, e.competition_start, e.competition_end, e.entry_cnt];
    match e.prize_amount {
        Some(p) => base.push(p),
        None => base,
    }
}

/// The calldata of `set_active_epoch` for an epoch.
pub open spec fn epoch_payload(e: EpochInfo) -> Seq<u8> {
    let fields = epoch_fields(e);
    selector_of(signature_text("set_active_epoch"@, CallShape::UintTuple(fields.len() as usize)))
        + fields.map_values(|u: Uint256| u.be@).flatten()
}

/// The calldata of a single-address call.
pub open spec fn address_payload(name: Seq<char>, text: Seq<char>) -> Seq<u8> {
    selector_of(signature_text(name, CallShape::Address)) + address_word(address_bytes(text))
}

/// Winner `i` is admitted: it is the first entry for its address and that
/// address is outside its retry window.
pub open spec fn winner_admitted(
    ws: Seq<WinnerInfo>,
    i: int,
    m: Map<LedgerKey, u64>,
    retry_delay: u64,
    now: u64,
) -> bool {
    &&& forall|j: int| 0 <= j < i ==> ws[j].winner@ != ws[i].winner@
    &&& eligible(last_attempt(m, (ws[i].winner@, winner_action())), retry_delay, now)
}

/// The admitted winners among the first `n`, in order.
pub open spec fn admitted_winners(
    ws: Seq<WinnerInfo>,
    n: nat,
    m: Map<LedgerKey, u64>,
    retry_delay: u64,
    now: u64,
) -> Seq<WinnerInfo>
    decreases n,
{
    if n == 0 {
        Seq::empty()
    } else {
        let p = admitted_winners(ws, (n - 1) as nat, m, retry_delay, now);
        if winner_admitted(ws, n - 1, m, retry_delay, now) {
            p.push(ws[n - 1])
        } else {
            p
        }
    }
}

/// The two words of a winner's tuple.
pub open spec fn winner_words(w: WinnerInfo) -> Seq<u8> {
    address_word(address_bytes(w.winner@)) + w.claimable_amount.be@
}

/// The calldata of `set_winner_list` for the given winners.
pub open spec fn winner_list_payload(adm: Seq<WinnerInfo>) -> Seq<u8> {
    selector_of(signature_text("set_winner_list"@, CallShape::AddressUintArray)) + word_of(32)
        + word_of(adm.len()) + adm.map_values(|w: WinnerInfo| winner_words(w)).flatten()
}

/// Outcome of a command with no arguments and no ledger.
pub open spec fn fixed_call_post(
    state: State,
    sender: Seq<char>,
    job_id: Seq<char>,
    name: Seq<char>,
    args: CallArgs,
    r: Result<Response, ContractError>,
) -> bool {
    if sender != state.owner@ {
        r == Err::<Response, ContractError>(ContractError::Unauthorized)
    } else {
        &&& r is Ok
        &&& r->Ok_0@ == envelope(job_id, call_payload(name, args), state.metadata@, name)
        &&& selector_of(signature_text(name, shape_of(args))).len() == 4
    }
}

/// Outcome of a command that sends one address.
pub open spec fn address_call_post(
    state: State,
    sender: Seq<char>,
    job_id: Seq<char>,
    name: Seq<char>,
    text: Seq<char>,
    r: Result<Response, ContractError>,
) -> bool {
    if sender != state.owner@ {
        r == Err::<Response, ContractError>(ContractError::Unauthorized)
    } else if !is_canonical_address(text) {
        r == Err::<Response, ContractError>(ContractError::InvalidAddress)
    } else {
        &&& r is Ok
        &&& r->Ok_0@ == envelope(job_id, address_payload(name, text), state.metadata@, name)
        &&& selector_of(signature_text(name, CallShape::Address)).len() == 4
    }
}

/// Outcome of `set_reward_token`.
pub open spec fn reward_token_post(
    state: State,
    sender: Seq<char>,
    text: Seq<char>,
    decimals: Uint256,
    r: Result<Response, ContractError>,
) -> bool {
    if sender != state.owner@ {
        r == Err::<Response, ContractError>(ContractError::Unauthorized)
    } else if !is_canonical_address(text) {
        r == Err::<Response, ContractError>(ContractError::InvalidAddress)
    } else {
        &&& r is Ok
        &&& r->Ok_0@ == envelope(
            state.job_eth_id@,
            selector_of(signature_text("set_reward_token"@, CallShape::AddressUint)) + address_word(
                address_bytes(text),
            ) + decimals.be@,
            state.metadata@,
            "set_reward_token"@,
        )
        &&& selector_of(signature_text("set_reward_token"@, CallShape::AddressUint)).len() == 4
    }
}

/// Outcome of `set_winner_list`, with the ledger before (`m`) and after (`m2`).
pub open spec fn winner_list_post(
    state: State,
    m: Map<LedgerKey, u64>,
    m2: Map<LedgerKey, u64>,
    sender: Seq<char>,
    now: u64,
    ws: Seq<WinnerInfo>,
    r: Result<Response, ContractError>,
) -> bool {
    let d = state.retry_delay;
    if sender != state.owner@ {
        r == Err::<Response, ContractError>(ContractError::Unauthorized) && m2 == m
    } else if exists|i: int|
        0 <= i < ws.len() && winner_admitted(ws, i, m, d, now) && !is_canonical_address(
            #[trigger] ws[i].winner@,
        ) {
        r == Err::<Response, ContractError>(ContractError::InvalidAddress) && m2 == m
    } else {
        let adm = admitted_winners(ws, ws.len(), m, d, now);
        &&& r is Ok
        &&& r->Ok_0@ == envelope(
            state.job_eth_id@,
            winner_list_payload(adm),
            state.metadata@,
            "set_winner_list"@,
        )
        &&& selector_of(signature_text("set_winner_list"@, CallShape::AddressUintArray)).len() == 4
        &&& m2 == stamp(m, adm.map_values(|w: WinnerInfo| w.winner@), winner_action(), now)
    }
}

/// Outcome of `set_active_epoch`, with the ledger before (`m`) and after (`m2`).
pub open spec fn active_epoch_post(
    state: State,
    m: Map<LedgerKey, u64>,
    m2: Map<LedgerKey, u64>,
    sender: Seq<char>,
    now: u64,
    e: EpochInfo,
    r: Result<Response, ContractError>,
) -> bool {
    let key = (epoch_subject(e), epoch_action());
    if sender != state.owner@ {
        r == Err::<Response, ContractError>(ContractError::Unauthorized) && m2 == m
    } else if !eligible(last_attempt(m, key), state.retry_delay, now) {
        r == Err::<Response, ContractError>(ContractError::AllPending) && m2 == m
    } else {
        &&& r is Ok
        &&& r->Ok_0@ == envelope(
            state.job_arb_id@,
            epoch_payload(e),
            state.metadata@,
            "set_active_epoch"@,
        )
        &&& selector_of(
            signature_text("set_active_epoch"@, CallShape::UintTuple(epoch_fields(e).len() as usize)),
        ).len() == 4
        &&& m2 == m.insert(key, now)
    }
}

/// Relies on `cosmwasm_std::Uint256`'s `Display`: the number in decimal, with
/// no leading zeros.
#[verifier::external_body]
fn decimal_text(v: &Uint256) -> (r: String)
    ensures
        r@ == decimal_of(be_value(v.be@)),
{
    cosmwasm_std::Uint256::from_be_bytes(v.be).to_string()
}

fn is_owner(state: &State, sender: &String) -> (r: bool)
    ensures
        r == (sender@ == state.owner@),
{
    *sender == state.owner
}

fn relay(job_id: &String, payload: Vec<u8>, metadata: &Metadata, action: &str) -> (r: Response)
    ensures
        r@ == envelope(job_id@, payload@, metadata@, action@),
{
    Response {
        message: PalomaMsg { job_id: job_id.clone(), payload, metadata: metadata.duplicate() },
        action: action.to_owned(),
    }
}

/// Builds the configuration from the instantiation message, with the caller
/// as owner, and the attributes that describe it.
pub fn instantiate(sender: &String, msg: InstantiateMsg) -> (r: (State, Vec<Attribute>))
    ensures
        r.0.owner@ == sender@,
        r.0.retry_delay == msg.retry_delay,
        r.0.job_eth_id@ == msg.job_eth_id@,
        r.0.job_arb_id@ == msg.job_arb_id@,
        r.0.metadata@ == (msg.creator@, msg.signers.deep_view()),
        r.1@.len() == 4,
        r.1@[0].key@ == "method"@ && r.1@[0].value@ == "instantiate"@,
        r.1@[1].key@ == "owner"@ && r.1@[1].value@ == sender@,
        r.1@[2].key@ == "job_arb_id"@ && r.1@[2].value@ == msg.job_arb_id@,
        r.1@[3].key@ == "job_eth_id"@ && r.1@[3].value@ == msg.job_eth_id@,
{
    let mut attributes: Vec<Attribute> = Vec::new();
    attributes.push(Attribute { key: "method".to_owned(), value: "instantiate".to_owned() });
    attributes.push(Attribute { key: "owner".to_owned(), value: sender.clone() });
    attributes.push(Attribute { key: "job_arb_id".to_owned(), value: msg.job_arb_id.clone() });
    attributes.push(Attribute { key: "job_eth_id".to_owned(), value: msg.job_eth_id.clone() });
    let state = State {
        retry_delay: msg.retry_delay,
        job_eth_id: msg.job_eth_id,
        job_arb_id: msg.job_arb_id,
        owner: sender.clone(),
        metadata: Metadata { creator: msg.creator, signers: msg.signers },
    };
    (state, attributes)
}

fn fixed_call(state: &State, sender: &String, job_id: &String, name: &str, args: CallArgs) -> (r:
    Result<Response, ContractError>)
    requires
        crate::abi::args_fit(args),
    ensures
        fixed_call_post(*state, sender@, job_id@, name@, args, r),
{
    if !is_owner(state, sender) {
        return Err(ContractError::Unauthorized);
    }
    let payload = encode_call(name, &args);
    Ok(relay(job_id, payload, &state.metadata, name))
}

fn address_call(state: &State, sender: &String, job_id: &String, name: &str, text: &String) -> (r:
    Result<Response, ContractError>)
    ensures
        address_call_post(*state, sender@, job_id@, name@, text@, r),
{
    if !is_owner(state, sender) {
        return Err(ContractError::Unauthorized);
    }
    match address_from_text(text) {
        None => Err(ContractError::InvalidAddress),
        Some(a) => {
            let payload = encode_call(name, &CallArgs::Address(a));
            Ok(relay(job_id, payload, &state.metadata, name))
        },
    }
}

/// Asks the Eth-side job to re-sync (`set_paloma()`).
pub fn set_eth_paloma(state: &State, sender: &String) -> (r: Result<Response, ContractError>)
    ensures
        fixed_call_post(*state, sender@, state.job_eth_id@, "set_paloma"@, CallArgs::NoArgs, r),
{
    fixed_call(state, sender, &state.job_eth_id, "set_paloma", CallArgs::NoArgs)
}

/// Asks the Arb-side job to re-sync (`set_paloma()`).
pub fn set_arb_paloma(state: &State, sender: &String) -> (r: Result<Response, ContractError>)
    ensures
        fixed_call_post(*state, sender@, state.job_arb_id@, "set_paloma"@, CallArgs::NoArgs, r),
{
    fixed_call(state, sender, &state.job_arb_id, "set_paloma", CallArgs::NoArgs)
}

/// Points the Eth-side contract at a new router (`update_compass(address)`).
pub fn update_eth_compass(state: &State, sender: &String, new_compass: String) -> (r: Result<
    Response,
    ContractError,
>)
    ensures
        address_call_post(*state, sender@, state.job_eth_id@, "update_compass"@, new_compass@, r),
{
    address_call(state, sender, &state.job_eth_id, "update_compass", &new_compass)
}

/// Points the Arb-side contract at a new router (`update_compass(address)`).
pub fn update_arb_compass(state: &State, sender: &String, new_compass: String) -> (r: Result<
    Response,
    ContractError,
>)
    ensures
        address_call_post(*state, sender@, state.job_arb_id@, "update_compass"@, new_compass@, r),
{
    address_call(state, sender, &state.job_arb_id, "update_compass", &new_compass)
}

/// Sets the reward token and its decimals (`set_reward_token(address,uint256)`).
pub fn set_reward_token(
    state: &State,
    sender: &String,
    new_reward_token: String,
    new_decimals: Uint256,
) -> (r: Result<Response, ContractError>)
    ensures
        reward_token_post(*state, sender@, new_reward_token@, new_decimals, r),
{
    if !is_owner(state, sender) {
        return Err(ContractError::Unauthorized);
    }
    match address_from_text(&new_reward_token) {
        None => Err(ContractError::InvalidAddress),
        Some(a) => {
            let payload = encode_call("set_reward_token", &CallArgs::AddressUint(a, new_decimals));
            assert(payload@ =~= selector_of(signature_text("set_reward_token"@, CallShape::AddressUint))
                + address_word(address_bytes(new_reward_token@)) + new_decimals.be@);
            Ok(relay(&state.job_eth_id, payload, &state.metadata, "set_reward_token"))
        },
    }
}

/// Sends a reward amount (`send_reward(uint256)`).
pub fn send_reward(state: &State, sender: &String, amount: Uint256) -> (r: Result<
    Response,
    ContractError,
>)
    ensures
        fixed_call_post(
            *state,
            sender@,
            state.job_eth_id@,
            "send_reward"@,
            CallArgs::Uint(amount),
            r,
        ),
{
    fixed_call(state, sender, &state.job_eth_id, "send_reward", CallArgs::Uint(amount))
}

/// Announces the active epoch (`set_active_epoch((uint256,...))`) unless the
/// same epoch was attempted within the retry window.
pub fn set_active_epoch(
    state: &State,
    ledger: &mut Ledger,
    sender: &String,
    now: u64,
    epoch_info: EpochInfo,
) -> (r: Result<Response, ContractError>)
    ensures
        active_epoch_post(*state, old(ledger)@, final(ledger)@, sender@, now, epoch_info, r),
{
    if !is_owner(state, sender) {
        return Err(ContractError::Unauthorized);
    }
    let subject = decimal_text(&epoch_info.epoch_id);
    let action = "set_active_epoch".to_owned();
    let last = ledger.last_attempt(&subject, &action);
    if !is_eligible(last, state.retry_delay, now) {
        return Err(ContractError::AllPending);
    }
    ledger.record(subject, action, now);
    let mut fields: Vec<Uint256> = Vec::new();
    fields.push(epoch_info.epoch_id);
    fields.push(epoch_info.competition_start);
    fields.push(epoch_info.competition_end);
    fields.push(epoch_info.entry_cnt);
    if let Some(p) = epoch_info.prize_amount {
        fields.push(p);
    }
    assert(fields@ =~= epoch_fields(epoch_info));
    let payload = encode_call("set_active_epoch", &CallArgs::UintTuple(fields));
    Ok(relay(&state.job_arb_id, payload, &state.metadata, "set_active_epoch"))
}

/// Whether `winner_infos[i]` is the first entry for its address.
fn is_first_occurrence(winner_infos: &Vec<WinnerInfo>, i: usize) -> (r: bool)
    requires
        i < winner_infos@.len(),
    ensures
        r == (forall|j: int| 0 <= j < i ==> winner_infos@[j].winner@ != winner_infos@[i as int].winner@),
{
    let mut j: usize = 0;
    while j < i
        invariant
            j <= i < winner_infos@.len(),
            forall|k: int| 0 <= k < j ==> winner_infos@[k].winner@ != winner_infos@[i as int].winner@,
        decreases i - j,
    {
        if winner_infos[j].winner == winner_infos[i].winner {
            return false;
        }
        j = j + 1;
    }
    true
}

/// Publishes the winners (`set_winner_list((address,uint256)[])`): each
/// address once, and only those outside their retry window; every address
/// published is stamped with `now`. An empty list is still published.
pub fn set_winner_list(
    state: &State,
    ledger: &mut Ledger,
    sender: &String,
    now: u64,
    winner_infos: Vec<WinnerInfo>,
) -> (r: Result<Response, ContractError>)
    requires
        sender@ == state.owner@ ==> winner_infos@.len() <= MAX_ARRAY_LEN,
    ensures
        winner_list_post(*state, old(ledger)@, final(ledger)@, sender@, now, winner_infos@, r),
{
    if !is_owner(state, sender) {
        return Err(ContractError::Unauthorized);
    }
    let action = "set_winner".to_owned();
    let ghost ws = winner_infos@;
    let ghost m = ledger@;
    let d = state.retry_delay;
    let n = winner_infos.len();
    let mut pairs: Vec<([u8; 20], Uint256)> = Vec::new();
    let mut subjects: Vec<String> = Vec::new();
    let mut i: usize = 0;
    while i < n
        invariant
            n == ws.len() <= MAX_ARRAY_LEN,
            ws == winner_infos@,
            m == ledger@,
            m == old(ledger)@,
            sender@ == state.owner@,
            d == state.retry_delay,
            action@ == winner_action(),
            i <= n,
            pairs@.len() <= i,
            pairs@.len() == admitted_winners(ws, i as nat, m, d, now).len(),
            subjects@.len() == pairs@.len(),
            forall|k: int|
                0 <= k < pairs@.len() ==> {
                    let w = #[trigger] admitted_winners(ws, i as nat, m, d, now)[k];
                    &&& pairs@[k].0@ == address_bytes(w.winner@)
                    &&& pairs@[k].1 == w.claimable_amount
                    &&& subjects@[k]@ == w.winner@
                },
            forall|k: int|
                0 <= k < i ==> #[trigger] winner_admitted(ws, k, m, d, now) ==> is_canonical_address(
                    ws[k].winner@,
                ),
        decreases n - i,
    {
        let ghost prev = admitted_winners(ws, i as nat, m, d, now);
        let first = is_first_occurrence(&winner_infos, i);
        let w = &winner_infos[i];
        if first && is_eligible(ledger.last_attempt(&w.winner, &action), d, now) {
            assert(winner_admitted(ws, i as int, m, d, now));
            match address_from_text(&w.winner) {
                None => {
                    assert(!is_canonical_address(ws[i as int].winner@));
                    return Err(ContractError::InvalidAddress);
                },
                Some(a) => {
                    pairs.push((a, w.claimable_amount));
                    subjects.push(w.winner.clone());
                    assert(admitted_winners(ws, (i + 1) as nat, m, d, now) == prev.push(ws[i as int]));
                },
            }
        } else {
            assert(!winner_admitted(ws, i as int, m, d, now));
            assert(admitted_winners(ws, (i + 1) as nat, m, d, now) == prev);
        }
        i = i + 1;
    }
    let ghost adm = admitted_winners(ws, n as nat, m, d, now);
    let ghost names = adm.map_values(|w: WinnerInfo| w.winner@);
    let mut k: usize = 0;
    while k < subjects.len()
        invariant
            k <= subjects@.len() == names.len(),
            action@ == winner_action(),
            forall|x: int| 0 <= x < names.len() ==> #[trigger] names[x] == subjects@[x]@,
            ledger@ == stamp(m, names.take(k as int), winner_action(), now),
        decreases subjects@.len() - k,
    {
        ledger.record(subjects[k].clone(), action.clone(), now);
        assert(names.take(k + 1).drop_last() =~= names.take(k as int));
        k = k + 1;
    }
    assert(names.take(k as int) =~= names);
    assert(pairs@.map_values(|p: ([u8; 20], Uint256)| crate::abi::pair_words(p)) =~= adm.map_values(
        |w: WinnerInfo| winner_words(w),
    ));
    let payload = encode_call("set_winner_list", &CallArgs::AddressUintArray(pairs));
    assert(payload@ =~= winner_list_payload(adm));
    Ok(relay(&state.job_eth_id, payload, &state.metadata, "set_winner_list"))
}

/// Whether a command's list fits the encoder.
pub open spec fn execute_fits(msg: ExecuteMsg) -> bool {
    match msg {
        ExecuteMsg::SetWinnerList { winner_infos } => winner_infos@.len() <= MAX_ARRAY_LEN,
        _ => true,
    }
}

/// Runs one owner command against the configuration and the ledger.
pub fn execute(state: &State, ledger: &mut Ledger, sender: &String, now: u64, msg: ExecuteMsg) -> (r:
    Result<Response, ContractError>)
    requires
        sender@ == state.owner@ ==> execute_fits(msg),
    ensures
        sender@ != state.owner@ ==> r == Err::<Response, ContractError>(ContractError::Unauthorized)
            && final(ledger)@ == old(ledger)@,
        match msg {
            ExecuteMsg::SetEthPaloma {  } => fixed_call_post(
                *state,
                sender@,
                state.job_eth_id@,
                "set_paloma"@,
                CallArgs::NoArgs,
                r,
            ) && final(ledger)@ == old(ledger)@,
            ExecuteMsg::UpdateEthCompass { new_compass } => address_call_post(
                *state,
                sender@,
                state.job_eth_id@,
                "update_compass"@,
                new_compass@,
                r,
            ) && final(ledger)@ == old(ledger)@,
            ExecuteMsg::SetRewardToken { new_reward_token, new_decimals } => reward_token_post(
                *state,
                sender@,
                new_reward_token@,
                new_decimals,
                r,
            ) && final(ledger)@ == old(ledger)@,
            ExecuteMsg::SendReward { amount } => fixed_call_post(
                *state,
                sender@,
                state.job_eth_id@,
                "send_reward"@,
                CallArgs::Uint(amount),
                r,
            ) && final(ledger)@ == old(ledger)@,
            ExecuteMsg::SetWinnerList { winner_infos } => winner_list_post(
                *state,
                old(ledger)@,
                final(ledger)@,
                sender@,
                now,
                winner_infos@,
                r,
            ),
            ExecuteMsg::SetArbPaloma {  } => fixed_call_post(
                *state,
                sender@,
                state.job_arb_id@,
                "set_paloma"@,
                CallArgs::NoArgs,
                r,
            ) && final(ledger)@ == old(ledger)@,
            ExecuteMsg::UpdateArbCompass { new_compass } => address_call_post(
                *state,
                sender@,
                state.job_arb_id@,
                "update_compass"@,
                new_compass@,
                r,
            ) && final(ledger)@ == old(ledger)@,
            ExecuteMsg::SetActiveEpoch { epoch_info } => active_epoch_post(
                *state,
                old(ledger)@,
                final(ledger)@,
                sender@,
                now,
                epoch_info,
                r,
            ),
        },
{
    match msg {
        ExecuteMsg::SetEthPaloma {  } => set_eth_paloma(state, sender),
        ExecuteMsg::UpdateEthCompass { new_compass } => update_eth_compass(state, sender, new_compass),
        ExecuteMsg::SetRewardToken { new_reward_token, new_decimals } => set_reward_token(
            state,
            sender,
            new_reward_token,
            new_decimals,
        ),
        ExecuteMsg::SendReward { amount } => send_reward(state, sender, amount),
        ExecuteMsg::SetWinnerList { winner_infos } => set_winner_list(
            state,
            ledger,
            sender,
            now,
            winner_infos,
        ),
        ExecuteMsg::SetArbPaloma {  } => set_arb_paloma(state, sender),
        ExecuteMsg::UpdateArbCompass { new_compass } => update_arb_compass(state, sender, new_compass),
        ExecuteMsg::SetActiveEpoch { epoch_info } => set_active_epoch(
            state,
            ledger,
            sender,
            now,
            epoch_info,
        ),
    }
}

/// The job that Eth-side calls go to.
pub fn get_eth_job_id(state: &State) -> (r: GetJobIdResponse)
    ensures
        r.job_id@ == state.job_eth_id@,
{
    GetJobIdResponse { job_id: state.job_eth_id.clone() }
}

/// The job that Arb-side calls go to.
pub fn get_arb_job_id(state: &State) -> (r: GetJobIdResponse)
    ensures
        r.job_id@ == state.job_arb_id@,
{
    GetJobIdResponse { job_id: state.job_arb_id.clone() }
}

/// Answers a query; queries need no authorization.
pub fn query(state: &State, msg: QueryMsg) -> (r: GetJobIdResponse)
    ensures
        r.job_id@ == match msg {
            QueryMsg::GetEthJobId {  } => state.job_eth_id@,
            QueryMsg::GetArbJobId {  } => state.job_arb_id@,
        },
{
    match msg {
        QueryMsg::GetEthJobId {  } => get_eth_job_id(state),
        QueryMsg::GetArbJobId {  } => get_arb_job_id(state),
    }
}

} // verus!
