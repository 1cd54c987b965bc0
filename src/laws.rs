use crate::abi::{address_bytes, is_canonical_address, selector_of, signature_text, CallShape};
use crate::contract::{
    active_epoch_post, address_call_post, address_payload, admitted_winners, epoch_action, epoch_subject,
    winner_action, winner_admitted, winner_list_post,
};
use crate::msg::{ContractError, EpochInfo, Response, WinnerInfo};
use crate::state::{eligible, last_attempt, stamp, LedgerKey, State, NANOS_PER_SECOND};
use vstd::prelude::*;

verus! {

/// The subjects of the admitted winners among the first `n`.
pub open spec fn admitted_names(
    ws: Seq<WinnerInfo>,
    n: nat,
    m: Map<LedgerKey, u64>,
    d: u64,
    now: u64,
) -> Seq<Seq<char>> {
    admitted_winners(ws, n, m, d, now).map_values(|w: WinnerInfo| w.winner@)
}

proof fn lemma_stamp_hit(m: Map<LedgerKey, u64>, names: Seq<Seq<char>>, a: Seq<char>, now: u64, x: Seq<char>)
    requires
        names.contains(x),
    ensures
        stamp(m, names, a, now).contains_key((x, a)),
        stamp(m, names, a, now)[(x, a)] == now,
    decreases names.len(),
{
    if names.last() != x {
        let i = choose|i: int| 0 <= i < names.len() && names[i] == x;
        assert(names.drop_last()[i] == x);
        lemma_stamp_hit(m, names.drop_last(), a, now, x);
    }
}

proof fn lemma_stamp_miss(m: Map<LedgerKey, u64>, names: Seq<Seq<char>>, a: Seq<char>, now: u64, x: Seq<char>)
    requires
        !names.contains(x),
    ensures
        stamp(m, names, a, now).contains_key((x, a)) == m.contains_key((x, a)),
        m.contains_key((x, a)) ==> stamp(m, names, a, now)[(x, a)] == m[(x, a)],
    decreases names.len(),
{
    if names.len() > 0 {
        assert(names[names.len() - 1] != x);
        assert forall|i: int| 0 <= i < names.drop_last().len() implies names.drop_last()[i] != x by {
            assert(names[i] == names.drop_last()[i]);
        }
        lemma_stamp_miss(m, names.drop_last(), a, now, x);
    }
}

proof fn lemma_admitted_names(
    ws: Seq<WinnerInfo>,
    n: nat,
    m: Map<LedgerKey, u64>,
    d: u64,
    now: u64,
    x: Seq<char>,
)
    requires
        n <= ws.len(),
    ensures
        admitted_names(ws, n, m, d, now).contains(x) <==> exists|i: int|
            0 <= i < n && winner_admitted(ws, i, m, d, now) && #[trigger] ws[i].winner@ == x,
    decreases n,
{
    if n > 0 {
        let k = (n - 1) as nat;
        lemma_admitted_names(ws, k, m, d, now, x);
        let p = admitted_winners(ws, k, m, d, now);
        let f = |w: WinnerInfo| w.winner@;
        if winner_admitted(ws, n - 1, m, d, now) {
            assert(p.push(ws[n - 1]).map_values(f) =~= p.map_values(f).push(ws[n - 1].winner@));
            if admitted_names(ws, n, m, d, now).contains(x) {
                let j = choose|j: int|
                    0 <= j < admitted_names(ws, n, m, d, now).len()
                        && admitted_names(ws, n, m, d, now)[j] == x;
                if j < p.len() {
                    assert(admitted_names(ws, k, m, d, now)[j] == x);
                }
            }
            if exists|i: int| 0 <= i < n && winner_admitted(ws, i, m, d, now) && #[trigger] ws[i].winner@ == x {
                let i = choose|i: int| 0 <= i < n && winner_admitted(ws, i, m, d, now) && #[trigger] ws[i].winner@ == x;
                if i < k {
                    let j = choose|j: int|
                        0 <= j < admitted_names(ws, k, m, d, now).len()
                            && admitted_names(ws, k, m, d, now)[j] == x;
                    assert(admitted_names(ws, n, m, d, now)[j] == x);
                } else {
                    assert(admitted_names(ws, n, m, d, now).last() == x);
                }
            }
        }
    }
}

proof fn lemma_admitted_contains(
    ws: Seq<WinnerInfo>,
    n: nat,
    m: Map<LedgerKey, u64>,
    d: u64,
    now: u64,
    i: int,
)
    requires
        n <= ws.len(),
        0 <= i < n,
        winner_admitted(ws, i, m, d, now),
    ensures
        admitted_winners(ws, n, m, d, now).contains(ws[i]),
    decreases n,
{
    let p = admitted_winners(ws, (n - 1) as nat, m, d, now);
    if i == n - 1 {
        assert(admitted_winners(ws, n, m, d, now).last() == ws[i]);
    } else {
        lemma_admitted_contains(ws, (n - 1) as nat, m, d, now, i);
        let j = choose|j: int| 0 <= j < p.len() && p[j] == ws[i];
        if winner_admitted(ws, n - 1, m, d, now) {
            assert(p.push(ws[n - 1])[j] == ws[i]);
        }
    }
}

proof fn lemma_first_index(ws: Seq<WinnerInfo>, i: int) -> (j: int)
    requires
        0 <= i < ws.len(),
    ensures
        0 <= j <= i,
        ws[j].winner@ == ws[i].winner@,
        forall|k: int| 0 <= k < j ==> ws[k].winner@ != ws[j].winner@,
    decreases i,
{
    if exists|k: int| 0 <= k < i && ws[k].winner@ == ws[i].winner@ {
        let k = choose|k: int| 0 <= k < i && ws[k].winner@ == ws[i].winner@;
        lemma_first_index(ws, k)
    } else {
        i
    }
}

/// Round trip through the wire format: an update-router call made with a
/// canonical address is 36 bytes, the selector in the first four, twelve zero
/// bytes, then the address's own twenty bytes, so decoding gives it back.
pub proof fn address_call_round_trip(
    state: State,
    job_id: Seq<char>,
    text: Seq<char>,
    r: Result<Response, ContractError>,
)
    requires
        address_call_post(state, state.owner@, job_id, "update_compass"@, text, r),
        is_canonical_address(text),
    ensures
        r is Ok,
        ({
            let p = r->Ok_0.message.payload@;
            &&& p.len() == 36
            &&& p.subrange(0, 4) == selector_of(signature_text("update_compass"@, CallShape::Address))
            &&& p.subrange(4, 16) == Seq::new(12, |i: int| 0u8)
            &&& p.subrange(16, 36) == address_bytes(text)
        }),
{
    let p = r->Ok_0.message.payload@;
    let s = selector_of(signature_text("update_compass"@, CallShape::Address));
    assert(p =~= address_payload("update_compass"@, text));
    assert(p.subrange(0, 4) =~= s);
    assert(p.subrange(4, 16) =~= Seq::new(12, |i: int| 0u8));
    assert(p.subrange(16, 36) =~= address_bytes(text));
}

/// A subject with no recorded attempt is admitted, whatever the window and the
/// clock.
pub proof fn fresh_subject_is_eligible(m: Map<LedgerKey, u64>, key: LedgerKey, retry_delay: u64, now: u64)
    requires
        !m.contains_key(key),
    ensures
        eligible(last_attempt(m, key), retry_delay, now),
{
}

/// An epoch with no recorded attempt is dispatched when the owner asks, and
/// its entry becomes the current time.
pub proof fn fresh_epoch_is_dispatched(
    state: State,
    m: Map<LedgerKey, u64>,
    m2: Map<LedgerKey, u64>,
    now: u64,
    e: EpochInfo,
    r: Result<Response, ContractError>,
)
    requires
        active_epoch_post(state, m, m2, state.owner@, now, e, r),
        !m.contains_key((epoch_subject(e), epoch_action())),
    ensures
        r is Ok,
        m2.contains_key((epoch_subject(e), epoch_action())),
        m2[(epoch_subject(e), epoch_action())] == now,
{
}

/// A winner with no recorded attempt is in the published batch, and its entry
/// becomes the current time. (A malformed address anywhere in the batch fails
/// the whole command, so this holds of a command that succeeded.)
pub proof fn fresh_winner_is_dispatched(
    state: State,
    m: Map<LedgerKey, u64>,
    m2: Map<LedgerKey, u64>,
    now: u64,
    ws: Seq<WinnerInfo>,
    r: Result<Response, ContractError>,
    i: int,
)
    requires
        winner_list_post(state, m, m2, state.owner@, now, ws, r),
        r is Ok,
        0 <= i < ws.len(),
        !m.contains_key((ws[i].winner@, winner_action())),
    ensures
        admitted_names(ws, ws.len(), m, state.retry_delay, now).contains(ws[i].winner@),
        (forall|j: int| 0 <= j < i ==> ws[j].winner@ != ws[i].winner@) ==> admitted_winners(
            ws,
            ws.len(),
            m,
            state.retry_delay,
            now,
        ).contains(ws[i]),
        m2.contains_key((ws[i].winner@, winner_action())),
        m2[(ws[i].winner@, winner_action())] == now,
{
    let d = state.retry_delay;
    let j = lemma_first_index(ws, i);
    assert(winner_admitted(ws, j, m, d, now));
    if forall|k: int| 0 <= k < i ==> ws[k].winner@ != ws[i].winner@ {
        lemma_admitted_contains(ws, ws.len(), m, d, now, i);
    }
    lemma_admitted_names(ws, ws.len(), m, d, now, ws[i].winner@);
    lemma_stamp_hit(m, admitted_names(ws, ws.len(), m, d, now), winner_action(), now, ws[i].winner@);
}

/// Inside the retry window an epoch is refused and its entry kept; past it the
/// epoch is dispatched and its entry becomes the current time.
pub proof fn epoch_retry_window(
    state: State,
    m: Map<LedgerKey, u64>,
    m2: Map<LedgerKey, u64>,
    now: u64,
    e: EpochInfo,
    r: Result<Response, ContractError>,
)
    requires
        active_epoch_post(state, m, m2, state.owner@, now, e, r),
        m.contains_key((epoch_subject(e), epoch_action())),
    ensures
        now <= m[(epoch_subject(e), epoch_action())] + state.retry_delay * NANOS_PER_SECOND ==> r == Err::<
            Response,
            ContractError,
        >(ContractError::AllPending) && m2 == m,
        now > m[(epoch_subject(e), epoch_action())] + state.retry_delay * NANOS_PER_SECOND ==> r is Ok && m2[(
            epoch_subject(e),
            epoch_action(),
        )] == now,
{
}

/// Inside the retry window a winner is left out of the batch and its entry
/// kept; past it the winner is in the batch and its entry becomes the current
/// time (for a command that succeeded).
pub proof fn winner_retry_window(
    state: State,
    m: Map<LedgerKey, u64>,
    m2: Map<LedgerKey, u64>,
    now: u64,
    ws: Seq<WinnerInfo>,
    r: Result<Response, ContractError>,
    i: int,
)
    requires
        winner_list_post(state, m, m2, state.owner@, now, ws, r),
        0 <= i < ws.len(),
        m.contains_key((ws[i].winner@, winner_action())),
    ensures
        now <= m[(ws[i].winner@, winner_action())] + state.retry_delay * NANOS_PER_SECOND ==> {
            &&& !admitted_names(ws, ws.len(), m, state.retry_delay, now).contains(ws[i].winner@)
            &&& m2.contains_key((ws[i].winner@, winner_action()))
            &&& m2[(ws[i].winner@, winner_action())] == m[(ws[i].winner@, winner_action())]
        },
        now > m[(ws[i].winner@, winner_action())] + state.retry_delay * NANOS_PER_SECOND && r is Ok ==> {
            &&& admitted_names(ws, ws.len(), m, state.retry_delay, now).contains(ws[i].winner@)
            &&& (forall|j: int| 0 <= j < i ==> ws[j].winner@ != ws[i].winner@) ==> admitted_winners(
                ws,
                ws.len(),
                m,
                state.retry_delay,
                now,
            ).contains(ws[i])
            &&& m2[(ws[i].winner@, winner_action())] == now
        },
{
    let d = state.retry_delay;
    let x = ws[i].winner@;
    let names = admitted_names(ws, ws.len(), m, d, now);
    lemma_admitted_names(ws, ws.len(), m, d, now, x);
    if now <= m[(x, winner_action())] + d * NANOS_PER_SECOND {
        assert forall|k: int| 0 <= k < ws.len() && #[trigger] ws[k].winner@ == x implies !winner_admitted(ws, k, m, d, now) by {}
        if r is Ok {
            lemma_stamp_miss(m, names, winner_action(), now, x);
        }
    } else if r is Ok {
        let j = lemma_first_index(ws, i);
        assert(winner_admitted(ws, j, m, d, now));
        if forall|k: int| 0 <= k < i ==> ws[k].winner@ != ws[i].winner@ {
            lemma_admitted_contains(ws, ws.len(), m, d, now, i);
        }
        lemma_stamp_hit(m, names, winner_action(), now, x);
    }
}

} // verus!
