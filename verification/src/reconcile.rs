//! The fee reconciler.
//!
//! Given the caller-supplied funds and the installed configuration, the
//! reconciler computes at most one payment transfer to the beneficiary and
//! at most one change transfer back to the caller.  Entries in the price's
//! denomination count only through their aggregate; entries in any other
//! denomination come back unchanged, in their original order.  When the
//! aggregate falls short of the price the whole operation fails and no
//! transfer is produced.

use vstd::prelude::*;

use crate::error::ContractError;
use crate::error::ErrorV;
use crate::msg::Coin;
use crate::msg::CoinV;
use crate::msg::MessageInfo;
use crate::msg::PaymentParamsV;
use crate::response::bank_result_view;
use crate::response::BankMsg;
use crate::response::BankMsgV;
use crate::state::ConfigStore;

verus! {

/// The aggregate amount a fund set carries in one denomination.
pub open spec fn sum_in_denom(funds: Seq<CoinV>, denom: Seq<char>) -> int
    decreases funds.len(),
{
    if funds.len() == 0 {
        0
    } else if funds.last().denom == denom {
        sum_in_denom(funds.drop_last(), denom) + funds.last().amount
    } else {
        sum_in_denom(funds.drop_last(), denom)
    }
}

/// The entries of a fund set carried in denominations other than `denom`,
/// kept in their original order.
pub open spec fn other_denoms(funds: Seq<CoinV>, denom: Seq<char>) -> Seq<CoinV>
    decreases funds.len(),
{
    if funds.len() == 0 {
        Seq::empty()
    } else if funds.last().denom == denom {
        other_denoms(funds.drop_last(), denom)
    } else {
        other_denoms(funds.drop_last(), denom).push(funds.last())
    }
}

/// Every amount of a fund-set model lies in the machine range of an
/// executable coin.
pub open spec fn coins_wf(funds: Seq<CoinV>) -> bool {
    forall|k: int| 0 <= k < funds.len() ==> 0 <= #[trigger] funds[k].amount <= u128::MAX
}

/// The transfers that hand a whole fund set back to the sender: none when
/// the set is empty, one otherwise.
pub open spec fn spec_refund_all(funds: Seq<CoinV>, sender: Seq<char>) -> Seq<BankMsgV> {
    if funds.len() == 0 {
        Seq::empty()
    } else {
        seq![BankMsgV { to_address: sender, amount: funds }]
    }
}

/// The fee reconciler: what a priced operation owes the beneficiary, and
/// what goes back to the sender.
///
/// With no price configured the whole fund set is returned as change.
/// With a price configured, the entries in the price's denomination are
/// aggregated; a shortfall aborts with `MissingPayment`, an exact match
/// pays the price and returns only the foreign entries, and a surplus
/// additionally returns one change coin in the price's denomination.
/// Zero-amount transfers are never produced.
pub open spec fn spec_reconcile(
    params: PaymentParamsV,
    funds: Seq<CoinV>,
    sender: Seq<char>,
) -> Result<Seq<BankMsgV>, ErrorV> {
    match params.mint_price {
        None => Ok(spec_refund_all(funds, sender)),
        Some(price) => if price.amount <= 0 {
            Err(ErrorV::ZeroPrice)
        } else {
            let aggregated = sum_in_denom(funds, price.denom);
            if aggregated < price.amount {
                Err(ErrorV::MissingPayment { missing_payment: price })
            } else {
                let change = if aggregated == price.amount {
                    other_denoms(funds, price.denom)
                } else {
                    other_denoms(funds, price.denom).push(
                        CoinV { denom: price.denom, amount: aggregated - price.amount },
                    )
                };
                let payment = BankMsgV { to_address: params.beneficiary, amount: seq![price] };
                if change.len() == 0 {
                    Ok(seq![payment])
                } else {
                    Ok(seq![payment, BankMsgV { to_address: sender, amount: change }])
                }
            }
        },
    }
}

/// The reconciler behind the configuration lookup: an uninitialized store
/// is an error.
pub open spec fn spec_handle_pre_mint(
    store: Option<PaymentParamsV>,
    funds: Seq<CoinV>,
    sender: Seq<char>,
) -> Result<Seq<BankMsgV>, ErrorV> {
    match store {
        None => Err(ErrorV::NotFound),
        Some(params) => spec_reconcile(params, funds, sender),
    }
}

/// The machine-limit bound under which the reconciler runs: when a price
/// is configured, the aggregate in its denomination must fit the coin's
/// amount type.
pub open spec fn funds_fit(store: Option<PaymentParamsV>, funds: Seq<CoinV>) -> bool {
    match store {
        Some(params) => match params.mint_price {
            Some(price) => sum_in_denom(funds, price.denom) <= u128::MAX,
            None => true,
        },
        None => true,
    }
}

proof fn lemma_vec_coins_wf(v: Vec<Coin>)
    ensures
        coins_wf(v.deep_view()),
{
    let dv = v.deep_view();
    assert forall|k: int| 0 <= k < dv.len() implies 0 <= #[trigger] dv[k].amount <= u128::MAX by {
        assert(dv[k] == v@[k].deep_view());
    }
}

proof fn lemma_sum_take_step(funds: Seq<CoinV>, denom: Seq<char>, i: int)
    requires
        0 <= i < funds.len(),
    ensures
        sum_in_denom(funds.take(i + 1), denom) == sum_in_denom(funds.take(i), denom) + (
        if funds[i].denom == denom {
            funds[i].amount
        } else {
            0
        }),
        other_denoms(funds.take(i + 1), denom) == (if funds[i].denom == denom {
            other_denoms(funds.take(i), denom)
        } else {
            other_denoms(funds.take(i), denom).push(funds[i])
        }),
{
    assert(funds.take(i + 1).drop_last() =~= funds.take(i));
    assert(funds.take(i + 1).last() == funds[i]);
}

proof fn lemma_sum_take_le(funds: Seq<CoinV>, denom: Seq<char>, i: int)
    requires
        coins_wf(funds),
        0 <= i <= funds.len(),
    ensures
        sum_in_denom(funds.take(i), denom) <= sum_in_denom(funds, denom),
    decreases funds.len() - i,
{
    if i == funds.len() {
        assert(funds.take(i) =~= funds);
    } else {
        lemma_sum_take_le(funds, denom, i + 1);
        lemma_sum_take_step(funds, denom, i);
    }
}

#[verifier::loop_isolation(false)]
fn clone_coins(coins: &Vec<Coin>) -> (r: Vec<Coin>)
    ensures
        r.deep_view() == coins.deep_view(),
{
    let mut r: Vec<Coin> = Vec::new();
    let mut i: usize = 0;
    while i < coins.len()
        invariant
            i <= coins.len(),
            r@.len() == i,
            forall|k: int| 0 <= k < i ==> #[trigger] r@[k]@ == coins@[k]@,
        decreases coins.len() - i,
    {
        r.push(coins[i].clone());
        i = i + 1;
    }
    proof {
        assert forall|k: int| 0 <= k < r.deep_view().len() implies r.deep_view()[k]
            == coins.deep_view()[k] by {
            assert(r.deep_view()[k] == r@[k].deep_view());
            assert(coins.deep_view()[k] == coins@[k].deep_view());
            assert(r@[k]@ == coins@[k]@);
        }
        assert(r.deep_view() =~= coins.deep_view());
    }
    r
}

/// Splits a fund set into the aggregate carried in `denom` and the entries
/// of every other denomination, preserved in order.
#[verifier::loop_isolation(false)]
pub fn split_fund_denom(denom: &String, funds: &Vec<Coin>) -> (r: (u128, Vec<Coin>))
    requires
        sum_in_denom(funds.deep_view(), denom@) <= u128::MAX,
    ensures
        r.0 as int == sum_in_denom(funds.deep_view(), denom@),
        r.1.deep_view() == other_denoms(funds.deep_view(), denom@),
{
    let ghost fundsv = funds.deep_view();
    proof {
        lemma_vec_coins_wf(*funds);
    }
    let mut aggregated: u128 = 0;
    let mut others: Vec<Coin> = Vec::new();
    let mut i: usize = 0;
    while i < funds.len()
        invariant
            i <= funds.len(),
            aggregated as int == sum_in_denom(fundsv.take(i as int), denom@),
            others.deep_view() == other_denoms(fundsv.take(i as int), denom@),
        decreases funds.len() - i,
    {
        proof {
            assert(fundsv[i as int] == funds@[i as int].deep_view());
            lemma_sum_take_step(fundsv, denom@, i as int);
            lemma_sum_take_le(fundsv, denom@, i as int + 1);
        }
        let fund = &funds[i];
        if fund.denom == *denom {
            aggregated = aggregated + fund.amount;
        } else {
            others.push(fund.clone());
            proof {
                assert(others.deep_view() =~= other_denoms(fundsv.take(i as int + 1), denom@));
            }
        }
        i = i + 1;
    }
    proof {
        assert(fundsv.take(funds.len() as int) =~= fundsv);
    }
    (aggregated, others)
}

/// Runs the fee reconciler for a priced operation: reads the configuration
/// and computes the payment and change transfers, or the error that aborts
/// the whole operation.
#[verifier::loop_isolation(false)]
pub fn handle_pre_mint_funds(store: &ConfigStore, info: &MessageInfo) -> (r: Result<
    Vec<BankMsg>,
    ContractError,
>)
    requires
        funds_fit(store@, info.funds.deep_view()),
    ensures
        bank_result_view(r) == spec_handle_pre_mint(store@, info.funds.deep_view(), info.sender@),
{
    let ghost fundsv = info.funds.deep_view();
    let params = match store.load() {
        Ok(params) => params,
        Err(e) => {
            return Err(e);
        },
    };
    match &params.mint_price {
        None => {
            let change = clone_coins(&info.funds);
            let mut msgs: Vec<BankMsg> = Vec::new();
            if change.len() > 0 {
                msgs.push(BankMsg { to_address: info.sender.clone(), amount: change });
            }
            proof {
                assert(msgs.deep_view() =~~= spec_refund_all(fundsv, info.sender@));
            }
            Ok(msgs)
        },
        Some(price) if price.amount == 0 => Err(ContractError::ZeroPrice),
        Some(price) => {
            let (aggregated, mut others) = split_fund_denom(&price.denom, &info.funds);
            if aggregated < price.amount {
                return Err(ContractError::MissingPayment { missing_payment: price.clone() });
            }
            if aggregated > price.amount {
                others.push(Coin { denom: price.denom.clone(), amount: aggregated - price.amount });
            }
            let ghost changev = others.deep_view();
            proof {
                if aggregated > price.amount {
                    assert(changev =~= other_denoms(fundsv, price@.denom).push(
                        CoinV { denom: price@.denom, amount: aggregated - price.amount },
                    ));
                }
            }
            let ghost pricev = price@;
            let ghost paymentv = BankMsgV { to_address: params@.beneficiary, amount: seq![pricev] };
            let ghost changemsgv = BankMsgV { to_address: info.sender@, amount: changev };
            let mut msgs: Vec<BankMsg> = Vec::new();
            let mut payment_amount: Vec<Coin> = Vec::new();
            payment_amount.push(price.clone());
            msgs.push(BankMsg { to_address: params.beneficiary.clone(), amount: payment_amount });
            if others.len() > 0 {
                msgs.push(BankMsg { to_address: info.sender.clone(), amount: others });
            }
            proof {
                assert(store@ == Some(params@));
                assert(params@.mint_price == Some(pricev));
                assert(payment_amount.deep_view() =~= seq![pricev]);
                assert(msgs@[0]@ =~~= paymentv);
                let specr = spec_reconcile(params@, fundsv, info.sender@);
                if changev.len() == 0 {
                    assert(msgs.deep_view() =~= seq![paymentv]);
                    assert(specr == Ok::<_, ErrorV>(seq![paymentv]));
                } else {
                    assert(msgs@[1]@ =~~= changemsgv);
                    assert(msgs.deep_view() =~= seq![paymentv, changemsgv]);
                    assert(specr == Ok::<_, ErrorV>(seq![paymentv, changemsgv]));
                }
                assert(bank_result_view(Ok(msgs)) == spec_handle_pre_mint(
                    store@,
                    fundsv,
                    info.sender@,
                ));
            }
            Ok(msgs)
        },
    }
}

proof fn lemma_sum_all_other(funds: Seq<CoinV>, denom: Seq<char>)
    requires
        forall|k: int| 0 <= k < funds.len() ==> #[trigger] funds[k].denom != denom,
    ensures
        sum_in_denom(funds, denom) == 0,
    decreases funds.len(),
{
    if funds.len() > 0 {
        lemma_sum_all_other(funds.drop_last(), denom);
    }
}

proof fn lemma_other_denoms_excludes(funds: Seq<CoinV>, denom: Seq<char>)
    ensures
        forall|k: int|
            0 <= k < other_denoms(funds, denom).len() ==> #[trigger] other_denoms(
                funds,
                denom,
            )[k].denom != denom,
    decreases funds.len(),
{
    if funds.len() > 0 {
        lemma_other_denoms_excludes(funds.drop_last(), denom);
        let prev = other_denoms(funds.drop_last(), denom);
        let cur = other_denoms(funds, denom);
        assert forall|k: int| 0 <= k < cur.len() implies cur[k].denom != denom by {
            if k < prev.len() {
                assert(cur[k] == prev[k]);
            } else {
                assert(cur[k] == funds.last());
            }
        }
    }
}

/// Law: with a price configured, a fund set carrying only foreign
/// denominations reconciles to `MissingPayment` naming the full price.
pub proof fn lemma_reconcile_foreign_funds(
    params: PaymentParamsV,
    price: CoinV,
    funds: Seq<CoinV>,
    sender: Seq<char>,
)
    requires
        params.mint_price == Some(price),
        price.amount > 0,
        forall|k: int| 0 <= k < funds.len() ==> #[trigger] funds[k].denom != price.denom,
    ensures
        spec_reconcile(params, funds, sender) == Err::<Seq<BankMsgV>, ErrorV>(
            ErrorV::MissingPayment { missing_payment: price },
        ),
{
    lemma_sum_all_other(funds, price.denom);
}

/// Law: when the aggregate in the price's denomination equals the price
/// exactly, reconciliation succeeds, pays the price, and produces no
/// change coin in that denomination.
pub proof fn lemma_reconcile_exact_price(
    params: PaymentParamsV,
    price: CoinV,
    funds: Seq<CoinV>,
    sender: Seq<char>,
)
    requires
        params.mint_price == Some(price),
        price.amount > 0,
        sum_in_denom(funds, price.denom) == price.amount,
    ensures
        spec_reconcile(params, funds, sender) matches Ok(msgs) && msgs[0] == (BankMsgV {
            to_address: params.beneficiary,
            amount: seq![price],
        }) && (forall|k: int, j: int|
            1 <= k < msgs.len() && 0 <= j < msgs[k].amount.len() ==> #[trigger] msgs[k].amount[j].denom
                != price.denom),
{
    lemma_other_denoms_excludes(funds, price.denom);
}

/// Law: the reconciler sees the entries in the price's denomination only
/// through their aggregate — two fund sets with the same aggregate there
/// and the same foreign entries reconcile identically.
pub proof fn lemma_reconcile_by_aggregate(
    params: PaymentParamsV,
    price: CoinV,
    funds1: Seq<CoinV>,
    funds2: Seq<CoinV>,
    sender: Seq<char>,
)
    requires
        params.mint_price == Some(price),
        sum_in_denom(funds1, price.denom) == sum_in_denom(funds2, price.denom),
        other_denoms(funds1, price.denom) == other_denoms(funds2, price.denom),
    ensures
        spec_reconcile(params, funds1, sender) == spec_reconcile(params, funds2, sender),
{
}

proof fn lemma_split_concat(s1: Seq<CoinV>, s2: Seq<CoinV>, denom: Seq<char>)
    ensures
        sum_in_denom(s1 + s2, denom) == sum_in_denom(s1, denom) + sum_in_denom(s2, denom),
        other_denoms(s1 + s2, denom) == other_denoms(s1, denom) + other_denoms(s2, denom),
    decreases s2.len(),
{
    if s2.len() == 0 {
        assert(s1 + s2 =~= s1);
        assert(other_denoms(s1, denom) + other_denoms(s2, denom) =~= other_denoms(s1, denom));
    } else {
        lemma_split_concat(s1, s2.drop_last(), denom);
        assert((s1 + s2).drop_last() =~= s1 + s2.drop_last());
        assert((s1 + s2).last() == s2.last());
        assert(sum_in_denom(s2, denom) == sum_in_denom(s2.drop_last(), denom) + (
        if s2.last().denom == denom {
            s2.last().amount
        } else {
            0
        }));
        if s2.last().denom != denom {
            assert(other_denoms(s1, denom) + other_denoms(s2.drop_last(), denom).push(s2.last())
                =~= (other_denoms(s1, denom) + other_denoms(s2.drop_last(), denom)).push(
                s2.last(),
            ));
        }
    }
}

proof fn lemma_single_same_denom(a: CoinV, denom: Seq<char>)
    requires
        a.denom == denom,
    ensures
        sum_in_denom(seq![a], denom) == a.amount,
        other_denoms(seq![a], denom) == Seq::<CoinV>::empty(),
{
    assert(seq![a].last() == a);
    assert(seq![a].drop_last() =~= Seq::<CoinV>::empty());
    assert(sum_in_denom(Seq::<CoinV>::empty(), denom) == 0);
    assert(other_denoms(Seq::<CoinV>::empty(), denom) =~= Seq::<CoinV>::empty());
}

proof fn lemma_pair_same_denom(a: CoinV, b: CoinV, denom: Seq<char>)
    requires
        a.denom == denom,
        b.denom == denom,
    ensures
        sum_in_denom(seq![a, b], denom) == a.amount + b.amount,
        other_denoms(seq![a, b], denom) == Seq::<CoinV>::empty(),
{
    lemma_single_same_denom(a, denom);
    assert(seq![a, b].last() == b);
    assert(seq![a, b].drop_last() =~= seq![a]);
}

/// Law: entries of the price's denomination may be split or merged freely
/// — a fund set carrying two adjacent entries of that denomination
/// reconciles exactly as the set carrying their sum in one entry.
pub proof fn lemma_reconcile_merged_entries(
    params: PaymentParamsV,
    price: CoinV,
    head: Seq<CoinV>,
    first: CoinV,
    second: CoinV,
    tail: Seq<CoinV>,
    sender: Seq<char>,
)
    requires
        params.mint_price == Some(price),
        first.denom == price.denom,
        second.denom == price.denom,
    ensures
        spec_reconcile(params, head + seq![first, second] + tail, sender) == spec_reconcile(
            params,
            head + seq![CoinV { denom: price.denom, amount: first.amount + second.amount }] + tail,
            sender,
        ),
{
    let split_mid = seq![first, second];
    let merged_mid = seq![CoinV { denom: price.denom, amount: first.amount + second.amount }];
    lemma_pair_same_denom(first, second, price.denom);
    lemma_single_same_denom(
        CoinV { denom: price.denom, amount: first.amount + second.amount },
        price.denom,
    );
    lemma_split_concat(head, split_mid, price.denom);
    lemma_split_concat(head + split_mid, tail, price.denom);
    lemma_split_concat(head, merged_mid, price.denom);
    lemma_split_concat(head + merged_mid, tail, price.denom);
    lemma_reconcile_by_aggregate(
        params,
        price,
        head + split_mid + tail,
        head + merged_mid + tail,
        sender,
    );
}

/// Law: the order of two adjacent entries of the price's denomination
/// never matters to reconciliation.
pub proof fn lemma_reconcile_swapped_entries(
    params: PaymentParamsV,
    price: CoinV,
    head: Seq<CoinV>,
    first: CoinV,
    second: CoinV,
    tail: Seq<CoinV>,
    sender: Seq<char>,
)
    requires
        params.mint_price == Some(price),
        first.denom == price.denom,
        second.denom == price.denom,
    ensures
        spec_reconcile(params, head + seq![first, second] + tail, sender) == spec_reconcile(
            params,
            head + seq![second, first] + tail,
            sender,
        ),
{
    let mid1 = seq![first, second];
    let mid2 = seq![second, first];
    lemma_pair_same_denom(first, second, price.denom);
    lemma_pair_same_denom(second, first, price.denom);
    lemma_split_concat(head, mid1, price.denom);
    lemma_split_concat(head + mid1, tail, price.denom);
    lemma_split_concat(head, mid2, price.denom);
    lemma_split_concat(head + mid2, tail, price.denom);
    lemma_reconcile_by_aggregate(params, price, head + mid1 + tail, head + mid2 + tail, sender);
}

} // verus!
