//! Facts that relate several operations of the bridge to one another.
use crate::contract::{
    add_coin_post, admin_query_post, coin_query_post, handle_post, is_gated, is_initial,
    query_post, remove_coin_post, status_answer, transfer_out_post, txs_query_post,
};
use crate::msg::{ContractError, HandleMsg, HandleResponse, QueryAnswer, QueryMsg, Status, TokenMsg};
use crate::state::{CoinInfo, State, TransactionInfo};
use vstd::prelude::*;

verus! {

/// A freshly created bridge reports its creator as admin.
pub proof fn lemma_admin_after_init(s: State, creator: String, r: Result<QueryAnswer, ContractError>)
    requires
        is_initial(s, creator),
        admin_query_post(s, r),
    ensures
        r == Ok::<QueryAnswer, ContractError>(QueryAnswer::Admin { admin: creator }),
{
}

/// After a coin is added, describing it returns exactly the fields it was added with.
pub proof fn lemma_add_then_describe(
    pre: State,
    post: State,
    sender: String,
    coin: String,
    info: CoinInfo,
    secret_addr_valid: bool,
    r_add: Result<HandleResponse, ContractError>,
    r_query: Result<QueryAnswer, ContractError>,
)
    requires
        pre.wf(),
        add_coin_post(pre, post, sender, coin, info, secret_addr_valid, r_add),
        status_answer(r_add, Status::CoinAdded),
        coin_query_post(post, coin, r_query),
    ensures
        r_query == Ok::<QueryAnswer, ContractError>(
            QueryAnswer::Coin {
                coin,
                secret_addr: info.secret_addr,
                secret_hash: info.secret_hash,
                matic_addr: info.matic_addr,
            },
        ),
{
}

/// Adding a symbol a second time changes nothing and reports that it exists.
pub proof fn lemma_add_twice(
    s0: State,
    s1: State,
    s2: State,
    sender: String,
    coin: String,
    first: CoinInfo,
    second: CoinInfo,
    valid1: bool,
    valid2: bool,
    r1: Result<HandleResponse, ContractError>,
    r2: Result<HandleResponse, ContractError>,
)
    requires
        s0.wf(),
        add_coin_post(s0, s1, sender, coin, first, valid1, r1),
        r1 is Ok,
        add_coin_post(s1, s2, sender, coin, second, valid2, r2),
    ensures
        s2 == s1,
        status_answer(r2, Status::CoinAlreadyExists),
{
}

/// Removing an unregistered symbol changes nothing and reports that it does not exist.
pub proof fn lemma_remove_absent(
    pre: State,
    post: State,
    sender: String,
    coin: String,
    r: Result<HandleResponse, ContractError>,
)
    requires
        pre.admin@ == sender@,
        !pre.registry().contains_key(coin@),
        remove_coin_post(pre, post, sender, coin, r),
    ensures
        post == pre,
        status_answer(r, Status::CoinDoesNotExist),
{
}

/// A gated request from anyone but the admin fails with `Unauthorized`, and every
/// later query answers as it did before.
pub proof fn lemma_non_admin_rejected(
    pre: State,
    post: State,
    sender: String,
    msg: HandleMsg,
    secret_addr_valid: bool,
    r: Result<HandleResponse, ContractError>,
    q: QueryMsg,
    rq: Result<QueryAnswer, ContractError>,
)
    requires
        is_gated(msg),
        pre.admin@ != sender@,
        handle_post(pre, post, sender, msg, secret_addr_valid, r),
    ensures
        r == Err::<HandleResponse, ContractError>(ContractError::Unauthorized),
        post == pre,
        query_post(post, q, rq) <==> query_post(pre, q, rq),
{
}

/// An outbound transfer of an unregistered coin fails with `CoinNotFound` and
/// leaves the ledger as long as it was.
pub proof fn lemma_transfer_out_unregistered(
    pre: State,
    post: State,
    sender: String,
    recipient: String,
    coin: String,
    amount: u128,
    r: Result<HandleResponse, ContractError>,
)
    requires
        !pre.registry().contains_key(coin@),
        transfer_out_post(pre, post, sender, recipient, coin, amount, r),
    ensures
        r == Err::<HandleResponse, ContractError>(ContractError::CoinNotFound),
        post.txs@.len() == pre.txs@.len(),
{
}

/// An outbound transfer of a registered coin burns from the caller once, and the
/// ledger page that starts at the old ledger length holds exactly the transfer.
pub proof fn lemma_transfer_out_recorded(
    pre: State,
    post: State,
    sender: String,
    recipient: String,
    coin: String,
    amount: u128,
    r: Result<HandleResponse, ContractError>,
    rq: Result<QueryAnswer, ContractError>,
)
    requires
        pre.registry().contains_key(coin@),
        pre.txs@.len() < u64::MAX,
        transfer_out_post(pre, post, sender, recipient, coin, amount, r),
        txs_query_post(post, pre.txs@.len() as u64, rq),
    ensures
        r is Ok,
        r->Ok_0.messages@.len() == 1,
        (r->Ok_0.messages@[0] matches TokenMsg::BurnFrom { owner, amount: a, .. } && owner == sender
            && a == amount),
        (rq matches Ok(QueryAnswer::Txs { txs }) && txs@ == seq![
            TransactionInfo { recipient, coin, amount },
        ]),
{
    if let Ok(QueryAnswer::Txs { txs }) = rq {
        assert(txs@ =~= seq![TransactionInfo { recipient, coin, amount }]);
    }
}

/// An inbound transfer by the admin of a registered coin mints to the recipient
/// once and leaves the ledger unchanged.
pub proof fn lemma_transfer_in_mints(
    pre: State,
    post: State,
    sender: String,
    recipient: String,
    coin: String,
    amount: u128,
    secret_addr_valid: bool,
    r: Result<HandleResponse, ContractError>,
)
    requires
        pre.admin@ == sender@,
        pre.registry().contains_key(coin@),
        handle_post(
            pre,
            post,
            sender,
            HandleMsg::ReceiveFromMaticAddr { recipient, coin, amount },
            secret_addr_valid,
            r,
        ),
    ensures
        r is Ok,
        r->Ok_0.messages@.len() == 1,
        (r->Ok_0.messages@[0] matches TokenMsg::Mint { recipient: to, amount: a, .. } && to
            == recipient && a == amount),
        post.txs == pre.txs,
{
}

} // verus!
