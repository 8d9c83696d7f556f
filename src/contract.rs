use crate::address::{is_foreign_address, validate_address};
use crate::msg::{
    ContractError, HandleAnswer, HandleMsg, HandleResponse, InitMsg, QueryAnswer, QueryMsg, Status,
    TokenMsg,
};
use crate::state::{
    lemma_registry_at, lemma_registry_push, lemma_registry_remove, CoinInfo, State,
    TransactionInfo,
};
use vstd::prelude::*;

verus! {

/// Number of ledger entries in one page.
pub const PAGE_SIZE: u64 = 100;

/// `s` is the state of a bridge just created by `admin`.
pub open spec fn is_initial(s: State, admin: String) -> bool {
    &&& s.wf()
    &&& s.admin == admin
    &&& s.registry() == Map::<Seq<char>, CoinInfo>::empty()
    &&& s.txs@.len() == 0
}

/// A successful answer with no token instructions.
pub open spec fn plain_answer(r: Result<HandleResponse, ContractError>, data: HandleAnswer) -> bool {
    r matches Ok(resp) && resp.messages@.len() == 0 && resp.data == data
}

/// A successful answer with no token instructions, carrying `status`.
pub open spec fn status_answer(r: Result<HandleResponse, ContractError>, status: Status) -> bool {
    plain_answer(r, HandleAnswer::GenericResponse { response: status })
}

/// Outcome of `ChangeAdmin` requested by `sender`.
pub open spec fn change_admin_post(
    pre: State,
    post: State,
    sender: String,
    new_admin: String,
    r: Result<HandleResponse, ContractError>,
) -> bool {
    if pre.admin@ != sender@ {
        r == Err::<HandleResponse, ContractError>(ContractError::Unauthorized) && post == pre
    } else {
        &&& plain_answer(r, HandleAnswer::ChangeAdmin { old_admin: pre.admin, new_admin })
        &&& post == (State { admin: new_admin, ..pre })
    }
}

/// Outcome of `RemoveCoin` requested by `sender`.
pub open spec fn remove_coin_post(
    pre: State,
    post: State,
    sender: String,
    coin: String,
    r: Result<HandleResponse, ContractError>,
) -> bool {
    if pre.admin@ != sender@ {
        r == Err::<HandleResponse, ContractError>(ContractError::Unauthorized) && post == pre
    } else if !pre.registry().contains_key(coin@) {
        status_answer(r, Status::CoinDoesNotExist) && post == pre
    } else {
        &&& status_answer(r, Status::CoinRemoved)
        &&& post.wf()
        &&& post.admin == pre.admin
        &&& post.txs == pre.txs
        &&& post.registry() == pre.registry().remove(coin@)
    }
}

/// Outcome of `AddCoin` requested by `sender`; `secret_addr_valid` is the
/// environment's verdict on the local address.
pub open spec fn add_coin_post(
    pre: State,
    post: State,
    sender: String,
    coin: String,
    info: CoinInfo,
    secret_addr_valid: bool,
    r: Result<HandleResponse, ContractError>,
) -> bool {
    if pre.admin@ != sender@ {
        r == Err::<HandleResponse, ContractError>(ContractError::Unauthorized) && post == pre
    } else if pre.registry().contains_key(coin@) {
        status_answer(r, Status::CoinAlreadyExists) && post == pre
    } else if !is_foreign_address(info.matic_addr@) || !secret_addr_valid {
        r == Err::<HandleResponse, ContractError>(ContractError::InvalidAddress) && post == pre
    } else {
        &&& status_answer(r, Status::CoinAdded)
        &&& post.wf()
        &&& post.admin == pre.admin
        &&& post.txs == pre.txs
        &&& post.registry() == pre.registry().insert(coin@, info)
    }
}

/// Creates the state of a new bridge whose admin is the creator.
pub fn init(sender: String, _msg: InitMsg) -> (r: State)
    ensures
        is_initial(r, sender),
{
    State::new(sender)
}

/// Whether `account` is the admin.
pub fn is_admin(config: &State, account: &String) -> (r: bool)
    ensures
        r == (config.admin@ == account@),
{
    config.admin == *account
}

/// Fails with `Unauthorized` unless `account` is the admin.
pub fn check_if_admin(config: &State, account: &String) -> (r: Result<(), ContractError>)
    ensures
        r is Ok <==> config.admin@ == account@,
        r is Err ==> r == Err::<(), ContractError>(ContractError::Unauthorized),
{
    if !is_admin(config, account) {
        return Err(ContractError::Unauthorized);
    }
    Ok(())
}

/// Hands the admin role to `new_admin`.
pub fn try_change_admin(config: &mut State, sender: &String, new_admin: String) -> (r: Result<
    HandleResponse,
    ContractError,
>)
    ensures
        change_admin_post(*old(config), *final(config), *sender, new_admin, r),
{
    match check_if_admin(config, sender) {
        Err(e) => return Err(e),
        Ok(()) => {},
    }
    let old_admin = config.admin.clone();
    config.admin = new_admin.clone();
    Ok(HandleResponse {
        messages: Vec::new(),
        data: HandleAnswer::ChangeAdmin { old_admin, new_admin },
    })
}

/// Unregisters `coin`; an absent coin is reported, not an error.
pub fn try_remove_coin(config: &mut State, sender: &String, coin: String) -> (r: Result<
    HandleResponse,
    ContractError,
>)
    requires
        old(config).wf(),
    ensures
        remove_coin_post(*old(config), *final(config), *sender, coin, r),
{
    match check_if_admin(config, sender) {
        Err(e) => return Err(e),
        Ok(()) => {},
    }
    let status = match config.find_coin(&coin) {
        Some(i) => {
            proof { lemma_registry_remove(config.coins@, i as int); }
            config.coins.remove(i);
            Status::CoinRemoved
        },
        None => Status::CoinDoesNotExist,
    };
    Ok(HandleResponse {
        messages: Vec::new(),
        data: HandleAnswer::GenericResponse { response: status },
    })
}

/// Registers `coin` after checking both of its addresses; a coin already
/// registered is reported, not an error, and left as it was.
pub fn try_add_coin(
    config: &mut State,
    sender: &String,
    coin: String,
    secret_addr: String,
    secret_hash: String,
    matic_addr: String,
    secret_addr_valid: bool,
) -> (r: Result<HandleResponse, ContractError>)
    requires
        old(config).wf(),
    ensures
        add_coin_post(
            *old(config),
            *final(config),
            *sender,
            coin,
            CoinInfo { secret_addr, secret_hash, matic_addr },
            secret_addr_valid,
            r,
        ),
{
    match check_if_admin(config, sender) {
        Err(e) => return Err(e),
        Ok(()) => {},
    }
    let status = match config.find_coin(&coin) {
        Some(_) => Status::CoinAlreadyExists,
        None => {
            if !validate_address(matic_addr.as_str()) {
                return Err(ContractError::InvalidAddress);
            }
            if !secret_addr_valid {
                return Err(ContractError::InvalidAddress);
            }
            let entry = (coin, CoinInfo { secret_addr, secret_hash, matic_addr });
            proof { lemma_registry_push(config.coins@, entry); }
            config.coins.push(entry);
            Status::CoinAdded
        },
    };
    Ok(HandleResponse {
        messages: Vec::new(),
        data: HandleAnswer::GenericResponse { response: status },
    })
}

/// Outcome of `TransferToMaticAddr` requested by `sender`: the caller's tokens
/// are burnt and the transfer is appended to the ledger.
pub open spec fn transfer_out_post(
    pre: State,
    post: State,
    sender: String,
    recipient: String,
    coin: String,
    amount: u128,
    r: Result<HandleResponse, ContractError>,
) -> bool {
    if !pre.registry().contains_key(coin@) {
        r == Err::<HandleResponse, ContractError>(ContractError::CoinNotFound) && post == pre
    } else {
        let info = pre.registry()[coin@];
        &&& r matches Ok(resp) && resp.messages@ == seq![
            TokenMsg::BurnFrom {
                owner: sender,
                amount,
                code_hash: info.secret_hash,
                contract_addr: info.secret_addr,
            },
        ] && resp.data == (HandleAnswer::TransferToMaticResponse { recipient, coin, amount })
        &&& post.admin == pre.admin
        &&& post.coins == pre.coins
        &&& post.txs@ == pre.txs@.push(TransactionInfo { recipient, coin, amount })
    }
}

/// Outcome of `ReceiveFromMaticAddr` requested by `sender`: one mint to
/// `recipient`; the state is never changed.
pub open spec fn transfer_in_post(
    pre: State,
    sender: String,
    recipient: String,
    coin: String,
    amount: u128,
    r: Result<HandleResponse, ContractError>,
) -> bool {
    if pre.admin@ != sender@ {
        r == Err::<HandleResponse, ContractError>(ContractError::Unauthorized)
    } else if !pre.registry().contains_key(coin@) {
        r == Err::<HandleResponse, ContractError>(ContractError::CoinNotFound)
    } else {
        let info = pre.registry()[coin@];
        r matches Ok(resp) && resp.messages@ == seq![
            TokenMsg::Mint {
                recipient,
                amount,
                code_hash: info.secret_hash,
                contract_addr: info.secret_addr,
            },
        ] && resp.data == (HandleAnswer::GenericResponse { response: Status::Transferred })
    }
}

/// Burns `amount` of `coin` from the caller and records the outbound transfer.
pub fn try_transfer_to_matic(
    config: &mut State,
    sender: &String,
    recipient: String,
    coin: String,
    amount: u128,
) -> (r: Result<HandleResponse, ContractError>)
    requires
        old(config).wf(),
    ensures
        transfer_out_post(*old(config), *final(config), *sender, recipient, coin, amount, r),
        final(config).wf(),
{
    let i = match config.find_coin(&coin) {
        Some(i) => i,
        None => return Err(ContractError::CoinNotFound),
    };
    let burn = TokenMsg::BurnFrom {
        owner: sender.clone(),
        amount,
        code_hash: config.coins[i].1.secret_hash.clone(),
        contract_addr: config.coins[i].1.secret_addr.clone(),
    };
    let mut messages: Vec<TokenMsg> = Vec::new();
    messages.push(burn);
    config.txs.push(TransactionInfo { recipient: recipient.clone(), coin: coin.clone(), amount });
    Ok(HandleResponse {
        messages,
        data: HandleAnswer::TransferToMaticResponse { recipient, coin, amount },
    })
}

/// Mints `amount` of `coin` to `recipient` on the admin's attestation of a
/// foreign-chain burn. The ledger records outbound transfers only.
pub fn try_receive_from_matic(
    config: &State,
    sender: &String,
    recipient: String,
    coin: String,
    amount: u128,
) -> (r: Result<HandleResponse, ContractError>)
    requires
        config.wf(),
    ensures
        transfer_in_post(*config, *sender, recipient, coin, amount, r),
{
    match check_if_admin(config, sender) {
        Err(e) => return Err(e),
        Ok(()) => {},
    }
    let i = match config.find_coin(&coin) {
        Some(i) => i,
        None => return Err(ContractError::CoinNotFound),
    };
    let mint = TokenMsg::Mint {
        recipient,
        amount,
        code_hash: config.coins[i].1.secret_hash.clone(),
        contract_addr: config.coins[i].1.secret_addr.clone(),
    };
    let mut messages: Vec<TokenMsg> = Vec::new();
    messages.push(mint);
    Ok(HandleResponse {
        messages,
        data: HandleAnswer::GenericResponse { response: Status::Transferred },
    })
}

/// The request needs the admin's authority.
pub open spec fn is_gated(msg: HandleMsg) -> bool {
    !(msg is TransferToMaticAddr)
}

/// Outcome of any state-changing request.
pub open spec fn handle_post(
    pre: State,
    post: State,
    sender: String,
    msg: HandleMsg,
    secret_addr_valid: bool,
    r: Result<HandleResponse, ContractError>,
) -> bool {
    match msg {
        HandleMsg::ChangeAdmin { address } => change_admin_post(pre, post, sender, address, r),
        HandleMsg::RemoveCoin { coin } => remove_coin_post(pre, post, sender, coin, r),
        HandleMsg::AddCoin { coin, secret_addr, secret_hash, matic_addr } => add_coin_post(
            pre,
            post,
            sender,
            coin,
            CoinInfo { secret_addr, secret_hash, matic_addr },
            secret_addr_valid,
            r,
        ),
        HandleMsg::TransferToMaticAddr { recipient, coin, amount } => transfer_out_post(
            pre,
            post,
            sender,
            recipient,
            coin,
            amount,
            r,
        ),
        HandleMsg::ReceiveFromMaticAddr { recipient, coin, amount } => transfer_in_post(
            pre,
            sender,
            recipient,
            coin,
            amount,
            r,
        ) && post == pre,
    }
}

/// Runs one state-changing request from `sender` against `state`. On failure
/// the state is left as it was. `secret_addr_valid` is the environment's
/// verdict on the local address of an `AddCoin` request and is read by no
/// other request.
pub fn handle(state: &mut State, sender: &String, msg: HandleMsg, secret_addr_valid: bool) -> (r:
    Result<HandleResponse, ContractError>)
    requires
        old(state).wf(),
    ensures
        final(state).wf(),
        handle_post(*old(state), *final(state), *sender, msg, secret_addr_valid, r),
        r is Err ==> *final(state) == *old(state),
{
    match msg {
        HandleMsg::ChangeAdmin { address } => try_change_admin(state, sender, address),
        HandleMsg::RemoveCoin { coin } => try_remove_coin(state, sender, coin),
        HandleMsg::AddCoin { coin, secret_addr, secret_hash, matic_addr } => try_add_coin(
            state,
            sender,
            coin,
            secret_addr,
            secret_hash,
            matic_addr,
            secret_addr_valid,
        ),
        HandleMsg::TransferToMaticAddr { recipient, coin, amount } => try_transfer_to_matic(
            state,
            sender,
            recipient,
            coin,
            amount,
        ),
        HandleMsg::ReceiveFromMaticAddr { recipient, coin, amount } => try_receive_from_matic(
            state,
            sender,
            recipient,
            coin,
            amount,
        ),
    }
}

/// `coins` lists each registered symbol exactly once.
pub open spec fn lists_symbols(coins: Seq<String>, reg: Map<Seq<char>, CoinInfo>) -> bool {
    &&& forall|i: int| 0 <= i < coins.len() ==> reg.contains_key(#[trigger] coins[i]@)
    &&& forall|k: Seq<char>| #[trigger] reg.contains_key(k) ==> exists|i: int|
        0 <= i < coins.len() && #[trigger] coins[i]@ == k
    &&& forall|i: int, j: int|
        0 <= i < coins.len() && 0 <= j < coins.len() && i != j ==> #[trigger] coins[i]@
            != #[trigger] coins[j]@
}

/// The ledger page that starts at `start`: at most a page of entries, in ledger order.
pub open spec fn ledger_page(txs: Seq<TransactionInfo>, start: int) -> Seq<TransactionInfo> {
    let end = if start + PAGE_SIZE < txs.len() { start + PAGE_SIZE } else { txs.len() as int };
    txs.subrange(start, end)
}

/// Answer to `Admin{}`.
pub open spec fn admin_query_post(s: State, r: Result<QueryAnswer, ContractError>) -> bool {
    r == Ok::<QueryAnswer, ContractError>(QueryAnswer::Admin { admin: s.admin })
}

/// Answer to `Coins{}`: the symbols in registry order.
pub open spec fn coins_query_post(s: State, r: Result<QueryAnswer, ContractError>) -> bool {
    r matches Ok(QueryAnswer::Coins { coins }) && coins@.len() == s.coins@.len() && (forall|i: int|
        0 <= i < coins@.len() ==> #[trigger] coins@[i]@ == s.coins@[i].0@) && lists_symbols(
        coins@,
        s.registry(),
    )
}

/// Answer to `Coin{coin}`.
pub open spec fn coin_query_post(s: State, coin: String, r: Result<QueryAnswer, ContractError>) -> bool {
    if !s.registry().contains_key(coin@) {
        r == Err::<QueryAnswer, ContractError>(ContractError::CoinNotFound)
    } else {
        let info = s.registry()[coin@];
        r == Ok::<QueryAnswer, ContractError>(
            QueryAnswer::Coin {
                coin,
                secret_addr: info.secret_addr,
                secret_hash: info.secret_hash,
                matic_addr: info.matic_addr,
            },
        )
    }
}

/// Answer to `GetTxs{start}`.
pub open spec fn txs_query_post(s: State, start: u64, r: Result<QueryAnswer, ContractError>) -> bool {
    if start > s.txs@.len() {
        r == Err::<QueryAnswer, ContractError>(ContractError::InvalidRange)
    } else {
        r matches Ok(QueryAnswer::Txs { txs }) && txs@ == ledger_page(s.txs@, start as int)
    }
}

/// Answer to any read-only request.
pub open spec fn query_post(s: State, msg: QueryMsg, r: Result<QueryAnswer, ContractError>) -> bool {
    match msg {
        QueryMsg::Admin {  } => admin_query_post(s, r),
        QueryMsg::Coins {  } => coins_query_post(s, r),
        QueryMsg::Coin { coin } => coin_query_post(s, coin, r),
        QueryMsg::GetTxs { start } => txs_query_post(s, start, r),
    }
}

/// The current admin.
pub fn query_admin(config: &State) -> (r: Result<QueryAnswer, ContractError>)
    ensures
        admin_query_post(*config, r),
{
    Ok(QueryAnswer::Admin { admin: config.admin.clone() })
}

/// The registered symbols, in registry order.
pub fn query_coins(config: &State) -> (r: Result<QueryAnswer, ContractError>)
    requires
        config.wf(),
    ensures
        coins_query_post(*config, r),
{
    let mut coins_arr: Vec<String> = Vec::new();
    let mut i: usize = 0;
    while i < config.coins.len()
        invariant
            i <= config.coins@.len(),
            coins_arr@.len() == i,
            forall|j: int| 0 <= j < i ==> #[trigger] coins_arr@[j]@ == config.coins@[j].0@,
        decreases config.coins@.len() - i,
    {
        coins_arr.push(config.coins[i].0.clone());
        i = i + 1;
    }
    proof {
        let s = config.coins@;
        assert forall|j: int| 0 <= j < coins_arr@.len() implies config.registry().contains_key(
            #[trigger] coins_arr@[j]@,
        ) by {
            lemma_registry_at(s, j);
        }
        assert forall|k: Seq<char>| #[trigger] config.registry().contains_key(k) implies exists|
            j: int,
        | 0 <= j < coins_arr@.len() && #[trigger] coins_arr@[j]@ == k by {
            let j = choose|j: int| 0 <= j < s.len() && #[trigger] s[j].0@ == k;
            assert(coins_arr@[j]@ == k);
        }
        assert forall|a: int, b: int|
            0 <= a < coins_arr@.len() && 0 <= b < coins_arr@.len() && a != b implies #[trigger] coins_arr@[a]@
            != #[trigger] coins_arr@[b]@ by {
            assert(s[a].0@ != s[b].0@);
        }
    }
    Ok(QueryAnswer::Coins { coins: coins_arr })
}

/// Everything registered under `coin`.
pub fn query_coin(config: &State, coin: String) -> (r: Result<QueryAnswer, ContractError>)
    requires
        config.wf(),
    ensures
        coin_query_post(*config, coin, r),
{
    match config.find_coin(&coin) {
        None => Err(ContractError::CoinNotFound),
        Some(i) => {
            let info = &config.coins[i].1;
            Ok(
                QueryAnswer::Coin {
                    coin,
                    secret_addr: info.secret_addr.clone(),
                    secret_hash: info.secret_hash.clone(),
                    matic_addr: info.matic_addr.clone(),
                },
            )
        },
    }
}

/// A field-by-field copy of a ledger entry.
fn copy_tx(t: &TransactionInfo) -> (r: TransactionInfo)
    ensures
        r == *t,
{
    TransactionInfo { recipient: t.recipient.clone(), coin: t.coin.clone(), amount: t.amount }
}

/// The page of the ledger that starts at entry `start`.
pub fn query_txs(config: &State, start: u64) -> (r: Result<QueryAnswer, ContractError>)
    ensures
        txs_query_post(*config, start, r),
{
    let size = config.txs.len();
    if start as u128 > size as u128 {
        return Err(ContractError::InvalidRange);
    }
    let first = start as usize;
    let end: usize = if size - first > PAGE_SIZE as usize { first + PAGE_SIZE as usize } else { size };
    let mut return_txs: Vec<TransactionInfo> = Vec::new();
    let mut i: usize = first;
    while i < end
        invariant
            first <= i <= end <= size,
            size == config.txs@.len(),
            return_txs@ == config.txs@.subrange(first as int, i as int),
        decreases end - i,
    {
        return_txs.push(copy_tx(&config.txs[i]));
        i = i + 1;
        assert(return_txs@ =~= config.txs@.subrange(first as int, i as int));
    }
    assert(return_txs@ =~= ledger_page(config.txs@, start as int));
    Ok(QueryAnswer::Txs { txs: return_txs })
}

/// Runs one read-only request against `state`.
pub fn query(state: &State, msg: QueryMsg) -> (r: Result<QueryAnswer, ContractError>)
    requires
        state.wf(),
    ensures
        query_post(*state, msg, r),
{
    match msg {
        QueryMsg::Admin {  } => query_admin(state),
        QueryMsg::Coins {  } => query_coins(state),
        QueryMsg::Coin { coin } => query_coin(state, coin),
        QueryMsg::GetTxs { start } => query_txs(state, start),
    }
}

} // verus!
