use matic_bridge::address::validate_address;
use matic_bridge::contract::{handle, init, is_admin, query, PAGE_SIZE};
use matic_bridge::msg::{
    ContractError, HandleAnswer, HandleMsg, InitMsg, QueryAnswer, QueryMsg, Status, TokenMsg,
};
use matic_bridge::state::{CoinInfo, State, TransactionInfo};

const HEX40: &str = "52908400098527886E0F7030069857D2E4169EE7";

fn s(v: &str) -> String {
    v.to_string()
}

fn fresh(admin: &str) -> State {
    init(s(admin), InitMsg {})
}

fn add_msg(coin: &str, foreign: &str) -> HandleMsg {
    HandleMsg::AddCoin {
        coin: s(coin),
        secret_addr: s("secret1token"),
        secret_hash: s("hash1"),
        matic_addr: s(foreign),
    }
}

fn with_usdx(admin: &str) -> State {
    let mut st = fresh(admin);
    let r = handle(&mut st, &s(admin), add_msg("USDX", &format!("0x{}", HEX40)), true);
    assert!(r.is_ok());
    st
}

fn status_of(r: Result<matic_bridge::msg::HandleResponse, ContractError>) -> Status {
    match r.unwrap().data {
        HandleAnswer::GenericResponse { response } => response,
        other => panic!("unexpected answer {:?}", other),
    }
}

fn txs_of(st: &State, start: u64) -> Result<Vec<TransactionInfo>, ContractError> {
    match query(st, QueryMsg::GetTxs { start }) {
        Ok(QueryAnswer::Txs { txs }) => Ok(txs),
        Ok(other) => panic!("unexpected answer {:?}", other),
        Err(e) => Err(e),
    }
}

fn coins_of(st: &State) -> Vec<String> {
    match query(st, QueryMsg::Coins {}) {
        Ok(QueryAnswer::Coins { coins }) => coins,
        other => panic!("unexpected answer {:?}", other),
    }
}

#[test]
fn admin_after_init() {
    let st = fresh("alice");
    assert_eq!(query(&st, QueryMsg::Admin {}), Ok(QueryAnswer::Admin { admin: s("alice") }));
    assert!(coins_of(&st).is_empty());
    assert_eq!(txs_of(&st, 0), Ok(vec![]));
    assert!(is_admin(&st, &s("alice")));
    assert!(!is_admin(&st, &s("bob")));
}

#[test]
fn add_then_describe() {
    let st = with_usdx("alice");
    assert_eq!(
        query(&st, QueryMsg::Coin { coin: s("USDX") }),
        Ok(QueryAnswer::Coin {
            coin: s("USDX"),
            secret_addr: s("secret1token"),
            secret_hash: s("hash1"),
            matic_addr: format!("0x{}", HEX40),
        })
    );
}

#[test]
fn add_twice_keeps_first() {
    let mut st = with_usdx("alice");
    let before = st.clone();
    let r = handle(
        &mut st,
        &s("alice"),
        HandleMsg::AddCoin {
            coin: s("USDX"),
            secret_addr: s("other"),
            secret_hash: s("other"),
            matic_addr: s("not an address"),
        },
        false,
    );
    assert_eq!(status_of(r), Status::CoinAlreadyExists);
    assert_eq!(st, before);
}

#[test]
fn remove_absent_and_present() {
    let mut st = with_usdx("alice");
    let before = st.clone();
    let r = handle(&mut st, &s("alice"), HandleMsg::RemoveCoin { coin: s("BTC") }, true);
    assert_eq!(status_of(r), Status::CoinDoesNotExist);
    assert_eq!(st, before);
    let r = handle(&mut st, &s("alice"), HandleMsg::RemoveCoin { coin: s("USDX") }, true);
    assert_eq!(status_of(r), Status::CoinRemoved);
    assert!(coins_of(&st).is_empty());
    assert_eq!(query(&st, QueryMsg::Coin { coin: s("USDX") }), Err(ContractError::CoinNotFound));
}

#[test]
fn gated_operations_reject_non_admin() {
    let st0 = with_usdx("alice");
    let msgs = vec![
        HandleMsg::ChangeAdmin { address: s("mallory") },
        HandleMsg::RemoveCoin { coin: s("USDX") },
        add_msg("BTC", HEX40),
        HandleMsg::ReceiveFromMaticAddr { recipient: s("mallory"), coin: s("USDX"), amount: 5 },
    ];
    for m in msgs {
        let mut st = st0.clone();
        let r = handle(&mut st, &s("mallory"), m, true);
        assert_eq!(r.unwrap_err(), ContractError::Unauthorized);
        assert_eq!(st, st0);
        assert_eq!(query(&st, QueryMsg::Admin {}), Ok(QueryAnswer::Admin { admin: s("alice") }));
        assert_eq!(coins_of(&st), vec![s("USDX")]);
    }
}

#[test]
fn change_admin_by_admin() {
    let mut st = fresh("alice");
    let r = handle(&mut st, &s("alice"), HandleMsg::ChangeAdmin { address: s("dave") }, true);
    let resp = r.unwrap();
    assert!(resp.messages.is_empty());
    assert_eq!(resp.data, HandleAnswer::ChangeAdmin { old_admin: s("alice"), new_admin: s("dave") });
    assert_eq!(query(&st, QueryMsg::Admin {}), Ok(QueryAnswer::Admin { admin: s("dave") }));
}

#[test]
fn add_rejects_bad_addresses() {
    let mut st = fresh("alice");
    let r = handle(&mut st, &s("alice"), add_msg("USDX", "0x1234"), true);
    assert_eq!(r.unwrap_err(), ContractError::InvalidAddress);
    let r = handle(&mut st, &s("alice"), add_msg("USDX", HEX40), false);
    assert_eq!(r.unwrap_err(), ContractError::InvalidAddress);
    assert!(coins_of(&st).is_empty());
    let r = handle(&mut st, &s("alice"), add_msg("USDX", HEX40), true);
    assert_eq!(status_of(r), Status::CoinAdded);
    assert_eq!(coins_of(&st), vec![s("USDX")]);
    let r = handle(&mut st, &s("alice"), add_msg("BTC", HEX40), true);
    assert_eq!(status_of(r), Status::CoinAdded);
    assert_eq!(coins_of(&st), vec![s("USDX"), s("BTC")]);
}

#[test]
fn transfer_out_unregistered() {
    let mut st = with_usdx("alice");
    let before = st.clone();
    let r = handle(
        &mut st,
        &s("bob"),
        HandleMsg::TransferToMaticAddr { recipient: s("f1"), coin: s("BTC"), amount: 100 },
        true,
    );
    assert_eq!(r.unwrap_err(), ContractError::CoinNotFound);
    assert_eq!(st, before);
    assert_eq!(txs_of(&st, 0), Ok(vec![]));
}

#[test]
fn transfer_out_burns_and_records() {
    let mut st = with_usdx("alice");
    let r = handle(
        &mut st,
        &s("bob"),
        HandleMsg::TransferToMaticAddr { recipient: s("f1"), coin: s("USDX"), amount: 100 },
        true,
    );
    let resp = r.unwrap();
    assert_eq!(
        resp.messages,
        vec![TokenMsg::BurnFrom {
            owner: s("bob"),
            amount: 100,
            code_hash: s("hash1"),
            contract_addr: s("secret1token"),
        }]
    );
    assert_eq!(
        resp.data,
        HandleAnswer::TransferToMaticResponse { recipient: s("f1"), coin: s("USDX"), amount: 100 }
    );
    assert_eq!(
        txs_of(&st, 0),
        Ok(vec![TransactionInfo { recipient: s("f1"), coin: s("USDX"), amount: 100 }])
    );
}

#[test]
fn transfer_in_mints_without_ledger_entry() {
    let mut st = with_usdx("alice");
    let before = st.clone();
    let r = handle(
        &mut st,
        &s("alice"),
        HandleMsg::ReceiveFromMaticAddr { recipient: s("carol"), coin: s("USDX"), amount: 50 },
        true,
    );
    let resp = r.unwrap();
    assert_eq!(
        resp.messages,
        vec![TokenMsg::Mint {
            recipient: s("carol"),
            amount: 50,
            code_hash: s("hash1"),
            contract_addr: s("secret1token"),
        }]
    );
    assert_eq!(resp.data, HandleAnswer::GenericResponse { response: Status::Transferred });
    assert_eq!(st, before);
    assert_eq!(txs_of(&st, 0), Ok(vec![]));
}

#[test]
fn transfer_in_unregistered() {
    let mut st = with_usdx("alice");
    let r = handle(
        &mut st,
        &s("alice"),
        HandleMsg::ReceiveFromMaticAddr { recipient: s("carol"), coin: s("BTC"), amount: 50 },
        true,
    );
    assert_eq!(r.unwrap_err(), ContractError::CoinNotFound);
}

#[test]
fn ledger_pages() {
    let mut st = with_usdx("alice");
    for k in 0..250u128 {
        let r = handle(
            &mut st,
            &s("bob"),
            HandleMsg::TransferToMaticAddr { recipient: format!("f{}", k), coin: s("USDX"), amount: k },
            true,
        );
        assert!(r.is_ok());
    }
    let first = txs_of(&st, 0).unwrap();
    assert_eq!(first.len(), 100);
    assert_eq!(first[0].amount, 0);
    assert_eq!(first[99].amount, 99);
    let mid = txs_of(&st, 120).unwrap();
    assert_eq!(mid.len(), 100);
    assert_eq!(mid[0].recipient, s("f120"));
    assert_eq!(mid[99].amount, 219);
    let tail = txs_of(&st, 200).unwrap();
    assert_eq!(tail.len(), 50);
    assert_eq!(tail[49].amount, 249);
    assert_eq!(txs_of(&st, 250), Ok(vec![]));
    assert_eq!(txs_of(&st, 251), Err(ContractError::InvalidRange));
    assert_eq!(txs_of(&st, u64::MAX), Err(ContractError::InvalidRange));
    assert_eq!(PAGE_SIZE, 100);
}

#[test]
fn empty_ledger_range() {
    let st = fresh("alice");
    assert_eq!(txs_of(&st, 0), Ok(vec![]));
    assert_eq!(txs_of(&st, 1), Err(ContractError::InvalidRange));
}

#[test]
fn foreign_address_formats() {
    assert!(validate_address(HEX40));
    assert!(validate_address(&format!("0x{}", HEX40)));
    assert!(validate_address(&HEX40.to_lowercase()));
    assert!(!validate_address(&HEX40[1..]));
    assert!(!validate_address(&format!("{}0", HEX40)));
    assert!(!validate_address(&format!("0x{}", &HEX40[2..])));
    assert!(!validate_address(&format!("0x0x{}", HEX40)));
    assert!(!validate_address(&format!("0X{}", HEX40)));
    assert!(!validate_address(&format!("{}g", &HEX40[1..])));
    assert!(!validate_address(""));
    assert!(!validate_address("0x"));
    assert!(!validate_address(&format!("{} ", HEX40)));
    assert!(!validate_address(&format!(" {}", HEX40)));
    assert!(!validate_address(&format!("0x{}\t", HEX40)));
    assert!(!validate_address(&format!("{}\n{}", &HEX40[..20], &HEX40[20..])));
    assert!(!validate_address(&format!("0x{}\r{}", &HEX40[..2], &HEX40[2..])));
}

#[test]
fn add_rejects_address_with_blank() {
    let mut st = fresh("alice");
    let r = handle(&mut st, &s("alice"), add_msg("USDX", &format!("{} ", HEX40)), true);
    assert_eq!(r.unwrap_err(), ContractError::InvalidAddress);
    assert!(coins_of(&st).is_empty());
}

#[test]
fn status_messages() {
    assert_eq!(Status::CoinAdded.message(), "Coin added");
    assert_eq!(Status::CoinAlreadyExists.message(), "Coin already exists");
    assert_eq!(Status::CoinRemoved.message(), "Coin removed");
    assert_eq!(Status::CoinDoesNotExist.message(), "Coin does not exist");
    assert_eq!(Status::Transferred.message(), "Transfered");
}

#[test]
fn end_to_end_bridge_session() {
    let mut st = fresh("A");
    let r = handle(
        &mut st,
        &s("A"),
        HandleMsg::AddCoin {
            coin: s("USDX"),
            secret_addr: s("addrX"),
            secret_hash: s("hashX"),
            matic_addr: format!("0x{}", HEX40),
        },
        true,
    );
    assert_eq!(status_of(r), Status::CoinAdded);
    assert_eq!(coins_of(&st), vec![s("USDX")]);
    let r = handle(
        &mut st,
        &s("B"),
        HandleMsg::TransferToMaticAddr { recipient: s("f1"), coin: s("USDX"), amount: 10 },
        true,
    );
    assert!(r.is_ok());
    assert_eq!(txs_of(&st, 0).unwrap().len(), 1);
    let r = handle(&mut st, &s("B"), HandleMsg::ChangeAdmin { address: s("D") }, true);
    assert_eq!(r.unwrap_err(), ContractError::Unauthorized);
    assert_eq!(query(&st, QueryMsg::Admin {}), Ok(QueryAnswer::Admin { admin: s("A") }));
}

#[test]
fn well_formedness_check() {
    let mut st = with_usdx("alice");
    assert!(st.is_well_formed());
    let r = handle(&mut st, &s("alice"), add_msg("BTC", HEX40), true);
    assert_eq!(status_of(r), Status::CoinAdded);
    assert!(st.is_well_formed());
    let dup = CoinInfo { secret_addr: s("x"), secret_hash: s("y"), matic_addr: s("z") };
    st.coins.push((s("USDX"), dup));
    assert!(!st.is_well_formed());
}
