use tx_tutorial::client::{
    account_resource_response, account_response, signing_message_response, AccountState, RestClient,
};
use tx_tutorial::errors::LedgerError;

fn state(sequence_number: &str) -> AccountState {
    AccountState { sequence_number: sequence_number.to_string() }
}

#[test]
fn paths_follow_the_base_url() {
    let client = RestClient::new("http://127.0.0.1:8080".to_string());
    assert_eq!(client.account_path("a11ce"), "http://127.0.0.1:8080/accounts/a11ce");
    assert_eq!(
        client.account_resource_path("a11ce", "0x1::Account"),
        "http://127.0.0.1:8080/accounts/a11ce/resource/0x1::Account"
    );
    assert_eq!(
        client.signing_message_path(),
        "http://127.0.0.1:8080/transactions/signing_message"
    );
}

#[test]
fn account_success_yields_the_state() {
    let r = account_response(200, Some(state("7")));
    assert_eq!(r, Ok(state("7")));
}

#[test]
fn account_undecodable_body_is_malformed() {
    assert_eq!(account_response(200, None), Err(LedgerError::MalformedResponse));
}

#[test]
fn account_unexpected_statuses_are_fatal() {
    assert_eq!(account_response(500, Some(state("7"))), Err(LedgerError::UnexpectedStatus(500)));
    assert_eq!(account_response(503, None), Err(LedgerError::UnexpectedStatus(503)));
    assert_eq!(account_response(404, None), Err(LedgerError::UnexpectedStatus(404)));
}

#[test]
fn resource_absent_on_404() {
    assert_eq!(account_resource_response(404, None), Ok(None));
    assert_eq!(account_resource_response(404, Some("ignored".to_string())), Ok(None));
}

#[test]
fn resource_success_yields_the_body() {
    let body = "{\"type\":\"0x1::Account\"}".to_string();
    assert_eq!(account_resource_response(200, Some(body.clone())), Ok(Some(body)));
}

#[test]
fn resource_undecodable_body_is_malformed() {
    assert_eq!(account_resource_response(200, None), Err(LedgerError::MalformedResponse));
}

#[test]
fn resource_unexpected_statuses_are_fatal() {
    assert_eq!(account_resource_response(500, None), Err(LedgerError::UnexpectedStatus(500)));
    assert_eq!(account_resource_response(503, None), Err(LedgerError::UnexpectedStatus(503)));
}

#[test]
fn signing_message_decodes_the_hex() {
    let r = signing_message_response(200, Some("0x0102ff"));
    assert_eq!(r, Ok(vec![0x01, 0x02, 0xff]));
}

#[test]
fn signing_message_empty_hex_is_empty() {
    assert_eq!(signing_message_response(200, Some("0x")), Ok(vec![]));
}

#[test]
fn signing_message_needs_the_prefix() {
    assert_eq!(signing_message_response(200, Some("0102")), Err(LedgerError::MalformedResponse));
    assert_eq!(signing_message_response(200, Some("")), Err(LedgerError::MalformedResponse));
    assert_eq!(signing_message_response(200, Some("1x0102")), Err(LedgerError::MalformedResponse));
}

#[test]
fn signing_message_needs_well_formed_hex() {
    assert_eq!(signing_message_response(200, Some("0xzz")), Err(LedgerError::MalformedResponse));
    assert_eq!(signing_message_response(200, Some("0x012")), Err(LedgerError::MalformedResponse));
}

#[test]
fn signing_message_missing_field_is_malformed() {
    assert_eq!(signing_message_response(200, None), Err(LedgerError::MalformedResponse));
}

#[test]
fn signing_message_unexpected_statuses_are_fatal() {
    assert_eq!(signing_message_response(500, Some("0x01")), Err(LedgerError::UnexpectedStatus(500)));
    assert_eq!(signing_message_response(503, None), Err(LedgerError::UnexpectedStatus(503)));
    assert_eq!(signing_message_response(404, Some("0x01")), Err(LedgerError::UnexpectedStatus(404)));
}
