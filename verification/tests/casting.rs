use spl_token_substreams::events::{
    BurnEvent, Event, InitializeMintEvent, RevokeEvent, TokenAccount, TransferEvent,
};

fn account() -> TokenAccount {
    TokenAccount { address: "a".to_string(), owner: "o".to_string(), mint: "m".to_string() }
}

#[test]
fn cast_gives_the_payload() {
    let transfer = TransferEvent {
        source: Some(account()),
        destination: None,
        amount: 3,
        authority: "x".to_string(),
    };
    let event = Event::Transfer(transfer.clone());
    assert_eq!(event.cast::<TransferEvent>(), Some(&transfer));
    assert_eq!(event.cast::<BurnEvent>(), None);
    assert_eq!(event.cast::<InitializeMintEvent>(), None);
}

#[test]
fn cast_matches_one_type_only() {
    let revoke = Event::Revoke(RevokeEvent { source: Some(account()) });
    assert!(revoke.cast::<RevokeEvent>().is_some());
    assert!(revoke.cast::<TransferEvent>().is_none());
    assert!(revoke.cast::<BurnEvent>().is_none());
}
