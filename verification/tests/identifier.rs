use ibc_light_client::height::Height;
use ibc_light_client::identifier::{
    ChainId, ChannelId, ClientId, ConnectionId, IdentifierError, PortId,
};
use ibc_light_client::timestamp::{parts_of_nanos, Duration, Timestamp};
use ibc_light_client::error::ClientError;

#[test]
fn identifier_faults_in_order() {
    assert_eq!(PortId::from_str("").err(), Some(IdentifierError::Empty));
    assert_eq!(PortId::from_str("a/b").err(), Some(IdentifierError::ContainsSeparator));
    // the separator is found before the bad character and the bad length
    assert_eq!(PortId::from_str("(/").err(), Some(IdentifierError::ContainsSeparator));
    assert_eq!(PortId::from_str("tr(ns").err(), Some(IdentifierError::InvalidCharacter));
    // the bad character is found before the bad length
    assert_eq!(PortId::from_str("(").err(), Some(IdentifierError::InvalidCharacter));
    assert_eq!(PortId::from_str("t").err(), Some(IdentifierError::InvalidLength));
    assert_eq!(PortId::from_str("tr").unwrap().as_str(), "tr");
    assert_eq!(PortId::from_str("é-port").err(), Some(IdentifierError::InvalidCharacter));
    assert_eq!(PortId::from_str("a b").err(), Some(IdentifierError::InvalidCharacter));
    assert!(PortId::from_str("aZ09._+-#[]<>").is_ok());
}

#[test]
fn identifier_length_bounds() {
    let long = |n: usize| "a".repeat(n);
    assert!(PortId::from_str(&long(128)).is_ok());
    assert_eq!(PortId::from_str(&long(129)).err(), Some(IdentifierError::InvalidLength));
    assert_eq!(ChannelId::from_str(&long(7)).err(), Some(IdentifierError::InvalidLength));
    assert!(ChannelId::from_str(&long(8)).is_ok());
    assert!(ChannelId::from_str(&long(64)).is_ok());
    assert_eq!(ChannelId::from_str(&long(65)).err(), Some(IdentifierError::InvalidLength));
    assert_eq!(ClientId::from_str(&long(8)).err(), Some(IdentifierError::InvalidLength));
    assert!(ClientId::from_str(&long(9)).is_ok());
    assert_eq!(ClientId::from_str(&long(65)).err(), Some(IdentifierError::InvalidLength));
    assert_eq!(ConnectionId::from_str(&long(9)).err(), Some(IdentifierError::InvalidLength));
    assert!(ConnectionId::from_str(&long(10)).is_ok());
    assert!(ChainId::from_str("a").is_ok());
    assert_eq!(ChainId::from_str(&long(65)).err(), Some(IdentifierError::InvalidLength));
}

#[test]
fn chain_revision() {
    let revision = |s: &str| ChainId::from_str(s).unwrap().revision_number();
    assert_eq!(revision("cosmoshub-4"), 4);
    assert_eq!(revision("chain-a-12"), 12);
    assert_eq!(revision("chain-0"), 0);
    assert_eq!(revision("chain"), 0);
    assert_eq!(revision("chain-"), 0);
    assert_eq!(revision("chain-01"), 0);
    assert_eq!(revision("chain-1x"), 0);
    assert_eq!(revision("chain-x1"), 0);
    assert_eq!(revision("chain-+1"), 0);
    assert_eq!(revision("chain-18446744073709551615"), u64::MAX);
    assert_eq!(revision("chain-18446744073709551616"), 0);
    assert_eq!(revision("7"), 0);
    assert_eq!(revision("-7"), 7);
}

#[test]
fn chain_name() {
    let id = |s: &str| ChainId::from_str(s).unwrap();
    assert!(id("cosmoshub-4").same_name(&id("cosmoshub-5")));
    assert!(id("cosmoshub-4").same_name(&id("cosmoshub-4")));
    // an identifier without revision is its own name
    assert!(id("cosmoshub-4").same_name(&id("cosmoshub")));
    assert!(!id("cosmoshub-4").same_name(&id("cosmoshub-")));
    assert!(!id("cosmoshub-4").same_name(&id("osmosis-4")));
    assert!(!id("chain-a-1").same_name(&id("chain-b-1")));
    assert!(id("chain-a-1").same_name(&id("chain-a-2")));
    // without a revision the whole identifier is the name
    assert!(!id("chain-01").same_name(&id("chain-02")));
    assert!(id("chain-x").same_name(&id("chain-x")));
    assert!(!id("cosmoshub-4").same(&id("cosmoshub-5")));
    assert!(id("cosmoshub-4").same(&id("cosmoshub-4")));
    assert_eq!(id("cosmoshub-4").clone().as_str(), "cosmoshub-4");
}

#[test]
fn numbered_identifiers() {
    assert_eq!(ConnectionId::new(0).as_str(), "connection-0");
    assert_eq!(ConnectionId::new(7).as_str(), "connection-7");
    assert_eq!(ConnectionId::new(10).as_str(), "connection-10");
    assert_eq!(ConnectionId::new(1234567890).as_str(), "connection-1234567890");
    assert_eq!(
        ConnectionId::new(u64::MAX).as_str(),
        "connection-18446744073709551615"
    );
    assert_eq!(ClientId::default().as_str(), "07-tendermint-0");
    assert_eq!(ClientId::default(), ClientId::from_str("07-tendermint-0").unwrap());
    assert!(ClientId::default().same(&ClientId::default().clone()));
    assert!(!ClientId::default().same(&ClientId::from_str("07-tendermint-1").unwrap()));
}

#[test]
fn heights_are_ordered_by_revision_first() {
    let h = |r: u64, n: u64| Height::new(r, n).unwrap();
    assert_eq!(Height::new(3, 0), Err(ClientError::InvalidHeight));
    assert_eq!(h(3, 9).revision_number(), 3);
    assert_eq!(h(3, 9).revision_height(), 9);
    assert!(h(0, 10).is_lt(&h(0, 11)));
    assert!(h(0, 11).is_gt(&h(0, 10)));
    assert!(h(0, 99).is_lt(&h(1, 1)));
    assert!(!h(1, 1).is_lt(&h(0, 99)));
    assert!(!h(1, 1).is_lt(&h(1, 1)));
    assert!(h(1, 1).is_le(&h(1, 1)));
    assert!(h(1, 1).is_ge(&h(1, 1)));
    assert!(!h(1, 2).is_le(&h(1, 1)));
    assert_eq!(h(0, 99).max(h(1, 1)), h(1, 1));
    assert_eq!(h(1, 1).max(h(0, 99)), h(1, 1));
    assert_eq!(h(2, 5).max(h(2, 5)), h(2, 5));
}

#[test]
fn timestamps_and_durations() {
    let t = Timestamp::from_nanoseconds;
    assert_eq!(t(7).nanoseconds(), 7);
    assert!(t(7).is_set());
    assert!(!t(0).is_set());
    assert_eq!(t(10).duration_since(&t(4)), Some(Duration::from_nanos(6)));
    assert_eq!(t(4).duration_since(&t(4)), Some(Duration::from_nanos(0)));
    assert_eq!(t(4).duration_since(&t(10)), None);
    assert!(t(4).plus_is_after(Duration::from_nanos(7), &t(10)));
    assert!(!t(4).plus_is_after(Duration::from_nanos(6), &t(10)));
    assert!(t(u64::MAX).plus_is_after(Duration::from_nanos(1), &t(u64::MAX)));
    assert!(!t(u64::MAX).plus_is_after(Duration::from_nanos(0), &t(u64::MAX)));
    assert_eq!(Duration::from_secs(3).as_nanos(), 3_000_000_000);
    assert_eq!(Duration::from_secs(18_446_744_073).as_nanos(), 18_446_744_073_000_000_000);
    assert_eq!(Duration::from_secs(18_446_744_074).as_nanos(), u64::MAX);
}

#[test]
fn times_from_seconds_and_nanoseconds() {
    let nanos = |s: i64, n: i32| Timestamp::from_parts(s, n).map(|t| t.nanoseconds());
    assert_eq!(nanos(0, 0), Some(0));
    assert_eq!(nanos(1, 5), Some(1_000_000_005));
    assert_eq!(nanos(3, 999_999_999), Some(3_999_999_999));
    assert_eq!(nanos(3, 1_000_000_000), None);
    assert_eq!(nanos(-1, 0), None);
    assert_eq!(nanos(1, -1), None);
    assert_eq!(nanos(18_446_744_073, 709_551_615), Some(u64::MAX));
    assert_eq!(nanos(18_446_744_073, 709_551_616), None);
    assert_eq!(nanos(18_446_744_074, 0), None);
    assert_eq!(nanos(i64::MAX, 0), None);
    assert_eq!(Duration::from_parts(2, 1), Some(Duration::from_nanos(2_000_000_001)));
    assert_eq!(Duration::from_parts(-2, 1), None);
    assert_eq!(parts_of_nanos(0), (0, 0));
    assert_eq!(parts_of_nanos(3_999_999_999), (3, 999_999_999));
    assert_eq!(parts_of_nanos(u64::MAX), (18_446_744_073, 709_551_615));
    assert_eq!(Height::from_wire(0, 0), None);
    assert_eq!(Height::from_wire(0, 1), Some(Height::new(0, 1).unwrap()));
    assert_eq!(
        Height::from_wire(1, 0),
        Some(Height { revision_number: 1, revision_height: 0 })
    );
}
