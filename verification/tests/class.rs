use ibc_light_client::class::{
    is_receiver_chain_source, is_sender_chain_source, ClassId, ClassUri, NftTransferError,
    PrefixedClassId, RawClassTrace, TracePath, TracePrefix,
};
use ibc_light_client::identifier::{ChannelId, IdentifierError, PortId};

fn prefix(port: &str, channel: &str) -> TracePrefix {
    TracePrefix::new(PortId::from_str(port).unwrap(), ChannelId::from_str(channel).unwrap())
}

#[test]
fn test_denom_validation() {
    assert!(ClassId::from_str("").is_err(), "empty base class ID");
    assert!(ClassId::from_str("myclass").is_ok(), "valid base class ID");
    assert!(PrefixedClassId::from_str("").is_err(), "empty class trace");
    assert!(
        PrefixedClassId::from_str("transfer/channel-0/").is_err(),
        "empty base class ID with trace"
    );
    assert!(PrefixedClassId::from_str("/myclass").is_err(), "empty prefix");
    assert!(PrefixedClassId::from_str("//myclass").is_err(), "empty ids");
    assert!(PrefixedClassId::from_str("transfer/").is_err(), "single trace");
    assert!(
        PrefixedClassId::from_str("transfer/myclass").is_err(),
        "single trace with base class ID"
    );
    assert!(
        PrefixedClassId::from_str("transfer/channel-0/myclass").is_ok(),
        "valid single trace info"
    );
    assert!(
        PrefixedClassId::from_str("transfer/channel-0/transfer/channel-1/myclass").is_ok(),
        "valid multiple trace info"
    );
    assert!(
        PrefixedClassId::from_str("(transfer)/channel-0/myclass").is_err(),
        "invalid port"
    );
    assert!(
        PrefixedClassId::from_str("transfer/(channel-0)/myclass").is_err(),
        "invalid channel"
    );
}

#[test]
fn test_denom_trace() {
    assert_eq!(
        PrefixedClassId::from_str("transfer/channel-0/myclass").unwrap(),
        PrefixedClassId {
            trace_path: TracePath::from_str("transfer/channel-0").unwrap(),
            base_class_id: ClassId::from_str("myclass").unwrap()
        },
        "valid single trace info"
    );
    assert_eq!(
        PrefixedClassId::from_str("transfer/channel-0/transfer/channel-1/myclass").unwrap(),
        PrefixedClassId {
            trace_path: TracePath::from_str("transfer/channel-0/transfer/channel-1").unwrap(),
            base_class_id: ClassId::from_str("myclass").unwrap()
        },
        "valid multiple trace info"
    );
}

#[test]
fn test_denom_serde() {
    let dt_str = "transfer/channel-0/myclass";
    let dt = PrefixedClassId::from_str(dt_str).unwrap();
    assert_eq!(dt.to_string(), dt_str, "valid single trace info");

    let dt_str = "transfer/channel-0/transfer/channel-1/myclass";
    let dt = PrefixedClassId::from_str(dt_str).unwrap();
    assert_eq!(dt.to_string(), dt_str, "valid multiple trace info");
}

#[test]
fn test_trace_path() {
    assert!(TracePath::from_str("").is_ok(), "empty trace path");
    assert!(
        TracePath::from_str("transfer/myclass").is_err(),
        "invalid trace path: bad ChannelId"
    );
    assert!(
        TracePath::from_str("transfer//myclass").is_err(),
        "malformed trace path: missing ChannelId"
    );
    assert!(
        TracePath::from_str("transfer/channel-0/").is_err(),
        "malformed trace path: trailing delimiter"
    );

    let prefix_1 = TracePrefix::new(
        PortId::from_str("transfer").unwrap(),
        ChannelId::from_str("channel-1").unwrap(),
    );
    let prefix_2 = TracePrefix::new(
        PortId::from_str("transfer").unwrap(),
        ChannelId::from_str("channel-0").unwrap(),
    );
    let mut trace_path = TracePath::from(vec![prefix_1.clone()]);

    trace_path.add_prefix(prefix_2.clone());
    assert_eq!(
        TracePath::from_str("transfer/channel-0/transfer/channel-1").unwrap(),
        trace_path
    );
    assert_eq!(
        TracePath::from(vec![prefix_1.clone(), prefix_2.clone()]),
        trace_path
    );

    trace_path.remove_prefix(&prefix_2);
    assert_eq!(TracePath::from_str("transfer/channel-1").unwrap(), trace_path);
    assert_eq!(TracePath::from(vec![prefix_1.clone()]), trace_path);

    trace_path.remove_prefix(&prefix_1);
    assert!(trace_path.is_empty());
}

#[test]
fn class_id_must_not_be_blank() {
    assert_eq!(ClassId::from_str("").err(), Some(NftTransferError::EmptyBaseClassId));
    assert_eq!(ClassId::from_str(" \t\n").err(), Some(NftTransferError::EmptyBaseClassId));
    assert_eq!(
        ClassId::from_str("\u{2003}\u{3000}").err(),
        Some(NftTransferError::EmptyBaseClassId)
    );
    let spaced = ClassId::from_str(" my class ").unwrap();
    assert_eq!(spaced.as_ref(), " my class ");
    assert_eq!(spaced.to_string(), " my class ");
}

#[test]
fn trace_errors_name_the_first_faulty_pair_from_the_end() {
    assert_eq!(
        TracePath::from_str("transfer/channel-0/transfer").err(),
        Some(NftTransferError::InvalidTraceLength { len: 3 })
    );
    assert_eq!(
        TracePath::try_from(vec!["transfer"]).err(),
        Some(NftTransferError::InvalidTraceLength { len: 1 })
    );
    assert_eq!(
        TracePath::from_str("p/channel-0/transfer/channel-1").err(),
        Some(NftTransferError::InvalidTracePortId {
            pos: 1,
            validation_error: IdentifierError::InvalidLength
        })
    );
    assert_eq!(
        TracePath::from_str("transfer/channel-0/transfer/chan").err(),
        Some(NftTransferError::InvalidTraceChannelId {
            pos: 0,
            validation_error: IdentifierError::InvalidLength
        })
    );
    // both pairs are faulty: the one nearer the base class is named
    assert_eq!(
        TracePath::from_str("(transfer)/channel-0/transfer/(channel-1)").err(),
        Some(NftTransferError::InvalidTraceChannelId {
            pos: 0,
            validation_error: IdentifierError::InvalidCharacter
        })
    );
    assert_eq!(
        TracePath::from_str("/channel-0").err(),
        Some(NftTransferError::InvalidTracePortId {
            pos: 0,
            validation_error: IdentifierError::Empty
        })
    );
    // the port is looked at before the channel
    assert_eq!(
        TracePath::from_str("(transfer)/chan").err(),
        Some(NftTransferError::InvalidTracePortId {
            pos: 0,
            validation_error: IdentifierError::InvalidCharacter
        })
    );
}

#[test]
fn blank_trace_is_empty_but_blank_parts_are_not() {
    assert!(TracePath::from_str("  ").unwrap().is_empty());
    assert_eq!(TracePath::try_from(Vec::new()).unwrap(), TracePath::default());
    assert_eq!(
        TracePath::try_from(vec![""]).err(),
        Some(NftTransferError::InvalidTraceLength { len: 1 })
    );
    assert!(TracePath::from_str(" /channel-0").is_err());
}

#[test]
fn trace_is_written_last_prefix_first() {
    let mut path = TracePath::default();
    assert_eq!(path.to_string(), "");
    path.add_prefix(prefix("transfer", "channel-1"));
    assert_eq!(path.to_string(), "transfer/channel-1");
    path.add_prefix(prefix("nft-transfer", "channel-22"));
    assert_eq!(path.to_string(), "nft-transfer/channel-22/transfer/channel-1");
    assert_eq!(path.len(), 2);
    assert!(path.starts_with(&prefix("nft-transfer", "channel-22")));
    assert!(!path.starts_with(&prefix("transfer", "channel-1")));
    assert_eq!(prefix("transfer", "channel-1").to_string(), "transfer/channel-1");
}

#[test]
fn removing_a_prefix_that_is_not_first_changes_nothing() {
    let mut path = TracePath::from_str("transfer/channel-0/transfer/channel-1").unwrap();
    path.remove_prefix(&prefix("transfer", "channel-1"));
    assert_eq!(path.to_string(), "transfer/channel-0/transfer/channel-1");
    path.remove_prefix(&prefix("transfer", "channel-0"));
    assert_eq!(path.to_string(), "transfer/channel-1");
    let mut empty = TracePath::default();
    empty.remove_prefix(&prefix("transfer", "channel-0"));
    assert!(empty.is_empty());
}

#[test]
fn prefixed_class_round_trips() {
    for written in [
        "myclass",
        "transfer/channel-0/myclass",
        "transfer/channel-0/transfer/channel-1/myclass",
        "a.b_c/channel-12345/[x]<y>#+-/channel-0/class with space",
    ] {
        let class = PrefixedClassId::from_str(written).unwrap();
        assert_eq!(class.to_string(), written);
        assert_eq!(PrefixedClassId::from_str(&class.to_string()).unwrap(), class);
    }
    let plain = PrefixedClassId::from(ClassId::from_str("myclass").unwrap());
    assert!(plain.trace_path.is_empty());
    assert_eq!(plain.to_string(), "myclass");
}

#[test]
fn prefixed_class_trace_prefixes() {
    let mut class = PrefixedClassId::from_str("transfer/channel-0/myclass").unwrap();
    class.add_trace_prefix(prefix("transfer", "channel-7"));
    assert_eq!(class.to_string(), "transfer/channel-7/transfer/channel-0/myclass");
    class.remove_trace_prefix(&prefix("transfer", "channel-0"));
    assert_eq!(class.to_string(), "transfer/channel-7/transfer/channel-0/myclass");
    class.remove_trace_prefix(&prefix("transfer", "channel-7"));
    assert_eq!(class.to_string(), "transfer/channel-0/myclass");
    assert_eq!(class.base_class_id, ClassId::from_str("myclass").unwrap());
}

#[test]
fn source_of_a_class() {
    let class = PrefixedClassId::from_str("transfer/c2b-channel/transfer/channel-0/myclass")
        .unwrap();
    let port = || PortId::from_str("transfer").unwrap();
    let back = || ChannelId::from_str("c2b-channel").unwrap();
    let onward = || ChannelId::from_str("channel-0").unwrap();
    assert!(is_receiver_chain_source(port(), back(), &class));
    assert!(!is_sender_chain_source(port(), back(), &class));
    assert!(!is_receiver_chain_source(port(), onward(), &class));
    assert!(is_sender_chain_source(port(), onward(), &class));
    let native = PrefixedClassId::from_str("myclass").unwrap();
    assert!(is_sender_chain_source(port(), back(), &native));
    assert!(!is_receiver_chain_source(port(), back(), &native));
}

#[test]
fn raw_class_trace() {
    let raw = RawClassTrace {
        path: "transfer/channel-0/transfer/channel-1".to_string(),
        base_class_id: "myclass".to_string(),
    };
    let class = PrefixedClassId::try_from(raw).unwrap();
    assert_eq!(
        class,
        PrefixedClassId::from_str("transfer/channel-0/transfer/channel-1/myclass").unwrap()
    );
    let back = class.to_raw();
    assert_eq!(back.path, "transfer/channel-0/transfer/channel-1");
    assert_eq!(back.base_class_id, "myclass");

    let native = RawClassTrace { path: String::new(), base_class_id: "myclass".to_string() };
    assert!(PrefixedClassId::try_from(native).unwrap().trace_path.is_empty());
    let blank = RawClassTrace { path: String::new(), base_class_id: " ".to_string() };
    assert_eq!(
        PrefixedClassId::try_from(blank).err(),
        Some(NftTransferError::EmptyBaseClassId)
    );
    let broken = RawClassTrace {
        path: "transfer".to_string(),
        base_class_id: "myclass".to_string(),
    };
    assert_eq!(
        PrefixedClassId::try_from(broken).err(),
        Some(NftTransferError::InvalidTraceLength { len: 1 })
    );
}

#[test]
fn class_uri() {
    let uri = ClassUri::from_str("https://example.com/nft/class?id=7").unwrap();
    assert_eq!(uri.as_ref(), "https://example.com/nft/class?id=7");
    assert_eq!(uri.to_string(), "https://example.com/nft/class?id=7");
    assert!(ClassUri::from_str("/relative/path").is_ok());
    assert_eq!(ClassUri::from_str("").err(), Some(NftTransferError::InvalidUri));
    assert_eq!(
        ClassUri::from_str("http://exa mple.com").err(),
        Some(NftTransferError::InvalidUri)
    );
    assert_eq!(
        ClassUri::from_parsed("anything", false).err(),
        Some(NftTransferError::InvalidUri)
    );
    assert_eq!(ClassUri::from_parsed("anything", true).unwrap().as_ref(), "anything");
}

#[test]
fn base_class_with_a_separator_is_not_read_back() {
    let class = PrefixedClassId::from(ClassId::from_str("a/b").unwrap());
    assert_eq!(class.to_string(), "a/b");
    assert_eq!(
        PrefixedClassId::from_str("a/b").err(),
        Some(NftTransferError::InvalidTraceLength { len: 1 })
    );
    let mut travelled = class.clone();
    travelled.add_trace_prefix(prefix("transfer", "channel-0"));
    assert_eq!(travelled.to_string(), "transfer/channel-0/a/b");
    assert!(PrefixedClassId::from_str("transfer/channel-0/a/b").is_err());
    assert_ne!(
        PrefixedClassId::from_str("transfer/channel-0/ab").unwrap(),
        travelled
    );
}
