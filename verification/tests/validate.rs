//! Option-validator behaviour: required fields, defaults, pass-through,
//! configuration lookups, and the signing-key override.

use transfer_path::config::{ChainConfig, Config};
use transfer_path::error::{RequiredField, TransferError};
use transfer_path::ident::{ChainId, ChannelId, PortId};
use transfer_path::options::{default_denom, validate, Amount, RawTransferRequest};

fn chain(name: &str) -> ChainId {
    ChainId::new(name.to_string())
}

fn two_chain_config() -> Config {
    let mut config = Config::new();
    config.add_chain(ChainConfig::new(chain("chain_sender"), "key_sender".to_string()));
    config.add_chain(ChainConfig::new(chain("chain_receiver"), "key_receiver".to_string()));
    config
}

fn full_raw() -> RawTransferRequest {
    RawTransferRequest {
        dst_chain_id: Some(chain("chain_receiver")),
        src_chain_id: Some(chain("chain_sender")),
        src_port_id: Some(PortId::new("port_sender".to_string())),
        src_channel_id: Some(ChannelId::new("channel_sender".to_string())),
        amount: Some(Amount::new(42)),
        timeout_height_offset: None,
        timeout_seconds: None,
        receiver: None,
        denom: None,
        number_msgs: None,
        key_name: None,
    }
}

#[test]
fn test_ft_transfer_required_only() {
    let cmd = full_raw().resolve().ok().unwrap();
    assert_eq!(cmd.dst_chain_id.as_str(), "chain_receiver");
    assert_eq!(cmd.src_chain_id.as_str(), "chain_sender");
    assert_eq!(cmd.src_port_id.as_str(), "port_sender");
    assert_eq!(cmd.src_channel_id.as_str(), "channel_sender");
    assert_eq!(cmd.amount.value, 42);
    assert_eq!(cmd.timeout_height_offset, 0);
    assert_eq!(cmd.timeout_seconds, 0);
    assert!(cmd.receiver.is_none());
    assert_eq!(cmd.denom, "samoleans".to_string());
    assert!(cmd.number_msgs.is_none());
    assert!(cmd.key_name.is_none());
}

#[test]
fn test_ft_transfer_denom() {
    let mut raw = full_raw();
    raw.denom = Some("my_denom".to_string());
    let cmd = raw.resolve().ok().unwrap();
    assert_eq!(cmd.denom, "my_denom".to_string());
    let mut raw = full_raw();
    raw.denom = Some("my_denom".to_string());
    let opts = validate(raw, &two_chain_config()).ok().unwrap();
    assert_eq!(opts.denom, "my_denom".to_string());
}

#[test]
fn test_ft_transfer_key_name() {
    let mut raw = full_raw();
    raw.key_name = Some("key_name".to_string());
    let cmd = raw.resolve().ok().unwrap();
    assert_eq!(cmd.key_name, Some("key_name".to_string()));
}

#[test]
fn test_ft_transfer_number_msgs() {
    let mut raw = full_raw();
    raw.number_msgs = Some(21);
    let cmd = raw.resolve().ok().unwrap();
    assert_eq!(cmd.number_msgs, Some(21));
    let mut raw = full_raw();
    raw.number_msgs = Some(21);
    let opts = validate(raw, &two_chain_config()).ok().unwrap();
    assert_eq!(opts.number_msgs, 21);
}

#[test]
fn test_ft_transfer_receiver() {
    let mut raw = full_raw();
    raw.receiver = Some("receiver_addr".to_string());
    let cmd = raw.resolve().ok().unwrap();
    assert_eq!(cmd.receiver, Some("receiver_addr".to_string()));
    let mut raw = full_raw();
    raw.receiver = Some("receiver_addr".to_string());
    let opts = validate(raw, &two_chain_config()).ok().unwrap();
    assert_eq!(opts.receiver, Some("receiver_addr".to_string()));
}

#[test]
fn test_ft_transfer_timeout_height_offset() {
    let mut raw = full_raw();
    raw.timeout_height_offset = Some(21);
    let cmd = raw.resolve().ok().unwrap();
    assert_eq!(cmd.timeout_height_offset, 21);
    let mut raw = full_raw();
    raw.timeout_height_offset = Some(21);
    let opts = validate(raw, &two_chain_config()).ok().unwrap();
    assert_eq!(opts.timeout_height_offset, 21);
}

#[test]
fn test_ft_transfer_timeout_seconds() {
    let mut raw = full_raw();
    raw.timeout_seconds = Some(21);
    let cmd = raw.resolve().ok().unwrap();
    assert_eq!(cmd.timeout_seconds, 21);
    let mut raw = full_raw();
    raw.timeout_seconds = Some(21);
    let opts = validate(raw, &two_chain_config()).ok().unwrap();
    assert_eq!(opts.timeout_duration.secs, 21);
}

#[test]
fn test_ft_transfer_no_amount() {
    let mut raw = full_raw();
    raw.amount = None;
    assert!(raw.resolve().is_err());
    let mut raw = full_raw();
    raw.amount = None;
    let err = validate(raw, &two_chain_config()).err().unwrap();
    assert!(matches!(
        err,
        TransferError::MissingRequiredField { field: RequiredField::Amount }
    ));
}

#[test]
fn test_ft_transfer_no_sender_channel() {
    let mut raw = full_raw();
    raw.src_channel_id = None;
    let err = validate(raw, &two_chain_config()).err().unwrap();
    assert!(matches!(
        err,
        TransferError::MissingRequiredField { field: RequiredField::SrcChannelId }
    ));
}

#[test]
fn test_ft_transfer_no_sender_port() {
    let mut raw = full_raw();
    raw.src_port_id = None;
    let err = validate(raw, &two_chain_config()).err().unwrap();
    assert!(matches!(
        err,
        TransferError::MissingRequiredField { field: RequiredField::SrcPortId }
    ));
}

#[test]
fn test_ft_transfer_no_sender_chain() {
    let mut raw = full_raw();
    raw.src_chain_id = None;
    let err = validate(raw, &two_chain_config()).err().unwrap();
    assert!(matches!(
        err,
        TransferError::MissingRequiredField { field: RequiredField::SrcChainId }
    ));
}

#[test]
fn test_ft_transfer_no_receiver_chain() {
    let mut raw = full_raw();
    raw.dst_chain_id = None;
    let err = validate(raw, &two_chain_config()).err().unwrap();
    assert!(matches!(
        err,
        TransferError::MissingRequiredField { field: RequiredField::DstChainId }
    ));
}

#[test]
fn required_only_validates_to_all_defaults() {
    let opts = validate(full_raw(), &two_chain_config()).ok().unwrap();
    assert_eq!(opts.packet_src_port_id.as_str(), "port_sender");
    assert_eq!(opts.packet_src_channel_id.as_str(), "channel_sender");
    assert_eq!(opts.amount.value, 42);
    assert_eq!(opts.denom, default_denom());
    assert_eq!(opts.denom, "samoleans".to_string());
    assert!(opts.receiver.is_none());
    assert_eq!(opts.timeout_height_offset, 0);
    assert_eq!(opts.timeout_duration.secs, 0);
    assert_eq!(opts.number_msgs, 1);
}

#[test]
fn zero_number_msgs_rejected() {
    let mut raw = full_raw();
    raw.number_msgs = Some(0);
    let err = validate(raw, &two_chain_config()).err().unwrap();
    assert!(matches!(err, TransferError::ZeroMessageCount));
}

#[test]
fn unconfigured_src_chain_rejected() {
    let mut config = Config::new();
    config.add_chain(ChainConfig::new(chain("chain_receiver"), "key_receiver".to_string()));
    let err = validate(full_raw(), &config).err().unwrap();
    match err {
        TransferError::MissingSourceChainConfig { chain_id } => {
            assert_eq!(chain_id.as_str(), "chain_sender");
        }
        _ => panic!("expected a missing source chain configuration error"),
    }
}

#[test]
fn unconfigured_dst_chain_rejected() {
    let mut config = Config::new();
    config.add_chain(ChainConfig::new(chain("chain_sender"), "key_sender".to_string()));
    let err = validate(full_raw(), &config).err().unwrap();
    match err {
        TransferError::MissingDestinationChainConfig { chain_id } => {
            assert_eq!(chain_id.as_str(), "chain_receiver");
        }
        _ => panic!("expected a missing destination chain configuration error"),
    }
}

#[test]
fn key_name_override_rewrites_only_the_source_chain() {
    let mut raw = full_raw();
    raw.key_name = Some("key_name".to_string());
    let cmd = raw.resolve().ok().unwrap();
    let effective = cmd.override_config(&two_chain_config()).ok().unwrap();
    assert_eq!(effective.chains.len(), 2);
    assert_eq!(effective.chains[0].id.as_str(), "chain_sender");
    assert_eq!(effective.chains[0].key_name, "key_name".to_string());
    assert_eq!(effective.chains[1].id.as_str(), "chain_receiver");
    assert_eq!(effective.chains[1].key_name, "key_receiver".to_string());
}

#[test]
fn absent_key_name_leaves_config_unchanged() {
    let cmd = full_raw().resolve().ok().unwrap();
    let effective = cmd.override_config(&two_chain_config()).ok().unwrap();
    assert_eq!(effective.chains.len(), 2);
    assert_eq!(effective.chains[0].key_name, "key_sender".to_string());
    assert_eq!(effective.chains[1].key_name, "key_receiver".to_string());
}

#[test]
fn key_name_override_needs_the_source_chain() {
    let cmd = full_raw().resolve().ok().unwrap();
    let err = cmd.override_config(&Config::new()).err().unwrap();
    assert!(matches!(err, TransferError::MissingSourceChainConfig { .. }));
}

#[test]
fn find_chain_returns_the_entry() {
    let config = two_chain_config();
    let found = config.find_chain(&chain("chain_receiver")).unwrap();
    assert_eq!(found.key_name, "key_receiver".to_string());
    assert!(config.find_chain(&chain("chain_unknown")).is_none());
}
