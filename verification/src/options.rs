//! The option validator: raw request fields plus configuration become a
//! validated, immutable transfer request.
//!
//! Validation is a pure function: it issues no query and mutates nothing.
//! Every required field must be present; the source and destination chains
//! must be configured; a supplied repetition count must be at least one.
//! Defaults: the denomination falls back to a fixed token name, the timeout
//! height offset and timeout seconds to zero, and the repetition count to
//! one; everything supplied passes through unchanged.

use crate::config::{chain_config_matches, is_first_match, ChainConfig, Config};
use crate::error::{RequiredField, TransferError};
use crate::ident::{ChainId, ChannelId, PortId};
use vstd::prelude::*;

verus! {

/// Non-negative integer amount of coins to send.
#[derive(Clone, Copy, PartialEq, Eq, Structural, Debug)]
pub struct Amount {
    pub value: u128,
}

impl Amount {
    pub fn new(value: u128) -> (a: Self)
        ensures
            a.value == value,
    {
        Amount { value }
    }
}

/// A span of time, as the timeout converted from whole seconds.
#[derive(Clone, Copy, PartialEq, Eq, Structural, Debug)]
pub struct Duration {
    pub secs: u64,
}

impl Duration {
    pub fn from_secs(secs: u64) -> (d: Self)
        ensures
            d.secs == secs,
    {
        Duration { secs }
    }
}

/// The token denomination used when the request names none.
pub open spec fn default_denom_spec() -> Seq<char> {
    "samoleans"@
}

/// The token denomination used when the request names none.
pub fn default_denom() -> (s: String)
    ensures
        s@ == default_denom_spec(),
{
    "samoleans".to_owned()
}

/// Whether two optional strings are both absent or hold the same text.
pub open spec fn opt_string_views_match(a: Option<String>, b: Option<String>) -> bool {
    match (a, b) {
        (Some(x), Some(y)) => x@ == y@,
        (None, None) => true,
        _ => false,
    }
}

/// The raw request fields, exactly as the invoking layer collected them:
/// nothing is yet required, defaulted or checked.
pub struct RawTransferRequest {
    pub dst_chain_id: Option<ChainId>,
    pub src_chain_id: Option<ChainId>,
    pub src_port_id: Option<PortId>,
    pub src_channel_id: Option<ChannelId>,
    pub amount: Option<Amount>,
    pub timeout_height_offset: Option<u64>,
    pub timeout_seconds: Option<u64>,
    pub receiver: Option<String>,
    pub denom: Option<String>,
    pub number_msgs: Option<usize>,
    pub key_name: Option<String>,
}

impl RawTransferRequest {
    /// Whether every required field is present.
    pub open spec fn required_present(&self) -> bool {
        &&& self.dst_chain_id is Some
        &&& self.src_chain_id is Some
        &&& self.src_port_id is Some
        &&& self.src_channel_id is Some
        &&& self.amount is Some
    }

    /// Require the five required fields and fill the documented defaults,
    /// yielding the command the later stages work on. Fails on the first
    /// absent required field, in declaration order, before any
    /// configuration lookup or query.
    pub fn resolve(self) -> (r: Result<TxIcs20MsgTransferCmd, TransferError>)
        ensures
            r is Ok <==> self.required_present(),
            (self.dst_chain_id is None ==> r matches Err(
                TransferError::MissingRequiredField { field: RequiredField::DstChainId },
            )),
            (self.dst_chain_id is Some && self.src_chain_id is None ==> r matches Err(
                TransferError::MissingRequiredField { field: RequiredField::SrcChainId },
            )),
            (self.dst_chain_id is Some && self.src_chain_id is Some && self.src_port_id is None
                ==> r matches Err(
                TransferError::MissingRequiredField { field: RequiredField::SrcPortId },
            )),
            (self.dst_chain_id is Some && self.src_chain_id is Some && self.src_port_id is Some
                && self.src_channel_id is None ==> r matches Err(
                TransferError::MissingRequiredField { field: RequiredField::SrcChannelId },
            )),
            (self.dst_chain_id is Some && self.src_chain_id is Some && self.src_port_id is Some
                && self.src_channel_id is Some && self.amount is None ==> r matches Err(
                TransferError::MissingRequiredField { field: RequiredField::Amount },
            )),
            (r matches Ok(cmd) ==> {
                &&& cmd.dst_chain_id@ == self.dst_chain_id->0@
                &&& cmd.src_chain_id@ == self.src_chain_id->0@
                &&& cmd.src_port_id@ == self.src_port_id->0@
                &&& cmd.src_channel_id@ == self.src_channel_id->0@
                &&& cmd.amount == self.amount->0
                &&& cmd.timeout_height_offset == (match self.timeout_height_offset {
                    Some(v) => v,
                    None => 0u64,
                })
                &&& cmd.timeout_seconds == (match self.timeout_seconds {
                    Some(v) => v,
                    None => 0u64,
                })
                &&& opt_string_views_match(cmd.receiver, self.receiver)
                &&& cmd.denom@ == (match self.denom {
                    Some(d) => d@,
                    None => default_denom_spec(),
                })
                &&& cmd.number_msgs == self.number_msgs
                &&& opt_string_views_match(cmd.key_name, self.key_name)
            }),
    {
        let dst_chain_id = match self.dst_chain_id {
            Some(id) => id,
            None => {
                return Err(TransferError::MissingRequiredField { field: RequiredField::DstChainId });
            },
        };
        let src_chain_id = match self.src_chain_id {
            Some(id) => id,
            None => {
                return Err(TransferError::MissingRequiredField { field: RequiredField::SrcChainId });
            },
        };
        let src_port_id = match self.src_port_id {
            Some(id) => id,
            None => {
                return Err(TransferError::MissingRequiredField { field: RequiredField::SrcPortId });
            },
        };
        let src_channel_id = match self.src_channel_id {
            Some(id) => id,
            None => {
                return Err(
                    TransferError::MissingRequiredField { field: RequiredField::SrcChannelId },
                );
            },
        };
        let amount = match self.amount {
            Some(a) => a,
            None => {
                return Err(TransferError::MissingRequiredField { field: RequiredField::Amount });
            },
        };
        let timeout_height_offset = match self.timeout_height_offset {
            Some(v) => v,
            None => 0u64,
        };
        let timeout_seconds = match self.timeout_seconds {
            Some(v) => v,
            None => 0u64,
        };
        let denom = match self.denom {
            Some(d) => d,
            None => default_denom(),
        };
        Ok(
            TxIcs20MsgTransferCmd {
                dst_chain_id,
                src_chain_id,
                src_port_id,
                src_channel_id,
                amount,
                timeout_height_offset,
                timeout_seconds,
                receiver: self.receiver,
                denom,
                number_msgs: self.number_msgs,
                key_name: self.key_name,
            },
        )
    }
}

/// The whole option validator: raw request fields plus configuration
/// become validated transfer options, or the first fatal error.
///
/// Pure, and issued before any query: a missing required field, a chain
/// absent from the configuration, or a zero repetition count is reported
/// without any network activity. Defaults are filled — denomination,
/// timeouts, repetition count — and everything supplied passes through
/// unchanged, with the timeout seconds converted to a duration.
pub fn validate(raw: RawTransferRequest, config: &Config) -> (r: Result<
    TransferOptions,
    TransferError,
>)
    ensures
        r is Ok <==> raw.required_present() && config.has_chain(raw.src_chain_id->0@)
            && config.has_chain(raw.dst_chain_id->0@) && (match raw.number_msgs {
            Some(n) => n > 0,
            None => true,
        }),
        (!raw.required_present() ==> r matches Err(
            TransferError::MissingRequiredField { .. },
        )),
        (raw.required_present() && !config.has_chain(raw.src_chain_id->0@) ==> (r matches Err(
            TransferError::MissingSourceChainConfig { chain_id },
        )
            && chain_id@ == raw.src_chain_id->0@)),
        (raw.required_present() && config.has_chain(raw.src_chain_id->0@) && !config.has_chain(
            raw.dst_chain_id->0@,
        ) ==> (r matches Err(TransferError::MissingDestinationChainConfig { chain_id })
            && chain_id@ == raw.dst_chain_id->0@)),
        (raw.required_present() && config.has_chain(raw.src_chain_id->0@) && config.has_chain(
            raw.dst_chain_id->0@,
        ) && raw.number_msgs == Some(0usize) ==> r matches Err(
            TransferError::ZeroMessageCount,
        )),
        (r matches Ok(opts) ==> {
            &&& opts.packet_src_port_id@ == raw.src_port_id->0@
            &&& opts.packet_src_channel_id@ == raw.src_channel_id->0@
            &&& opts.amount == raw.amount->0
            &&& opts.denom@ == (match raw.denom {
                Some(d) => d@,
                None => default_denom_spec(),
            })
            &&& opt_string_views_match(opts.receiver, raw.receiver)
            &&& opts.timeout_height_offset == (match raw.timeout_height_offset {
                Some(v) => v,
                None => 0u64,
            })
            &&& opts.timeout_duration.secs == (match raw.timeout_seconds {
                Some(v) => v,
                None => 0u64,
            })
            &&& opts.number_msgs == (match raw.number_msgs {
                Some(n) => n,
                None => 1usize,
            })
        }),
{
    let cmd = match raw.resolve() {
        Ok(cmd) => cmd,
        Err(e) => {
            return Err(e);
        },
    };
    cmd.validate_options(config)
}

/// The transfer command with every required field present and every
/// default filled: what the original raw request means.
pub struct TxIcs20MsgTransferCmd {
    pub dst_chain_id: ChainId,
    pub src_chain_id: ChainId,
    pub src_port_id: PortId,
    pub src_channel_id: ChannelId,
    pub amount: Amount,
    pub timeout_height_offset: u64,
    pub timeout_seconds: u64,
    pub receiver: Option<String>,
    pub denom: String,
    pub number_msgs: Option<usize>,
    pub key_name: Option<String>,
}

/// The validated, immutable transfer request handed to the dispatcher;
/// never mutated after construction.
pub struct TransferOptions {
    pub packet_src_port_id: PortId,
    pub packet_src_channel_id: ChannelId,
    pub amount: Amount,
    pub denom: String,
    pub receiver: Option<String>,
    pub timeout_height_offset: u64,
    pub timeout_duration: Duration,
    pub number_msgs: usize,
}

impl TxIcs20MsgTransferCmd {
    /// The repetition count the command asks for: the supplied count, or
    /// one when none was supplied.
    pub open spec fn requested_number_msgs(&self) -> usize {
        match self.number_msgs {
            Some(n) => n,
            None => 1usize,
        }
    }

    /// Turn the command plus configuration into validated transfer
    /// options. Pure: no query is issued and nothing is mutated. Both
    /// chains must be configured — the source is checked first — and a
    /// supplied repetition count must be greater than zero; every other
    /// field passes through unchanged, with the timeout seconds converted
    /// to a duration.
    pub fn validate_options(&self, config: &Config) -> (r: Result<TransferOptions, TransferError>)
        ensures
            r is Ok <==> config.has_chain(self.src_chain_id@) && config.has_chain(
                self.dst_chain_id@,
            ) && self.requested_number_msgs() > 0,
            (!config.has_chain(self.src_chain_id@) ==> (r matches Err(
                TransferError::MissingSourceChainConfig { chain_id },
            )
                && chain_id@ == self.src_chain_id@)),
            (config.has_chain(self.src_chain_id@) && !config.has_chain(self.dst_chain_id@) ==> (
            r matches Err(TransferError::MissingDestinationChainConfig { chain_id })
                && chain_id@ == self.dst_chain_id@)),
            (config.has_chain(self.src_chain_id@) && config.has_chain(self.dst_chain_id@)
                && self.requested_number_msgs() == 0 ==> r matches Err(
                TransferError::ZeroMessageCount,
            )),
            (r matches Ok(opts) ==> {
                &&& opts.packet_src_port_id@ == self.src_port_id@
                &&& opts.packet_src_channel_id@ == self.src_channel_id@
                &&& opts.amount == self.amount
                &&& opts.denom@ == self.denom@
                &&& opt_string_views_match(opts.receiver, self.receiver)
                &&& opts.timeout_height_offset == self.timeout_height_offset
                &&& opts.timeout_duration.secs == self.timeout_seconds
                &&& opts.number_msgs == self.requested_number_msgs()
            }),
    {
        if config.find_chain(&self.src_chain_id).is_none() {
            return Err(
                TransferError::MissingSourceChainConfig { chain_id: self.src_chain_id.clone() },
            );
        }
        if config.find_chain(&self.dst_chain_id).is_none() {
            return Err(
                TransferError::MissingDestinationChainConfig { chain_id: self.dst_chain_id.clone() },
            );
        }
        let number_msgs: usize = match self.number_msgs {
            Some(n) => n,
            None => 1,
        };
        if number_msgs == 0 {
            return Err(TransferError::ZeroMessageCount);
        }
        let receiver = match &self.receiver {
            Some(s) => Some(s.clone()),
            None => None,
        };
        Ok(
            TransferOptions {
                packet_src_port_id: self.src_port_id.clone(),
                packet_src_channel_id: self.src_channel_id.clone(),
                amount: self.amount,
                denom: self.denom.clone(),
                receiver,
                timeout_height_offset: self.timeout_height_offset,
                timeout_duration: Duration::from_secs(self.timeout_seconds),
                number_msgs,
            },
        )
    }

    /// The effective configuration for this invocation: the base
    /// configuration with the signing-key override, if any, applied to the
    /// source chain's entry. The base is never mutated in place; the
    /// source chain must be configured.
    pub fn override_config(&self, config: &Config) -> (r: Result<Config, TransferError>)
        ensures
            r is Ok <==> config.has_chain(self.src_chain_id@),
            (!config.has_chain(self.src_chain_id@) ==> (r matches Err(
                TransferError::MissingSourceChainConfig { chain_id },
            )
                && chain_id@ == self.src_chain_id@)),
            (r matches Ok(effective) ==> exists|j: int|
                {
                    &&& #[trigger] is_first_match(config.chains@, self.src_chain_id@, j)
                    &&& effective.chains@.len() == config.chains@.len()
                    &&& forall|k: int|
                        0 <= k < config.chains@.len() && k != j ==> chain_config_matches(
                            #[trigger] effective.chains@[k],
                            config.chains@[k],
                        )
                    &&& effective.chains@[j].id@ == config.chains@[j].id@
                    &&& effective.chains@[j].key_name@ == (match self.key_name {
                        Some(key) => key@,
                        None => config.chains@[j].key_name@,
                    })
                }),
    {
        let j = match config.find_chain_index(&self.src_chain_id) {
            Some(j) => j,
            None => {
                return Err(
                    TransferError::MissingSourceChainConfig { chain_id: self.src_chain_id.clone() },
                );
            },
        };
        let n = config.chains.len();
        let mut chains: Vec<ChainConfig> = Vec::new();
        let mut i: usize = 0;
        while i < n
            invariant
                i <= n,
                n == config.chains@.len(),
                j < n,
                is_first_match(config.chains@, self.src_chain_id@, j as int),
                chains@.len() == i,
                forall|k: int|
                    0 <= k < i && k != j ==> chain_config_matches(
                        #[trigger] chains@[k],
                        config.chains@[k],
                    ),
                j < i ==> chains@[j as int].id@ == config.chains@[j as int].id@,
                j < i ==> chains@[j as int].key_name@ == (match self.key_name {
                    Some(key) => key@,
                    None => config.chains@[j as int].key_name@,
                }),
            decreases n - i,
        {
            if i == j {
                let key_name = match &self.key_name {
                    Some(key) => key.clone(),
                    None => config.chains[i].key_name.clone(),
                };
                chains.push(
                    ChainConfig { id: config.chains[i].id.clone(), key_name },
                );
            } else {
                chains.push(config.chains[i].clone());
            }
            i = i + 1;
        }
        Ok(Config { chains })
    }
}

} // verus!
