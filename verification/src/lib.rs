//! Adapter layer that plugs dataflow nodes whose logic lives in a foreign
//! native module into a host dataflow runtime.
//!
//! The host runtime drives nodes through an in-process component contract
//! (initialize / input rule / run / output rule / clean) over runtime-native
//! types; the foreign module exposes only a narrow boundary of primitive,
//! byte-oriented types. This crate does the bidirectional marshaling between
//! the two worlds and proves the marshaling rules correct.

mod assoc;
mod boundary;
mod configuration;
mod context;
mod data;
mod errors;
mod foreign;
mod input;
mod operator;
mod outputs;
mod sink;
mod source;
mod strmap;
mod token;

pub use assoc::assoc_map;
pub use assoc::keys_unique;
pub use assoc::lemma_assoc_map_domain;
pub use assoc::lemma_assoc_map_order_irrelevant;
pub use assoc::lemma_assoc_map_push;
pub use assoc::lemma_assoc_map_update;
pub use assoc::lemma_assoc_map_value;
pub use boundary::ZFCxxConfiguration;
pub use boundary::ZFCxxConfigurationMap;
pub use boundary::ZFCxxContext;
pub use boundary::ZFCxxData;
pub use boundary::ZFCxxInput;
pub use boundary::ZFCxxOutput;
pub use boundary::ZFCxxToken;
pub use boundary::ZFCxxTokenAction;
pub use boundary::ZFCxxTokenStatus;
pub use boundary::cfg_pairs;
pub use configuration::ConfigMap;
pub use configuration::config_to_boundary;
pub use configuration::lemma_config_round_trip;
pub use context::ZFContext;
pub use data::ZFDataMessage;
pub use data::ZFDataTrait;
pub use data::ZFSerDeData;
pub use data::lemma_wrap_serialize_identity;
pub use errors::ForeignError;
pub use errors::ZFError;
pub use errors::map_foreign_err;
pub use foreign::ForeignOperator;
pub use foreign::ForeignSink;
pub use foreign::ForeignSource;
pub use foreign::ZFCxxStateWrapper;
pub use input::boundary_input_matches;
pub use input::inputs_serializable;
pub use input::inputs_to_boundary;
pub use operator::ZFCxxOperator;
pub use outputs::ZFComponentOutput;
pub use outputs::collect_outputs;
pub use outputs::collect_run_result;
pub use outputs::default_output_rule;
pub use outputs::outputs_map;
pub use sink::ZFCxxSink;
pub use source::MySource;
pub use strmap::StrMap;
pub use token::Token;
pub use token::TokenAction;
pub use token::action_to_boundary;
pub use token::boundary_token_matches;
pub use token::token_serializable;
pub use token::tokens_serializable;
pub use token::tokens_to_boundary;
