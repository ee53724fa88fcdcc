//! Observability filter for an HTTP proxy pipeline: per-exchange header and
//! body capture, configuration parsing and the startup probe's address choice.

pub mod config;
pub mod interceptor;
pub mod probe;
pub mod root;
pub mod text;

pub use config::{
    conf_from_value, conf_to_value, parse_config, ConfigError, HeimdallRootConf, Json,
};
pub use interceptor::{
    append_chunk, fill_buffer, needs_read, Direction, HeadersSeen, Heimdall,
};
pub use probe::{probe_url, PROBE_HOST, PROBE_SCHEME};
pub use root::HeimdallRoot;
pub use text::{decode_utf8_text, push_decimal};
