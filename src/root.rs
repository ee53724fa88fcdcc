use vstd::prelude::*;
use vstd::string::*;
use vstd::utf8::{decode_utf8, valid_utf8};

use crate::config::{conf_of_payload, parse_config, ConfModel, ConfigError, HeimdallRootConf};
use crate::interceptor::{Direction, Heimdall};
use crate::text::decode_utf8_text;

verus! {

/// The process-wide controller: owns the configuration and creates one
/// `Heimdall` per exchange.
pub struct HeimdallRoot {
    conf: HeimdallRootConf,
}

/// What a configuration call leaves: the configuration before it when
/// `payload` is refused or absent, else the one it describes.
pub open spec fn configured(before: ConfModel, payload: Option<Seq<u8>>) -> ConfModel {
    match payload {
        Some(b) => if valid_utf8(b) && conf_of_payload(b) is Ok {
            conf_of_payload(b)->Ok_0
        } else {
            before
        },
        None => before,
    }
}

/// The outcome of a configuration call: the line logging the payload's text,
/// none without a payload, or why the payload was refused.
pub open spec fn configure_result(payload: Option<Seq<u8>>) -> Result<
    Option<Seq<char>>,
    ConfigError,
> {
    match payload {
        Some(b) => if !valid_utf8(b) {
            Err(ConfigError::NotText)
        } else {
            match conf_of_payload(b) {
                Ok(_) => Ok(Some("#on_configure "@ + decode_utf8(b))),
                Err(e) => Err(e),
            }
        },
        None => Ok(None),
    }
}

/// A configuration call's outcome as plain values.
pub open spec fn outcome_view(r: Result<Option<String>, ConfigError>) -> Result<
    Option<Seq<char>>,
    ConfigError,
> {
    match r {
        Ok(Some(l)) => Ok(Some(l@)),
        Ok(None) => Ok(None),
        Err(e) => Err(e),
    }
}

impl Default for HeimdallRoot {
    fn default() -> (r: Self)
        ensures
            r.conf_view() == None::<Seq<Seq<char>>>,
    {
        HeimdallRoot { conf: HeimdallRootConf::default() }
    }
}

impl HeimdallRoot {
    /// The stored configuration.
    pub closed spec fn conf_view(&self) -> ConfModel {
        self.conf@
    }

    pub fn conf(&self) -> (r: &HeimdallRootConf)
        ensures
            r@ == self.conf_view(),
    {
        &self.conf
    }

    /// Takes a configuration payload, if the host has one. A payload that is
    /// not text, not JSON or not a configuration is refused and leaves the
    /// stored configuration as it was; an accepted one replaces it whole.
    pub fn on_configure(&mut self, payload: Option<&[u8]>) -> (r: Result<
        Option<String>,
        ConfigError,
    >)
        ensures
            final(self).conf_view() == configured(
                old(self).conf_view(),
                match payload {
                    Some(b) => Some(b@),
                    None => None,
                },
            ),
            outcome_view(r) == configure_result(
                match payload {
                    Some(b) => Some(b@),
                    None => None,
                },
            ),
    {
        let bytes = match payload {
            Some(b) => b,
            None => {
                return Ok(None);
            },
        };
        let text = match decode_utf8_text(bytes) {
            Some(t) => t,
            None => {
                return Err(ConfigError::NotText);
            },
        };
        match parse_config(bytes) {
            Ok(conf) => {
                self.conf = conf;
                let mut line = String::from_str("#on_configure ");
                line.append(text.as_str());
                Ok(Some(line))
            },
            Err(e) => Err(e),
        }
    }

    /// A fresh exchange bound to `context_id`, with no body buffered.
    pub fn create_http_context(&self, context_id: u32) -> (r: Heimdall)
        ensures
            r.id() == context_id,
            r.buffer(Direction::Request) is None,
            r.buffer(Direction::Response) is None,
    {
        Heimdall::new(context_id)
    }
}

} // verus!
