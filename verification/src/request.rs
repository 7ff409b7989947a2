use vstd::prelude::*;
use crate::chain::Chain;

verus! {

/// The resolved value of one option of an incoming command, as far as the
/// command reads it.
#[derive(Clone, Debug)]
pub enum OptionValue {
    String(String),
    Boolean(bool),
    /// Any other kind of value (number, user, channel, role, attachment).
    Other,
}

/// What the price command was asked: the chain and pair address to look up,
/// and whether the pair is to be inverted.
#[derive(Clone, Debug)]
pub struct InfoRequest {
    pub chain: String,
    pub address: String,
    pub invert: bool,
}

/// Why the options of the price command could not be read.
#[derive(Clone, Copy, Debug, PartialEq, Eq, Structural)]
pub enum OptionError {
    /// The first option is not text.
    Chain,
    /// The second option is not text.
    Address,
    /// The third option is not a yes/no value.
    Boolean,
}

impl OptionError {
    /// The reply text for this error.
    pub open spec fn spec_message(self) -> Seq<char> {
        match self {
            OptionError::Chain => "parsing chain error"@,
            OptionError::Address => "parsing address error"@,
            OptionError::Boolean => "parsing boolean error"@,
        }
    }

    /// Returns the reply text for this error.
    pub fn message(&self) -> (r: String)
        ensures
            r@ == self.spec_message(),
    {
        match self {
            OptionError::Chain => String::from_str("parsing chain error"),
            OptionError::Address => String::from_str("parsing address error"),
            OptionError::Boolean => String::from_str("parsing boolean error"),
        }
    }
}

/// The error, if any, that reading the three resolved option values gives:
/// the first option must be text, the second text, the third a yes/no value,
/// checked in that order.
pub open spec fn options_error(
    chain: OptionValue,
    address: OptionValue,
    invert: OptionValue,
) -> Option<OptionError> {
    if !(chain is String) {
        Some(OptionError::Chain)
    } else if !(address is String) {
        Some(OptionError::Address)
    } else if !(invert is Boolean) {
        Some(OptionError::Boolean)
    } else {
        None
    }
}

/// Reads the request of the price command from the resolved values of its
/// options, in the order chain, address, invert.
pub fn parse_options(options: &Vec<Option<OptionValue>>) -> (r: Result<InfoRequest, OptionError>)
    requires
        options@.len() >= 3,
        options@[0] is Some,
        options@[1] is Some,
        options@[2] is Some,
    ensures
        ({
            let chain = options@[0].unwrap();
            let address = options@[1].unwrap();
            let invert = options@[2].unwrap();
            match r {
                Ok(req) => {
                    &&& options_error(chain, address, invert) is None
                    &&& chain == OptionValue::String(req.chain)
                    &&& address == OptionValue::String(req.address)
                    &&& invert == OptionValue::Boolean(req.invert)
                },
                Err(e) => options_error(chain, address, invert) == Some(e),
            }
        }),
{
    let chain = match &options[0] {
        Some(OptionValue::String(s)) => s.clone(),
        _ => return Err(OptionError::Chain),
    };
    let address = match &options[1] {
        Some(OptionValue::String(s)) => s.clone(),
        _ => return Err(OptionError::Address),
    };
    let invert = match &options[2] {
        Some(OptionValue::Boolean(b)) => *b,
        _ => return Err(OptionError::Boolean),
    };
    Ok(InfoRequest { chain, address, invert })
}

impl InfoRequest {
    /// The request for a chain picked from the fixed list: the chain is
    /// written by its display name.
    pub fn for_chain(chain: Chain, address: String, invert: bool) -> (r: InfoRequest)
        ensures
            r.chain@ == chain.spec_name(),
            r.address == address,
            r.invert == invert,
    {
        InfoRequest { chain: String::from_str(chain.name()), address, invert }
    }
}

} // verus!
