//! Validation of the run's five required parameters. The surrounding
//! binary reads the raw strings from the environment; this module turns
//! them into a configuration, rejecting a numeric field that is not a
//! decimal `u64`.

use vstd::prelude::*;
use crate::numio::{dec_value, is_dec_string};

verus! {

/// The validated swap parameters.
pub struct Config {
    /// Path of the wallet key file.
    pub keypair_path: String,
    /// Identifier of the token paid in.
    pub input_mint: String,
    /// Identifier of the token received.
    pub output_mint: String,
    /// Amount to swap, in the smallest unit of the input token.
    pub amount: u64,
    /// Slippage tolerance, in basis points.
    pub slippage_bps: u64,
    /// Transaction format version requested from the swap service.
    pub tx_version: String,
}

/// Which numeric parameter failed to parse.
#[derive(Clone, Copy, PartialEq, Eq, Structural, Debug)]
pub enum ConfigError {
    /// The amount is not a decimal `u64`.
    BadAmount,
    /// The slippage is not a decimal `u64`.
    BadSlippage,
}

/// Builds the configuration from the raw parameter strings. The string
/// fields pass through unchanged; each numeric field parses exactly when
/// its text is a non-empty digit string whose value fits in a `u64`, the
/// amount being checked first.
pub fn build_config(
    keypair_path: String,
    input_mint: String,
    output_mint: String,
    amount_text: &str,
    slippage_text: &str,
    tx_version: String,
) -> (r: Result<Config, ConfigError>)
    ensures
        match r {
            Ok(c) => is_dec_string(amount_text@) && c.amount as int == dec_value(amount_text@)
                && is_dec_string(slippage_text@) && c.slippage_bps as int == dec_value(
                slippage_text@,
            ) && c.keypair_path == keypair_path && c.input_mint == input_mint && c.output_mint
                == output_mint && c.tx_version == tx_version,
            Err(ConfigError::BadAmount) => !(is_dec_string(amount_text@) && dec_value(amount_text@)
                <= u64::MAX),
            Err(ConfigError::BadSlippage) => is_dec_string(amount_text@) && dec_value(amount_text@)
                <= u64::MAX && !(is_dec_string(slippage_text@) && dec_value(slippage_text@)
                <= u64::MAX),
        },
{
    let amount = match crate::numio::parse_u64(amount_text) {
        Some(v) => v,
        None => {
            return Err(ConfigError::BadAmount);
        },
    };
    let slippage_bps = match crate::numio::parse_u64(slippage_text) {
        Some(v) => v,
        None => {
            return Err(ConfigError::BadSlippage);
        },
    };
    Ok(
        Config {
            keypair_path,
            input_mint,
            output_mint,
            amount,
            slippage_bps,
            tx_version,
        },
    )
}

}
