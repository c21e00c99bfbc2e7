//! Shaping of the two swap-service requests: the quote GET URL and the
//! transaction-build POST body. Both are specified as exact character
//! sequences, so every parameter is pinned to appear verbatim (numbers as
//! canonical decimal text, embedded strings JSON-escaped).

use vstd::prelude::*;
use crate::fees::FeeTiers;
use crate::numio::{dec_digits, u64_to_dec};
use crate::strutil::push_char;

verus! {

/// The hexadecimal digit character for the value `d`.
pub open spec fn hex_char(d: int) -> char {
    if d < 10 {
        crate::numio::digit_char(d)
    } else if d == 10 {
        'a'
    } else if d == 11 {
        'b'
    } else if d == 12 {
        'c'
    } else if d == 13 {
        'd'
    } else if d == 14 {
        'e'
    } else {
        'f'
    }
}

/// How one character appears inside a JSON string literal: quotes and
/// backslashes are escaped, control characters take the `\u00XX` form,
/// everything else stands as itself.
pub open spec fn json_escaped_char(c: char) -> Seq<char> {
    if c == '"' {
        seq!['\\', '"']
    } else if c == '\\' {
        seq!['\\', '\\']
    } else if (c as int) < 32 {
        seq!['\\', 'u', '0', '0', hex_char(c as int / 16), hex_char(c as int % 16)]
    } else {
        seq![c]
    }
}

/// The JSON-escaped form of a whole string.
pub open spec fn json_escaped(s: Seq<char>) -> Seq<char>
    decreases s.len(),
{
    if s.len() == 0 {
        Seq::empty()
    } else {
        json_escaped(s.drop_last()) + json_escaped_char(s.last())
    }
}

/// The hexadecimal digit character for a value below 16, as executable
/// code.
fn hex_to_char(d: u32) -> (r: char)
    requires
        d < 16,
    ensures
        r == hex_char(d as int),
{
    match d {
        0 => '0',
        1 => '1',
        2 => '2',
        3 => '3',
        4 => '4',
        5 => '5',
        6 => '6',
        7 => '7',
        8 => '8',
        9 => '9',
        10 => 'a',
        11 => 'b',
        12 => 'c',
        13 => 'd',
        14 => 'e',
        _ => 'f',
    }
}

/// Appends the JSON-escaped form of `s` to `out`.
fn append_json_escaped(out: &mut String, s: &str)
    ensures
        final(out)@ == old(out)@ + json_escaped(s@),
{
    let n = s.unicode_len();
    let mut i: usize = 0;
    while i < n
        invariant
            n == s@.len(),
            0 <= i <= n,
            out@ == old(out)@ + json_escaped(s@.take(i as int)),
        decreases n - i,
    {
        let c = s.get_char(i);
        proof {
            assert(s@.take(i as int + 1).drop_last() =~= s@.take(i as int));
            assert(s@.take(i as int + 1).last() == s@[i as int]);
        }
        if c == '"' {
            push_char(out, '\\');
            push_char(out, '"');
        } else if c == '\\' {
            push_char(out, '\\');
            push_char(out, '\\');
        } else if (c as u32) < 32 {
            let v = c as u32;
            push_char(out, '\\');
            push_char(out, 'u');
            push_char(out, '0');
            push_char(out, '0');
            push_char(out, hex_to_char(v / 16));
            push_char(out, hex_to_char(v % 16));
        } else {
            push_char(out, c);
        }
        proof {
            assert(out@ =~= old(out)@ + json_escaped(s@.take(i as int + 1)));
        }
        i = i + 1;
    }
    proof {
        assert(s@.take(n as int) =~= s@);
    }
}

/// The text of a JSON boolean.
pub open spec fn bool_text(b: bool) -> Seq<char> {
    if b {
        "true"@
    } else {
        "false"@
    }
}

/// The quote-request URL: the fixed swap-base-in path of the swap service
/// followed by exactly the five query parameters, each value appearing
/// verbatim (numbers as canonical decimal text).
pub open spec fn quote_url_spec(
    input_mint: Seq<char>,
    output_mint: Seq<char>,
    amount: u64,
    slippage_bps: u64,
    tx_version: Seq<char>,
) -> Seq<char> {
    "https://transaction-v1.raydium.io/compute/swap-base-in?inputMint="@ + input_mint
        + "&outputMint="@ + output_mint + "&amount="@ + dec_digits(amount as nat)
        + "&slippageBps="@ + dec_digits(slippage_bps as nat) + "&txVersion="@ + tx_version
}

/// Builds the quote-request URL.
pub fn quote_url(
    input_mint: &str,
    output_mint: &str,
    amount: u64,
    slippage_bps: u64,
    tx_version: &str,
) -> (r: String)
    ensures
        r@ == quote_url_spec(input_mint@, output_mint@, amount, slippage_bps, tx_version@),
{
    let mut s = String::from_str(
        "https://transaction-v1.raydium.io/compute/swap-base-in?inputMint=",
    );
    s.append(input_mint);
    s.append("&outputMint=");
    s.append(output_mint);
    s.append("&amount=");
    let amount_text = u64_to_dec(amount);
    s.append(amount_text.as_str());
    s.append("&slippageBps=");
    let slippage_text = u64_to_dec(slippage_bps);
    s.append(slippage_text.as_str());
    s.append("&txVersion=");
    s.append(tx_version);
    s
}

/// The transaction-build POST body. The compute-unit price is the given
/// fee as a decimal string; the quote text stands verbatim as the
/// `swapResponse` value; version and wallet are JSON string literals; the
/// two wrap flags are JSON booleans.
pub open spec fn swap_tx_body_spec(
    fee: u64,
    swap_response: Seq<char>,
    tx_version: Seq<char>,
    wallet: Seq<char>,
    wrap_sol: bool,
    unwrap_sol: bool,
) -> Seq<char> {
    "{\"computeUnitPriceMicroLamports\":\""@ + dec_digits(fee as nat) + "\",\"swapResponse\":"@
        + swap_response + ",\"txVersion\":\""@ + json_escaped(tx_version) + "\",\"wallet\":\""@
        + json_escaped(wallet) + "\",\"wrapSol\":"@ + bool_text(wrap_sol) + ",\"unwrapSol\":"@
        + bool_text(unwrap_sol) + "}"@
}

/// Builds the transaction-build POST body from the fee schedule and the
/// raw quote text. The `computeUnitPriceMicroLamports` field always
/// carries the high fee tier, as decimal text.
pub fn swap_tx_body(
    tiers: &FeeTiers,
    swap_response: &str,
    tx_version: &str,
    wallet: &str,
    wrap_sol: bool,
    unwrap_sol: bool,
) -> (r: String)
    ensures
        r@ == swap_tx_body_spec(
            tiers.high,
            swap_response@,
            tx_version@,
            wallet@,
            wrap_sol,
            unwrap_sol,
        ),
{
    let fee = tiers.chosen_fee();
    let mut s = String::from_str("{\"computeUnitPriceMicroLamports\":\"");
    let fee_text = u64_to_dec(fee);
    s.append(fee_text.as_str());
    s.append("\",\"swapResponse\":");
    s.append(swap_response);
    s.append(",\"txVersion\":\"");
    append_json_escaped(&mut s, tx_version);
    s.append("\",\"wallet\":\"");
    append_json_escaped(&mut s, wallet);
    s.append("\",\"wrapSol\":");
    if wrap_sol {
        s.append("true");
    } else {
        s.append("false");
    }
    s.append(",\"unwrapSol\":");
    if unwrap_sol {
        s.append("true");
    } else {
        s.append("false");
    }
    s.append("}");
    s
}

}
