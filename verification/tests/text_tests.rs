use raydium_swap::config::{build_config, ConfigError};
use raydium_swap::fees::FeeTiers;
use raydium_swap::numio::{parse_u64, u64_to_dec};
use raydium_swap::request::{quote_url, swap_tx_body};

#[test]
fn formats_zero() {
    assert_eq!(u64_to_dec(0), "0");
}

#[test]
fn formats_max() {
    assert_eq!(u64_to_dec(u64::MAX), "18446744073709551615");
}

#[test]
fn formats_plain_number() {
    assert_eq!(u64_to_dec(1234567890), "1234567890");
}

#[test]
fn parses_zero() {
    assert_eq!(parse_u64("0"), Some(0));
}

#[test]
fn parses_max() {
    assert_eq!(parse_u64("18446744073709551615"), Some(u64::MAX));
}

#[test]
fn rejects_just_over_max() {
    assert_eq!(parse_u64("18446744073709551616"), None);
}

#[test]
fn rejects_empty_and_junk() {
    assert_eq!(parse_u64(""), None);
    assert_eq!(parse_u64("12a"), None);
    assert_eq!(parse_u64("+1"), None);
    assert_eq!(parse_u64("-1"), None);
    assert_eq!(parse_u64(" 1"), None);
}

#[test]
fn accepts_leading_zeros() {
    assert_eq!(parse_u64("007"), Some(7));
}

#[test]
fn format_then_parse_round_trip() {
    for n in [0u64, 1, 9, 10, 255, 1000000, u64::MAX] {
        assert_eq!(parse_u64(&u64_to_dec(n)), Some(n));
    }
}

#[test]
fn quote_url_has_exactly_five_parameters() {
    let url = quote_url(
        "So11111111111111111111111111111111111111112",
        "EPjFWdd5AufqSSqeM2qN1xzybapC8G4wEGGkZwyTDt1v",
        1000000,
        50,
        "V0",
    );
    assert_eq!(
        url,
        "https://transaction-v1.raydium.io/compute/swap-base-in\
        ?inputMint=So11111111111111111111111111111111111111112\
        &outputMint=EPjFWdd5AufqSSqeM2qN1xzybapC8G4wEGGkZwyTDt1v\
        &amount=1000000&slippageBps=50&txVersion=V0"
    );
}

#[test]
fn quote_url_passes_values_through_unmodified() {
    let url = quote_url("inA", "outB", 7, 0, "LEGACY");
    assert!(url.contains("inputMint=inA&"));
    assert!(url.contains("outputMint=outB&"));
    assert!(url.contains("amount=7&"));
    assert!(url.contains("slippageBps=0&"));
    assert!(url.ends_with("txVersion=LEGACY"));
}

#[test]
fn body_carries_high_tier_as_decimal_string() {
    let tiers = FeeTiers { very_high: 999, high: 123, medium: 5 };
    let body = swap_tx_body(&tiers, "{\"x\":1}", "V0", "WALLET", true, false);
    assert_eq!(
        body,
        "{\"computeUnitPriceMicroLamports\":\"123\",\"swapResponse\":{\"x\":1},\
        \"txVersion\":\"V0\",\"wallet\":\"WALLET\",\"wrapSol\":true,\"unwrapSol\":false}"
    );
}

#[test]
fn body_is_valid_json_with_expected_fields() {
    let tiers = FeeTiers { very_high: 1, high: 4567, medium: 2 };
    let body = swap_tx_body(&tiers, "{\"routePlan\":[1,2]}", "V0", "SomeWallet", true, false);
    let v: serde_json::Value = serde_json::from_str(&body).unwrap();
    assert_eq!(
        v.get("computeUnitPriceMicroLamports").unwrap().as_str().unwrap(),
        "4567"
    );
    assert_eq!(v.get("txVersion").unwrap().as_str().unwrap(), "V0");
    assert_eq!(v.get("wallet").unwrap().as_str().unwrap(), "SomeWallet");
    assert_eq!(v.get("wrapSol").unwrap().as_bool().unwrap(), true);
    assert_eq!(v.get("unwrapSol").unwrap().as_bool().unwrap(), false);
    let route = v.get("swapResponse").unwrap().get("routePlan").unwrap();
    assert_eq!(route.as_array().unwrap().len(), 2);
}

#[test]
fn body_escapes_embedded_strings() {
    let tiers = FeeTiers { very_high: 1, high: 2, medium: 3 };
    let tricky = "a\"b\\c\nd";
    let body = swap_tx_body(&tiers, "null", tricky, tricky, false, true);
    let v: serde_json::Value = serde_json::from_str(&body).unwrap();
    assert_eq!(v.get("txVersion").unwrap().as_str().unwrap(), tricky);
    assert_eq!(v.get("wallet").unwrap().as_str().unwrap(), tricky);
    assert_eq!(v.get("wrapSol").unwrap().as_bool().unwrap(), false);
    assert_eq!(v.get("unwrapSol").unwrap().as_bool().unwrap(), true);
}

#[test]
fn config_accepts_valid_parameters() {
    let c = build_config(
        String::from("/tmp/key.json"),
        String::from("mintA"),
        String::from("mintB"),
        "1000000",
        "50",
        String::from("V0"),
    )
    .unwrap();
    assert_eq!(c.keypair_path, "/tmp/key.json");
    assert_eq!(c.input_mint, "mintA");
    assert_eq!(c.output_mint, "mintB");
    assert_eq!(c.amount, 1000000);
    assert_eq!(c.slippage_bps, 50);
    assert_eq!(c.tx_version, "V0");
}

#[test]
fn config_rejects_bad_amount() {
    let r = build_config(
        String::new(),
        String::new(),
        String::new(),
        "not-a-number",
        "50",
        String::new(),
    );
    assert_eq!(r.err().unwrap(), ConfigError::BadAmount);
}

#[test]
fn config_rejects_bad_slippage() {
    let r = build_config(
        String::new(),
        String::new(),
        String::new(),
        "1",
        "99999999999999999999999",
        String::new(),
    );
    assert_eq!(r.err().unwrap(), ConfigError::BadSlippage);
}

#[test]
fn chosen_fee_is_high_tier() {
    let tiers = FeeTiers { very_high: 30, high: 20, medium: 10 };
    assert_eq!(tiers.chosen_fee(), 20);
}
