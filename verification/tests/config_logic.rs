use zebrad_config::env::{env_overrides, refusal_error};
use zebrad_config::local_genesis::{
    activation_height_key, seed_hex_error, seed_length_error, LocalGenesisConfig,
    NetworkUpgrade,
};
use zebrad_config::sensitive::{is_sensitive_leaf_key, DENY_CONFIG_KEY_SUFFIX_LIST};
use zebrad_config::text::push_decimal;

fn pairs(v: &[(&str, &str)]) -> Vec<(String, String)> {
    v.iter().map(|(k, x)| (k.to_string(), x.to_string())).collect()
}

fn config_with_seed(seed: &str) -> LocalGenesisConfig {
    LocalGenesisConfig {
        network_name: "local_test".to_string(),
        miners: vec!["alice".to_string(), "bob".to_string()],
        seed: seed.to_string(),
        tip_time: 1_700_000_000,
        maturity_padding_blocks: 100,
        disable_pow: true,
    }
}

const SEED_HEX: &str = "000102030405060708090a0b0c0d0e0f101112131415161718191a1b1c1d1e1f";

fn seed_values() -> [u8; 32] {
    let mut out = [0u8; 32];
    for (i, b) in out.iter_mut().enumerate() {
        *b = i as u8;
    }
    out
}

#[test]
fn deny_list_has_the_documented_suffixes() {
    assert_eq!(
        DENY_CONFIG_KEY_SUFFIX_LIST,
        ["password", "secret", "token", "cookie", "private_key"]
    );
}

#[test]
fn sensitive_suffixes_are_blocked() {
    assert!(is_sensitive_leaf_key("password"));
    assert!(is_sensitive_leaf_key("rpc_password"));
    assert!(is_sensitive_leaf_key("api_secret"));
    assert!(is_sensitive_leaf_key("token"));
    assert!(is_sensitive_leaf_key("cookie"));
    assert!(is_sensitive_leaf_key("miner_private_key"));
}

#[test]
fn sensitive_check_is_case_insensitive() {
    assert!(is_sensitive_leaf_key("PASSWORD"));
    assert!(is_sensitive_leaf_key("Rpc_PassWord"));
    assert!(is_sensitive_leaf_key("MINER_PRIVATE_KEY"));
    assert_eq!(is_sensitive_leaf_key("X_TOKEN"), is_sensitive_leaf_key("x_token"));
}

#[test]
fn paths_and_other_keys_are_not_sensitive() {
    assert!(!is_sensitive_leaf_key("cookie_dir"));
    assert!(!is_sensitive_leaf_key("COOKIE_DIR"));
    assert!(!is_sensitive_leaf_key("miner_private_key_path"));
    assert!(!is_sensitive_leaf_key("listen_addr"));
    assert!(!is_sensitive_leaf_key("network"));
    assert!(!is_sensitive_leaf_key(""));
    assert!(!is_sensitive_leaf_key("passwor"));
}

#[test]
fn non_ascii_letters_are_not_lowercased() {
    // Only ASCII letters fold; a dotless capital I does not become 'i'.
    assert!(!is_sensitive_leaf_key("SECRET\u{130}"));
    assert!(is_sensitive_leaf_key("\u{e9}t\u{e9}_secret"));
}

#[test]
fn env_overrides_strip_the_prefix_and_skip_other_variables() {
    let vars = pairs(&[
        ("ZEBRA_NETWORK__NETWORK", "Testnet"),
        ("PATH", "/usr/bin"),
        ("ZEBRA_RPC__LISTEN_ADDR", "127.0.0.1:8232"),
        ("ZEBRAX_STATE__CACHE_DIR", "/tmp"),
        ("ZEBRA_RPC__COOKIE_DIR", "/var/cookies"),
    ]);
    let res = env_overrides(&vars, "ZEBRA").unwrap();
    assert_eq!(
        res,
        pairs(&[
            ("NETWORK__NETWORK", "Testnet"),
            ("RPC__LISTEN_ADDR", "127.0.0.1:8232"),
            ("RPC__COOKIE_DIR", "/var/cookies"),
        ])
    );
}

#[test]
fn env_overrides_use_the_given_prefix() {
    let vars = pairs(&[
        ("ZEBRA_STATE__CACHE_DIR", "/a"),
        ("ZEBRA_TARGET_STATE__CACHE_DIR", "/b"),
    ]);
    let res = env_overrides(&vars, "ZEBRA_TARGET").unwrap();
    assert_eq!(res, pairs(&[("STATE__CACHE_DIR", "/b")]));
}

#[test]
fn env_overrides_leave_the_target_config_variables_alone() {
    let vars = pairs(&[
        ("ZEBRA_TARGET_STATE__CACHE_DIR", "/b"),
        ("ZEBRA_STATE__CACHE_DIR", "/a"),
    ]);
    assert_eq!(
        env_overrides(&vars, "ZEBRA").unwrap(),
        pairs(&[("STATE__CACHE_DIR", "/a")])
    );
    // The target loader takes its own variables.
    assert_eq!(
        env_overrides(&vars, "ZEBRA_TARGET").unwrap(),
        pairs(&[("STATE__CACHE_DIR", "/b")])
    );
    // Only the exact `_TARGET_` prefix is set apart.
    assert_eq!(
        env_overrides(&pairs(&[("ZEBRA_TARGETS__X", "1")]), "ZEBRA").unwrap(),
        pairs(&[("TARGETS__X", "1")])
    );
}

#[test]
fn env_overrides_refuse_a_sensitive_target_config_variable() {
    let vars = pairs(&[
        ("ZEBRA_STATE__CACHE_DIR", "/a"),
        ("ZEBRA_TARGET_RPC__PASSWORD", "hunter2"),
    ]);
    let err = env_overrides(&vars, "ZEBRA").unwrap_err();
    assert_eq!(
        err,
        "Environment variable 'ZEBRA_TARGET_RPC__PASSWORD' contains sensitive key 'PASSWORD' which cannot be overridden via environment variables. Use the configuration file instead to prevent process table exposure."
    );
    assert_eq!(env_overrides(&vars, "ZEBRA_TARGET").unwrap_err(), err);
}

#[test]
fn env_overrides_ignore_unprefixed_variables() {
    let a = pairs(&[("GITHUB_TOKEN", "t"), ("ZEBRA_RPC__LISTEN_ADDR", "x"), ("DB_PASSWORD", "p")]);
    let b = pairs(&[("ZEBRA_RPC__LISTEN_ADDR", "x")]);
    assert_eq!(env_overrides(&a, "ZEBRA"), env_overrides(&b, "ZEBRA"));
}

#[test]
fn env_overrides_refuse_a_sensitive_leaf() {
    let vars = pairs(&[
        ("ZEBRA_NETWORK__NETWORK", "Testnet"),
        ("ZEBRA_RPC__PASSWORD", "hunter2"),
        ("ZEBRA_MINING__TOKEN", "x"),
    ]);
    let err = env_overrides(&vars, "ZEBRA").unwrap_err();
    assert_eq!(
        err,
        "Environment variable 'ZEBRA_RPC__PASSWORD' contains sensitive key 'PASSWORD' which cannot be overridden via environment variables. Use the configuration file instead to prevent process table exposure."
    );
}

#[test]
fn env_overrides_check_only_the_last_nested_piece() {
    let vars = pairs(&[("ZEBRA_PASSWORD__STORE__DIR", "/x"), ("ZEBRA_A__B__TOKEN_PATH", "/y")]);
    let res = env_overrides(&vars, "ZEBRA").unwrap();
    assert_eq!(
        res,
        pairs(&[("PASSWORD__STORE__DIR", "/x"), ("A__B__TOKEN_PATH", "/y")])
    );
    // Separators match left to right without overlap: "A___SECRET" splits into "A", "_SECRET".
    let err = env_overrides(&pairs(&[("ZEBRA_A___SECRET", "s")]), "ZEBRA").unwrap_err();
    assert!(err.contains("sensitive key '_SECRET'"));
    // A trailing separator leaves an empty leaf, which is not sensitive.
    let ok = env_overrides(&pairs(&[("ZEBRA_TOKEN__", "t")]), "ZEBRA").unwrap();
    assert_eq!(ok, pairs(&[("TOKEN__", "t")]));
}

#[test]
fn env_overrides_of_nothing_are_empty() {
    assert_eq!(env_overrides(&Vec::new(), "ZEBRA").unwrap(), Vec::new());
    // A variable that is exactly the prefix sets the empty key.
    assert_eq!(
        env_overrides(&pairs(&[("ZEBRA_", "v")]), "ZEBRA").unwrap(),
        pairs(&[("", "v")])
    );
}

#[test]
fn refusal_message_text() {
    assert_eq!(
        refusal_error("K", "L"),
        "Environment variable 'K' contains sensitive key 'L' which cannot be overridden via environment variables. Use the configuration file instead to prevent process table exposure."
    );
}

#[test]
fn decimal_rendering() {
    for n in [0usize, 7, 10, 64, 12345, usize::MAX] {
        let mut s = String::from("n=");
        push_decimal(&mut s, n);
        assert_eq!(s, format!("n={}", n));
    }
}

#[test]
fn seed_decodes_lower_and_upper_case_hex() {
    assert_eq!(config_with_seed(SEED_HEX).seed_bytes(), Ok(seed_values()));
    assert_eq!(
        config_with_seed(&SEED_HEX.to_uppercase()).seed_bytes(),
        Ok(seed_values())
    );
    let ff = "ff".repeat(32);
    assert_eq!(config_with_seed(&ff).seed_bytes(), Ok([0xff; 32]));
}

#[test]
fn seed_ignores_surrounding_white_space() {
    let padded = format!(" \t\n{}\u{3000} \r\n", SEED_HEX);
    assert_eq!(config_with_seed(&padded).seed_bytes(), Ok(seed_values()));
}

#[test]
fn seed_of_wrong_length_is_refused() {
    assert_eq!(
        config_with_seed("abc").seed_bytes(),
        Err("local_genesis.seed must be 64 hex chars (32 bytes), got 3".to_string())
    );
    assert_eq!(
        config_with_seed("").seed_bytes(),
        Err("local_genesis.seed must be 64 hex chars (32 bytes), got 0".to_string())
    );
    let long = format!("{}00", SEED_HEX);
    assert_eq!(
        config_with_seed(&long).seed_bytes(),
        Err("local_genesis.seed must be 64 hex chars (32 bytes), got 66".to_string())
    );
    // The length counts bytes: 32 two-byte characters make 64 bytes.
    let wide = "\u{e9}".repeat(32);
    assert_eq!(
        config_with_seed(&"\u{e9}".repeat(31)).seed_bytes(),
        Err("local_genesis.seed must be 64 hex chars (32 bytes), got 62".to_string())
    );
    assert!(config_with_seed(&wide).seed_bytes().is_err());
}

#[test]
fn seed_with_a_non_hex_digit_is_refused() {
    let mut bad = SEED_HEX.to_string();
    bad.replace_range(10..11, "g");
    let err = config_with_seed(&bad).seed_bytes().unwrap_err();
    assert!(err.starts_with("local_genesis.seed is not valid hex: "));
    assert_eq!(
        err,
        format!(
            "local_genesis.seed is not valid hex: {}",
            u8::from_str_radix("g5", 16).unwrap_err()
        )
    );
}

#[test]
fn seed_with_signs_is_not_hex() {
    // A slice `+f` is accepted by the integer parser but is not two hex digits.
    let plus = "+f".repeat(32);
    assert_eq!(
        config_with_seed(&plus).seed_bytes(),
        Err("local_genesis.seed is not valid hex: '+' is not a hex digit".to_string())
    );
    let mut one_plus = SEED_HEX.to_string();
    one_plus.replace_range(6..7, "+");
    assert_eq!(
        config_with_seed(&one_plus).seed_bytes(),
        Err("local_genesis.seed is not valid hex: '+' is not a hex digit".to_string())
    );
    let minus = "-f".repeat(32);
    assert_eq!(
        config_with_seed(&minus).seed_bytes(),
        Err(format!(
            "local_genesis.seed is not valid hex: {}",
            u8::from_str_radix("-f", 16).unwrap_err()
        ))
    );
    assert!(config_with_seed(&"f+".repeat(32)).seed_bytes().is_err());
    assert!(config_with_seed(&plus).to_options().is_err());
}

#[test]
fn seed_with_a_two_byte_character_on_a_slice_is_refused() {
    let wide = format!("\u{e9}{}", &SEED_HEX[2..]);
    let cfg = config_with_seed(&wide);
    assert!(cfg.seed_slices_safely());
    let err = cfg.seed_bytes().unwrap_err();
    assert!(err.starts_with("local_genesis.seed is not valid hex: "));
}

#[test]
fn seed_slicing_safety_is_detected() {
    assert!(config_with_seed(SEED_HEX).seed_slices_safely());
    assert!(config_with_seed("short").seed_slices_safely());
    // A three-byte character at the start of a slice would be cut in half.
    let cut = format!("\u{20ac}{}", &SEED_HEX[3..]);
    assert!(!config_with_seed(&cut).seed_slices_safely());
    // ... unless an earlier slice already failed to parse.
    let early = format!("zz{}\u{20ac}{}", &SEED_HEX[2..4], &SEED_HEX[7..]);
    assert_eq!(early.len(), 64);
    assert!(config_with_seed(&early).seed_slices_safely());
}

#[test]
fn seed_messages() {
    assert_eq!(
        seed_length_error(17),
        "local_genesis.seed must be 64 hex chars (32 bytes), got 17"
    );
    assert_eq!(
        seed_hex_error("detail"),
        "local_genesis.seed is not valid hex: detail"
    );
}

#[test]
fn options_carry_the_config_and_the_decoded_seed() {
    let cfg = config_with_seed(SEED_HEX);
    let o = cfg.to_options().unwrap();
    assert_eq!(o.network_name, "local_test");
    assert_eq!(o.latest_network_upgrade, NetworkUpgrade::Nu6);
    assert!(o.disable_pow);
    assert_eq!(o.target_spacing_secs, 1);
    assert_eq!(o.seeded_tip_time, Some(1_700_000_000));
    assert_eq!(o.maturity_padding_blocks, 100);
    assert_eq!(o.seed, Some(seed_values()));
}

#[test]
fn options_fail_with_the_seed_error() {
    let cfg = config_with_seed("00");
    assert_eq!(cfg.to_options(), Err(cfg.seed_bytes().unwrap_err()));
}

#[test]
fn activation_height_keys() {
    assert_eq!(activation_height_key(NetworkUpgrade::Genesis), None);
    assert_eq!(activation_height_key(NetworkUpgrade::BeforeOverwinter), None);
    assert_eq!(activation_height_key(NetworkUpgrade::Overwinter), Some("Overwinter"));
    assert_eq!(activation_height_key(NetworkUpgrade::Sapling), Some("Sapling"));
    assert_eq!(activation_height_key(NetworkUpgrade::Blossom), Some("Blossom"));
    assert_eq!(activation_height_key(NetworkUpgrade::Heartwood), Some("Heartwood"));
    assert_eq!(activation_height_key(NetworkUpgrade::Canopy), Some("Canopy"));
    assert_eq!(activation_height_key(NetworkUpgrade::Nu5), Some("NU5"));
    assert_eq!(activation_height_key(NetworkUpgrade::Nu6), Some("NU6"));
    assert_eq!(activation_height_key(NetworkUpgrade::Nu6_1), Some("NU6.1"));
    assert_eq!(activation_height_key(NetworkUpgrade::Nu7), Some("NU7"));
}

#[test]
fn options_match_the_parameter_tool() {
    let mut cfg = config_with_seed(SEED_HEX);
    cfg.maturity_padding_blocks = 0;
    cfg.disable_pow = false;
    let o = cfg.to_options().unwrap();
    assert_eq!(o.latest_network_upgrade, NetworkUpgrade::Nu6);
    assert!(!o.disable_pow);
    assert_eq!(o.target_spacing_secs, 1);
    assert_eq!(o.seeded_tip_time, Some(cfg.tip_time));
    assert_eq!(o.maturity_padding_blocks, 0);
    assert_eq!(o.seed, Some(seed_values()));
}
