use drand_client::{
    ChainConfig, CryptoConfig, DrandClient, DrandConfig, DrandError, HttpConfig, Settings,
};

const QUICKNET_KEY: &str = "83cf0f2896adee7eb8b5f01fcad3912212c437e0073e911fb90022d3e760183c8c4b450b6a0a6c3ac6a5776a2d1064510d1fec758c921cc22b0e17e63aaf4bcb5ed66304de9cf809bd274ca73bab4af5a6e9c76a4bc09e76eae8991ef5ece45a";
const MAINNET_KEY: &str = "868f005eb8e6e4ca0a47c8a77ceaa5309a47978a7c71bc5cce96366b5d7a569937c529eeda66c7293784a9402801af31";

fn settings() -> Settings {
    Settings {
        drand: DrandConfig {
            base_url: "https://api.drand.sh".to_string(),
            fallback_urls: None,
            quicknet: ChainConfig {
                chain_hash: "52db9ba70e0cc0f6eaf7803dd07447a1f5477735fd3f661792ba94600c84e971"
                    .to_string(),
                public_key: QUICKNET_KEY.to_string(),
                genesis_time: 1692803367,
                period: 3,
                scheme_id: "bls-unchained-g1-rfc9380".to_string(),
            },
            mainnet: ChainConfig {
                chain_hash: "8990e7a9aaed2ffed73dbd7092123d6f289930540d7651336225dc172e51b2ce"
                    .to_string(),
                public_key: MAINNET_KEY.to_string(),
                genesis_time: 1595431050,
                period: 30,
                scheme_id: "pedersen-bls-chained".to_string(),
            },
        },
        crypto: CryptoConfig {
            quicknet_dst: "BLS_SIG_BLS12381G1_XMD:SHA-256_SSWU_RO_NUL_".to_string(),
            mainnet_dst: "BLS_SIG_BLS12381G2_XMD:SHA-256_SSWU_RO_NUL_".to_string(),
        },
        http: HttpConfig { timeout_seconds: 30, max_retries: None, retry_delay_ms: None },
    }
}

fn chain(genesis_time: u64, period: u64) -> ChainConfig {
    ChainConfig {
        chain_hash: "52db9ba70e0cc0f6eaf7803dd07447a1f5477735fd3f661792ba94600c84e971".to_string(),
        public_key: QUICKNET_KEY.to_string(),
        genesis_time,
        period,
        scheme_id: "bls-unchained-g1-rfc9380".to_string(),
    }
}

fn client(genesis_time: u64, period: u64) -> DrandClient {
    DrandClient::new(
        chain(genesis_time, period),
        "https://api.drand.sh".to_string(),
        30,
        true,
        "BLS_SIG_BLS12381G1_XMD:SHA-256_SSWU_RO_NUL_".to_string(),
        "BLS_SIG_BLS12381G2_XMD:SHA-256_SSWU_RO_NUL_".to_string(),
    )
    .unwrap()
}

#[test]
fn test_client_creation_quicknet() {
    let client = DrandClient::new_quicknet(settings()).unwrap();
    let settings = settings();
    let genesis = settings.drand.quicknet.genesis_time;
    let round = client.round_at_timestamp(genesis + 100);
    assert!(round > 1);
}

#[test]
fn test_client_creation_mainnet() {
    let client = DrandClient::new_mainnet(settings()).unwrap();
    let settings = settings();
    let genesis = settings.drand.mainnet.genesis_time;
    let round = client.round_at_timestamp(genesis + 1000);
    assert!(round > 1);
}

#[test]
fn test_round_calculation_quicknet() {
    let client = DrandClient::new_quicknet(settings()).unwrap();
    let settings = settings();
    let genesis = settings.drand.quicknet.genesis_time;

    assert_eq!(client.round_at_timestamp(genesis), 1);
    assert_eq!(client.round_at_timestamp(genesis - 100), 1);
    assert_eq!(client.round_at_timestamp(genesis + 3), 2);
    assert_eq!(client.round_at_timestamp(genesis + 6), 3);
    assert_eq!(client.round_at_timestamp(genesis + 300), 101);
}

#[test]
fn test_round_calculation_mainnet() {
    let client = DrandClient::new_mainnet(settings()).unwrap();
    let settings = settings();
    let genesis = settings.drand.mainnet.genesis_time;

    assert_eq!(client.round_at_timestamp(genesis), 1);
    assert_eq!(client.round_at_timestamp(genesis - 100), 1);
    assert_eq!(client.round_at_timestamp(genesis + 30), 2);
    assert_eq!(client.round_at_timestamp(genesis + 60), 3);
    assert_eq!(client.round_at_timestamp(genesis + 3000), 101);
}

#[test]
fn test_next_round_after() {
    let client = DrandClient::new_quicknet(settings()).unwrap();
    let settings = settings();
    let genesis = settings.drand.quicknet.genesis_time;

    assert_eq!(client.next_round_after(genesis), 2);
    assert_eq!(client.next_round_after(genesis - 100), 2);
    assert_eq!(client.next_round_after(genesis + 3), 3);
    assert_eq!(client.next_round_after(genesis + 300), 102);
}

#[test]
fn round_is_one_up_to_genesis() {
    let c = client(1_000_000, 7);
    for t in [0u64, 1, 999_999, 1_000_000] {
        assert_eq!(c.round_at_timestamp(t), 1);
        assert_eq!(c.next_round_after(t), 2);
    }
}

#[test]
fn round_counts_full_periods_after_genesis() {
    let genesis = 1_000_000u64;
    let c = client(genesis, 7);
    assert_eq!(c.round_at_timestamp(genesis + 1), 1);
    assert_eq!(c.round_at_timestamp(genesis + 6), 1);
    assert_eq!(c.round_at_timestamp(genesis + 7), 2);
    assert_eq!(c.round_at_timestamp(genesis + 13), 2);
    assert_eq!(c.round_at_timestamp(genesis + 14), 3);
    for offset in [1u64, 5, 7, 8, 70, 699, 700, 12_345_678] {
        let expected = offset / 7 + 1;
        assert_eq!(c.round_at_timestamp(genesis + offset), expected);
        assert_eq!(c.next_round_after(genesis + offset), expected + 1);
    }
}

#[test]
fn round_schedule_with_period_three() {
    let genesis = 1692803367u64;
    let c = client(genesis, 3);
    assert_eq!(c.round_at_timestamp(genesis), 1);
    assert_eq!(c.round_at_timestamp(genesis + 3), 2);
    assert_eq!(c.round_at_timestamp(genesis + 300), 101);
}

#[test]
fn round_schedule_with_period_thirty() {
    let genesis = 1692803367u64;
    let c = client(genesis, 30);
    assert_eq!(c.round_at_timestamp(genesis + 30), 2);
    assert_eq!(c.round_at_timestamp(genesis + 3000), 101);
}

#[test]
fn round_at_the_largest_timestamp() {
    let c = client(0, 2);
    assert_eq!(c.round_at_timestamp(u64::MAX), u64::MAX / 2 + 1);
    assert_eq!(c.next_round_after(u64::MAX), u64::MAX / 2 + 2);
    let d = client(1, 1);
    assert_eq!(d.round_at_timestamp(u64::MAX), u64::MAX);
}

#[test]
fn zero_period_is_refused() {
    let r = DrandClient::new(
        chain(1692803367, 0),
        "https://api.drand.sh".to_string(),
        30,
        true,
        "BLS_SIG_BLS12381G1_XMD:SHA-256_SSWU_RO_NUL_".to_string(),
        "BLS_SIG_BLS12381G2_XMD:SHA-256_SSWU_RO_NUL_".to_string(),
    );
    assert_eq!(r.err(), Some(DrandError::InvalidPeriod));
}
