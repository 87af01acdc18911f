use ics07_tendermint::chain_id::ChainId;
use ics07_tendermint::client_state::{ClientState, Header, Options, UpgradeOptions};
use ics07_tendermint::duration::Duration;
use ics07_tendermint::error::Error;
use ics07_tendermint::height::Height;
use ics07_tendermint::proof_specs::ProofSpecs;
use ics07_tendermint::timestamp::Timestamp;
use ics07_tendermint::trust_threshold::TrustThreshold;

#[derive(Clone, Debug, PartialEq, Eq)]
struct Crypto;

#[derive(Clone, Debug, PartialEq)]
struct ClientStateParams {
    id: ChainId,
    trust_level: TrustThreshold,
    trusting_period: Duration,
    unbonding_period: Duration,
    max_clock_drift: Duration,
    latest_height: Height,
    proof_specs: ProofSpecs,
    upgrade_path: Vec<String>,
}

fn cosmos_specs() -> ProofSpecs {
    ProofSpecs::new(ibc::core::ics23_commitment::specs::ProofSpecs::default().into())
}

fn default_params(latest_height: Height) -> ClientStateParams {
    ClientStateParams {
        id: ChainId::from_string("defaultChainId"),
        trust_level: TrustThreshold::one_third(),
        trusting_period: Duration::new(64000, 0),
        unbonding_period: Duration::new(128000, 0),
        max_clock_drift: Duration::new(3, 0),
        latest_height,
        proof_specs: cosmos_specs(),
        upgrade_path: vec!["".to_string()],
    }
}

fn build(p: ClientStateParams) -> Result<ClientState<Crypto>, Error> {
    ClientState::<Crypto>::new(
        p.id,
        p.trust_level,
        p.trusting_period,
        p.unbonding_period,
        p.max_clock_drift,
        p.latest_height,
        p.proof_specs,
        p.upgrade_path,
    )
}

fn now() -> Timestamp {
    Timestamp::from_nanoseconds(ibc::timestamp::Timestamp::now().nanoseconds())
}

#[test]
fn client_state_new() {
    let default_params = default_params(Height::new(0, 10));

    struct Test {
        name: String,
        params: ClientStateParams,
        want_pass: bool,
    }

    let tests: Vec<Test> = vec![
        Test {
            name: "Valid parameters".to_string(),
            params: default_params.clone(),
            want_pass: true,
        },
        Test {
            name: "Invalid unbonding period".to_string(),
            params: ClientStateParams {
                unbonding_period: Duration::zero(),
                ..default_params.clone()
            },
            want_pass: false,
        },
        Test {
            name: "Invalid (too small) trusting period".to_string(),
            params: ClientStateParams {
                trusting_period: Duration::zero(),
                ..default_params.clone()
            },
            want_pass: false,
        },
        Test {
            name: "Invalid (too large) trusting period w.r.t. unbonding period".to_string(),
            params: ClientStateParams {
                trusting_period: Duration::new(11, 0),
                unbonding_period: Duration::new(10, 0),
                ..default_params.clone()
            },
            want_pass: false,
        },
        Test {
            name: "Invalid (too small) trusting trust threshold".to_string(),
            params: ClientStateParams {
                trust_level: TrustThreshold::zero(),
                ..default_params.clone()
            },
            want_pass: false,
        },
        Test {
            name: "Invalid (too small) latest height".to_string(),
            params: ClientStateParams {
                latest_height: Height::zero(),
                ..default_params.clone()
            },
            want_pass: false,
        },
        Test {
            name: "Invalid (empty) proof specs".to_string(),
            params: ClientStateParams {
                proof_specs: ProofSpecs::new(Vec::<ibc_proto::ics23::ProofSpec>::new()),
                ..default_params
            },
            want_pass: false,
        },
    ]
    .into_iter()
    .collect();

    for test in tests {
        let cs_result = build(test.params.clone());

        assert_eq!(
            test.want_pass,
            cs_result.is_ok(),
            "ClientState::new() failed for test {}, \nmsg{:?} with error {:?}",
            test.name,
            test.params.clone(),
            cs_result.err(),
        );
    }
}

#[test]
fn client_state_verify_delay_passed() {
    #[derive(Debug, Clone)]
    struct Params {
        current_time: Timestamp,
        current_height: Height,
        processed_time: Timestamp,
        processed_height: Height,
        delay_period_time: Duration,
        delay_period_blocks: u64,
    }
    struct Test {
        name: String,
        params: Params,
        want_pass: bool,
    }
    let now = now();

    let tests: Vec<Test> = vec![
        Test {
            name: "Successful delay verification".to_string(),
            params: Params {
                current_time: now.checked_add(Duration::from_nanos(2000)).unwrap(),
                current_height: Height::new(0, 5),
                processed_time: now.checked_add(Duration::from_nanos(1000)).unwrap(),
                processed_height: Height::new(0, 3),
                delay_period_time: Duration::from_nanos(500),
                delay_period_blocks: 2,
            },
            want_pass: true,
        },
        Test {
            name: "Delay period(time) has not elapsed".to_string(),
            params: Params {
                current_time: now.checked_add(Duration::from_nanos(1200)).unwrap(),
                current_height: Height::new(0, 5),
                processed_time: now.checked_add(Duration::from_nanos(1000)).unwrap(),
                processed_height: Height::new(0, 3),
                delay_period_time: Duration::from_nanos(500),
                delay_period_blocks: 2,
            },
            want_pass: false,
        },
        Test {
            name: "Delay period(blocks) has not elapsed".to_string(),
            params: Params {
                current_time: now.checked_add(Duration::from_nanos(2000)).unwrap(),
                current_height: Height::new(0, 5),
                processed_time: now.checked_add(Duration::from_nanos(1000)).unwrap(),
                processed_height: Height::new(0, 4),
                delay_period_time: Duration::from_nanos(500),
                delay_period_blocks: 2,
            },
            want_pass: false,
        },
    ];

    for test in tests {
        let res = ClientState::<Crypto>::verify_delay_passed(
            test.params.current_time,
            test.params.current_height,
            test.params.processed_time,
            test.params.processed_height,
            test.params.delay_period_time,
            test.params.delay_period_blocks,
        );

        assert_eq!(
            test.want_pass,
            res.is_ok(),
            "ClientState::verify_delay_passed() failed for test {}, \nmsg{:?} with error {:?}",
            test.name,
            test.params.clone(),
            res.err(),
        );
    }
}

#[test]
fn client_state_verify_height() {
    let default_params = default_params(Height::new(1, 10));

    struct Test {
        name: String,
        height: Height,
        setup: Option<Box<dyn FnOnce(ClientState<Crypto>) -> ClientState<Crypto>>>,
        want_pass: bool,
    }

    let tests = vec![
        Test {
            name: "Successful height verification".to_string(),
            height: Height::new(1, 8),
            setup: None,
            want_pass: true,
        },
        Test {
            name: "Invalid (too large)  client height".to_string(),
            height: Height::new(1, 12),
            setup: None,
            want_pass: false,
        },
        Test {
            name: "Invalid, client is frozen below current height".to_string(),
            height: Height::new(1, 6),
            setup: Some(Box::new(|client_state| {
                client_state.with_frozen_height(Height::new(1, 5)).unwrap()
            })),
            want_pass: false,
        },
    ];

    for test in tests {
        let client_state = build(default_params.clone()).unwrap();
        let client_state = match test.setup {
            Some(setup) => (setup)(client_state),
            _ => client_state,
        };
        let res = client_state.verify_height(test.height);

        assert_eq!(
            test.want_pass,
            res.is_ok(),
            "ClientState::verify_delay_height() failed for test {}, \nmsg{:?} with error {:?}",
            test.name,
            test.height,
            res.err(),
        );
    }
}

#[test]
fn new_keeps_its_parameters_and_is_not_frozen() {
    let p = default_params(Height::new(0, 10));
    let cs = build(p.clone()).unwrap();
    assert_eq!(cs.chain_id, p.id);
    assert_eq!(cs.trust_level, p.trust_level);
    assert_eq!(cs.trusting_period, p.trusting_period);
    assert_eq!(cs.unbonding_period, p.unbonding_period);
    assert_eq!(cs.max_clock_drift, p.max_clock_drift);
    assert_eq!(cs.latest_height, p.latest_height);
    assert_eq!(cs.proof_specs, p.proof_specs);
    assert_eq!(cs.upgrade_path, p.upgrade_path);
    assert_eq!(cs.frozen_height, None);
    assert_eq!(cs.latest_height(), Height::new(0, 10));
    assert_eq!(cs.frozen_height(), None);
    assert_eq!(cs.chain_id(), p.id);
}

#[test]
fn new_names_each_fault() {
    let p = default_params(Height::new(0, 10));
    assert_eq!(
        build(ClientStateParams { unbonding_period: Duration::zero(), ..p.clone() }).err(),
        Some(Error::InvalidUnbondingPeriod)
    );
    assert_eq!(
        build(ClientStateParams { trusting_period: Duration::zero(), ..p.clone() }).err(),
        Some(Error::InvalidTrustingPeriod)
    );
    assert_eq!(
        build(ClientStateParams {
            trusting_period: Duration::new(11, 0),
            unbonding_period: Duration::new(10, 0),
            ..p.clone()
        })
        .err(),
        Some(Error::TrustingPeriodNotShorter)
    );
    assert_eq!(
        build(ClientStateParams {
            trusting_period: Duration::new(10, 0),
            unbonding_period: Duration::new(10, 0),
            ..p.clone()
        })
        .err(),
        Some(Error::TrustingPeriodNotShorter)
    );
    assert_eq!(
        build(ClientStateParams { latest_height: Height::zero(), ..p.clone() }).err(),
        Some(Error::InvalidLatestHeight)
    );
    assert_eq!(
        build(ClientStateParams { trust_level: TrustThreshold::zero(), ..p.clone() }).err(),
        Some(Error::ZeroTrustLevel)
    );
    assert_eq!(
        build(ClientStateParams { proof_specs: ProofSpecs::new(Vec::new()), ..p }).err(),
        Some(Error::EmptyProofSpecs)
    );
}

#[test]
fn new_names_the_first_of_several_faults() {
    let p = default_params(Height::zero());
    assert_eq!(
        build(ClientStateParams {
            trusting_period: Duration::zero(),
            unbonding_period: Duration::zero(),
            trust_level: TrustThreshold::zero(),
            proof_specs: ProofSpecs::new(Vec::new()),
            ..p.clone()
        })
        .err(),
        Some(Error::InvalidTrustingPeriod)
    );
    assert_eq!(
        build(ClientStateParams {
            trust_level: TrustThreshold::zero(),
            proof_specs: ProofSpecs::new(Vec::new()),
            ..p
        })
        .err(),
        Some(Error::InvalidLatestHeight)
    );
}

#[test]
fn new_takes_a_height_in_a_later_revision_with_no_blocks() {
    assert!(build(default_params(Height::new(1, 0))).is_ok());
    assert!(build(default_params(Height::new(0, 1))).is_ok());
}

#[test]
fn construction_scenario() {
    let p = default_params(Height::new(0, 10));
    assert!(build(p.clone()).is_ok());
    assert_eq!(
        build(ClientStateParams { unbonding_period: Duration::new(0, 0), ..p }),
        Err(Error::InvalidUnbondingPeriod)
    );
}

#[test]
fn verify_height_scenario() {
    let cs = build(default_params(Height::new(1, 10))).unwrap();
    assert_eq!(cs.verify_height(Height::new(1, 8)), Ok(()));
    assert_eq!(
        cs.verify_height(Height::new(1, 12)),
        Err(Error::InsufficientHeight {
            latest_height: Height::new(1, 10),
            target_height: Height::new(1, 12),
        })
    );
    let frozen = cs.with_frozen_height(Height::new(1, 5)).unwrap();
    assert_eq!(
        frozen.verify_height(Height::new(1, 6)),
        Err(Error::ClientFrozen {
            frozen_height: Height::new(1, 5),
            target_height: Height::new(1, 6),
        })
    );
}

#[test]
fn verify_height_at_the_edges() {
    let cs = build(default_params(Height::new(1, 10))).unwrap();
    assert_eq!(cs.verify_height(Height::new(1, 10)), Ok(()));
    assert_eq!(cs.verify_height(Height::new(0, 9_999)), Ok(()));
    assert!(cs.verify_height(Height::new(2, 0)).is_err());
    let frozen = cs.with_frozen_height(Height::new(1, 5)).unwrap();
    assert_eq!(frozen.verify_height(Height::new(1, 4)), Ok(()));
    assert_eq!(
        frozen.verify_height(Height::new(1, 5)),
        Err(Error::ClientFrozen {
            frozen_height: Height::new(1, 5),
            target_height: Height::new(1, 5),
        })
    );
    assert_eq!(
        frozen.verify_height(Height::new(1, 11)),
        Err(Error::InsufficientHeight {
            latest_height: Height::new(1, 10),
            target_height: Height::new(1, 11),
        })
    );
}

#[test]
fn delay_scenario() {
    let t = 1_700_000_000_000_000_000u64;
    let res = ClientState::<Crypto>::verify_delay_passed(
        Timestamp::from_nanoseconds(t + 1200),
        Height::new(0, 5),
        Timestamp::from_nanoseconds(t + 1000),
        Height::new(0, 3),
        Duration::from_nanos(500),
        2,
    );
    assert_eq!(
        res,
        Err(Error::NotEnoughTimeElapsed {
            current_time: Timestamp::from_nanoseconds(t + 1200),
            earliest_time: Timestamp::from_nanoseconds(t + 1500),
        })
    );
    let res = ClientState::<Crypto>::verify_delay_passed(
        Timestamp::from_nanoseconds(t + 2000),
        Height::new(0, 5),
        Timestamp::from_nanoseconds(t + 1000),
        Height::new(0, 3),
        Duration::from_nanos(500),
        2,
    );
    assert_eq!(res, Ok(()));
}

#[test]
fn delay_at_the_edges() {
    let t = 1_700_000_000_000_000_000u64;
    let at = |n: u64| Timestamp::from_nanoseconds(t + n);
    let check = |now: u64, height: Height| {
        ClientState::<Crypto>::verify_delay_passed(
            at(now),
            height,
            at(1000),
            Height::new(0, 3),
            Duration::from_nanos(500),
            2,
        )
    };
    assert_eq!(check(1500, Height::new(0, 5)), Ok(()));
    assert!(matches!(
        check(1499, Height::new(0, 5)),
        Err(Error::NotEnoughTimeElapsed { .. })
    ));
    assert_eq!(
        check(1500, Height::new(0, 4)),
        Err(Error::NotEnoughBlocksElapsed {
            current_height: Height::new(0, 4),
            earliest_height: Height::new(0, 5),
        })
    );
    // Both bounds unmet: the clock is named.
    assert!(matches!(
        check(1499, Height::new(0, 4)),
        Err(Error::NotEnoughTimeElapsed { .. })
    ));
    // A later revision has passed every block of an earlier one.
    assert_eq!(check(1500, Height::new(1, 0)), Ok(()));
}

#[test]
fn delay_with_unset_times() {
    let set = Timestamp::from_nanoseconds(1_700_000_000_000_000_000);
    let check = |now: Timestamp, processed: Timestamp| {
        ClientState::<Crypto>::verify_delay_passed(
            now,
            Height::new(0, 5),
            processed,
            Height::new(0, 3),
            Duration::from_nanos(500),
            2,
        )
    };
    assert_eq!(check(Timestamp::none(), Timestamp::none()), Ok(()));
    assert_eq!(
        check(set, Timestamp::none()),
        Err(Error::NotEnoughTimeElapsed { current_time: set, earliest_time: Timestamp::none() })
    );
    assert!(matches!(
        check(Timestamp::none(), set),
        Err(Error::NotEnoughTimeElapsed { .. })
    ));
}

#[test]
fn delay_beyond_the_last_instant() {
    let last = Timestamp::from_unix_timestamp(253_402_300_799, 999_999_999).unwrap();
    let res = ClientState::<Crypto>::verify_delay_passed(
        last,
        Height::new(0, 5),
        last,
        Height::new(0, 3),
        Duration::from_nanos(1),
        2,
    );
    assert_eq!(res, Err(Error::TimestampOverflow));
    let res = ClientState::<Crypto>::verify_delay_passed(
        last,
        Height::new(0, 5),
        last,
        Height::new(0, 3),
        Duration::zero(),
        2,
    );
    assert_eq!(res, Ok(()));
}

#[test]
fn delay_in_blocks_beyond_the_last_block() {
    let t = Timestamp::from_nanoseconds(1_700_000_000_000_000_000);
    let res = ClientState::<Crypto>::verify_delay_passed(
        t,
        Height::new(0, u64::MAX),
        t,
        Height::new(0, u64::MAX - 1),
        Duration::zero(),
        2,
    );
    assert_eq!(
        res,
        Err(Error::NotEnoughBlocksElapsed {
            current_height: Height::new(0, u64::MAX),
            earliest_height: Height::new(0, u64::MAX),
        })
    );
}

#[test]
fn with_header_moves_to_a_later_height() {
    let cs = build(default_params(Height::new(0, 10))).unwrap();
    let before = cs.clone();
    let cs = cs.with_header(Header { chain_id: ChainId::from_string("chain"), height: 20 });
    assert_eq!(cs.latest_height, Height::new(0, 20));
    assert_eq!(cs, ClientState { latest_height: Height::new(0, 20), ..before });
}

#[test]
fn with_header_stays_on_a_stale_header() {
    let cs = build(default_params(Height::new(0, 10))).unwrap();
    let before = cs.clone();
    let cs = cs.with_header(Header { chain_id: ChainId::from_string("chain"), height: 4 });
    assert_eq!(cs, before);
    let cs = cs.with_header(Header { chain_id: ChainId::from_string("chain"), height: 10 });
    assert_eq!(cs, before);
}

#[test]
fn with_header_takes_the_revision_of_the_header() {
    let cs = build(default_params(Height::new(0, 10))).unwrap();
    let cs = cs.with_header(Header { chain_id: ChainId::from_string("chain-2"), height: 1 });
    assert_eq!(cs.latest_height, Height::new(2, 1));
    let cs = cs.with_header(Header { chain_id: ChainId::from_string("chain-1"), height: 500 });
    assert_eq!(cs.latest_height, Height::new(2, 1));
}

#[test]
fn with_header_leaves_a_frozen_client_frozen() {
    let cs = build(default_params(Height::new(0, 10))).unwrap();
    let cs = cs.with_frozen_height(Height::new(0, 7)).unwrap();
    let cs = cs.with_header(Header { chain_id: ChainId::from_string("chain"), height: 20 });
    assert_eq!(cs.frozen_height, Some(Height::new(0, 7)));
    assert!(cs.verify_height(Height::new(0, 15)).is_err());
}

#[test]
fn with_frozen_height_refuses_the_zero_height() {
    let cs = build(default_params(Height::new(0, 10))).unwrap();
    assert_eq!(cs.clone().with_frozen_height(Height::zero()), Err(Error::ZeroFrozenHeight));
    let frozen = cs.with_frozen_height(Height::new(0, 3)).unwrap();
    assert_eq!(frozen.with_frozen_height(Height::zero()), Err(Error::ZeroFrozenHeight));
}

#[test]
fn with_frozen_height_sets_that_height() {
    let cs = build(default_params(Height::new(0, 10))).unwrap();
    let before = cs.clone();
    let frozen = cs.with_frozen_height(Height::new(0, 3)).unwrap();
    assert_eq!(frozen, ClientState { frozen_height: Some(Height::new(0, 3)), ..before.clone() });
    let again = frozen.with_frozen_height(Height::new(1, 0)).unwrap();
    assert_eq!(again, ClientState { frozen_height: Some(Height::new(1, 0)), ..before });
}

#[test]
fn upgrade_blanks_the_trust_parameters() {
    let cs = build(default_params(Height::new(0, 10))).unwrap();
    let before = cs.clone();
    let frozen = cs.with_frozen_height(Height::new(0, 3)).unwrap();
    let upgraded = frozen.upgrade(
        Height::new(1, 1),
        UpgradeOptions { unbonding_period: Duration::new(200_000, 0) },
        ChainId::from_string("chain-1"),
    );
    assert_eq!(upgraded.frozen_height, None);
    assert_eq!(upgraded.trust_level, TrustThreshold::zero());
    assert_eq!(upgraded.trusting_period, Duration::zero());
    assert_eq!(upgraded.max_clock_drift, Duration::zero());
    assert_eq!(upgraded.latest_height, Height::new(1, 1));
    assert_eq!(upgraded.unbonding_period, Duration::new(200_000, 0));
    assert_eq!(upgraded.chain_id, ChainId::from_string("chain-1"));
    assert_eq!(upgraded.proof_specs, before.proof_specs);
    assert_eq!(upgraded.upgrade_path, before.upgrade_path);
}

#[test]
fn expired_only_beyond_the_trusting_period() {
    let cs = build(default_params(Height::new(0, 10))).unwrap();
    assert!(!cs.expired(Duration::new(63_999, 999_999_999)));
    assert!(!cs.expired(Duration::new(64_000, 0)));
    assert!(cs.expired(Duration::new(64_000, 1)));
}

#[test]
fn refresh_time_is_two_thirds_of_the_trusting_period() {
    let cs = build(default_params(Height::new(0, 10))).unwrap();
    assert_eq!(cs.refresh_time(), Some(Duration::new(42_666, 666_666_666)));
    let long = build(ClientStateParams {
        trusting_period: Duration::new(u64::MAX - 1, 0),
        unbonding_period: Duration::new(u64::MAX, 0),
        ..default_params(Height::new(0, 10))
    })
    .unwrap();
    assert_eq!(
        long.refresh_time(),
        Some(Duration::new(12_297_829_382_473_034_409, 333_333_333))
    );
}

#[test]
fn client_type_is_the_tendermint_one() {
    assert_eq!(ClientState::<Crypto>::client_type(), "07-tendermint".to_string());
}

#[test]
fn light_client_options_hold_the_trust_parameters() {
    let cs = build(default_params(Height::new(0, 10))).unwrap();
    assert_eq!(
        cs.as_light_client_options(),
        Ok(Options {
            trust_threshold: TrustThreshold::one_third(),
            trusting_period: Duration::new(64000, 0),
            clock_drift: Duration::new(3, 0),
        })
    );
}

#[test]
fn light_client_options_want_a_third_at_least() {
    let below = build(ClientStateParams {
        trust_level: TrustThreshold::new(1, 4).unwrap(),
        ..default_params(Height::new(0, 10))
    })
    .unwrap();
    assert_eq!(
        below.as_light_client_options(),
        Err(Error::InvalidTrustThreshold { numerator: 1, denominator: 4 })
    );
    let blank = build(default_params(Height::new(0, 10))).unwrap().upgrade(
        Height::new(1, 1),
        UpgradeOptions { unbonding_period: Duration::new(200_000, 0) },
        ChainId::from_string("chain-1"),
    );
    assert_eq!(
        blank.as_light_client_options(),
        Err(Error::InvalidTrustThreshold { numerator: 0, denominator: 0 })
    );
    let large = build(ClientStateParams {
        trust_level: TrustThreshold::new(u64::MAX - 1, u64::MAX).unwrap(),
        ..default_params(Height::new(0, 10))
    })
    .unwrap();
    assert!(large.as_light_client_options().is_ok());
}
