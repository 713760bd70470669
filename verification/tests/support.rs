use nomad::actor_map::ActorRegistry;
use nomad::ids::{ActorId, BufferId};
use nomad::log::{data_local_dir, join, log_dir, nvim_data_dir, LOG_FILE_NAME};
use nomad::macros::{
    parse_specified_seed, seed_of_first_param, FirstParam, Seed, SeedError, SeedToken,
    SpecifiedSeed, SpecifiedSeedError, TestHarness,
};
use nomad::params::{AuthInfos, NomadParams, API_VERSION, MAX_FRAME_LEN};
use nomad::strings::{compare_strs, str_eq, NameOrder};

#[test]
fn strings_compare_like_str() {
    for (a, b) in [("a", "b"), ("ab", "a"), ("", ""), ("é", "e"), ("abc", "abd"), ("x", "x")] {
        let expected = match a.cmp(b) {
            std::cmp::Ordering::Less => NameOrder::Less,
            std::cmp::Ordering::Equal => NameOrder::Equal,
            std::cmp::Ordering::Greater => NameOrder::Greater,
        };
        assert_eq!(compare_strs(a, b), expected);
        assert_eq!(str_eq(a, b), a == b);
    }
}

#[test]
fn registry_take_returns_record_then_unknown() {
    let mut registry = ActorRegistry::new();
    registry.record(BufferId { handle: 1 }, ActorId { id: 5 });
    registry.record(BufferId { handle: 2 }, ActorId { id: 6 });
    registry.record(BufferId { handle: 1 }, ActorId { id: 7 });
    assert_eq!(registry.take(BufferId { handle: 1 }), ActorId { id: 7 });
    assert_eq!(registry.take(BufferId { handle: 1 }), ActorId::unknown());
    assert_eq!(registry.take(BufferId { handle: 2 }), ActorId { id: 6 });
}

#[test]
fn log_paths() {
    assert_eq!(data_local_dir("/home/u"), "/home/u/.local/share");
    assert_eq!(nvim_data_dir("/home/u/"), "/home/u/.local/share/nvim");
    assert_eq!(log_dir("/home/u"), "/home/u/.local/share/nvim/nomad/logs");
    assert_eq!(join("", "a"), "a");
    assert_eq!(join("/", "a"), "/a");
    assert_eq!(LOG_FILE_NAME, "nomad.log");
    let std_path = std::path::Path::new("/home/u").join(".local").join("share").join("nvim");
    assert_eq!(nvim_data_dir("/home/u"), std_path.to_str().unwrap());
}

#[test]
fn auth_infos_use_the_current_api_version() {
    let infos = AuthInfos::from_jwt("token");
    assert_eq!(infos.api_version, 4);
    assert_eq!(infos.api_version, API_VERSION);
    assert_eq!(infos.jwt, "token");
    assert_eq!(NomadParams::max_frame_len(), 32 * 1024);
    assert_eq!(MAX_FRAME_LEN, 32768);
}

#[test]
fn test_harness_by_asyncness() {
    let sync = TestHarness::of(false);
    assert_eq!(sync.expand_fn(), "sync_test");
    assert!(!sync.takes_terminator());
    assert!(sync.keeps_output());
    let asynch = TestHarness::of(true);
    assert_eq!(asynch.expand_fn(), "async_test");
    assert!(asynch.takes_terminator());
    assert!(!asynch.keeps_output());
}

#[test]
fn seeds_from_the_first_parameter() {
    assert!(matches!(seed_of_first_param(&FirstParam::Absent), Ok(Seed::Absent)));
    assert!(matches!(
        seed_of_first_param(&FirstParam::TypedIdent("gen".to_string())),
        Ok(Seed::RandomlyGenerated)
    ));
    assert!(matches!(seed_of_first_param(&FirstParam::TypedIdent("ctx".to_string())), Ok(Seed::Absent)));
    assert!(matches!(
        seed_of_first_param(&FirstParam::Receiver),
        Err(SeedError::ExpectedTypedArgument)
    ));
    assert!(matches!(
        seed_of_first_param(&FirstParam::TypedPattern),
        Err(SeedError::ExpectedIdentifier)
    ));
    assert!(!Seed::Absent.uses_generator());
    assert!(Seed::RandomlyGenerated.uses_generator());
    assert!(Seed::Specified(SpecifiedSeed::FromEnv).uses_generator());
}

#[test]
fn specified_seeds() {
    match parse_specified_seed(&vec![SeedToken::IntLiteral("42".to_string())]) {
        Ok(SpecifiedSeed::Literal(lit)) => assert_eq!(lit, "42"),
        _ => panic!("expected a literal"),
    }
    assert!(matches!(
        parse_specified_seed(&vec![SeedToken::Dollar, SeedToken::Ident("SEED".to_string())]),
        Ok(SpecifiedSeed::FromEnv)
    ));
    assert!(matches!(
        parse_specified_seed(&vec![SeedToken::Dollar, SeedToken::Ident("OTHER".to_string())]),
        Err(SpecifiedSeedError::ExpectedSeedOrInteger)
    ));
    assert!(matches!(parse_specified_seed(&vec![SeedToken::Dollar]), Err(SpecifiedSeedError::ExpectedIdent)));
    assert!(matches!(
        parse_specified_seed(&vec![SeedToken::Dollar, SeedToken::Other]),
        Err(SpecifiedSeedError::ExpectedIdent)
    ));
    assert!(matches!(parse_specified_seed(&vec![SeedToken::Other]), Err(SpecifiedSeedError::ExpectedDollar)));
    assert!(matches!(parse_specified_seed(&vec![]), Err(SpecifiedSeedError::ExpectedDollar)));
}
