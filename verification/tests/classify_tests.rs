use sage::classify::{
    classify, classify_puzzle_bytes, program_from_bytes, CoinKind, KindTag, TemplateOutcome,
};

#[test]
fn launcher_program_classifies_as_launcher() {
    // A puzzle curried from the singleton launcher template:
    // `(a (q . LAUNCHER) (q))`, whose uncurried module hash is the launcher
    // template hash.
    let mut bytes = vec![0xff, 0x02, 0xff, 0xff, 0x01];
    bytes.extend_from_slice(&chia_puzzles::SINGLETON_LAUNCHER);
    bytes.extend_from_slice(&[0xff, 0x80, 0x80]);
    let program = program_from_bytes(bytes);
    let kind = CoinKind::from_puzzle(&program).unwrap();
    assert!(matches!(kind, CoinKind::Launcher));
}

#[test]
fn trivial_program_classifies_as_unknown() {
    // The serialized program `1` matches no template.
    let program = program_from_bytes(vec![0x01]);
    let kind = CoinKind::from_puzzle(&program).unwrap();
    assert!(matches!(kind, CoinKind::Unknown));
    assert_eq!(kind.tag(), KindTag::Unknown);
}

#[test]
fn nil_program_classifies_as_unknown() {
    let kind = classify_puzzle_bytes(vec![0x80]).unwrap();
    assert!(matches!(kind, CoinKind::Unknown));
}

#[test]
fn malformed_cat_template_degrades_to_unknown() {
    // A puzzle curried from the CAT template but with no curried arguments:
    // the template matches, its inner data does not parse, and the coin is
    // classified Unknown rather than failing.
    let mut bytes = vec![0xff, 0x02, 0xff, 0xff, 0x01];
    bytes.extend_from_slice(&chia_puzzles::CAT_PUZZLE);
    bytes.extend_from_slice(&[0xff, 0x80, 0x80]);
    let kind = classify_puzzle_bytes(bytes).unwrap();
    assert!(matches!(kind, CoinKind::Unknown));
}

#[test]
fn truncated_serialization_fails_allocation() {
    // A lone cons marker is not a complete serialized program.
    let result = classify_puzzle_bytes(vec![0xff]);
    assert_eq!(result.unwrap_err(), sage::errors::ParseError::AllocatePuzzle);
}

#[test]
fn launcher_takes_priority_over_everything() {
    assert_eq!(
        classify(
            true,
            TemplateOutcome::Match,
            TemplateOutcome::Match,
            TemplateOutcome::Match
        ),
        KindTag::Launcher
    );
}

#[test]
fn cat_takes_priority_over_nft_and_did() {
    assert_eq!(
        classify(
            false,
            TemplateOutcome::Match,
            TemplateOutcome::Match,
            TemplateOutcome::Match
        ),
        KindTag::Cat
    );
    assert_eq!(
        classify(
            false,
            TemplateOutcome::NoMatch,
            TemplateOutcome::Match,
            TemplateOutcome::Match
        ),
        KindTag::Nft
    );
    assert_eq!(
        classify(
            false,
            TemplateOutcome::NoMatch,
            TemplateOutcome::NoMatch,
            TemplateOutcome::Match
        ),
        KindTag::Did
    );
    assert_eq!(
        classify(
            false,
            TemplateOutcome::NoMatch,
            TemplateOutcome::NoMatch,
            TemplateOutcome::NoMatch
        ),
        KindTag::Unknown
    );
}

#[test]
fn malformed_template_data_degrades_to_unknown() {
    // A malformed match of the first template reached wins over any match
    // further down the priority list.
    assert_eq!(
        classify(
            false,
            TemplateOutcome::Malformed,
            TemplateOutcome::Match,
            TemplateOutcome::Match
        ),
        KindTag::Unknown
    );
    assert_eq!(
        classify(
            false,
            TemplateOutcome::NoMatch,
            TemplateOutcome::Malformed,
            TemplateOutcome::Match
        ),
        KindTag::Unknown
    );
    assert_eq!(
        classify(
            false,
            TemplateOutcome::NoMatch,
            TemplateOutcome::NoMatch,
            TemplateOutcome::Malformed
        ),
        KindTag::Unknown
    );
}
