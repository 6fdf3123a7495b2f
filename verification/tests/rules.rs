use governance::error::GovernanceError;
use governance::instructions::common::str_eq;
use governance::instructions::common::update_timestamp;
use governance::instructions::common::validate_hash;
use governance::instructions::common::validate_proposal_content;
use governance::instructions::common::validate_url;
use governance::instructions::common::validate_voting_period;
use governance::instructions::initialize::initialize_governance;
use governance::instructions::rules::add_rule_document;
use governance::instructions::rules::create_rule_registry;
use governance::instructions::rules::find_documents_by_category;
use governance::instructions::rules::get_rule_documents;
use governance::instructions::rules::remove_rule_document;
use governance::instructions::rules::update_rule_document;
use governance::instructions::rules::verify_rule_document;
use governance::state::governance::GovernanceConfig;
use governance::state::rules::RuleCategory;
use governance::state::rules::RuleDocument;
use governance::state::rules::RuleRegistry;

const AUTHORITY: u64 = 1;

fn config() -> GovernanceConfig {
    initialize_governance(AUTHORITY, 2, 6, 100, 1209600, 4000, 5000, 3000, 1000, false, 1000)
        .expect("valid parameters")
}

fn hash_of(digit: char) -> String {
    std::iter::repeat(digit).take(64).collect()
}

fn registry_with_one(c: &GovernanceConfig) -> RuleRegistry {
    let mut reg = create_rule_registry(c, AUTHORITY, 1000).unwrap();
    add_rule_document(
        &mut reg,
        c,
        AUTHORITY,
        "trading_rules".to_string(),
        "No spoofing".to_string(),
        "https://rules.example/spoofing".to_string(),
        hash_of('a'),
        1100,
    )
    .unwrap();
    reg
}

#[test]
fn registry_creation_is_authorized() {
    let c = config();
    let reg = create_rule_registry(&c, AUTHORITY, 1000).unwrap();
    assert_eq!(reg.authority, AUTHORITY);
    assert_eq!(reg.version, 1);
    assert_eq!(reg.created_at, 1000);
    assert!(reg.rule_documents.is_empty());
    assert_eq!(
        create_rule_registry(&c, 99, 1000).unwrap_err(),
        GovernanceError::Unauthorized
    );
}

#[test]
fn documents_are_validated_and_deduplicated() {
    let c = config();
    let mut reg = registry_with_one(&c);
    assert_eq!(reg.version, 2);
    assert_eq!(reg.last_updated, 1100);
    assert_eq!(reg.rule_documents.len(), 1);
    assert_eq!(reg.rule_documents[0].created_at, 1100);

    let add = |reg: &mut RuleRegistry, cat: &str, title: &str, url: &str, hash: String| {
        add_rule_document(
            reg,
            &config(),
            AUTHORITY,
            cat.to_string(),
            title.to_string(),
            url.to_string(),
            hash,
            1200,
        )
    };
    // Same category and title: the duplicate-key condition.
    assert_eq!(
        add(&mut reg, "trading_rules", "No spoofing", "ipfs://other", hash_of('b')).unwrap_err(),
        GovernanceError::DuplicateRuleDocument
    );
    // Same title under another category is fine.
    assert!(add(&mut reg, "platform_policies", "No spoofing", "ar://x", hash_of('b')).is_ok());

    assert_eq!(
        add(&mut reg, &"c".repeat(51), "t", "https://x", hash_of('c')).unwrap_err(),
        GovernanceError::InvalidCategoryLength
    );
    assert_eq!(
        add(&mut reg, "c", &"t".repeat(201), "https://x", hash_of('c')).unwrap_err(),
        GovernanceError::InvalidTitleLength
    );
    assert_eq!(
        add(&mut reg, "c", "t", &format!("https://{}", "u".repeat(494)), hash_of('c'))
            .unwrap_err(),
        GovernanceError::InvalidUrlLength
    );
    assert_eq!(
        add(&mut reg, "c", "t", "https://x", "a".repeat(65)).unwrap_err(),
        GovernanceError::InvalidHashLength
    );
    assert_eq!(
        add(&mut reg, "c", "t", "ftp://x", hash_of('c')).unwrap_err(),
        GovernanceError::InvalidUrlFormat
    );
    assert_eq!(
        add(&mut reg, "c", "t", "https://x", "z".repeat(64)).unwrap_err(),
        GovernanceError::InvalidHashFormat
    );
    assert_eq!(
        add_rule_document(
            &mut reg,
            &config(),
            99,
            "c".to_string(),
            "t".to_string(),
            "https://x".to_string(),
            hash_of('c'),
            1200
        )
        .unwrap_err(),
        GovernanceError::Unauthorized
    );
}

#[test]
fn updates_replace_url_and_hash_in_place() {
    let c = config();
    let mut reg = registry_with_one(&c);
    assert_eq!(
        update_rule_document(
            &mut reg,
            &c,
            AUTHORITY,
            0,
            Some("ipfs://rules/v2".to_string()),
            Some(hash_of('b')),
            1300
        ),
        Ok(())
    );
    assert_eq!(reg.version, 3);
    assert_eq!(reg.last_updated, 1300);
    let doc = &reg.rule_documents[0];
    assert_eq!(doc.url, "ipfs://rules/v2");
    assert_eq!(doc.hash, hash_of('b'));
    assert_eq!(doc.category, "trading_rules");
    assert_eq!(doc.title, "No spoofing");
    assert_eq!(doc.created_at, 1100);
    assert_eq!(doc.updated_at, 1300);

    assert_eq!(
        update_rule_document(&mut reg, &c, AUTHORITY, 5, None, None, 1400).unwrap_err(),
        GovernanceError::RuleDocumentNotFound
    );
    assert_eq!(
        update_rule_document(&mut reg, &c, AUTHORITY, 0, Some("bad".to_string()), None, 1400)
            .unwrap_err(),
        GovernanceError::InvalidUrlFormat
    );
    assert_eq!(
        update_rule_document(&mut reg, &c, AUTHORITY, 0, None, Some("bad".to_string()), 1400)
            .unwrap_err(),
        GovernanceError::InvalidHashFormat
    );
    assert_eq!(
        update_rule_document(&mut reg, &c, 99, 0, None, None, 1400).unwrap_err(),
        GovernanceError::Unauthorized
    );
    assert_eq!(reg.version, 3);
}

#[test]
fn removal_shifts_later_documents_down() {
    let c = config();
    let mut reg = registry_with_one(&c);
    add_rule_document(
        &mut reg,
        &c,
        AUTHORITY,
        "platform_policies".to_string(),
        "Fees".to_string(),
        "https://rules.example/fees".to_string(),
        hash_of('b'),
        1200,
    )
    .unwrap();
    assert_eq!(remove_rule_document(&mut reg, &c, AUTHORITY, 0, 1300), Ok(()));
    assert_eq!(reg.rule_documents.len(), 1);
    assert_eq!(reg.rule_documents[0].title, "Fees");
    assert_eq!(reg.version, 4);
    assert_eq!(
        remove_rule_document(&mut reg, &c, AUTHORITY, 1, 1400).unwrap_err(),
        GovernanceError::RuleDocumentNotFound
    );
    assert_eq!(
        remove_rule_document(&mut reg, &c, 99, 0, 1400).unwrap_err(),
        GovernanceError::Unauthorized
    );
}

#[test]
fn queries_filter_and_verify() {
    let c = config();
    let mut reg = registry_with_one(&c);
    add_rule_document(
        &mut reg,
        &c,
        AUTHORITY,
        "platform_policies".to_string(),
        "Fees".to_string(),
        "https://rules.example/fees".to_string(),
        hash_of('b'),
        1200,
    )
    .unwrap();

    let all = get_rule_documents(&reg);
    assert_eq!(all.len(), 2);
    assert_eq!(all[0].title, "No spoofing");
    assert_eq!(all[1].title, "Fees");

    let trading = find_documents_by_category(&reg, "trading_rules".to_string()).unwrap();
    assert_eq!(trading.len(), 1);
    assert_eq!(trading[0].title, "No spoofing");
    assert!(find_documents_by_category(&reg, "unknown".to_string())
        .unwrap()
        .is_empty());

    assert_eq!(verify_rule_document(&reg, 0, hash_of('a')), Ok(true));
    assert_eq!(verify_rule_document(&reg, 0, hash_of('b')), Ok(false));
    assert_eq!(verify_rule_document(&reg, 9, hash_of('a')), Ok(false));

    let direct = RuleDocument::new(
        "c".to_string(),
        "t".to_string(),
        "ar://doc".to_string(),
        hash_of('c'),
        1500,
    )
    .unwrap();
    assert!(direct.validate_url());
    assert!(direct.validate_hash());
}

#[test]
fn categories_round_trip_through_labels() {
    let named = [
        (RuleCategory::ProductStandards, "product_standards"),
        (RuleCategory::TradingRules, "trading_rules"),
        (RuleCategory::ViolationDefinitions, "violation_definitions"),
        (RuleCategory::DisputeResolution, "dispute_resolution"),
        (RuleCategory::PlatformPolicies, "platform_policies"),
    ];
    for (cat, label) in named {
        assert_eq!(cat.to_string(), label);
        assert_eq!(RuleCategory::from_string(label), cat);
    }
    let other = RuleCategory::from_string("house_rules");
    assert_eq!(other, RuleCategory::Other("house_rules".to_string()));
    assert_eq!(other.to_string(), "house_rules");
}

#[test]
fn url_and_hash_validators() {
    assert!(validate_url("https://example.org/doc"));
    assert!(validate_url("ipfs://QmHash"));
    assert!(validate_url("ar://tx"));
    assert!(!validate_url("http://example.org"));
    assert!(!validate_url(""));

    assert!(validate_hash(&"0123456789abcdefABCDEF0123456789abcdefABCDEF0123456789abcdefABCD"[..64]));
    assert!(!validate_hash(&"a".repeat(63)));
    assert!(!validate_hash(&"a".repeat(65)));
    assert!(!validate_hash(&"g".repeat(64)));
}

#[test]
fn content_and_period_validators() {
    assert!(validate_proposal_content(&"t".repeat(100), &"d".repeat(800)).is_ok());
    assert_eq!(
        validate_proposal_content(&"t".repeat(101), "d").unwrap_err(),
        GovernanceError::InvalidProposalTitleLength
    );
    assert_eq!(
        validate_proposal_content("t", &"d".repeat(801)).unwrap_err(),
        GovernanceError::InvalidProposalDescriptionLength
    );

    assert!(validate_voting_period(30, true).is_ok());
    assert!(validate_voting_period(2592000, true).is_ok());
    assert!(validate_voting_period(29, true).is_err());
    assert!(validate_voting_period(86400, false).is_ok());
    assert!(validate_voting_period(86399, false).is_err());
    assert!(validate_voting_period(2592001, false).is_err());
}

#[test]
fn timestamps_are_stamped_through_the_shared_helper() {
    let mut c = config();
    assert!(update_timestamp(&mut c, 9999).is_ok());
    assert_eq!(c.updated_at, 9999);
    let mut reg = create_rule_registry(&c, AUTHORITY, 1000).unwrap();
    assert!(update_timestamp(&mut reg, 8888).is_ok());
    assert_eq!(reg.last_updated, 8888);
}

#[test]
fn string_equality_helper_compares_text() {
    assert!(str_eq("abc", "abc"));
    assert!(!str_eq("abc", "abd"));
    assert!(!str_eq("abc", "ab"));
    assert!(str_eq("", ""));
}

#[test]
fn registry_capacity_is_one_hundred() {
    let c = config();
    let mut reg = create_rule_registry(&c, AUTHORITY, 1000).unwrap();
    for i in 0..100u32 {
        add_rule_document(
            &mut reg,
            &c,
            AUTHORITY,
            "trading_rules".to_string(),
            format!("Rule {i}"),
            "https://rules.example/doc".to_string(),
            hash_of('a'),
            1100,
        )
        .unwrap();
    }
    assert_eq!(reg.rule_documents.len(), 100);
    assert_eq!(
        add_rule_document(
            &mut reg,
            &c,
            AUTHORITY,
            "trading_rules".to_string(),
            "One more".to_string(),
            "https://rules.example/doc".to_string(),
            hash_of('a'),
            1200
        )
        .unwrap_err(),
        GovernanceError::TooManyRuleDocuments
    );
}
