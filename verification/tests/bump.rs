use release_flow::semver::{bump, ConventionalRule, Rule, Version};

#[test]
fn major() {
    let version = Version::new(1, 2, 3);
    let version = bump(version, Rule::Major).unwrap();

    assert_eq!(version, Version::new(2, 0, 0));
}

#[test]
fn major_0() {
    let version = Version::new(0, 1, 2);
    let version = bump(version, Rule::Major).unwrap();

    assert_eq!(version, Version::new(0, 2, 0));
}

#[test]
fn minor() {
    let version = Version::new(1, 2, 3);
    let version = bump(version, Rule::Minor).unwrap();

    assert_eq!(version, Version::new(1, 3, 0));
}

#[test]
fn minor_0() {
    let version = Version::new(0, 1, 2);
    let version = bump(version, Rule::Minor).unwrap();

    assert_eq!(version, Version::new(0, 1, 3));
}

#[test]
fn patch() {
    let version = Version::new(1, 2, 3);
    let version = bump(version, Rule::Patch).unwrap();

    assert_eq!(version, Version::new(1, 2, 4));
}

#[test]
fn patch_0() {
    let version = Version::new(1, 2, 3);
    let version = bump(version, Rule::Patch).unwrap();

    assert_eq!(version, Version::new(1, 2, 4));
}

#[test]
fn pre() {
    let version = Version::new(1, 2, 3);
    let version = bump(
        version,
        Rule::Pre { label: String::from("rc"), fallback_rule: ConventionalRule::Minor },
    )
    .unwrap();

    assert_eq!(version, Version::parse("1.3.0-rc.0").unwrap());
}

#[test]
fn release() {
    let version = Version::parse("1.2.3-rc.0").unwrap();
    let version = bump(version, Rule::Release).unwrap();

    assert_eq!(version, Version::new(1, 2, 3));
}

#[test]
fn pre_increments_existing_counter() {
    let version = Version::parse("1.3.0-rc.0").unwrap();
    let version = bump(
        version,
        Rule::Pre { label: String::from("rc"), fallback_rule: ConventionalRule::Minor },
    )
    .unwrap();

    assert_eq!(version, Version::parse("1.3.0-rc.1").unwrap());
}

#[test]
fn pre_other_label_resets() {
    let version = Version::parse("1.2.3-alpha.4").unwrap();
    let version = bump(
        version,
        Rule::Pre { label: String::from("rc"), fallback_rule: ConventionalRule::Minor },
    )
    .unwrap();

    assert_eq!(version, Version::parse("1.2.3-rc.0").unwrap());
}

#[test]
fn release_without_prerelease_is_identity() {
    let version = Version::new(1, 2, 3);
    let once = bump(version, Rule::Release).unwrap();
    assert_eq!(once, Version::new(1, 2, 3));

    let twice = bump(Version::parse("1.2.3-rc.0").unwrap(), Rule::Release).unwrap();
    let thrice = bump(twice, Rule::Release).unwrap();
    assert_eq!(thrice, Version::new(1, 2, 3));
}

#[test]
fn pre_with_malformed_existing_prerelease_fails() {
    let version = Version::parse("1.2.3-a.b.c").unwrap();
    let result = bump(
        version,
        Rule::Pre { label: String::from("rc"), fallback_rule: ConventionalRule::Minor },
    );
    assert_eq!(result.unwrap_err(), release_flow::error::StepError::PrereleaseNotIncrementable);

    let version = Version::parse("1.2.3-rc").unwrap();
    let result = bump(
        version,
        Rule::Pre { label: String::from("rc"), fallback_rule: ConventionalRule::Minor },
    );
    assert_eq!(result.unwrap_err(), release_flow::error::StepError::PrereleaseNotIncrementable);
}

#[test]
fn pre_with_non_numeric_suffix_fails() {
    let version = Version::parse("1.2.3-rc.x").unwrap();
    let result = bump(
        version,
        Rule::Pre { label: String::from("rc"), fallback_rule: ConventionalRule::Minor },
    );
    assert_eq!(result.unwrap_err(), release_flow::error::StepError::InvalidPrereleaseSuffix);
}

#[test]
fn pre_with_invalid_label_fails() {
    let version = Version::new(1, 2, 3);
    let result = bump(
        version,
        Rule::Pre { label: String::from("not label"), fallback_rule: ConventionalRule::Minor },
    );
    assert_eq!(
        result.unwrap_err(),
        release_flow::error::StepError::InvalidPrereleaseLabel { label: String::from("not label") }
    );
}

#[test]
fn parse_accepts_only_valid_versions() {
    assert!(Version::parse("1.2.3").is_some());
    assert!(Version::parse("0.0.0").is_some());
    assert!(Version::parse("1.2.3-rc.0").is_some());
    assert!(Version::parse("10.20.30-alpha-x.7").is_some());
    assert!(Version::parse("1.2").is_none());
    assert!(Version::parse("1.2.3.4").is_none());
    assert!(Version::parse("01.2.3").is_none());
    assert!(Version::parse("1.2.3-").is_none());
    assert!(Version::parse("1.2.3-rc..0").is_none());
    assert!(Version::parse("1.2.3-rc.01").is_none());
    assert!(Version::parse("").is_none());
    assert!(Version::parse("a.b.c").is_none());
}

#[test]
fn render_is_the_canonical_text() {
    assert_eq!(Version::new(1, 2, 3).render(), "1.2.3");
    assert_eq!(Version::parse("1.2.3-rc.0").unwrap().render(), "1.2.3-rc.0");
    assert_eq!(Version::parse("0.10.250-beta.19").unwrap().render(), "0.10.250-beta.19");
}

#[test]
fn default_conventional_rule_is_patch() {
    assert_eq!(ConventionalRule::default(), ConventionalRule::Patch);
    assert_eq!(Rule::from(ConventionalRule::Major), Rule::Major);
    assert_eq!(Rule::from(ConventionalRule::Minor), Rule::Minor);
    assert_eq!(Rule::from(ConventionalRule::Patch), Rule::Patch);
}
