use release_script::bump_type::BumpType;
use release_script::error::ReleaseError;
use release_script::semantic_version::{decimal_string, SemanticVersion};
use release_script::version_manager::{
    check_canonical, increment_major, increment_minor, increment_patch, increment_version,
    next_version, parse_version,
};

fn version(major: u64, minor: u64, patch: u64, pre: &str, build: &str) -> SemanticVersion {
    SemanticVersion { major, minor, patch, pre: pre.to_string(), build: build.to_string() }
}

#[test]
fn decimal_of_small_and_large_numbers() {
    assert_eq!(decimal_string(0), "0");
    assert_eq!(decimal_string(7), "7");
    assert_eq!(decimal_string(9), "9");
    assert_eq!(decimal_string(10), "10");
    assert_eq!(decimal_string(109), "109");
    assert_eq!(decimal_string(1234567890), "1234567890");
    assert_eq!(decimal_string(u64::MAX), "18446744073709551615");
}

#[test]
fn decimal_agrees_with_the_standard_formatting() {
    let mut n: u64 = 1;
    for _ in 0..64 {
        assert_eq!(decimal_string(n), format!("{}", n));
        assert_eq!(decimal_string(n - 1), format!("{}", n - 1));
        n = n.wrapping_mul(2);
    }
}

#[test]
fn new_version_has_no_tags() {
    assert_eq!(SemanticVersion::new(1, 2, 3), version(1, 2, 3, "", ""));
}

#[test]
fn canonical_text_of_a_plain_version() {
    assert_eq!(SemanticVersion::new(1, 2, 3).to_string(), "1.2.3");
    assert_eq!(SemanticVersion::new(0, 0, 0).to_string(), "0.0.0");
    assert_eq!(SemanticVersion::new(10, 200, 3000).to_string(), "10.200.3000");
}

#[test]
fn canonical_text_with_tags() {
    assert_eq!(version(1, 2, 3, "alpha.1", "").to_string(), "1.2.3-alpha.1");
    assert_eq!(version(1, 2, 3, "", "build.5").to_string(), "1.2.3+build.5");
    assert_eq!(version(1, 2, 3, "rc.2", "exp.sha.5114f85").to_string(), "1.2.3-rc.2+exp.sha.5114f85");
}

#[test]
fn patch_bump_keeps_major_and_minor() {
    let mut v = version(1, 2, 3, "", "");
    increment_patch(&mut v);
    assert_eq!(v, version(1, 2, 4, "", ""));
}

#[test]
fn minor_bump_resets_patch() {
    let mut v = version(1, 2, 3, "", "");
    increment_minor(&mut v);
    assert_eq!(v, version(1, 3, 0, "", ""));
}

#[test]
fn major_bump_resets_minor_and_patch() {
    let mut v = version(1, 2, 3, "", "");
    increment_major(&mut v);
    assert_eq!(v, version(2, 0, 0, "", ""));
}

#[test]
fn every_bump_clears_the_tags() {
    let mut a = version(1, 2, 3, "alpha.1", "build.5");
    increment_patch(&mut a);
    assert_eq!(a, version(1, 2, 4, "", ""));
    let mut b = version(1, 2, 3, "alpha.1", "build.5");
    increment_minor(&mut b);
    assert_eq!(b, version(1, 3, 0, "", ""));
    let mut c = version(1, 2, 3, "alpha.1", "build.5");
    increment_major(&mut c);
    assert_eq!(c, version(2, 0, 0, "", ""));
}

#[test]
fn bump_from_zero() {
    let mut v = version(0, 0, 0, "", "");
    increment_patch(&mut v);
    assert_eq!(v, version(0, 0, 1, "", ""));
    increment_minor(&mut v);
    assert_eq!(v, version(0, 1, 0, "", ""));
    increment_major(&mut v);
    assert_eq!(v, version(1, 0, 0, "", ""));
}

#[test]
fn next_version_writes_the_bumped_version() {
    assert_eq!(next_version(version(1, 2, 3, "", ""), BumpType::PATCH), Ok("1.2.4".to_string()));
    assert_eq!(next_version(version(1, 2, 3, "", ""), BumpType::MINOR), Ok("1.3.0".to_string()));
    assert_eq!(next_version(version(1, 2, 3, "", ""), BumpType::MAJOR), Ok("2.0.0".to_string()));
    assert_eq!(
        next_version(version(1, 9, 99, "beta", "7"), BumpType::PATCH),
        Ok("1.9.100".to_string())
    );
}

#[test]
fn next_version_at_the_largest_number() {
    let top = u64::MAX;
    assert_eq!(
        next_version(version(top, 0, 0, "", ""), BumpType::MAJOR),
        Err(ReleaseError::VersionOverflow)
    );
    assert_eq!(
        next_version(version(0, top, 0, "", ""), BumpType::MINOR),
        Err(ReleaseError::VersionOverflow)
    );
    assert_eq!(
        next_version(version(0, 0, top, "", ""), BumpType::PATCH),
        Err(ReleaseError::VersionOverflow)
    );
    assert_eq!(
        next_version(version(top, top, top - 1, "", ""), BumpType::PATCH),
        Ok(format!("{}.{}.{}", top, top, top))
    );
    assert_eq!(
        next_version(version(top, 5, top, "", ""), BumpType::MINOR),
        Ok(format!("{}.6.0", top))
    );
}

#[test]
fn parse_reads_the_three_numbers() {
    assert_eq!(parse_version("1.2.3"), Ok(version(1, 2, 3, "", "")));
    assert_eq!(parse_version("0.0.0"), Ok(version(0, 0, 0, "", "")));
    assert_eq!(
        parse_version("18446744073709551615.0.7"),
        Ok(version(u64::MAX, 0, 7, "", ""))
    );
}

#[test]
fn parse_reads_the_tags() {
    assert_eq!(parse_version("1.2.3-alpha.1"), Ok(version(1, 2, 3, "alpha.1", "")));
    assert_eq!(parse_version("1.2.3+build.5"), Ok(version(1, 2, 3, "", "build.5")));
    assert_eq!(
        parse_version("1.2.3-rc.2+exp.sha.5114f85"),
        Ok(version(1, 2, 3, "rc.2", "exp.sha.5114f85"))
    );
}

#[test]
fn parse_rejects_what_is_no_version() {
    for text in ["", "1", "1.2", "1.q.r", "01.2.3", "1.2.3-", "1.2.3+", " 1.2.3", "1.2.3 ", "v1.2.3",
        "1.2.3-01", "18446744073709551616.0.0", "1.2.3.4"]
    {
        assert!(
            matches!(parse_version(text), Err(ReleaseError::VersionParse { .. })),
            "{:?}",
            text
        );
    }
}

#[test]
fn parse_error_carries_the_reason() {
    match parse_version("1.q.r") {
        Err(ReleaseError::VersionParse { detail }) => {
            assert_eq!(detail, "unexpected character 'q' while parsing minor version number");
        }
        other => panic!("{:?}", other),
    }
}

#[test]
fn parsing_then_writing_gives_the_text_back() {
    for text in ["1.2.3", "0.0.0", "10.20.30", "1.2.3-alpha", "1.2.3-alpha.1", "1.2.3-0.3.7",
        "1.2.3-x.7.z.92", "1.2.3+20130313144700", "1.2.3-beta+exp.sha.5114f85", "1.0.0+21AF26D3",
        "1.0.0-x-y-z.--", "18446744073709551615.18446744073709551615.18446744073709551615"]
    {
        let parsed = parse_version(text).unwrap();
        assert_eq!(parsed.to_string(), text);
    }
}

#[test]
fn written_version_is_what_semver_writes() {
    for text in ["1.2.3", "0.0.0", "10.20.30", "1.2.3-alpha.1", "1.2.3+build.5",
        "1.2.3-rc.2+exp.sha.5114f85", "18446744073709551615.0.1"]
    {
        let theirs = semver::Version::parse(text).unwrap();
        let ours = parse_version(text).unwrap();
        assert_eq!(ours.major, theirs.major);
        assert_eq!(ours.minor, theirs.minor);
        assert_eq!(ours.patch, theirs.patch);
        assert_eq!(ours.pre, theirs.pre.as_str());
        assert_eq!(ours.build, theirs.build.as_str());
        assert_eq!(ours.to_string(), theirs.to_string());
    }
}

#[test]
fn check_canonical_compares_with_the_written_version() {
    assert_eq!(check_canonical("1.2.3", version(1, 2, 3, "", "")), Ok(version(1, 2, 3, "", "")));
    assert!(matches!(
        check_canonical("1.2.03", version(1, 2, 3, "", "")),
        Err(ReleaseError::VersionParse { .. })
    ));
    assert!(matches!(
        check_canonical("1.2.3", version(1, 2, 3, "pre", "")),
        Err(ReleaseError::VersionParse { .. })
    ));
}

#[test]
fn increment_patch_of_1_2_3() {
    assert_eq!(increment_version("1.2.3", BumpType::PATCH), Ok("1.2.4".to_string()));
}

#[test]
fn increment_minor_of_1_2_3() {
    assert_eq!(increment_version("1.2.3", BumpType::MINOR), Ok("1.3.0".to_string()));
}

#[test]
fn increment_major_of_1_2_3() {
    assert_eq!(increment_version("1.2.3", BumpType::MAJOR), Ok("2.0.0".to_string()));
}

#[test]
fn increment_drops_the_tags() {
    assert_eq!(
        increment_version("1.2.3-alpha.1+build.5", BumpType::PATCH),
        Ok("1.2.4".to_string())
    );
    assert_eq!(increment_version("2.0.0-rc.1", BumpType::MAJOR), Ok("3.0.0".to_string()));
    assert_eq!(increment_version("0.9.9+7", BumpType::MINOR), Ok("0.10.0".to_string()));
}

#[test]
fn increment_carries_into_more_digits() {
    assert_eq!(increment_version("9.9.9", BumpType::PATCH), Ok("9.9.10".to_string()));
    assert_eq!(increment_version("9.99.9", BumpType::MINOR), Ok("9.100.0".to_string()));
    assert_eq!(increment_version("999.9.9", BumpType::MAJOR), Ok("1000.0.0".to_string()));
}

#[test]
fn increment_rejects_an_unreadable_version() {
    assert!(matches!(
        increment_version("not a version", BumpType::PATCH),
        Err(ReleaseError::VersionParse { .. })
    ));
    assert!(matches!(
        increment_version("", BumpType::MAJOR),
        Err(ReleaseError::VersionParse { .. })
    ));
}

#[test]
fn increment_at_the_largest_number() {
    assert_eq!(
        increment_version("18446744073709551615.0.0", BumpType::MAJOR),
        Err(ReleaseError::VersionOverflow)
    );
    assert_eq!(
        increment_version("18446744073709551615.0.0", BumpType::MINOR),
        Ok("18446744073709551615.1.0".to_string())
    );
    assert_eq!(
        increment_version("1.2.18446744073709551615", BumpType::PATCH),
        Err(ReleaseError::VersionOverflow)
    );
}

#[test]
fn bump_type_reads_its_three_names() {
    assert_eq!(BumpType::parse("major"), Ok(BumpType::MAJOR));
    assert_eq!(BumpType::parse("minor"), Ok(BumpType::MINOR));
    assert_eq!(BumpType::parse("patch"), Ok(BumpType::PATCH));
}

#[test]
fn bump_type_rejects_every_other_word() {
    for word in ["", "Major", "MAJOR", "majo", "majors", " major", "patch\n", "build", "1"] {
        assert_eq!(BumpType::parse(word), Err(ReleaseError::Input), "{:?}", word);
    }
}
