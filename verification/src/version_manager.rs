//! The version engine: reads the current version, applies the bump rule and
//! rewrites the version declaration in the manifest and in the chart.

use vstd::prelude::*;
use vstd::string::*;

use crate::bump_type::BumpType;
use crate::error::ReleaseError;
use crate::semantic_version::{bumped, canonical_text, component, SemanticVersion, VersionView};
use crate::text::same_text;

verus! {

/// The index of the line that declares the version in the manifest.
pub const MANIFEST_VERSION_LINE: usize = 2;

/// The index of the line that declares the application version in the chart.
pub const CHART_VERSION_LINE: usize = 20;

/// The error of `semver`'s parser, carried through unread.
#[verifier::external_type_specification]
#[verifier::external_body]
pub struct ExSemverError(semver::Error);

/// What `semver::Version::parse` makes of `text`: the version it reads, or
/// nothing where it rejects the text.
pub uninterp spec fn semver_parsed(text: Seq<char>) -> Option<VersionView>;

/// Calls `semver::Version::parse`. The parser is a function of the text
/// alone; the contract gives its outcome the name [`semver_parsed`] and
/// claims nothing else of it.
#[verifier::external_body]
fn semver_parse(text: &str) -> (r: Result<SemanticVersion, semver::Error>)
    ensures
        match r {
            Ok(v) => semver_parsed(text@) == Some(v@),
            Err(_) => semver_parsed(text@) is None,
        },
{
    match semver::Version::parse(text) {
        Ok(v) => Ok(
            SemanticVersion {
                major: v.major,
                minor: v.minor,
                patch: v.patch,
                pre: v.pre.as_str().to_string(),
                build: v.build.as_str().to_string(),
            },
        ),
        Err(e) => Err(e),
    }
}

/// Renders a `semver::Error` through its `Display` impl. Nothing is claimed
/// of the text.
#[verifier::external_body]
fn semver_error_text(error: &semver::Error) -> String {
    error.to_string()
}

/// The version that `text` stands for: the one the parser reads from it,
/// provided that `text` is the canonical text of that version.
pub open spec fn accepted_version(text: Seq<char>) -> Option<VersionView> {
    match semver_parsed(text) {
        Some(v) => if canonical_text(v) == text {
            Some(v)
        } else {
            None
        },
        None => None,
    }
}

/// Whether `change` can be applied to `v` without leaving the range of the
/// component.
pub open spec fn can_bump(v: VersionView, change: BumpType) -> bool {
    component(v, change) < u64::MAX
}

/// Parsing a text and writing the version back yields the same text.
pub proof fn lemma_parse_then_serialize(text: Seq<char>)
    requires
        accepted_version(text) is Some,
    ensures
        canonical_text(accepted_version(text)->0) == text,
{
}

/// Accepts a parsed version if `text` is its canonical text.
pub fn check_canonical(text: &str, parsed: SemanticVersion) -> (r: Result<
    SemanticVersion,
    ReleaseError,
>)
    ensures
        match r {
            Ok(v) => v == parsed && canonical_text(parsed@) == text@,
            Err(e) => e is VersionParse && canonical_text(parsed@) != text@,
        },
{
    let rendered: String = parsed.to_string();
    if same_text(rendered.as_str(), text) {
        Ok(parsed)
    } else {
        Err(
            ReleaseError::VersionParse {
                detail: String::from_str("the version is not in canonical form"),
            },
        )
    }
}

/// Reads a semantic version from its canonical text.
pub fn parse_version(text: &str) -> (r: Result<SemanticVersion, ReleaseError>)
    ensures
        match r {
            Ok(v) => accepted_version(text@) == Some(v@) && canonical_text(v@) == text@,
            Err(e) => e is VersionParse && accepted_version(text@) is None,
        },
{
    match semver_parse(text) {
        Ok(parsed) => check_canonical(text, parsed),
        Err(error) => Err(ReleaseError::VersionParse { detail: semver_error_text(&error) }),
    }
}

/// Increases the patch number and clears both tags.
pub fn increment_patch(v: &mut SemanticVersion)
    requires
        old(v).patch < u64::MAX,
    ensures
        final(v)@ == bumped(old(v)@, BumpType::PATCH),
{
    v.patch += 1;
    v.pre = String::new();
    v.build = String::new();
}

/// Increases the minor number, resets the patch number and clears both tags.
pub fn increment_minor(v: &mut SemanticVersion)
    requires
        old(v).minor < u64::MAX,
    ensures
        final(v)@ == bumped(old(v)@, BumpType::MINOR),
{
    v.minor += 1;
    v.patch = 0;
    v.pre = String::new();
    v.build = String::new();
}

/// Increases the major number, resets the numbers below it and clears both
/// tags.
pub fn increment_major(v: &mut SemanticVersion)
    requires
        old(v).major < u64::MAX,
    ensures
        final(v)@ == bumped(old(v)@, BumpType::MAJOR),
{
    v.major += 1;
    v.minor = 0;
    v.patch = 0;
    v.pre = String::new();
    v.build = String::new();
}

/// Applies the bump rule to `current` and writes the new version out. Fails
/// only where the component to increase already holds the largest number.
pub fn next_version(current: SemanticVersion, version_change: BumpType) -> (r: Result<
    String,
    ReleaseError,
>)
    ensures
        match r {
            Ok(text) => can_bump(current@, version_change) && text@ == canonical_text(
                bumped(current@, version_change),
            ),
            Err(e) => e == ReleaseError::VersionOverflow && !can_bump(current@, version_change),
        },
{
    let mut version: SemanticVersion = current;
    match version_change {
        BumpType::MAJOR => {
            if version.major == u64::MAX {
                return Err(ReleaseError::VersionOverflow);
            }
            increment_major(&mut version);
        },
        BumpType::MINOR => {
            if version.minor == u64::MAX {
                return Err(ReleaseError::VersionOverflow);
            }
            increment_minor(&mut version);
        },
        BumpType::PATCH => {
            if version.patch == u64::MAX {
                return Err(ReleaseError::VersionOverflow);
            }
            increment_patch(&mut version);
        },
    }
    Ok(version.to_string())
}

/// Computes the text of the version that follows `current_version` under
/// the directive `version_change`.
pub fn increment_version(current_version: &str, version_change: BumpType) -> (r: Result<
    String,
    ReleaseError,
>)
    ensures
        match accepted_version(current_version@) {
            None => r matches Err(e) && e is VersionParse,
            Some(v) => if can_bump(v, version_change) {
                r matches Ok(text) && text@ == canonical_text(bumped(v, version_change))
            } else {
                r matches Err(e) && e == ReleaseError::VersionOverflow
            },
        },
{
    match parse_version(current_version) {
        Ok(current) => next_version(current, version_change),
        Err(e) => Err(e),
    }
}

/// The line that declares `version` in the manifest, without its line end.
pub open spec fn version_line(version: Seq<char>) -> Seq<char> {
    "version = \""@ + version + "\""@
}

/// The line that declares `version` in the chart, without its line end.
pub open spec fn chart_version_line(version: Seq<char>) -> Seq<char> {
    "appVersion: "@ + version
}

/// `lines` with the line at `index` replaced by `line`; unchanged where
/// `lines` has no such line.
pub open spec fn replace_line(lines: Seq<Seq<char>>, index: int, line: Seq<char>) -> Seq<
    Seq<char>,
> {
    if 0 <= index < lines.len() {
        lines.update(index, line)
    } else {
        lines
    }
}

/// Every line of `lines` followed by a line feed.
pub open spec fn terminated(lines: Seq<Seq<char>>) -> Seq<Seq<char>> {
    Seq::new(lines.len(), |i: int| lines[i] + "\n"@)
}

/// The lines of the manifest once it declares `version`.
pub open spec fn updated_manifest(lines: Seq<Seq<char>>, version: Seq<char>) -> Seq<Seq<char>> {
    replace_line(lines, MANIFEST_VERSION_LINE as int, version_line(version))
}

/// The lines of the chart once it declares `version`.
pub open spec fn updated_chart(lines: Seq<Seq<char>>, version: Seq<char>) -> Seq<Seq<char>> {
    replace_line(lines, CHART_VERSION_LINE as int, chart_version_line(version))
}

/// Replacing a line keeps the number of lines and leaves every other line
/// as it was; the line at `index`, where there is one, becomes `line`.
pub proof fn lemma_replace_line_changes_one_line(
    lines: Seq<Seq<char>>,
    index: int,
    line: Seq<char>,
)
    ensures
        replace_line(lines, index, line).len() == lines.len(),
        forall|i: int|
            0 <= i < lines.len() && i != index ==> #[trigger] replace_line(lines, index, line)[i]
                == lines[i],
        0 <= index < lines.len() ==> replace_line(lines, index, line)[index] == line,
{
}

/// Rewriting the manifest keeps the number of lines and leaves every line
/// but the version declaration as it was; the declaration, where the
/// manifest is long enough to hold it, names the new version.
pub proof fn lemma_manifest_rewrite_changes_one_line(lines: Seq<Seq<char>>, version: Seq<char>)
    ensures
        updated_manifest(lines, version).len() == lines.len(),
        forall|i: int|
            0 <= i < lines.len() && i != MANIFEST_VERSION_LINE ==> #[trigger] updated_manifest(
                lines,
                version,
            )[i] == lines[i],
        MANIFEST_VERSION_LINE < lines.len() ==> updated_manifest(
            lines,
            version,
        )[MANIFEST_VERSION_LINE as int] == version_line(version),
{
}

/// The lines to write back: `lines` with the line at `index` replaced by
/// `line`, each followed by a line feed.
pub fn rewrite_line(lines: &Vec<String>, index: usize, line: &str) -> (r: Vec<String>)
    ensures
        r.len() == lines.len(),
        r.deep_view() == terminated(replace_line(lines.deep_view(), index as int, line@)),
{
    let mut out: Vec<String> = Vec::new();
    let mut i: usize = 0;
    while i < lines.len()
        invariant
            i <= lines.len(),
            out.len() == i,
            forall|j: int|
                0 <= j < i ==> (#[trigger] out@[j])@ == replace_line(
                    lines.deep_view(),
                    index as int,
                    line@,
                )[j] + "\n"@,
        decreases lines.len() - i,
    {
        let mut current: String = if i == index {
            String::from_str(line)
        } else {
            lines[i].clone()
        };
        current.append("\n");
        out.push(current);
        i += 1;
    }
    assert(out.deep_view() =~= terminated(replace_line(lines.deep_view(), index as int, line@)));
    out
}

/// The lines to write back to the manifest so that it declares
/// `new_version`.
pub fn update_version(lines: &Vec<String>, new_version: &str) -> (r: Vec<String>)
    ensures
        r.len() == lines.len(),
        r.deep_view() == terminated(updated_manifest(lines.deep_view(), new_version@)),
{
    let mut line: String = String::from_str("version = \"");
    line.append(new_version);
    line.append("\"");
    rewrite_line(lines, MANIFEST_VERSION_LINE, line.as_str())
}

/// The lines to write back to the chart so that it declares `new_version`,
/// or nothing where there is no chart.
pub fn update_chart_version_if_available(chart: Option<&Vec<String>>, new_version: &str) -> (r:
    Option<Vec<String>>)
    ensures
        match chart {
            Some(lines) => r matches Some(out) && out.len() == lines.len() && out.deep_view()
                == terminated(updated_chart(lines.deep_view(), new_version@)),
            None => r is None,
        },
{
    match chart {
        Some(lines) => {
            let mut line: String = String::from_str("appVersion: ");
            line.append(new_version);
            Some(rewrite_line(lines, CHART_VERSION_LINE, line.as_str()))
        },
        None => None,
    }
}

} // verus!
