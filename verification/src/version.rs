//! The version banner: where the game shows its own version ("Ver."), the
//! modification's version and its assets' version are added beneath it.
use vstd::prelude::*;
use crate::text::{contains_pattern, contains_str, trim, trim_str};

verus! {

/// The text that marks the game's version string.
pub open spec fn version_marker() -> Seq<char> {
    "Ver."@
}

/// Shown for a version whose file could not be read.
pub open spec fn unknown_version() -> Seq<char> {
    "UNKNOWN"@
}

/// The version that a version file records: its contents trimmed, or
/// `UNKNOWN` where the file could not be read.
pub open spec fn spec_version_or_unknown(contents: Option<Seq<char>>) -> Seq<char> {
    match contents {
        Some(c) => trim(c),
        None => unknown_version(),
    }
}

/// The banner shown in place of the game's version string `game_version`.
pub open spec fn spec_version_banner(
    game_version: Seq<char>,
    hdr_version: Seq<char>,
    assets_version: Seq<char>,
) -> Seq<char> {
    game_version + "\nHDR Ver. "@ + hdr_version + "\nAssets Ver. "@ + assets_version + "\0"@
}

/// Tests whether `game_version` is the game's version string.
pub fn needs_version_banner(game_version: &str) -> (needed: bool)
    ensures
        needed == contains_pattern(game_version@, version_marker()),
{
    contains_str(game_version, "Ver.")
}

/// The version recorded in a version file whose contents were read
/// (`Some`) or could not be read (`None`).
pub fn version_or_unknown(contents: Option<&str>) -> (version: String)
    ensures
        version@ == spec_version_or_unknown(
            match contents {
                Some(c) => Some(c@),
                None => None,
            },
        ),
{
    match contents {
        Some(c) => trim_str(c),
        None => String::from_str("UNKNOWN"),
    }
}

/// The game's version string followed by the modification's and the
/// assets' versions, NUL-terminated.
pub fn version_banner(game_version: &str, hdr_version: &str, assets_version: &str) -> (banner: String)
    ensures
        banner@ == spec_version_banner(game_version@, hdr_version@, assets_version@),
{
    let mut banner = String::from_str(game_version);
    banner.append("\nHDR Ver. ");
    banner.append(hdr_version);
    banner.append("\nAssets Ver. ");
    banner.append(assets_version);
    banner.append("\0");
    banner
}

/// What replaces the game's version string, and whether to warn that the
/// assets package is not enabled (its version file could not be read).
pub struct VersionBanner {
    pub text: String,
    pub warn_assets_disabled: bool,
}

/// The banner built from the two version files: the modification's
/// (`hdr_file`) and the assets' (`assets_file`), each read or not.
pub fn banner_from_files(
    game_version: &str,
    hdr_file: Option<&str>,
    assets_file: Option<&str>,
) -> (banner: VersionBanner)
    ensures
        banner.text@ == spec_version_banner(
            game_version@,
            spec_version_or_unknown(
                match hdr_file {
                    Some(c) => Some(c@),
                    None => None,
                },
            ),
            spec_version_or_unknown(
                match assets_file {
                    Some(c) => Some(c@),
                    None => None,
                },
            ),
        ),
        banner.warn_assets_disabled == hdr_file.is_none(),
{
    let assets_version = version_or_unknown(assets_file);
    let hdr_version = version_or_unknown(hdr_file);
    let text = version_banner(game_version, hdr_version.as_str(), assets_version.as_str());
    VersionBanner { text, warn_assets_disabled: hdr_file.is_none() }
}

/// The warning shown when the modification's version file is missing.
pub fn assets_disabled_warning() -> (message: &'static str)
    ensures
        message@ == "hdr-assets is not enabled! Please enable hdr-assets in arcropolis config."@,
{
    "hdr-assets is not enabled! Please enable hdr-assets in arcropolis config."
}

/// The banner begins with the game's own version string, unchanged, and
/// ends with a NUL terminator.
pub proof fn lemma_banner_keeps_game_version(
    game_version: Seq<char>,
    hdr_version: Seq<char>,
    assets_version: Seq<char>,
)
    ensures
        ({
            let b = spec_version_banner(game_version, hdr_version, assets_version);
            &&& b.subrange(0, game_version.len() as int) == game_version
            &&& b.last() == '\0'
        }),
{
    reveal_strlit("\0");
    reveal_strlit("\nHDR Ver. ");
    reveal_strlit("\nAssets Ver. ");
    let b = spec_version_banner(game_version, hdr_version, assets_version);
    assert(b.subrange(0, game_version.len() as int) =~= game_version);
}

/// A version read from a file is shown without surrounding whitespace.
pub proof fn lemma_version_is_trimmed(contents: Seq<char>)
    ensures
        ({
            let v = spec_version_or_unknown(Some(contents));
            v.len() > 0 ==> !crate::text::is_whitespace(v[0]) && !crate::text::is_whitespace(
                v.last(),
            )
        }),
{
    crate::text::lemma_trim_has_no_outer_whitespace(contents);
}

/// Where each part stands in the banner: the game's text, then the
/// modification's version after "\nHDR Ver. " (10 characters), then the
/// assets' version after "\nAssets Ver. " (13 characters), then a NUL.
pub proof fn lemma_banner_layout(
    game_version: Seq<char>,
    hdr_version: Seq<char>,
    assets_version: Seq<char>,
)
    ensures
        ({
            let b = spec_version_banner(game_version, hdr_version, assets_version);
            let g = game_version.len() as int;
            let h = hdr_version.len() as int;
            let a = assets_version.len() as int;
            &&& b.len() == g + h + a + 24
            &&& b.subrange(0, g) == game_version
            &&& b.subrange(g + 10, g + 10 + h) == hdr_version
            &&& b.subrange(g + 10 + h + 13, g + 10 + h + 13 + a) == assets_version
            &&& b[g] == '\n' && b[g + 10 + h] == '\n'
            &&& b[b.len() - 1] == '\0'
        }),
{
    reveal_strlit("\0");
    reveal_strlit("\nHDR Ver. ");
    reveal_strlit("\nAssets Ver. ");
    let b = spec_version_banner(game_version, hdr_version, assets_version);
    let g = game_version.len() as int;
    let h = hdr_version.len() as int;
    let a = assets_version.len() as int;
    assert(b.subrange(0, g) =~= game_version);
    assert(b.subrange(g + 10, g + 10 + h) =~= hdr_version);
    assert(b.subrange(g + 10 + h + 13, g + 10 + h + 13 + a) =~= assets_version);
}

/// A version read from a file is its contents with whitespace removed from
/// the two ends only: a contiguous piece of the contents, everything cut
/// off is whitespace, and it neither starts nor ends with whitespace.
pub proof fn lemma_version_is_contents_trimmed(contents: Seq<char>)
    ensures
        ({
            let v = spec_version_or_unknown(Some(contents));
            &&& exists|i: int, j: int|
                0 <= i <= j <= contents.len() && v == contents.subrange(i, j) && (forall|q: int|
                    0 <= q < i ==> crate::text::is_whitespace(#[trigger] contents[q])) && (forall|
                    q: int,
                |
                    j <= q < contents.len() ==> crate::text::is_whitespace(#[trigger] contents[q]))
            &&& v.len() > 0 ==> !crate::text::is_whitespace(v[0]) && !crate::text::is_whitespace(
                v.last(),
            )
        }),
{
    crate::text::lemma_trim_has_no_outer_whitespace(contents);
    crate::text::lemma_trim_cuts_only_whitespace(contents);
}

} // verus!
