//! What the program knows about newer releases of itself, and the names
//! it looks for among the release files.

use vstd::prelude::*;

use crate::text::{contains, join_str, occurs_at, spec_contains, str_eq};

verus! {

/// The newest release as far as it is known.
pub struct UpdateInfo {
    pub current_version: String,
    pub latest_version: Option<String>,
    pub download_url: Option<String>,
    pub release_notes: Option<String>,
}

/// A file attached to a release.
pub struct ReleaseAsset {
    pub name: String,
    pub download_url: String,
}

/// The release file published for a system, named as Rust's
/// `std::env::consts` names it (`os`, `arch`), if one is published.
pub open spec fn spec_release_file(os: Seq<char>, arch: Seq<char>) -> Option<Seq<char>> {
    if os == "windows"@ {
        Some("p2p-voice-windows.exe"@)
    } else if os == "linux"@ {
        Some("p2p-voice-linux"@)
    } else if os == "macos"@ && arch == "aarch64"@ {
        Some("p2p-voice-macos-arm64"@)
    } else if os == "macos"@ && arch == "x86_64"@ {
        Some("p2p-voice-macos-x86_64"@)
    } else {
        None
    }
}

/// The text that the release file for a system carries in its name:
/// `windows` on Windows; on macOS `macos-arm64` or `macos-x86_64` after
/// the processor, `macos` for any other; `linux` everywhere else.
pub open spec fn spec_target_match(os: Seq<char>, arch: Seq<char>) -> Seq<char> {
    if os == "windows"@ {
        "windows"@
    } else if os == "macos"@ {
        if arch == "aarch64"@ {
            "macos-arm64"@
        } else if arch == "x86_64"@ {
            "macos-x86_64"@
        } else {
            "macos"@
        }
    } else {
        "linux"@
    }
}

/// The text that release files for this system carry in their names;
/// `os` and `arch` are the system and processor as Rust's
/// `std::env::consts` names them.
pub fn get_target_match(os: &str, arch: &str) -> (target: &'static str)
    ensures
        target@ == spec_target_match(os@, arch@),
        spec_release_file(os@, arch@) matches Some(file) ==> spec_contains(file, target@),
{
    proof {
        if spec_release_file(os@, arch@) is Some {
            law_target_names_release_file(os@, arch@);
        }
    }
    if str_eq(os, "windows") {
        "windows"
    } else if str_eq(os, "macos") {
        if str_eq(arch, "aarch64") {
            "macos-arm64"
        } else if str_eq(arch, "x86_64") {
            "macos-x86_64"
        } else {
            "macos"
        }
    } else {
        "linux"
    }
}

/// The release file published for a system carries that system's target
/// text in its name, so the updater picks it.
pub proof fn law_target_names_release_file(os: Seq<char>, arch: Seq<char>)
    requires
        spec_release_file(os, arch) is Some,
    ensures
        spec_contains(spec_release_file(os, arch)->0, spec_target_match(os, arch)),
{
    reveal_strlit("windows");
    reveal_strlit("linux");
    reveal_strlit("macos");
    reveal_strlit("aarch64");
    reveal_strlit("x86_64");
    reveal_strlit("macos-arm64");
    reveal_strlit("macos-x86_64");
    reveal_strlit("p2p-voice-windows.exe");
    reveal_strlit("p2p-voice-linux");
    reveal_strlit("p2p-voice-macos-arm64");
    reveal_strlit("p2p-voice-macos-x86_64");
    if os == "windows"@ {
        assert("p2p-voice-windows.exe"@.subrange(10, 17) =~= "windows"@);
        assert(occurs_at("p2p-voice-windows.exe"@, "windows"@, 10));
    } else if os == "linux"@ {
        assert("p2p-voice-linux"@.subrange(10, 15) =~= "linux"@);
        assert(occurs_at("p2p-voice-linux"@, "linux"@, 10));
        assert("linux"@[0] != "macos"@[0]);
    } else if arch == "aarch64"@ {
        assert("p2p-voice-macos-arm64"@.subrange(10, 21) =~= "macos-arm64"@);
        assert(occurs_at("p2p-voice-macos-arm64"@, "macos-arm64"@, 10));
    } else {
        assert("p2p-voice-macos-x86_64"@.subrange(10, 22) =~= "macos-x86_64"@);
        assert(occurs_at("p2p-voice-macos-x86_64"@, "macos-x86_64"@, 10));
    }
}

/// Placed at `i` of `hay`, `needle` differs from it at `k1` or at `k2`.
spec fn differs_at(hay: Seq<char>, needle: Seq<char>, i: int, k1: int, k2: int) -> bool {
    hay[i + k1] != needle[k1] || hay[i + k2] != needle[k2]
}

/// `needle` is nowhere in `hay` when at every place where it would fit
/// one of its characters at `k1` or `k2` differs.
proof fn lemma_absent(hay: Seq<char>, needle: Seq<char>, k1: int, k2: int)
    requires
        0 <= k1 < needle.len(),
        0 <= k2 < needle.len(),
        forall|i: int|
            0 <= i && i + needle.len() <= hay.len() ==> #[trigger] differs_at(hay, needle, i, k1, k2),
    ensures
        !spec_contains(hay, needle),
{
    assert forall|i: int| !occurs_at(hay, needle, i) by {
        if occurs_at(hay, needle, i) {
            assert(differs_at(hay, needle, i, k1, k2));
            assert(hay.subrange(i, i + needle.len())[k1] == needle[k1]);
            assert(hay.subrange(i, i + needle.len())[k2] == needle[k2]);
        }
    }
}

/// No other published release file carries a system's target text, so
/// whatever the order of the files, the updater picks the system's own.
pub proof fn law_target_names_no_other_file(
    os: Seq<char>,
    arch: Seq<char>,
    other_os: Seq<char>,
    other_arch: Seq<char>,
)
    requires
        spec_release_file(os, arch) is Some,
        spec_release_file(other_os, other_arch) is Some,
        spec_release_file(os, arch) != spec_release_file(other_os, other_arch),
    ensures
        !spec_contains(spec_release_file(other_os, other_arch)->0, spec_target_match(os, arch)),
{
    reveal_strlit("windows");
    reveal_strlit("linux");
    reveal_strlit("macos");
    reveal_strlit("aarch64");
    reveal_strlit("x86_64");
    reveal_strlit("macos-arm64");
    reveal_strlit("macos-x86_64");
    reveal_strlit("p2p-voice-windows.exe");
    reveal_strlit("p2p-voice-linux");
    reveal_strlit("p2p-voice-macos-arm64");
    reveal_strlit("p2p-voice-macos-x86_64");
    assert("linux"@[0] != "macos"@[0]);
    let hay = spec_release_file(other_os, other_arch)->0;
    let needle = spec_target_match(os, arch);
    if hay == "p2p-voice-macos-x86_64"@ && needle == "macos-arm64"@ {
        lemma_absent(hay, needle, 0, 6);
    } else {
        lemma_absent(hay, needle, 0, 0);
    }
}

/// The name of the program file: `p2p-voice` followed by the system's
/// executable suffix.
pub fn bin_name(exe_suffix: &str) -> (name: String)
    ensures
        name@ == "p2p-voice"@ + exe_suffix@,
{
    join_str("p2p-voice", exe_suffix)
}

/// The download address of the first file whose name contains `target`.
pub open spec fn spec_find_asset(assets: Seq<(Seq<char>, Seq<char>)>, target: Seq<char>) -> Option<
    Seq<char>,
>
    decreases assets.len(),
{
    if assets.len() == 0 {
        None
    } else if spec_contains(assets[0].0, target) {
        Some(assets[0].1)
    } else {
        spec_find_asset(assets.drop_first(), target)
    }
}

/// Names and download addresses of release files.
pub open spec fn assets_view(assets: Seq<ReleaseAsset>) -> Seq<(Seq<char>, Seq<char>)> {
    assets.map_values(|a: ReleaseAsset| (a.name@, a.download_url@))
}

/// The download address of the first release file whose name contains
/// `target`.
pub fn find_asset_url(assets: &Vec<ReleaseAsset>, target: &str) -> (url: Option<String>)
    ensures
        url matches Some(u) ==> spec_find_asset(assets_view(assets@), target@) == Some(u@),
        url is None ==> spec_find_asset(assets_view(assets@), target@) is None,
{
    let mut i: usize = 0;
    assert(assets_view(assets@).subrange(0, assets@.len() as int) =~= assets_view(assets@));
    while i < assets.len()
        invariant
            i <= assets@.len(),
            spec_find_asset(assets_view(assets@), target@) == spec_find_asset(
                assets_view(assets@).subrange(i as int, assets@.len() as int),
                target@,
            ),
        decreases assets@.len() - i,
    {
        let ghost rest = assets_view(assets@).subrange(i as int, assets@.len() as int);
        assert(rest[0] == (assets@[i as int].name@, assets@[i as int].download_url@));
        if contains(assets[i].name.as_str(), target) {
            return Some(assets[i].download_url.clone());
        }
        assert(rest.drop_first() =~= assets_view(assets@).subrange(i + 1, assets@.len() as int));
        i = i + 1;
    }
    None
}

/// Is `name` the name of a release file published for some system?
pub open spec fn is_release_file(name: Seq<char>) -> bool {
    exists|os: Seq<char>, arch: Seq<char>| spec_release_file(os, arch) == Some(name)
}

/// The download address of the first file called exactly `name`.
pub open spec fn spec_url_of(assets: Seq<(Seq<char>, Seq<char>)>, name: Seq<char>) -> Option<
    Seq<char>,
>
    decreases assets.len(),
{
    if assets.len() == 0 {
        None
    } else if assets[0].0 == name {
        Some(assets[0].1)
    } else {
        spec_url_of(assets.drop_first(), name)
    }
}

/// Among release files that are all published ones, in any order, the
/// search by this system's target text finds the address of this
/// system's own file (and nothing when it is missing).
pub proof fn law_updater_picks_own_file(
    assets: Seq<(Seq<char>, Seq<char>)>,
    os: Seq<char>,
    arch: Seq<char>,
)
    requires
        spec_release_file(os, arch) is Some,
        forall|i: int| 0 <= i < assets.len() ==> is_release_file(#[trigger] assets[i].0),
    ensures
        spec_find_asset(assets, spec_target_match(os, arch)) == spec_url_of(
            assets,
            spec_release_file(os, arch)->0,
        ),
    decreases assets.len(),
{
    if assets.len() > 0 {
        let own = spec_release_file(os, arch)->0;
        let name = assets[0].0;
        if name == own {
            law_target_names_release_file(os, arch);
        } else {
            assert(is_release_file(assets[0].0));
            let (o, a) = choose|o: Seq<char>, a: Seq<char>| spec_release_file(o, a) == Some(name);
            law_target_names_no_other_file(os, arch, o, a);
            let rest = assets.drop_first();
            assert forall|i: int| 0 <= i < rest.len() implies is_release_file(#[trigger] rest[i].0) by {
                assert(rest[i] == assets[i + 1]);
            }
            law_updater_picks_own_file(rest, os, arch);
        }
    }
}

impl UpdateInfo {
    /// Nothing known yet about releases newer than `current_version`.
    pub fn new(current_version: &str) -> (info: Self)
        ensures
            info.current_version@ == current_version@,
            info.latest_version is None,
            info.download_url is None,
            info.release_notes is None,
    {
        UpdateInfo {
            current_version: current_version.to_owned(),
            latest_version: None,
            download_url: None,
            release_notes: None,
        }
    }

    /// Is a release other than the running one known?
    pub fn update_available(&self) -> (yes: bool)
        ensures
            yes == (self.latest_version matches Some(l) && l@ != self.current_version@),
    {
        match &self.latest_version {
            Some(l) => !str_eq(l.as_str(), self.current_version.as_str()),
            None => false,
        }
    }

    /// Record the newest release: its version, the file for this system
    /// and its notes.
    pub fn record_release(
        &mut self,
        version: String,
        assets: &Vec<ReleaseAsset>,
        notes: Option<String>,
        target: &str,
    )
        ensures
            final(self).current_version == old(self).current_version,
            final(self).latest_version == Some(version),
            final(self).release_notes == notes,
            final(self).download_url matches Some(u) ==> spec_find_asset(
                assets_view(assets@),
                target@,
            ) == Some(u@),
            final(self).download_url is None ==> spec_find_asset(
                assets_view(assets@),
                target@,
            ) is None,
    {
        self.latest_version = Some(version);
        self.download_url = find_asset_url(assets, target);
        self.release_notes = notes;
    }
}

/// Is `version` a test release (it mentions `beta` or `alpha`)? The
/// interface shows such a version in a warning colour.
pub fn is_prerelease(version: &str) -> (pre: bool)
    ensures
        pre == (spec_contains(version@, "beta"@) || spec_contains(version@, "alpha"@)),
{
    contains(version, "beta") || contains(version, "alpha")
}

/// Whether the update dialog is shown after a frame: once shown it stays
/// until dismissed; otherwise it opens when an update is available.
pub fn update_dialog_visible(shown: bool, info: &UpdateInfo) -> (visible: bool)
    ensures
        visible == (shown || (info.latest_version matches Some(l) && l@
            != info.current_version@)),
{
    shown || info.update_available()
}

} // verus!
