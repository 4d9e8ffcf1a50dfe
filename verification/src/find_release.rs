//! Finding the newest release of the runner, and the archive to download.
//!
//! The release list is fetched by the caller. What is decided here: which
//! request to send, whether the answer is a list of releases, which release
//! and which of its archives is taken, and which version it carries.

use crate::error::Error;
use crate::http::{
    is_success, request_with_accept, status_is_success, DownloadOutcome, HttpOutcome, HttpRequest,
    HttpRequestView, Method,
};
use crate::json::{get_list, get_text, json_document, json_items, list_member, read, text_member};
use crate::text::{contains, is_infix, strip_prefix, without_prefix};
use vstd::prelude::*;

verus! {

/// One file of a release.
#[derive(Clone, Debug, PartialEq, Eq)]
pub struct Asset {
    pub name: String,
    pub url: String,
}

/// An `Asset` as mathematical values.
pub struct AssetView {
    pub name: Seq<char>,
    pub url: Seq<char>,
}

impl DeepView for Asset {
    type V = AssetView;

    open spec fn deep_view(&self) -> AssetView {
        AssetView { name: self.name@, url: self.url@ }
    }
}

/// One release, as the forge lists it.
#[derive(Clone, Debug, PartialEq, Eq)]
pub struct Release {
    pub name: String,
    pub assets: Vec<Asset>,
}

/// A `Release` as mathematical values.
pub struct ReleaseView {
    pub name: Seq<char>,
    pub assets: Seq<AssetView>,
}

impl DeepView for Release {
    type V = ReleaseView;

    open spec fn deep_view(&self) -> ReleaseView {
        ReleaseView { name: self.name@, assets: self.assets.deep_view() }
    }
}

/// The release that was picked: where its archive is, and its version.
#[derive(Clone, Debug, PartialEq, Eq)]
pub struct FoundRelease {
    pub url: String,
    pub version: String,
}

/// A `FoundRelease` as mathematical values.
pub struct FoundReleaseView {
    pub url: Seq<char>,
    pub version: Seq<char>,
}

impl View for FoundRelease {
    type V = FoundReleaseView;

    open spec fn view(&self) -> FoundReleaseView {
        FoundReleaseView { url: self.url@, version: self.version@ }
    }
}

impl FoundRelease {
    /// The version as the runner's own scripts print it.
    pub fn cli_version(&self) -> (version: &str)
        ensures
            version@ == self@.version,
    {
        self.version.as_str()
    }
}

/// The asset that `value` describes: an object with the texts `name` and
/// `url`.
pub open spec fn asset_in(value: serde_json::Value) -> Option<AssetView> {
    match (text_member(value, "name"@), text_member(value, "url"@)) {
        (Some(name), Some(url)) => Some(AssetView { name, url }),
        _ => None,
    }
}

/// The assets that `items` describe, in order; `None` where one of them
/// describes none.
pub open spec fn assets_in(items: Seq<serde_json::Value>) -> Option<Seq<AssetView>> {
    if forall|i: int| 0 <= i < items.len() ==> (#[trigger] asset_in(items[i])) is Some {
        Some(Seq::new(items.len(), |i: int| asset_in(items[i])->0))
    } else {
        None
    }
}

/// The release that `value` describes: an object with the text `name` and
/// the list `assets`, each element of which describes an asset.
pub open spec fn release_in(value: serde_json::Value) -> Option<ReleaseView> {
    match (text_member(value, "name"@), list_member(value, "assets"@)) {
        (Some(name), Some(items)) => match assets_in(items) {
            Some(assets) => Some(ReleaseView { name, assets }),
            None => None,
        },
        _ => None,
    }
}

/// The releases that `document` lists, in order: `document` is an array and
/// each of its elements describes a release.
pub open spec fn releases_in(document: serde_json::Value) -> Option<Seq<ReleaseView>> {
    match json_items(document) {
        Some(items) => if forall|i: int|
            0 <= i < items.len() ==> (#[trigger] release_in(items[i])) is Some {
            Some(Seq::new(items.len(), |i: int| release_in(items[i])->0))
        } else {
            None
        },
        None => None,
    }
}

/// Reads one asset out of its description.
pub fn decode_asset(value: &serde_json::Value) -> (asset: Option<Asset>)
    ensures
        asset.deep_view() == asset_in(*value),
{
    let name = match get_text(value, "name") {
        Some(name) => name,
        None => return None,
    };
    let url = match get_text(value, "url") {
        Some(url) => url,
        None => return None,
    };
    Some(Asset { name, url })
}

/// Reads the assets of a release out of their descriptions.
pub fn decode_assets(items: &Vec<serde_json::Value>) -> (assets: Option<Vec<Asset>>)
    ensures
        assets.deep_view() == assets_in(items@),
{
    let mut assets: Vec<Asset> = Vec::new();
    let mut index: usize = 0;
    while index < items.len()
        invariant
            index <= items.len(),
            assets.len() == index,
            forall|i: int| 0 <= i < index ==> (#[trigger] asset_in(items@[i])) is Some,
            forall|i: int| 0 <= i < index ==> (#[trigger] assets@[i]).deep_view() == asset_in(items@[i])->0,
        decreases items.len() - index,
    {
        match decode_asset(&items[index]) {
            Some(asset) => {
                assets.push(asset);
            },
            None => {
                return None;
            },
        }
        index = index + 1;
    }
    Some(assets)
}

/// Reads one release out of its description.
pub fn decode_release(value: &serde_json::Value) -> (release: Option<Release>)
    ensures
        release.deep_view() == release_in(*value),
{
    let name = match get_text(value, "name") {
        Some(name) => name,
        None => return None,
    };
    let items = match get_list(value, "assets") {
        Some(items) => items,
        None => return None,
    };
    match decode_assets(items) {
        Some(assets) => Some(Release { name, assets }),
        None => None,
    }
}

/// Reads the list of releases out of the document that the forge sent.
pub fn decode_releases(document: &serde_json::Value) -> (releases: Option<Vec<Release>>)
    ensures
        releases.deep_view() == releases_in(*document),
{
    let items = match document.as_array() {
        Some(items) => items,
        None => return None,
    };
    let mut releases: Vec<Release> = Vec::new();
    let mut index: usize = 0;
    while index < items.len()
        invariant
            index <= items.len(),
            releases.len() == index,
            json_items(*document) == Some(items@),
            forall|i: int| 0 <= i < index ==> (#[trigger] release_in(items@[i])) is Some,
            forall|i: int|
                0 <= i < index ==> (#[trigger] releases@[i]).deep_view() == release_in(items@[i])->0,
        decreases items.len() - index,
    {
        match decode_release(&items[index]) {
            Some(release) => {
                releases.push(release);
            },
            None => {
                return None;
            },
        }
        index = index + 1;
    }
    Some(releases)
}

/// What the name of an archive for this platform holds.
pub open spec fn platform_marker() -> Seq<char> {
    "osx-x64"@
}

/// What stands before the version in the name of a release.
pub open spec fn version_prefix() -> Seq<char> {
    "v"@
}

/// The asset at `index` is for this platform, and none before it is.
pub open spec fn is_first_platform_asset(assets: Seq<AssetView>, index: int) -> bool {
    &&& 0 <= index < assets.len()
    &&& is_infix(platform_marker(), assets[index].name)
    &&& forall|earlier: int|
        0 <= earlier < index ==> !is_infix(platform_marker(), #[trigger] assets[earlier].name)
}

/// The place of the first asset for this platform, if there is one.
pub open spec fn first_platform_asset(assets: Seq<AssetView>) -> Option<int> {
    if exists|index: int| is_first_platform_asset(assets, index) {
        Some(choose|index: int| is_first_platform_asset(assets, index))
    } else {
        None
    }
}

/// The release that a list of releases, newest first, gives: the first
/// release, its first asset for this platform, and the version that its name
/// carries behind the prefix.
pub open spec fn selected(releases: Seq<ReleaseView>) -> Result<FoundReleaseView, Error> {
    if releases.len() == 0 {
        Err(Error::FetchingGithubRunnerNoReleases)
    } else {
        let newest = releases[0];
        match first_platform_asset(newest.assets) {
            None => Err(Error::FetchingGithubRunnerNoReleases),
            Some(index) => match without_prefix(version_prefix(), newest.name) {
                None => Err(Error::FetchingGithubRunnerVersion),
                Some(version) => Ok(FoundReleaseView { url: newest.assets[index].url, version }),
            },
        }
    }
}

/// A result of `select_release` or `find_release` as mathematical values.
pub open spec fn found_view(found: Result<FoundRelease, Error>) -> Result<FoundReleaseView, Error> {
    match found {
        Ok(found) => Ok(found@),
        Err(error) => Err(error),
    }
}

/// What `selected` picks, said once more from the result's side.
///
/// A release that was picked comes from the first release of the list: its
/// archive is that of the first asset whose name holds the platform marker,
/// and its version is what follows the prefix in the name of the release.
/// Where the list is empty, or no asset of the first release holds the
/// marker, nothing is picked, whatever the later releases hold.
pub proof fn lemma_selected_is_first_match(releases: Seq<ReleaseView>)
    ensures
        match selected(releases) {
            Ok(found) => {
                &&& releases.len() > 0
                &&& releases[0].name == version_prefix() + found.version
                &&& exists|index: int|
                    is_first_platform_asset(releases[0].assets, index) && found.url
                        == releases[0].assets[index].url
            },
            Err(error) => {
                &&& error == Error::FetchingGithubRunnerNoReleases
                    || error == Error::FetchingGithubRunnerVersion
                &&& error == Error::FetchingGithubRunnerNoReleases <==> (releases.len() == 0
                    || forall|index: int|
                        0 <= index < releases[0].assets.len() ==> !is_infix(
                            platform_marker(),
                            #[trigger] releases[0].assets[index].name,
                        ))
            },
        },
{
    if releases.len() > 0 {
        let assets = releases[0].assets;
        if !exists|index: int| is_first_platform_asset(assets, index) {
            assert forall|index: int| 0 <= index < assets.len() implies !is_infix(
                platform_marker(),
                #[trigger] assets[index].name,
            ) by {
                lemma_no_first_means_none(assets, index);
            }
        }
    }
}

/// Where no asset is the first for this platform, none is for this platform.
proof fn lemma_no_first_means_none(assets: Seq<AssetView>, index: int)
    requires
        0 <= index < assets.len(),
        forall|first: int| !is_first_platform_asset(assets, first),
    ensures
        !is_infix(platform_marker(), assets[index].name),
    decreases index,
{
    if is_infix(platform_marker(), assets[index].name) {
        assert(!is_first_platform_asset(assets, index));
        let earlier = choose|earlier: int|
            0 <= earlier < index && is_infix(platform_marker(), #[trigger] assets[earlier].name);
        lemma_no_first_means_none(assets, earlier);
    }
}

/// Picks the release to install from the list of releases, newest first.
///
/// The first release decides. Of its assets the first whose name holds the
/// platform marker is taken, and no other: where none matches, there is no
/// release to install. The version is the name of the release without its
/// prefix.
pub fn select_release(releases: &Vec<Release>) -> (found: Result<FoundRelease, Error>)
    ensures
        found_view(found) == selected(releases.deep_view()),
{
    if releases.len() == 0 {
        return Err(Error::FetchingGithubRunnerNoReleases);
    }
    let newest = &releases[0];
    let ghost assets = newest.assets.deep_view();
    let mut index: usize = 0;
    while index < newest.assets.len()
        invariant
            index <= newest.assets.len(),
            releases.len() > 0,
            *newest == releases@[0],
            assets == newest.assets.deep_view(),
            forall|earlier: int|
                0 <= earlier < index ==> !is_infix(platform_marker(), #[trigger] assets[earlier].name),
        decreases newest.assets.len() - index,
    {
        let asset = &newest.assets[index];
        if contains(asset.name.as_str(), "osx-x64") {
            assert(is_first_platform_asset(assets, index as int));
            return match strip_prefix(newest.name.as_str(), "v") {
                Some(version) => Ok(FoundRelease { url: asset.url.clone(), version }),
                None => Err(Error::FetchingGithubRunnerVersion),
            };
        }
        index = index + 1;
    }
    Err(Error::FetchingGithubRunnerNoReleases)
}

/// Where the forge lists the releases of the runner.
pub open spec fn release_list_url() -> Seq<char> {
    "https://api.github.com/repos/actions/runner/releases"@
}

/// The request for the list of releases.
pub open spec fn release_list_request() -> HttpRequestView {
    HttpRequestView {
        method: Method::Get,
        url: release_list_url(),
        headers: seq![("Accept"@, "application/vnd.github.v3+json"@)],
    }
}

/// The request for the archive at `url`.
pub open spec fn archive_request(url: Seq<char>) -> HttpRequestView {
    HttpRequestView {
        method: Method::Get,
        url,
        headers: seq![("Accept"@, "application/octet-stream"@)],
    }
}

/// The request for the list of releases.
pub fn find_release_request() -> (request: HttpRequest)
    ensures
        request@ == release_list_request(),
{
    request_with_accept(
        Method::Get,
        "https://api.github.com/repos/actions/runner/releases".to_owned(),
        "application/vnd.github.v3+json",
    )
}

/// The release that the answer to `find_release_request` gives.
///
/// A request that was not sent or not answered, and an answer with a status
/// outside 200..=299, each give their own error. The body has to be a JSON
/// document that lists releases; from those, `selected` picks.
pub open spec fn found_in(outcome: HttpOutcome) -> Result<FoundReleaseView, Error> {
    match outcome {
        HttpOutcome::Rejected => Err(Error::InputError),
        HttpOutcome::Failed => Err(Error::FetchingGithubRunner),
        HttpOutcome::Responded { status, body } => if !is_success(status) {
            Err(Error::FetchingGithubRunnerStatus { code: status })
        } else {
            match json_document(body@) {
                None => Err(Error::FetchingGithubRunnerDecode),
                Some(document) => match releases_in(document) {
                    None => Err(Error::FetchingGithubRunnerDecode),
                    Some(releases) => selected(releases),
                },
            }
        },
    }
}

/// Finds the newest release of the runner in the answer to
/// `find_release_request`.
pub fn find_release(outcome: HttpOutcome) -> (found: Result<FoundRelease, Error>)
    ensures
        found_view(found) == found_in(outcome),
{
    match outcome {
        HttpOutcome::Rejected => Err(Error::InputError),
        HttpOutcome::Failed => Err(Error::FetchingGithubRunner),
        HttpOutcome::Responded { status, body } => {
            if !status_is_success(status) {
                return Err(Error::FetchingGithubRunnerStatus { code: status });
            }
            let document = match read(body.as_slice()) {
                Some(document) => document,
                None => return Err(Error::FetchingGithubRunnerDecode),
            };
            match decode_releases(&document) {
                Some(releases) => select_release(&releases),
                None => Err(Error::FetchingGithubRunnerDecode),
            }
        },
    }
}

/// The request for the archive of `found_release`.
pub fn download_release(found_release: &FoundRelease) -> (request: HttpRequest)
    ensures
        request@ == archive_request(found_release@.url),
{
    request_with_accept(Method::Get, found_release.url.clone(), "application/octet-stream")
}

/// Where the archive was saved, as a result of the download.
pub open spec fn archive_in(outcome: DownloadOutcome) -> Result<Seq<char>, Error> {
    match outcome {
        DownloadOutcome::Rejected => Err(Error::InputError),
        DownloadOutcome::Failed => Err(Error::FetchingGithubRunner),
        DownloadOutcome::Saved { path } => Ok(path@),
    }
}

/// Where the archive was saved, or why it was not.
pub fn downloaded_archive(outcome: DownloadOutcome) -> (archive: Result<String, Error>)
    ensures
        match archive {
            Ok(path) => archive_in(outcome) == Ok::<Seq<char>, Error>(path@),
            Err(error) => archive_in(outcome) == Err::<Seq<char>, Error>(error),
        },
{
    match outcome {
        DownloadOutcome::Rejected => Err(Error::InputError),
        DownloadOutcome::Failed => Err(Error::FetchingGithubRunner),
        DownloadOutcome::Saved { path } => Ok(path),
    }
}

} // verus!
