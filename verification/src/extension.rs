//! Downloader extensions: what the system tells an extension, the events a
//! registered handler's stream receives, and the decisions taken on the
//! handler's answers.

use vstd::prelude::*;

use crate::asset_pack::AssetPackSnapshot;
use crate::download::{ContentRequest, DownloadSnapshot};
use crate::error::{bridge_error, BackgroundAssetsError};

verus! {

broadcast use vstd::string::group_string_axioms;

/// How much an extension may still download, when the system restricts it.
#[derive(Clone, Debug, PartialEq, Eq)]
pub struct AppExtensionInfoSnapshot {
    pub restricted_download_size_remaining: Option<i64>,
    pub restricted_essential_download_size_remaining: Option<i64>,
}

impl Default for AppExtensionInfoSnapshot {
    fn default() -> (r: Self)
        ensures
            r.restricted_download_size_remaining is None,
            r.restricted_essential_download_size_remaining is None,
    {
        AppExtensionInfoSnapshot {
            restricted_download_size_remaining: None,
            restricted_essential_download_size_remaining: None,
        }
    }
}

/// How an authentication challenge is answered.
#[derive(Clone, Copy, Debug, PartialEq, Eq, Structural)]
pub enum ChallengeDisposition {
    UseCredential,
    PerformDefaultHandling,
    CancelAuthenticationChallenge,
    RejectProtectionSpace,
}

impl ChallengeDisposition {
    /// The raw value the framework takes for a disposition.
    pub open spec fn spec_as_raw(self) -> i32 {
        match self {
            ChallengeDisposition::UseCredential => 0,
            ChallengeDisposition::PerformDefaultHandling => 1,
            ChallengeDisposition::CancelAuthenticationChallenge => 2,
            ChallengeDisposition::RejectProtectionSpace => 3,
        }
    }

    /// The raw value the framework takes for the disposition.
    pub fn as_raw(self) -> (r: i32)
        ensures
            r == self.spec_as_raw(),
    {
        match self {
            ChallengeDisposition::UseCredential => 0,
            ChallengeDisposition::PerformDefaultHandling => 1,
            ChallengeDisposition::CancelAuthenticationChallenge => 2,
            ChallengeDisposition::RejectProtectionSpace => 3,
        }
    }
}

impl Default for ChallengeDisposition {
    fn default() -> (r: Self)
        ensures
            r == ChallengeDisposition::PerformDefaultHandling,
    {
        ChallengeDisposition::PerformDefaultHandling
    }
}

/// An authentication challenge that a download met.
#[derive(Clone, Debug, PartialEq, Eq)]
pub struct AuthenticationChallenge {
    pub host: String,
    pub authentication_method: String,
    pub previous_failure_count: i64,
    pub proposed_credential_user: Option<String>,
    pub proposed_credential_has_password: bool,
}

impl Default for AuthenticationChallenge {
    fn default() -> (r: Self)
        ensures
            r.host@.len() == 0,
            r.authentication_method@.len() == 0,
            r.previous_failure_count == 0,
            r.proposed_credential_user is None,
            !r.proposed_credential_has_password,
    {
        AuthenticationChallenge {
            host: String::new(),
            authentication_method: String::new(),
            previous_failure_count: 0,
            proposed_credential_user: None,
            proposed_credential_has_password: false,
        }
    }
}

/// What happened in a downloader extension, as its event stream reports it.
#[derive(Clone, Debug, PartialEq, Eq)]
pub enum ExtensionEvent {
    ShouldDownloadAssetPack {
        asset_pack: AssetPackSnapshot,
        should_download: bool,
    },
    DownloadsRequested {
        request: ContentRequest,
        manifest_url: String,
        extension_info: AppExtensionInfoSnapshot,
        planned_downloads: Vec<DownloadSnapshot>,
    },
    DownloadPlanFailed {
        request: ContentRequest,
        manifest_url: String,
        error: BackgroundAssetsError,
    },
    ChallengeRequested {
        download: DownloadSnapshot,
        challenge: AuthenticationChallenge,
        disposition: ChallengeDisposition,
    },
    DownloadFailed {
        download: DownloadSnapshot,
        error: BackgroundAssetsError,
    },
    DownloadFinished {
        download: DownloadSnapshot,
        file_url: String,
    },
    Terminating,
}

/// The message for an essential download in a plan whose request does not
/// allow one.
pub open spec fn essential_plan_message() -> Seq<char> {
    "essential downloads are only allowed for install and update content requests"@
}

/// The message for a download-plan handler that panicked.
pub open spec fn plan_panic_message() -> Seq<char> {
    "download plan handler panicked across the FFI boundary"@
}

/// A plan for `request` is acceptable: it holds an essential download only
/// when the request allows essential downloads.
pub open spec fn plan_is_acceptable(request: ContentRequest, downloads: Seq<DownloadSnapshot>) -> bool {
    request.spec_allows_essential_downloads()
        || forall|i: int| 0 <= i < downloads.len() ==> !(#[trigger] downloads[i]).is_essential
}

/// Checks a download plan: a request that does not allow essential
/// downloads refuses a plan that holds one.
pub fn check_download_plan(request: ContentRequest, downloads: &[DownloadSnapshot]) -> (r: Result<(), BackgroundAssetsError>)
    ensures
        plan_is_acceptable(request, downloads@) ==> r is Ok,
        !plan_is_acceptable(request, downloads@) ==> (r matches Err(e) && e@ == bridge_error(essential_plan_message())),
{
    if request.allows_essential_downloads() {
        return Ok(());
    }
    let mut i: usize = 0;
    while i < downloads.len()
        invariant
            !request.spec_allows_essential_downloads(),
            i <= downloads@.len(),
            forall|j: int| 0 <= j < i ==> !(#[trigger] downloads@[j]).is_essential,
        decreases downloads@.len() - i,
    {
        if downloads[i].is_essential {
            return Err(BackgroundAssetsError::invalid_argument(String::from_str(
                "essential downloads are only allowed for install and update content requests",
            )));
        }
        i = i + 1;
    }
    Ok(())
}

/// The answer to whether an asset pack is downloaded: the handler's, or yes
/// when the handler gave none.
pub open spec fn should_download_answer(answer: Option<bool>) -> bool {
    match answer {
        Some(b) => b,
        None => true,
    }
}

/// Decides whether a managed extension downloads an asset pack, from what
/// its handler answered (nothing when it panicked), and the event that
/// reports it.
pub fn should_download_outcome(asset_pack: AssetPackSnapshot, answer: Option<bool>) -> (r: (ExtensionEvent, bool))
    ensures
        r.1 == should_download_answer(answer),
        r.0 == (ExtensionEvent::ShouldDownloadAssetPack { asset_pack, should_download: r.1 }),
{
    let should_download = match answer {
        Some(b) => b,
        None => true,
    };
    (ExtensionEvent::ShouldDownloadAssetPack { asset_pack, should_download }, should_download)
}

/// The disposition for a challenge: the handler's, or the default handling
/// when the handler gave none.
pub open spec fn challenge_answer(answer: Option<ChallengeDisposition>) -> ChallengeDisposition {
    match answer {
        Some(d) => d,
        None => ChallengeDisposition::PerformDefaultHandling,
    }
}

/// Decides how a challenge is answered, from what the handler answered
/// (nothing when it panicked): the event that reports it, and the raw
/// disposition handed to the framework.
pub fn challenge_outcome(
    download: DownloadSnapshot,
    challenge: AuthenticationChallenge,
    answer: Option<ChallengeDisposition>,
) -> (r: (ExtensionEvent, i32))
    ensures
        r.0 == (ExtensionEvent::ChallengeRequested { download, challenge, disposition: challenge_answer(answer) }),
        r.1 == challenge_answer(answer).spec_as_raw(),
{
    let disposition = match answer {
        Some(d) => d,
        None => ChallengeDisposition::default(),
    };
    let raw = disposition.as_raw();
    (ExtensionEvent::ChallengeRequested { download, challenge, disposition }, raw)
}

/// Decides the outcome of a download plan: what the handler answered
/// (nothing when it panicked), checked against the request. An accepted plan
/// is reported with the downloads it holds and comes back `true`; a refused
/// or failed one is reported with its error and comes back `false`.
pub fn download_plan_outcome(
    request: ContentRequest,
    manifest_url: String,
    extension_info: AppExtensionInfoSnapshot,
    answer: Option<Result<Vec<DownloadSnapshot>, BackgroundAssetsError>>,
) -> (r: (ExtensionEvent, bool))
    ensures
        match answer {
            None => !r.1 && (r.0 matches ExtensionEvent::DownloadPlanFailed { request: q, manifest_url: u, error }
                && q == request && u == manifest_url && error@ == bridge_error(plan_panic_message())),
            Some(Err(e)) => !r.1 && r.0 == (ExtensionEvent::DownloadPlanFailed { request, manifest_url, error: e }),
            Some(Ok(downloads)) => if plan_is_acceptable(request, downloads@) {
                r.1 && r.0 == (ExtensionEvent::DownloadsRequested {
                    request,
                    manifest_url,
                    extension_info,
                    planned_downloads: downloads,
                })
            } else {
                !r.1 && (r.0 matches ExtensionEvent::DownloadPlanFailed { request: q, manifest_url: u, error }
                    && q == request && u == manifest_url && error@ == bridge_error(essential_plan_message()))
            },
        },
{
    match answer {
        None => {
            let error = BackgroundAssetsError::message(String::from_str(
                "download plan handler panicked across the FFI boundary",
            ));
            (ExtensionEvent::DownloadPlanFailed { request, manifest_url, error }, false)
        },
        Some(Err(error)) => (ExtensionEvent::DownloadPlanFailed { request, manifest_url, error }, false),
        Some(Ok(downloads)) => match check_download_plan(request, downloads.as_slice()) {
            Ok(()) => (
                ExtensionEvent::DownloadsRequested {
                    request,
                    manifest_url,
                    extension_info,
                    planned_downloads: downloads,
                },
                true,
            ),
            Err(error) => (ExtensionEvent::DownloadPlanFailed { request, manifest_url, error }, false),
        },
    }
}

/// A plan without essential downloads is acceptable for every request,
/// and install and update requests accept every plan.
pub proof fn law_plans_without_essential_downloads_pass(request: ContentRequest, downloads: Seq<DownloadSnapshot>)
    ensures
        (forall|i: int| 0 <= i < downloads.len() ==> !(#[trigger] downloads[i]).is_essential)
            ==> plan_is_acceptable(request, downloads),
        (request is Install || request is Update) ==> plan_is_acceptable(request, downloads),
{
}

/// A request that does not allow essential downloads (neither install nor
/// update) refuses every plan with an essential download, wherever it
/// stands in the plan, and reports it as a failed plan.
pub proof fn law_essential_download_refused_outside_install_and_update(
    request: ContentRequest,
    downloads: Seq<DownloadSnapshot>,
    i: int,
)
    requires
        !(request is Install || request is Update),
        0 <= i < downloads.len(),
        downloads[i].is_essential,
    ensures
        !plan_is_acceptable(request, downloads),
{
}

/// The handler's answer decides whether an asset pack is downloaded: yes
/// when it says yes, no when it says no, and yes only when it gave none.
pub proof fn law_handler_answer_decides_download(answer: Option<bool>)
    ensures
        answer == Some(true) ==> should_download_answer(answer),
        answer == Some(false) ==> !should_download_answer(answer),
        answer is None ==> should_download_answer(answer),
        answer matches Some(b) ==> should_download_answer(answer) == b,
{
}

} // verus!
