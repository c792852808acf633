//! The download model: content requests, download states and priorities,
//! download snapshots, and the checks a URL download passes before the
//! framework is asked to create it.

use std::collections::BTreeMap;

use vstd::prelude::*;

use crate::error::{bridge_error, law_text_refused_iff_it_holds_nul, nul_check, required_cstring, BackgroundAssetsError};

verus! {

broadcast use vstd::string::group_string_axioms;

/// Why the system asks for content.
#[derive(Clone, Copy, Debug, PartialEq, Eq, Structural)]
pub enum ContentRequest {
    Install,
    Update,
    Periodic,
    Unknown(isize),
}

impl ContentRequest {
    /// The raw value of a request.
    pub open spec fn spec_as_raw(self) -> isize {
        match self {
            ContentRequest::Install => 1,
            ContentRequest::Update => 2,
            ContentRequest::Periodic => 3,
            ContentRequest::Unknown(v) => v,
        }
    }

    /// The request a raw value stands for.
    pub open spec fn spec_from_raw(value: isize) -> Self {
        if value == 1 {
            ContentRequest::Install
        } else if value == 2 {
            ContentRequest::Update
        } else if value == 3 {
            ContentRequest::Periodic
        } else {
            ContentRequest::Unknown(value)
        }
    }

    /// Whether a download plan for this request may hold essential
    /// downloads: only install and update requests allow them.
    pub open spec fn spec_allows_essential_downloads(self) -> bool {
        self is Install || self is Update
    }

    /// The raw value of the request.
    pub fn as_raw(self) -> (r: isize)
        ensures
            r == self.spec_as_raw(),
    {
        match self {
            ContentRequest::Install => 1,
            ContentRequest::Update => 2,
            ContentRequest::Periodic => 3,
            ContentRequest::Unknown(v) => v,
        }
    }

    /// The request a raw value stands for; values other than 1, 2 and 3
    /// are kept as unknown requests.
    pub fn from_raw(value: isize) -> (r: Self)
        ensures
            r == Self::spec_from_raw(value),
    {
        if value == 1 {
            ContentRequest::Install
        } else if value == 2 {
            ContentRequest::Update
        } else if value == 3 {
            ContentRequest::Periodic
        } else {
            ContentRequest::Unknown(value)
        }
    }

    /// Whether a download plan for this request may hold essential
    /// downloads.
    pub fn allows_essential_downloads(self) -> (r: bool)
        ensures
            r == self.spec_allows_essential_downloads(),
    {
        match self {
            ContentRequest::Install | ContentRequest::Update => true,
            _ => false,
        }
    }
}

/// The state of a download.
#[derive(Clone, Copy, Debug, PartialEq, Eq, Structural)]
pub enum DownloadStatus {
    Failed,
    Created,
    Waiting,
    Downloading,
    Finished,
    Unknown(i64),
}

impl DownloadStatus {
    /// The state a raw value stands for.
    pub open spec fn spec_from_raw(value: i64) -> Self {
        if value == -1 {
            DownloadStatus::Failed
        } else if value == 0 {
            DownloadStatus::Created
        } else if value == 1 {
            DownloadStatus::Waiting
        } else if value == 2 {
            DownloadStatus::Downloading
        } else if value == 3 {
            DownloadStatus::Finished
        } else {
            DownloadStatus::Unknown(value)
        }
    }

    /// The state a raw value stands for; values other than -1 to 3 are
    /// kept as unknown states.
    pub fn from_raw(value: i64) -> (r: Self)
        ensures
            r == Self::spec_from_raw(value),
    {
        if value == -1 {
            DownloadStatus::Failed
        } else if value == 0 {
            DownloadStatus::Created
        } else if value == 1 {
            DownloadStatus::Waiting
        } else if value == 2 {
            DownloadStatus::Downloading
        } else if value == 3 {
            DownloadStatus::Finished
        } else {
            DownloadStatus::Unknown(value)
        }
    }
}

/// The priority of a download, by its raw value.
#[derive(Clone, Copy, Debug, PartialEq, Eq, Structural)]
pub struct DownloadPriority(pub i64);

impl DownloadPriority {
    /// The priority with the given raw value.
    pub fn new(raw_value: i64) -> (r: Self)
        ensures
            r.0 == raw_value,
    {
        DownloadPriority(raw_value)
    }

    /// The raw value of the priority.
    pub fn raw_value(self) -> (r: i64)
        ensures
            r == self.0,
    {
        self.0
    }
}

/// The metadata of a download, taken at one moment.
#[derive(Clone, Debug, PartialEq, Eq)]
pub struct DownloadSnapshot {
    pub identifier: String,
    pub unique_identifier: String,
    pub status: DownloadStatus,
    pub priority: DownloadPriority,
    pub is_essential: bool,
    pub is_url_download: bool,
}

/// How a URL download is fetched: the HTTP method, the request headers,
/// whether it is essential, and its priority.
#[derive(Clone, Debug, PartialEq, Eq)]
pub struct UrlDownloadOptions {
    pub method: String,
    pub headers: BTreeMap<String, String>,
    pub essential: bool,
    pub priority: DownloadPriority,
}

impl UrlDownloadOptions {
    /// The default options at the given priority: a `GET` with no headers,
    /// not essential. The framework's default priority is what callers
    /// usually pass.
    pub fn defaults(priority: DownloadPriority) -> (r: Self)
        ensures
            r.method@ == "GET"@,
            r.headers@.len() == 0,
            r.headers@.dom() == Set::<String>::empty(),
            !r.essential,
            r.priority == priority,
    {
        UrlDownloadOptions {
            method: String::from_str("GET"),
            headers: BTreeMap::new(),
            essential: false,
            priority,
        }
    }
}

/// The JSON text that `serde_json` writes for a map of header names to
/// values.
pub uninterp spec fn headers_json_text(headers: Map<Seq<char>, Seq<char>>) -> Seq<char>;

/// The error type of `serde_json`.
#[verifier::external_type_specification]
#[verifier::external_body]
pub struct ExJsonError(serde_json::Error);

/// Writes the headers as a JSON object with `serde_json::to_string`. That
/// function fails only when a `Serialize` impl fails or a map has keys that
/// are not strings, neither of which a map of strings to strings can do; so
/// it succeeds, with the text `serde_json` writes for those headers. That
/// text never holds a NUL character, which `serde_json` escapes as
/// `\u0000`, and an empty map is written `{}`.
#[verifier::external_body]
fn headers_to_json(headers: &BTreeMap<String, String>) -> (r: Result<String, serde_json::Error>)
    ensures
        r is Ok,
        r matches Ok(s) ==> s@ == headers_json_text(headers.deep_view()),
        r matches Ok(s) ==> !s@.contains('\0'),
        r matches Ok(s) ==> (headers@.dom() == Set::<String>::empty() ==> s@ == "{}"@),
{
    serde_json::to_string(headers)
}

/// A URL download that passed every check, in the form the framework
/// bridge takes it.
#[derive(Clone, Debug, PartialEq, Eq)]
pub struct UrlDownloadRequest {
    pub identifier: String,
    pub url: String,
    pub method: String,
    pub headers_json: String,
    pub file_size: u64,
    pub app_group_id: String,
    pub essential: bool,
    pub priority: isize,
}

/// What a checked URL download request holds.
pub struct UrlDownloadRequestView {
    pub identifier: Seq<char>,
    pub url: Seq<char>,
    pub method: Seq<char>,
    pub headers_json: Seq<char>,
    pub file_size: u64,
    pub app_group_id: Seq<char>,
    pub essential: bool,
    pub priority: isize,
}

impl View for UrlDownloadRequest {
    type V = UrlDownloadRequestView;

    open spec fn view(&self) -> UrlDownloadRequestView {
        UrlDownloadRequestView {
            identifier: self.identifier@,
            url: self.url@,
            method: self.method@,
            headers_json: self.headers_json@,
            file_size: self.file_size,
            app_group_id: self.app_group_id@,
            essential: self.essential,
            priority: self.priority,
        }
    }
}

/// An ASCII letter in lower case; other characters stay.
pub open spec fn ascii_lower(c: char) -> char {
    if 'A' <= c && c <= 'Z' {
        ((c as u32) + 32) as char
    } else {
        c
    }
}

/// The URL's scheme is `https`, in any case: the text starts with `https:`.
pub open spec fn has_https_scheme(url: Seq<char>) -> bool {
    &&& url.len() >= 6
    &&& ascii_lower(url[0]) == 'h'
    &&& ascii_lower(url[1]) == 't'
    &&& ascii_lower(url[2]) == 't'
    &&& ascii_lower(url[3]) == 'p'
    &&& ascii_lower(url[4]) == 's'
    &&& url[5] == ':'
}

/// Whether the URL's scheme is `https`.
pub fn is_https_url(url: &str) -> (r: bool)
    ensures
        r == has_https_scheme(url@),
{
    let chars = crate::text::chars_of(url);
    if chars.len() < 6 {
        return false;
    }
    lower(chars[0]) == 'h' && lower(chars[1]) == 't' && lower(chars[2]) == 't' && lower(chars[3]) == 'p'
        && lower(chars[4]) == 's' && chars[5] == ':'
}

fn lower(c: char) -> (r: char)
    ensures
        r == ascii_lower(c),
{
    if 'A' <= c && c <= 'Z' {
        ((c as u32) + 32) as u8 as char
    } else {
        c
    }
}

/// The message for a URL whose scheme is not `https`.
pub open spec fn https_message() -> Seq<char> {
    "url must use the https scheme"@
}

/// The message for a file size outside `1..=isize::MAX`.
pub open spec fn file_size_message() -> Seq<char> {
    "file_size must be between 1 and isize::MAX"@
}

/// The message for a priority outside the framework's range.
pub open spec fn priority_range_message() -> Seq<char> {
    "priority must be between DownloadPriority::min() and DownloadPriority::max()"@
}

/// The message for a priority that does not fit the bridge's integer.
pub open spec fn priority_overflow_message() -> Seq<char> {
    "download priority is out of range"@
}

/// What checking a URL download gives, in order: each text is free of NUL
/// bytes (identifier, URL, method, the headers' JSON, app group), the
/// headers were written as JSON, the priority fits `isize`, the file size is
/// within `1..=isize::MAX`, the priority is within `min..=max`, and the
/// URL's scheme is `https`. The first check that fails gives its message.
pub open spec fn url_download_outcome(
    identifier: Seq<char>,
    url: Seq<char>,
    method: Seq<char>,
    headers_json: Result<Seq<char>, Seq<char>>,
    file_size: u64,
    app_group_id: Seq<char>,
    essential: bool,
    priority: i64,
    min_priority: i64,
    max_priority: i64,
) -> Result<UrlDownloadRequestView, Seq<char>> {
    match nul_check(identifier, "identifier"@) {
        Some(m) => Err(m),
        None => match nul_check(url, "url"@) {
            Some(m) => Err(m),
            None => match nul_check(method, "method"@) {
                Some(m) => Err(m),
                None => match headers_json {
                    Err(m) => Err(m),
                    Ok(json) => match nul_check(json, "headers"@) {
                        Some(m) => Err(m),
                        None => match nul_check(app_group_id, "app_group_id"@) {
                            Some(m) => Err(m),
                            None => if !(isize::MIN <= priority <= isize::MAX) {
                                Err(priority_overflow_message())
                            } else if !(1 <= file_size <= isize::MAX) {
                                Err(file_size_message())
                            } else if !(min_priority <= priority <= max_priority) {
                                Err(priority_range_message())
                            } else if !has_https_scheme(url) {
                                Err(https_message())
                            } else {
                                Ok(UrlDownloadRequestView {
                                    identifier,
                                    url,
                                    method,
                                    headers_json: json,
                                    file_size,
                                    app_group_id,
                                    essential,
                                    priority: priority as isize,
                                })
                            },
                        },
                    },
                },
            },
        },
    }
}

/// Why a URL download whose headers are written as JSON is refused, if it
/// is: the first of these that fails gives its message. Each text is free of
/// NUL bytes (identifier, URL, method, app group; the headers' JSON always
/// is), the priority fits `isize`, the file size is within
/// `1..=isize::MAX`, the priority is within `min..=max`, and the URL's
/// scheme is `https`.
pub open spec fn url_download_refusal(
    identifier: Seq<char>,
    url: Seq<char>,
    method: Seq<char>,
    file_size: u64,
    app_group_id: Seq<char>,
    priority: i64,
    min_priority: i64,
    max_priority: i64,
) -> Option<Seq<char>> {
    if nul_check(identifier, "identifier"@) is Some {
        nul_check(identifier, "identifier"@)
    } else if nul_check(url, "url"@) is Some {
        nul_check(url, "url"@)
    } else if nul_check(method, "method"@) is Some {
        nul_check(method, "method"@)
    } else if nul_check(app_group_id, "app_group_id"@) is Some {
        nul_check(app_group_id, "app_group_id"@)
    } else if !(isize::MIN <= priority <= isize::MAX) {
        Some(priority_overflow_message())
    } else if !(1 <= file_size <= isize::MAX) {
        Some(file_size_message())
    } else if !(min_priority <= priority <= max_priority) {
        Some(priority_range_message())
    } else if !has_https_scheme(url) {
        Some(https_message())
    } else {
        None
    }
}

/// `r` is what `outcome` says: the request it describes, or an error of the
/// bridge with its message.
pub open spec fn matches_outcome(
    r: Result<UrlDownloadRequest, BackgroundAssetsError>,
    outcome: Result<UrlDownloadRequestView, Seq<char>>,
) -> bool {
    match outcome {
        Ok(v) => r matches Ok(q) && q@ == v,
        Err(m) => r matches Err(e) && e@ == bridge_error(m),
    }
}

impl UrlDownloadRequest {
    /// Checks a URL download, given the text its headers were written to as
    /// JSON (or the text of the error that writing them gave) and the
    /// framework's lowest and highest priorities.
    pub fn from_parts(
        identifier: &str,
        url: &str,
        file_size: u64,
        app_group_id: &str,
        options: UrlDownloadOptions,
        headers_json: Result<String, String>,
        min_priority: DownloadPriority,
        max_priority: DownloadPriority,
    ) -> (r: Result<Self, BackgroundAssetsError>)
        ensures
            matches_outcome(
                r,
                url_download_outcome(
                    identifier@,
                    url@,
                    options.method@,
                    match headers_json {
                        Ok(s) => Ok(s@),
                        Err(m) => Err(m@),
                    },
                    file_size,
                    app_group_id@,
                    options.essential,
                    options.priority.0,
                    min_priority.0,
                    max_priority.0,
                ),
            ),
    {
        let identifier = match required_cstring(identifier, "identifier") {
            Ok(s) => s,
            Err(e) => return Err(e),
        };
        let url = match required_cstring(url, "url") {
            Ok(s) => s,
            Err(e) => return Err(e),
        };
        let method = match required_cstring(options.method.as_str(), "method") {
            Ok(s) => s,
            Err(e) => return Err(e),
        };
        let json = match headers_json {
            Ok(s) => s,
            Err(m) => return Err(BackgroundAssetsError::invalid_argument(m)),
        };
        let headers_json = match required_cstring(json.as_str(), "headers") {
            Ok(s) => s,
            Err(e) => return Err(e),
        };
        let app_group_id = match required_cstring(app_group_id, "app_group_id") {
            Ok(s) => s,
            Err(e) => return Err(e),
        };
        let raw = options.priority.0;
        if raw < isize::MIN as i64 || raw > isize::MAX as i64 {
            return Err(BackgroundAssetsError::invalid_argument(
                String::from_str("download priority is out of range"),
            ));
        }
        if file_size < 1 || file_size > isize::MAX as u64 {
            return Err(BackgroundAssetsError::invalid_argument(
                String::from_str("file_size must be between 1 and isize::MAX"),
            ));
        }
        if raw < min_priority.0 || raw > max_priority.0 {
            return Err(BackgroundAssetsError::invalid_argument(
                String::from_str("priority must be between DownloadPriority::min() and DownloadPriority::max()"),
            ));
        }
        if !is_https_url(url.as_str()) {
            return Err(BackgroundAssetsError::invalid_argument(String::from_str("url must use the https scheme")));
        }
        Ok(UrlDownloadRequest {
            identifier,
            url,
            method,
            headers_json,
            file_size,
            app_group_id,
            essential: options.essential,
            priority: raw as isize,
        })
    }

    /// Checks a URL download: writes its headers as JSON with `serde_json`,
    /// then checks it as [`UrlDownloadRequest::from_parts`] does.
    /// Writing a map of strings always succeeds, so the outcome is the one
    /// for the headers' JSON text.
    pub fn validate(
        identifier: &str,
        url: &str,
        file_size: u64,
        app_group_id: &str,
        options: UrlDownloadOptions,
        min_priority: DownloadPriority,
        max_priority: DownloadPriority,
    ) -> (r: Result<Self, BackgroundAssetsError>)
        ensures
            matches_outcome(
                r,
                url_download_outcome(
                    identifier@,
                    url@,
                    options.method@,
                    Ok(headers_json_text(options.headers.deep_view())),
                    file_size,
                    app_group_id@,
                    options.essential,
                    options.priority.0,
                    min_priority.0,
                    max_priority.0,
                ),
            ),
            match url_download_refusal(
                identifier@,
                url@,
                options.method@,
                file_size,
                app_group_id@,
                options.priority.0,
                min_priority.0,
                max_priority.0,
            ) {
                Some(m) => r matches Err(e) && e@ == bridge_error(m),
                None => r matches Ok(q) && q@ == (UrlDownloadRequestView {
                    identifier: identifier@,
                    url: url@,
                    method: options.method@,
                    headers_json: headers_json_text(options.headers.deep_view()),
                    file_size,
                    app_group_id: app_group_id@,
                    essential: options.essential,
                    priority: options.priority.0 as isize,
                }),
            },
            !headers_json_text(options.headers.deep_view()).contains('\0'),
            options.headers@.dom() == Set::<String>::empty()
                ==> headers_json_text(options.headers.deep_view()) == "{}"@,
    {
        let headers_json = match headers_to_json(&options.headers) {
            Ok(s) => Ok(s),
            Err(e) => Err(e.to_string()),
        };
        proof {
            law_text_refused_iff_it_holds_nul(headers_json_text(options.headers.deep_view()), "headers"@);
        }
        Self::from_parts(identifier, url, file_size, app_group_id, options, headers_json, min_priority, max_priority)
    }
}

/// Reading a raw value as a content request and back gives the raw value.
pub proof fn law_content_request_raw_round_trip(value: isize)
    ensures
        ContentRequest::spec_from_raw(value).spec_as_raw() == value,
{
}

/// Every content request but an unknown one that carries a known raw value
/// comes back from its raw value.
pub proof fn law_content_request_from_its_raw_value(request: ContentRequest)
    requires
        request != ContentRequest::Unknown(1),
        request != ContentRequest::Unknown(2),
        request != ContentRequest::Unknown(3),
    ensures
        ContentRequest::spec_from_raw(request.spec_as_raw()) == request,
{
}

/// A URL download that passes its checks has a file size within
/// `1..=isize::MAX`, a priority within the framework's range, an `https`
/// URL, and texts free of NUL bytes; it carries the identifier, URL, method, headers, app group
/// and essential flag it was asked with.
pub proof fn law_accepted_url_download_is_within_limits(
    identifier: Seq<char>,
    url: Seq<char>,
    method: Seq<char>,
    headers_json: Result<Seq<char>, Seq<char>>,
    file_size: u64,
    app_group_id: Seq<char>,
    essential: bool,
    priority: i64,
    min_priority: i64,
    max_priority: i64,
)
    requires
        url_download_outcome(identifier, url, method, headers_json, file_size, app_group_id, essential, priority, min_priority, max_priority) is Ok,
    ensures
        ({
            let v = url_download_outcome(identifier, url, method, headers_json, file_size, app_group_id, essential, priority, min_priority, max_priority)->Ok_0;
            &&& 1 <= v.file_size <= isize::MAX
            &&& has_https_scheme(v.url)
            &&& min_priority <= v.priority <= max_priority
            &&& v.priority == priority
            &&& nul_check(v.identifier, "identifier"@) is None
            &&& nul_check(v.url, "url"@) is None
            &&& nul_check(v.method, "method"@) is None
            &&& nul_check(v.headers_json, "headers"@) is None
            &&& nul_check(v.app_group_id, "app_group_id"@) is None
            &&& v.identifier == identifier && v.url == url && v.method == method
            &&& v.app_group_id == app_group_id && v.essential == essential
            &&& headers_json == Ok::<Seq<char>, Seq<char>>(v.headers_json)
        }),
{
}

/// A URL download whose texts hold no NUL and whose priority fits `isize`
/// is accepted, as it was asked, exactly when its file size lies in
/// `1..=isize::MAX`, its priority lies anywhere in `min..=max` (both ends
/// included) and its URL is `https`; otherwise the first of these that fails,
/// in that order, gives the refusal.
pub proof fn law_download_accepted_exactly_within_limits(
    identifier: Seq<char>,
    url: Seq<char>,
    method: Seq<char>,
    headers_json: Seq<char>,
    file_size: u64,
    app_group_id: Seq<char>,
    essential: bool,
    priority: i64,
    min_priority: i64,
    max_priority: i64,
)
    requires
        !identifier.contains('\0'),
        !url.contains('\0'),
        !method.contains('\0'),
        !headers_json.contains('\0'),
        !app_group_id.contains('\0'),
        isize::MIN <= priority <= isize::MAX,
    ensures
        ({
            let outcome = url_download_outcome(
                identifier, url, method, Ok(headers_json), file_size, app_group_id, essential, priority,
                min_priority, max_priority,
            );
            let refusal = url_download_refusal(
                identifier, url, method, file_size, app_group_id, priority, min_priority, max_priority,
            );
            let size_ok = 1 <= file_size <= isize::MAX;
            let priority_ok = min_priority <= priority <= max_priority;
            &&& size_ok && priority_ok && has_https_scheme(url) ==> outcome
                == Ok::<UrlDownloadRequestView, Seq<char>>(UrlDownloadRequestView {
                    identifier,
                    url,
                    method,
                    headers_json,
                    file_size,
                    app_group_id,
                    essential,
                    priority: priority as isize,
                }) && refusal is None
            &&& !size_ok ==> outcome == Err::<UrlDownloadRequestView, Seq<char>>(file_size_message())
                && refusal == Some(file_size_message())
            &&& size_ok && !priority_ok ==> outcome == Err::<UrlDownloadRequestView, Seq<char>>(
                priority_range_message(),
            ) && refusal == Some(priority_range_message())
            &&& size_ok && priority_ok && !has_https_scheme(url) ==> outcome == Err::<
                UrlDownloadRequestView,
                Seq<char>,
            >(https_message()) && refusal == Some(https_message())
        }),
{
    law_text_refused_iff_it_holds_nul(identifier, "identifier"@);
    law_text_refused_iff_it_holds_nul(url, "url"@);
    law_text_refused_iff_it_holds_nul(method, "method"@);
    law_text_refused_iff_it_holds_nul(headers_json, "headers"@);
    law_text_refused_iff_it_holds_nul(app_group_id, "app_group_id"@);
}

/// A URL download with a NUL in its identifier, URL, method, headers' JSON
/// or app group is refused, whatever else it holds.
pub proof fn law_download_with_nul_is_refused(
    identifier: Seq<char>,
    url: Seq<char>,
    method: Seq<char>,
    headers_json: Seq<char>,
    file_size: u64,
    app_group_id: Seq<char>,
    essential: bool,
    priority: i64,
    min_priority: i64,
    max_priority: i64,
)
    requires
        identifier.contains('\0') || url.contains('\0') || method.contains('\0') || headers_json.contains('\0')
            || app_group_id.contains('\0'),
    ensures
        url_download_outcome(
            identifier, url, method, Ok(headers_json), file_size, app_group_id, essential, priority,
            min_priority, max_priority,
        ) is Err,
        !headers_json.contains('\0') ==> url_download_refusal(
            identifier, url, method, file_size, app_group_id, priority, min_priority, max_priority,
        ) is Some,
{
    law_text_refused_iff_it_holds_nul(identifier, "identifier"@);
    law_text_refused_iff_it_holds_nul(url, "url"@);
    law_text_refused_iff_it_holds_nul(method, "method"@);
    law_text_refused_iff_it_holds_nul(headers_json, "headers"@);
    law_text_refused_iff_it_holds_nul(app_group_id, "app_group_id"@);
}

} // verus!
