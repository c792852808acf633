//! Errors: the framework's error payload, and the managed-asset-pack errors
//! layered on it.

use vstd::prelude::*;

use vstd::utf8::encode_utf8;

use crate::text::{
    decimal_text, first_nul_byte, first_zero_byte, has_suffix, is_suffix, law_zero_byte_iff_nul_char,
    push_decimal,
    push_signed_decimal, signed_decimal_text, str_eq,
};

verus! {

broadcast use vstd::string::group_string_axioms;

/// What an error is: its domain, numeric code, message and the optional
/// asset-pack identifier and file path it names.
pub struct ErrorView {
    pub domain: Seq<char>,
    pub code: i64,
    pub message: Seq<char>,
    pub asset_pack_id: Option<Seq<char>>,
    pub file_path: Option<Seq<char>>,
}

/// An optional string, taken by its characters.
pub open spec fn opt_text(o: Option<String>) -> Option<Seq<char>> {
    match o {
        Some(s) => Some(s@),
        None => None,
    }
}

/// The domain that errors raised by the bridge itself carry.
pub open spec fn bridge_domain() -> Seq<char> {
    "BackgroundAssetsBridge"@
}

/// The code that errors raised by the bridge itself carry.
pub open spec fn bridge_code() -> i64 {
    -1i64
}

/// The message that stands in for an empty one in a framework payload.
pub open spec fn fallback_message() -> Seq<char> {
    "BackgroundAssets operation failed"@
}

/// An error raised by the bridge itself, with the given message.
pub open spec fn bridge_error(message: Seq<char>) -> ErrorView {
    ErrorView {
        domain: bridge_domain(),
        code: bridge_code(),
        message,
        asset_pack_id: None,
        file_path: None,
    }
}

/// The error that a framework payload describes.
pub open spec fn payload_error(p: BridgeErrorPayload) -> ErrorView {
    ErrorView {
        domain: p.domain@,
        code: p.code,
        message: if p.message@.len() == 0 { fallback_message() } else { p.message@ },
        asset_pack_id: opt_text(p.asset_pack_id),
        file_path: opt_text(p.file_path),
    }
}

/// Domains of the managed asset-pack errors: the Objective-C domain, the
/// Swift type, and the Swift type under any module.
pub open spec fn is_managed_domain(domain: Seq<char>) -> bool {
    ||| domain == "BAManagedErrorDomain"@
    ||| domain == "BackgroundAssets.ManagedBackgroundAssetsError"@
    ||| is_suffix(".ManagedBackgroundAssetsError"@, domain)
}

/// How an error reads: `message (domain:code)`.
pub open spec fn display_text(e: ErrorView) -> Seq<char> {
    e.message + " ("@ + e.domain + ":"@ + signed_decimal_text(e.code as int) + ")"@
}

/// The message about a NUL byte at byte position `pos` of the value of
/// `field`.
pub open spec fn nul_message(field: Seq<char>, pos: int) -> Seq<char> {
    field + " contains an interior NUL byte: nul byte found in provided data at position: "@
        + decimal_text(pos as nat)
}

/// The message about the first NUL byte in the UTF-8 encoding of `value`,
/// if it holds one.
pub open spec fn nul_check(value: Seq<char>, field: Seq<char>) -> Option<Seq<char>> {
    match first_zero_byte(encode_utf8(value)) {
        Some(p) => Some(nul_message(field, p)),
        None => None,
    }
}

/// The code of bridge errors.
pub fn default_bridge_code() -> (r: i64)
    ensures
        r == bridge_code(),
{
    -1
}

/// The domain of bridge errors.
pub fn default_bridge_domain() -> (r: String)
    ensures
        r@ == bridge_domain(),
{
    String::from_str("BackgroundAssetsBridge")
}

/// Whether `domain` is one of the managed asset-pack error domains.
pub fn is_managed_error_domain(domain: &str) -> (r: bool)
    ensures
        r == is_managed_domain(domain@),
{
    str_eq(domain, "BAManagedErrorDomain") || str_eq(domain, "BackgroundAssets.ManagedBackgroundAssetsError")
        || has_suffix(domain, ".ManagedBackgroundAssetsError")
}

/// The text `value`, refused when its UTF-8 encoding holds a NUL byte, which
/// C strings cannot carry; the error names `field` and the byte position.
pub fn required_cstring(value: &str, field: &str) -> (r: Result<String, BackgroundAssetsError>)
    ensures
        match nul_check(value@, field@) {
            Some(m) => r matches Err(e) && e@ == bridge_error(m),
            None => r matches Ok(s) && s@ == value@,
        },
{
    match first_nul_byte(value) {
        Some(pos) => {
            let mut message = field.to_owned();
            message.append(" contains an interior NUL byte: nul byte found in provided data at position: ");
            push_decimal(&mut message, pos as u64);
            Err(BackgroundAssetsError::invalid_argument(message))
        },
        None => Ok(value.to_owned()),
    }
}

/// The error payload that the framework bridge hands over as JSON, once
/// decoded: absent keys take the bridge's domain and code, an empty message
/// and no identifiers.
#[derive(Clone, Debug, PartialEq, Eq)]
pub struct BridgeErrorPayload {
    pub domain: String,
    pub code: i64,
    pub message: String,
    pub asset_pack_id: Option<String>,
    pub file_path: Option<String>,
}

/// An error from Background Assets or from the bridge in front of it.
#[derive(Debug, PartialEq, Eq)]
pub struct BackgroundAssetsError {
    domain: String,
    code: i64,
    message: String,
    asset_pack_id: Option<String>,
    file_path: Option<String>,
}

impl View for BackgroundAssetsError {
    type V = ErrorView;

    closed spec fn view(&self) -> ErrorView {
        ErrorView {
            domain: self.domain@,
            code: self.code,
            message: self.message@,
            asset_pack_id: opt_text(self.asset_pack_id),
            file_path: opt_text(self.file_path),
        }
    }
}

fn clone_opt(o: &Option<String>) -> (r: Option<String>)
    ensures
        opt_text(r) == opt_text(*o),
{
    match o {
        Some(s) => Some(s.clone()),
        None => None,
    }
}

impl Clone for BackgroundAssetsError {
    fn clone(&self) -> (r: Self)
        ensures
            r@ == self@,
    {
        BackgroundAssetsError {
            domain: self.domain.clone(),
            code: self.code,
            message: self.message.clone(),
            asset_pack_id: clone_opt(&self.asset_pack_id),
            file_path: clone_opt(&self.file_path),
        }
    }
}

fn opt_as_str(o: &Option<String>) -> (r: Option<&str>)
    ensures
        match r {
            Some(s) => opt_text(*o) == Some(s@),
            None => opt_text(*o) is None,
        },
{
    match o {
        Some(s) => Some(s.as_str()),
        None => None,
    }
}

impl BackgroundAssetsError {
    /// An error of the bridge's domain and code about an argument it refused.
    pub fn invalid_argument(message: String) -> (r: Self)
        ensures
            r@ == bridge_error(message@),
    {
        BackgroundAssetsError {
            domain: default_bridge_domain(),
            code: default_bridge_code(),
            message,
            asset_pack_id: None,
            file_path: None,
        }
    }

    /// An error of the bridge's domain and code with the given message.
    pub fn message(message: String) -> (r: Self)
        ensures
            r@ == bridge_error(message@),
    {
        Self::invalid_argument(message)
    }

    /// The error a decoded framework payload describes; an empty message
    /// becomes a generic one.
    pub fn from_bridge_payload(value: BridgeErrorPayload) -> (r: Self)
        ensures
            r@ == payload_error(value),
    {
        let message = if value.message.as_str().is_empty() {
            String::from_str("BackgroundAssets operation failed")
        } else {
            value.message
        };
        BackgroundAssetsError {
            domain: value.domain,
            code: value.code,
            message,
            asset_pack_id: value.asset_pack_id,
            file_path: value.file_path,
        }
    }

    /// The error that the JSON text `json` describes, given what decoding it
    /// as a payload gave: a payload is taken as it reads, and text that did
    /// not decode becomes the message of a bridge error.
    pub fn from_json_outcome(json: &str, decoded: Option<BridgeErrorPayload>) -> (r: Self)
        ensures
            r@ == match decoded {
                Some(p) => payload_error(p),
                None => bridge_error(json@),
            },
    {
        match decoded {
            Some(payload) => Self::from_bridge_payload(payload),
            None => Self::invalid_argument(json.to_owned()),
        }
    }

    /// The error domain.
    pub fn domain(&self) -> (r: &str)
        ensures
            r@ == self@.domain,
    {
        self.domain.as_str()
    }

    /// The numeric error code.
    pub fn code(&self) -> (r: i64)
        ensures
            r == self@.code,
    {
        self.code
    }

    /// The message.
    pub fn message_text(&self) -> (r: &str)
        ensures
            r@ == self@.message,
    {
        self.message.as_str()
    }

    /// The asset-pack identifier the error names, if any.
    pub fn asset_pack_id(&self) -> (r: Option<&str>)
        ensures
            match r {
                Some(s) => self@.asset_pack_id == Some(s@),
                None => self@.asset_pack_id is None,
            },
    {
        opt_as_str(&self.asset_pack_id)
    }

    /// The file path the error names, if any.
    pub fn file_path(&self) -> (r: Option<&str>)
        ensures
            match r {
                Some(s) => self@.file_path == Some(s@),
                None => self@.file_path is None,
            },
    {
        opt_as_str(&self.file_path)
    }

    /// The managed error code, for an error of a managed domain.
    pub fn managed_error_code(&self) -> (r: Option<ManagedBackgroundAssetsErrorCode>)
        ensures
            r == if is_managed_domain(self@.domain) {
                Some(ManagedBackgroundAssetsErrorCode::spec_from_raw(self@.code))
            } else {
                None
            },
    {
        if is_managed_error_domain(self.domain()) {
            Some(ManagedBackgroundAssetsErrorCode::from_raw(self.code))
        } else {
            None
        }
    }

    /// The managed form of this error, or the error itself when its domain
    /// is not a managed one.
    pub fn into_managed_background_assets_error(self) -> (r: Result<ManagedBackgroundAssetsError, Self>)
        ensures
            match r {
                Ok(m) => is_managed_domain(self@.domain) && m@ == self@,
                Err(e) => !is_managed_domain(self@.domain) && e@ == self@,
            },
    {
        ManagedBackgroundAssetsError::try_from(self)
    }

    /// How the error reads: `message (domain:code)`.
    pub fn to_display_string(&self) -> (r: String)
        ensures
            r@ == display_text(self@),
    {
        let mut out = self.message.clone();
        out.append(" (");
        out.append(self.domain.as_str());
        out.append(":");
        push_signed_decimal(&mut out, self.code);
        out.append(")");
        out
    }
}

impl From<ManagedBackgroundAssetsError> for BackgroundAssetsError {
    fn from(value: ManagedBackgroundAssetsError) -> (r: Self)
        ensures
            r@ == value@,
    {
        value.inner
    }
}

impl vstd::std_specs::convert::FromSpecImpl<ManagedBackgroundAssetsError> for BackgroundAssetsError {
    open spec fn obeys_from_spec() -> bool {
        true
    }

    closed spec fn from_spec(v: ManagedBackgroundAssetsError) -> Self {
        v.inner
    }
}

impl TryFrom<BackgroundAssetsError> for ManagedBackgroundAssetsError {
    type Error = BackgroundAssetsError;

    fn try_from(value: BackgroundAssetsError) -> (r: Result<Self, BackgroundAssetsError>)
        ensures
            match r {
                Ok(m) => is_managed_domain(value@.domain) && m@ == value@,
                Err(e) => !is_managed_domain(value@.domain) && e@ == value@,
            },
    {
        if is_managed_error_domain(value.domain()) {
            let managed_code = ManagedBackgroundAssetsErrorCode::from_raw(value.code);
            Ok(ManagedBackgroundAssetsError { inner: value, managed_code })
        } else {
            Err(value)
        }
    }
}

impl vstd::std_specs::convert::TryFromSpecImpl<BackgroundAssetsError> for ManagedBackgroundAssetsError {
    open spec fn obeys_try_from_spec() -> bool {
        true
    }

    closed spec fn try_from_spec(v: BackgroundAssetsError) -> Result<Self, BackgroundAssetsError> {
        if is_managed_domain(v@.domain) {
            Ok(ManagedBackgroundAssetsError {
                inner: v,
                managed_code: ManagedBackgroundAssetsErrorCode::spec_from_raw(v.code),
            })
        } else {
            Err(v)
        }
    }
}

/// The codes of managed asset-pack errors.
#[derive(Clone, Copy, Debug, PartialEq, Eq, Structural)]
pub enum ManagedBackgroundAssetsErrorCode {
    AssetPackNotFound,
    FileNotFound,
    Unknown(i64),
}

impl ManagedBackgroundAssetsErrorCode {
    /// The code a raw value stands for.
    pub open spec fn spec_from_raw(value: i64) -> Self {
        if value == 0 {
            ManagedBackgroundAssetsErrorCode::AssetPackNotFound
        } else if value == 1 {
            ManagedBackgroundAssetsErrorCode::FileNotFound
        } else {
            ManagedBackgroundAssetsErrorCode::Unknown(value)
        }
    }

    /// The raw value of a code.
    pub open spec fn spec_raw_value(self) -> i64 {
        match self {
            ManagedBackgroundAssetsErrorCode::AssetPackNotFound => 0,
            ManagedBackgroundAssetsErrorCode::FileNotFound => 1,
            ManagedBackgroundAssetsErrorCode::Unknown(v) => v,
        }
    }

    /// The code a raw value stands for: 0 and 1 are the known codes.
    pub fn from_raw(value: i64) -> (r: Self)
        ensures
            r == Self::spec_from_raw(value),
    {
        if value == 0 {
            ManagedBackgroundAssetsErrorCode::AssetPackNotFound
        } else if value == 1 {
            ManagedBackgroundAssetsErrorCode::FileNotFound
        } else {
            ManagedBackgroundAssetsErrorCode::Unknown(value)
        }
    }

    /// The raw value of the code.
    pub fn raw_value(self) -> (r: i64)
        ensures
            r == self.spec_raw_value(),
    {
        match self {
            ManagedBackgroundAssetsErrorCode::AssetPackNotFound => 0,
            ManagedBackgroundAssetsErrorCode::FileNotFound => 1,
            ManagedBackgroundAssetsErrorCode::Unknown(v) => v,
        }
    }
}

/// A managed asset-pack error: an error of a managed domain, with its code
/// read as a managed code.
#[derive(Debug, PartialEq, Eq)]
pub struct ManagedBackgroundAssetsError {
    inner: BackgroundAssetsError,
    managed_code: ManagedBackgroundAssetsErrorCode,
}

impl View for ManagedBackgroundAssetsError {
    type V = ErrorView;

    closed spec fn view(&self) -> ErrorView {
        self.inner@
    }
}

impl Clone for ManagedBackgroundAssetsError {
    fn clone(&self) -> (r: Self)
        ensures
            r@ == self@,
    {
        proof { use_type_invariant(self); }
        ManagedBackgroundAssetsError { inner: self.inner.clone(), managed_code: self.managed_code }
    }
}

impl ManagedBackgroundAssetsError {
    #[verifier::type_invariant]
    spec fn well_formed(self) -> bool {
        &&& is_managed_domain(self.inner@.domain)
        &&& self.managed_code == ManagedBackgroundAssetsErrorCode::spec_from_raw(self.inner@.code)
    }

    fn new_managed(error: BackgroundAssetsError) -> (r: Self)
        requires
            is_managed_domain(error@.domain),
        ensures
            r@ == error@,
    {
        let managed_code = ManagedBackgroundAssetsErrorCode::from_raw(error.code);
        ManagedBackgroundAssetsError { inner: error, managed_code }
    }

    /// The managed form of `error`, when its domain is a managed one.
    pub fn from_background_assets_error(error: BackgroundAssetsError) -> (r: Option<Self>)
        ensures
            match r {
                Some(m) => is_managed_domain(error@.domain) && m@ == error@,
                None => !is_managed_domain(error@.domain),
            },
    {
        if is_managed_error_domain(error.domain()) {
            Some(Self::new_managed(error))
        } else {
            None
        }
    }

    /// The managed code: the error's code read as a managed code.
    pub fn managed_code(&self) -> (r: ManagedBackgroundAssetsErrorCode)
        ensures
            r == ManagedBackgroundAssetsErrorCode::spec_from_raw(self@.code),
            is_managed_domain(self@.domain),
    {
        proof { use_type_invariant(self); }
        self.managed_code
    }

    /// The underlying error.
    pub fn as_background_assets_error(&self) -> (r: &BackgroundAssetsError)
        ensures
            r@ == self@,
    {
        &self.inner
    }

    /// The underlying error, by value.
    pub fn into_background_assets_error(self) -> (r: BackgroundAssetsError)
        ensures
            r@ == self@,
    {
        self.inner
    }

    /// The error domain, always a managed one.
    pub fn domain(&self) -> (r: &str)
        ensures
            r@ == self@.domain,
            is_managed_domain(r@),
    {
        proof { use_type_invariant(self); }
        self.inner.domain()
    }

    /// The numeric error code.
    pub fn code(&self) -> (r: i64)
        ensures
            r == self@.code,
    {
        self.inner.code()
    }

    /// The message.
    pub fn message_text(&self) -> (r: &str)
        ensures
            r@ == self@.message,
    {
        self.inner.message_text()
    }

    /// The asset-pack identifier the error names, if any.
    pub fn asset_pack_id(&self) -> (r: Option<&str>)
        ensures
            match r {
                Some(s) => self@.asset_pack_id == Some(s@),
                None => self@.asset_pack_id is None,
            },
    {
        self.inner.asset_pack_id()
    }

    /// The file path the error names, if any.
    pub fn file_path(&self) -> (r: Option<&str>)
        ensures
            match r {
                Some(s) => self@.file_path == Some(s@),
                None => self@.file_path is None,
            },
    {
        self.inner.file_path()
    }

    /// How the error reads: that of the underlying error.
    pub fn to_display_string(&self) -> (r: String)
        ensures
            r@ == display_text(self@),
    {
        self.inner.to_display_string()
    }
}

/// A text is refused as a C string exactly when it holds the NUL
/// character.
pub proof fn law_text_refused_iff_it_holds_nul(value: Seq<char>, field: Seq<char>)
    ensures
        nul_check(value, field) is None <==> !value.contains('\0'),
{
    law_zero_byte_iff_nul_char(value);
}

/// Reading a raw value as a managed code and back gives the raw value.
pub proof fn law_managed_code_raw_round_trip(value: i64)
    ensures
        ManagedBackgroundAssetsErrorCode::spec_from_raw(value).spec_raw_value() == value,
{
}

/// Every managed code but an unknown one that carries a known raw value
/// comes back from its raw value.
pub proof fn law_managed_code_from_its_raw_value(code: ManagedBackgroundAssetsErrorCode)
    requires
        code != ManagedBackgroundAssetsErrorCode::Unknown(0),
        code != ManagedBackgroundAssetsErrorCode::Unknown(1),
    ensures
        ManagedBackgroundAssetsErrorCode::spec_from_raw(code.spec_raw_value()) == code,
{
}

} // verus!
