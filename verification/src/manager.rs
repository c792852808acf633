//! The managed asset-pack surface: update checks, the argument checks of
//! file lookups, and how a status update from the framework is classified.

use vstd::prelude::*;

use crate::error::{bridge_error, nul_check, required_cstring, BackgroundAssetsError};

verus! {

broadcast use vstd::string::group_string_axioms;

/// The asset packs that an update check found: those being updated and
/// those removed.
#[derive(Clone, Debug, PartialEq, Eq)]
pub struct UpdateCheck {
    pub updating_ids: Vec<String>,
    pub removed_ids: Vec<String>,
}

/// The kinds of asset-pack status update.
#[derive(Clone, Copy, Debug, PartialEq, Eq, Structural)]
pub enum StatusUpdateKind {
    Began,
    Paused,
    Downloading,
    Finished,
    Failed,
}

/// What a status update of the given kind name, with or without a progress
/// and an error payload, is: its kind, or the message of why it is refused.
pub open spec fn status_update_outcome(kind: Seq<char>, has_progress: bool, has_error: bool) -> Result<StatusUpdateKind, Seq<char>> {
    if kind == "began"@ {
        Ok(StatusUpdateKind::Began)
    } else if kind == "paused"@ {
        Ok(StatusUpdateKind::Paused)
    } else if kind == "downloading"@ {
        if has_progress { Ok(StatusUpdateKind::Downloading) } else { Err("missing progress payload"@) }
    } else if kind == "finished"@ {
        Ok(StatusUpdateKind::Finished)
    } else if kind == "failed"@ {
        if has_error { Ok(StatusUpdateKind::Failed) } else { Err("missing error payload"@) }
    } else {
        Err("unknown download status update kind: "@ + kind)
    }
}

/// Classifies a status update by its kind name. A `downloading` update
/// needs a progress payload and a `failed` one an error payload; unknown
/// names are refused.
pub fn status_update_kind(kind: &str, has_progress: bool, has_error: bool) -> (r: Result<StatusUpdateKind, BackgroundAssetsError>)
    ensures
        match status_update_outcome(kind@, has_progress, has_error) {
            Ok(k) => r == Ok::<StatusUpdateKind, BackgroundAssetsError>(k),
            Err(m) => r matches Err(e) && e@ == bridge_error(m),
        },
{
    if crate::text::str_eq(kind, "began") {
        Ok(StatusUpdateKind::Began)
    } else if crate::text::str_eq(kind, "paused") {
        Ok(StatusUpdateKind::Paused)
    } else if crate::text::str_eq(kind, "downloading") {
        if has_progress {
            Ok(StatusUpdateKind::Downloading)
        } else {
            Err(BackgroundAssetsError::message(String::from_str("missing progress payload")))
        }
    } else if crate::text::str_eq(kind, "finished") {
        Ok(StatusUpdateKind::Finished)
    } else if crate::text::str_eq(kind, "failed") {
        if has_error {
            Ok(StatusUpdateKind::Failed)
        } else {
            Err(BackgroundAssetsError::message(String::from_str("missing error payload")))
        }
    } else {
        let mut message = String::from_str("unknown download status update kind: ");
        message.append(kind);
        Err(BackgroundAssetsError::message(message))
    }
}

/// What checking the arguments of a file lookup gives: the path, then the
/// asset-pack identifier when one is given, must be free of NUL bytes.
pub open spec fn lookup_arguments_outcome(path: Seq<char>, asset_pack_id: Option<Seq<char>>) -> Option<Seq<char>> {
    match nul_check(path, "path"@) {
        Some(m) => Some(m),
        None => match asset_pack_id {
            Some(id) => nul_check(id, "asset_pack_id"@),
            None => None,
        },
    }
}

/// Checks the arguments of a file lookup in the asset packs, and hands them
/// back as owned text for the bridge.
pub fn lookup_arguments(path: &str, asset_pack_id: Option<&str>) -> (r: Result<(String, Option<String>), BackgroundAssetsError>)
    ensures
        match lookup_arguments_outcome(path@, match asset_pack_id { Some(s) => Some(s@), None => None }) {
            Some(m) => r matches Err(e) && e@ == bridge_error(m),
            None => r matches Ok((p, id)) && p@ == path@ && match asset_pack_id {
                Some(s) => id matches Some(t) && t@ == s@,
                None => id is None,
            },
        },
{
    let path = match required_cstring(path, "path") {
        Ok(p) => p,
        Err(e) => return Err(e),
    };
    match asset_pack_id {
        Some(value) => match required_cstring(value, "asset_pack_id") {
            Ok(id) => Ok((path, Some(id))),
            Err(e) => Err(e),
        },
        None => Ok((path, None)),
    }
}

/// The sending end of an asset-pack status stream, until the framework
/// reports the stream done: the first report closes it, later reports and
/// updates find it closed.
pub struct StatusStreamSlot<T> {
    sender: Option<T>,
}

impl<T> StatusStreamSlot<T> {
    /// The sender, while the stream is open.
    pub closed spec fn open_sender(&self) -> Option<T> {
        self.sender
    }

    /// An open stream with the given sender.
    pub fn new(sender: T) -> (r: Self)
        ensures
            r.open_sender() == Some(sender),
    {
        StatusStreamSlot { sender: Some(sender) }
    }

    /// Closes the stream and hands back its sender, the first time; once
    /// closed, gives nothing.
    pub fn finish(&mut self) -> (r: Option<T>)
        ensures
            r == old(self).open_sender(),
            final(self).open_sender() is None,
    {
        self.sender.take()
    }

    /// The sender that updates go to, while the stream is open.
    pub fn sender(&self) -> (r: Option<&T>)
        ensures
            match self.open_sender() {
                Some(s) => r == Some(&s),
                None => r is None,
            },
    {
        match &self.sender {
            Some(s) => Some(s),
            None => None,
        }
    }
}

/// Only `downloading` needs a progress payload and only `failed` an error
/// payload: `began`, `paused` and `finished` are read as such whatever
/// payloads come with them, `downloading` and `failed` are read as such
/// when their payload is there and refused without it, no known name is
/// read as another kind, and any other name is refused with a message that
/// quotes it.
pub proof fn law_only_downloading_and_failed_need_a_payload(kind: Seq<char>, has_progress: bool, has_error: bool)
    ensures
        kind != "began"@ && kind != "paused"@ && kind != "downloading"@ && kind != "finished"@
            && kind != "failed"@ ==> status_update_outcome(kind, has_progress, has_error)
            == Err::<StatusUpdateKind, Seq<char>>("unknown download status update kind: "@ + kind),
        status_update_outcome("began"@, has_progress, has_error) == Ok::<StatusUpdateKind, Seq<char>>(StatusUpdateKind::Began),
        status_update_outcome("paused"@, has_progress, has_error) == Ok::<StatusUpdateKind, Seq<char>>(StatusUpdateKind::Paused),
        status_update_outcome("finished"@, has_progress, has_error) == Ok::<StatusUpdateKind, Seq<char>>(StatusUpdateKind::Finished),
        status_update_outcome("downloading"@, true, has_error) == Ok::<StatusUpdateKind, Seq<char>>(StatusUpdateKind::Downloading),
        status_update_outcome("downloading"@, false, has_error) is Err,
        status_update_outcome("failed"@, has_progress, true) == Ok::<StatusUpdateKind, Seq<char>>(StatusUpdateKind::Failed),
        status_update_outcome("failed"@, has_progress, false) is Err,
{
    reveal_strlit("began");
    reveal_strlit("paused");
    reveal_strlit("finished");
    reveal_strlit("downloading");
    reveal_strlit("failed");
    assert("paused"@[0] != "began"@[0]);
    assert("downloading"@[0] != "began"@[0] && "downloading"@[0] != "paused"@[0]);
    assert("finished"@[0] != "began"@[0] && "finished"@[0] != "paused"@[0] && "finished"@[0] != "downloading"@[0]);
    assert("failed"@[0] != "began"@[0] && "failed"@[0] != "paused"@[0] && "failed"@[0] != "downloading"@[0]);
    assert("failed"@[1] != "finished"@[1]);
}

} // verus!
