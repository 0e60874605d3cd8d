use crate::clock::now_ms;
use crate::model::{
    clone_opt_string, DownloadInfo, DownloadKind, DownloadStatus, Record, SpeedLimits,
    StartDownloadPayload, StartRequest,
};
use crate::names::{
    build_unique_name, build_unique_path, sanitize_file_name, sanitized, temp_path_for,
    temp_path_of, unique_name, unique_path,
};
use crate::registry::{
    after_remove, cancel_effect, cancel_outcome, handles_follow, handles_joined, holds_id,
    lookup, opt_record, outcome_view, pause_effect, pause_outcome, position_of, record_views,
    remove_outcome, restart_effect, restart_outcome, resume_effect, resume_outcome, stored,
    updated, DownloadManager, RecordChange,
};
use crate::text::{
    chars_of, ends_with, has_prefix, has_suffix, lowercase, opt_text, starts_with, string_of,
    texts, to_lowercase, trim_chars, trimmed,
};
use crate::urls::{
    file_name_from_url, name_from_segments, opt_parts, parse_url, url_parts, ParsedUrl, UrlParts,
};
use uuid::Uuid;
use vstd::prelude::*;

verus! {

/// `Uuid::new_v4`, written out as `Uuid::to_string` writes it. Nothing is claimed of the
/// text: it is drawn at random. The call panics only where the operating system hands
/// out no random bytes.
#[verifier::external_body]
fn fresh_id() -> String {
    Uuid::new_v4().to_string()
}

/// The kind of a transfer: the tag where one is given (`magnet`, `torrent`, anything
/// else meaning HTTP), else what the URL, trimmed and in lower case, looks like.
pub open spec fn kind_of(kind: Option<Seq<char>>, lowered_url: Seq<char>) -> DownloadKind {
    match kind {
        Some(tag) => if tag == "magnet"@ {
            DownloadKind::Magnet
        } else if tag == "torrent"@ {
            DownloadKind::Torrent
        } else {
            DownloadKind::Http
        },
        None => if starts_with(lowered_url, "magnet:"@) {
            DownloadKind::Magnet
        } else if ends_with(lowered_url, ".torrent"@) {
            DownloadKind::Torrent
        } else {
            DownloadKind::Http
        },
    }
}

/// The kind of a transfer with this tag and this URL as the caller wrote it.
pub open spec fn parsed_kind(kind: Option<Seq<char>>, url: Seq<char>) -> DownloadKind {
    kind_of(kind, lowercase(trimmed(url)))
}

/// Whether transfers over this scheme are run.
pub open spec fn is_web_scheme(scheme: Seq<char>) -> bool {
    scheme == "http"@ || scheme == "https"@
}

/// Why a transfer of this kind, with its URL parsed to `parts`, is not started; `None`
/// where it is. Only the URL of an HTTP transfer is looked at.
pub open spec fn start_refusal(kind: DownloadKind, parts: Option<UrlParts>) -> Option<Seq<char>> {
    if kind != DownloadKind::Http {
        None
    } else {
        match parts {
            None => Some("Invalid URL"@),
            Some(p) => if is_web_scheme(p.scheme) {
                None
            } else {
                Some("Only http and https URLs are supported."@)
            },
        }
    }
}

/// The name asked for, sanitized; `fallback` where none was asked for.
pub open spec fn wanted_name(file_name: Option<Seq<char>>, fallback: Seq<char>) -> Seq<char> {
    match file_name {
        Some(name) => sanitized(name),
        None => fallback,
    }
}

/// The record of a new HTTP transfer.
pub open spec fn http_record(
    req: StartRequest,
    parts: UrlParts,
    directory: Seq<char>,
    taken: Seq<Seq<char>>,
    id: Seq<char>,
    now: i64,
) -> Record {
    let name = wanted_name(req.file_name, name_from_segments(parts.path_segments));
    Record {
        id,
        url: req.url,
        file_name: unique_name(directory, name, taken),
        save_path: unique_path(directory, name, taken),
        temp_path: temp_path_of(unique_path(directory, name, taken)),
        status: DownloadStatus::Queued,
        total_bytes: None,
        downloaded_bytes: 0,
        speed_bps: 0,
        error: None,
        created_at: now,
        updated_at: now,
        resume_supported: true,
        kind: DownloadKind::Http,
    }
}

/// The record of a new transfer that something else carries out.
pub open spec fn external_record(req: StartRequest, kind: DownloadKind, id: Seq<char>, now: i64) -> Record {
    Record {
        id,
        url: req.url,
        file_name: wanted_name(req.file_name, "External Transfer"@),
        save_path: Seq::empty(),
        temp_path: Seq::empty(),
        status: DownloadStatus::External,
        total_bytes: None,
        downloaded_bytes: 0,
        speed_bps: 0,
        error: None,
        created_at: now,
        updated_at: now,
        resume_supported: false,
        kind,
    }
}

/// What starting a transfer returns, `rs` being the records held: the new record, or
/// why it was refused. An id that is held already is not given out again.
pub open spec fn start_outcome(
    rs: Seq<Record>,
    req: StartRequest,
    kind: DownloadKind,
    parts: Option<UrlParts>,
    directory: Seq<char>,
    taken: Seq<Seq<char>>,
    id: Seq<char>,
    now: i64,
) -> Result<Record, Seq<char>> {
    match start_refusal(kind, parts) {
        Some(reason) => Err(reason),
        None => if holds_id(rs, id) {
            Err("Download id is already in use"@)
        } else if kind == DownloadKind::Http {
            Ok(http_record(req, parts->Some_0, directory, taken, id, now))
        } else {
            Ok(external_record(req, kind, id, now))
        },
    }
}

/// The records after a start with this outcome: the new record behind the ones held,
/// which stay as they are.
pub open spec fn after_start(rs: Seq<Record>, outcome: Result<Record, Seq<char>>) -> Seq<Record> {
    match outcome {
        Ok(r) => rs.push(r),
        Err(_) => rs,
    }
}

/// The parts of the URL of a transfer of this kind, as far as starting it reads them.
pub open spec fn parts_read(kind: DownloadKind, url: Seq<char>) -> Option<UrlParts> {
    if kind == DownloadKind::Http {
        url_parts(url)
    } else {
        None
    }
}

/// What starting a transfer for the request `req` returns, its kind told from the
/// request and its URL parsed where the kind asks for it.
pub open spec fn request_outcome(
    rs: Seq<Record>,
    req: StartRequest,
    directory: Seq<char>,
    taken: Seq<Seq<char>>,
    id: Seq<char>,
    now: i64,
) -> Result<Record, Seq<char>> {
    let kind = parsed_kind(req.kind, req.url);
    start_outcome(rs, req, kind, parts_read(kind, req.url), directory, taken, id, now)
}

fn same_text(a: &str, b: &str) -> (r: bool)
    ensures
        r == (a@ == b@),
{
    a.to_owned() == b.to_owned()
}

/// Computes [`kind_of`] from the tag and the URL in lower case.
pub fn classify_kind(kind: &Option<String>, lowered_url: &str) -> (r: DownloadKind)
    ensures
        r == kind_of(opt_text(*kind), lowered_url@),
{
    match kind {
        Some(tag) => if same_text(tag.as_str(), "magnet") {
            DownloadKind::Magnet
        } else if same_text(tag.as_str(), "torrent") {
            DownloadKind::Torrent
        } else {
            DownloadKind::Http
        },
        None => {
            let text = chars_of(lowered_url);
            if has_prefix(&text, &chars_of("magnet:")) {
                DownloadKind::Magnet
            } else if has_suffix(&text, &chars_of(".torrent")) {
                DownloadKind::Torrent
            } else {
                DownloadKind::Http
            }
        },
    }
}

/// Tells the kind of a transfer from its tag, or else from its URL.
pub fn parse_kind(kind: Option<String>, url: &str) -> (r: DownloadKind)
    ensures
        r == parsed_kind(opt_text(kind), url@),
{
    let trimmed_url = string_of(&trim_chars(&chars_of(url)));
    let lowered = to_lowercase(trimmed_url.as_str());
    classify_kind(&kind, lowered.as_str())
}

fn is_http_or_https(scheme: &String) -> (r: bool)
    ensures
        r == is_web_scheme(scheme@),
{
    same_text(scheme.as_str(), "http") || same_text(scheme.as_str(), "https")
}

fn name_for(file_name: &Option<String>, fallback: String) -> (r: String)
    ensures
        r@ == wanted_name(opt_text(*file_name), fallback@),
{
    match file_name {
        Some(name) => sanitize_file_name(name.as_str()),
        None => fallback,
    }
}

/// Checks a start request before anything is touched: gives the kind of the transfer,
/// or the reason for which it will be refused.
pub fn check_start(payload: &StartDownloadPayload) -> (r: Result<DownloadKind, String>)
    ensures
        ({
            let kind = parsed_kind(payload@.kind, payload@.url);
            match start_refusal(kind, parts_read(kind, payload@.url)) {
                Some(reason) => r is Err && r->Err_0@ == reason,
                None => r == Ok::<DownloadKind, String>(kind),
            }
        }),
{
    let kind = parse_kind(clone_opt_string(&payload.kind), payload.url.as_str());
    if kind != DownloadKind::Http {
        return Ok(kind);
    }
    match parse_url(payload.url.as_str()) {
        None => Err("Invalid URL".to_owned()),
        Some(parts) => if is_http_or_https(&parts.scheme) {
            Ok(kind)
        } else {
            Err("Only http and https URLs are supported.".to_owned())
        },
    }
}

/// Starts a transfer of the given kind under the given id at the given time, `parts`
/// being the URL as parsed. An HTTP transfer gets a path of its own in `directory`,
/// clear of the `occupied` paths, and is queued; any other transfer is recorded as
/// external. An id under which a transfer is held already is refused. The caller
/// starts a worker for a queued record.
pub fn start_with(
    manager: &mut DownloadManager,
    payload: &StartDownloadPayload,
    kind: DownloadKind,
    parts: &Option<ParsedUrl>,
    directory: &str,
    occupied: &Vec<String>,
    id: String,
    now: i64,
) -> (result: Result<DownloadInfo, String>)
    requires
        old(manager).wf(),
    ensures
        final(manager).wf(),
        final(manager).limits() == old(manager).limits(),
        outcome_view(result) == start_outcome(
            old(manager).records(),
            payload@,
            kind,
            opt_parts(*parts),
            directory@,
            texts(occupied@),
            id@,
            now,
        ),
        final(manager).records() == after_start(old(manager).records(), outcome_view(result)),
        result matches Ok(info) ==> !holds_id(old(manager).records(), id@) && lookup(
            final(manager).records(),
            id@,
        ) == Some(info@),
        if result is Ok {
            handles_joined(old(manager).handles(), final(manager).handles())
        } else {
            final(manager).handles() == old(manager).handles()
        },
{
    let held = manager.holds(id.as_str());
    let info = if kind == DownloadKind::Http {
        let parsed = match parts {
            None => { return Err("Invalid URL".to_owned()); },
            Some(parsed) => parsed,
        };
        if !is_http_or_https(&parsed.scheme) {
            return Err("Only http and https URLs are supported.".to_owned());
        }
        if held {
            return Err("Download id is already in use".to_owned());
        }
        let name = name_for(&payload.file_name, file_name_from_url(parsed));
        let save_path = build_unique_path(directory, name.as_str(), occupied);
        let temp_path = temp_path_for(save_path.as_str());
        DownloadInfo {
            id,
            url: payload.url.clone(),
            file_name: build_unique_name(directory, name.as_str(), occupied),
            save_path,
            temp_path,
            status: DownloadStatus::Queued,
            total_bytes: None,
            downloaded_bytes: 0,
            speed_bps: 0,
            error: None,
            created_at: now,
            updated_at: now,
            resume_supported: true,
            kind,
        }
    } else {
        if held {
            return Err("Download id is already in use".to_owned());
        }
        DownloadInfo {
            id,
            url: payload.url.clone(),
            file_name: name_for(&payload.file_name, "External Transfer".to_owned()),
            save_path: String::new(),
            temp_path: String::new(),
            status: DownloadStatus::External,
            total_bytes: None,
            downloaded_bytes: 0,
            speed_bps: 0,
            error: None,
            created_at: now,
            updated_at: now,
            resume_supported: false,
            kind,
        }
    };
    let copy = info.clone();
    manager.insert(info);
    Ok(copy)
}

/// Starts a transfer for `payload`, with an id drawn at random and the current time.
/// `directory` and `occupied` are read for an HTTP transfer only. The id of a new
/// transfer is never one that is held; a draw that hits one is refused.
pub fn start_download(
    manager: &mut DownloadManager,
    payload: StartDownloadPayload,
    directory: &str,
    occupied: &Vec<String>,
) -> (result: Result<DownloadInfo, String>)
    requires
        old(manager).wf(),
    ensures
        final(manager).wf(),
        final(manager).limits() == old(manager).limits(),
        exists|id: Seq<char>, now: i64|
            now >= 0 && outcome_view(result) == #[trigger] request_outcome(
                old(manager).records(),
                payload@,
                directory@,
                texts(occupied@),
                id,
                now,
            ),
        final(manager).records() == after_start(old(manager).records(), outcome_view(result)),
        result matches Ok(info) ==> !holds_id(old(manager).records(), info@.id) && lookup(
            final(manager).records(),
            info@.id,
        ) == Some(info@),
        if result is Ok {
            handles_joined(old(manager).handles(), final(manager).handles())
        } else {
            final(manager).handles() == old(manager).handles()
        },
{
    let kind = parse_kind(clone_opt_string(&payload.kind), payload.url.as_str());
    let parts = if kind == DownloadKind::Http {
        parse_url(payload.url.as_str())
    } else {
        None
    };
    let id = fresh_id();
    let now = now_ms();
    let ghost id_text = id@;
    let result = start_with(manager, &payload, kind, &parts, directory, occupied, id, now);
    assert(outcome_view(result) == request_outcome(
        old(manager).records(),
        payload@,
        directory@,
        texts(occupied@),
        id_text,
        now,
    ));
    result
}

/// Copies of all records.
pub fn list_downloads(manager: &DownloadManager) -> (r: Result<Vec<DownloadInfo>, String>)
    ensures
        r is Ok,
        record_views(r->Ok_0@) == manager.records(),
{
    Ok(manager.list())
}

/// Stores the rate caps, a rate of zero meaning none, and returns what was stored.
pub fn set_speed_limits(manager: &mut DownloadManager, limits: SpeedLimits) -> (r: Result<
    SpeedLimits,
    String,
>)
    ensures
        r == Ok::<SpeedLimits, String>(limits.normalized()),
        final(manager).limits() == limits.normalized(),
        final(manager).records() == old(manager).records(),
        final(manager).handles() == old(manager).handles(),
{
    Ok(manager.set_limits(limits))
}

/// Pauses the transfer `id` at the current time, see [`DownloadManager::pause`].
pub fn pause_download(manager: &mut DownloadManager, id: String) -> (result: Result<
    DownloadInfo,
    String,
>)
    requires
        old(manager).wf(),
    ensures
        final(manager).wf(),
        final(manager).limits() == old(manager).limits(),
        exists|now: i64|
            now >= 0 && outcome_view(result) == #[trigger] pause_outcome(
                old(manager).records(),
                id@,
                now,
            ) && final(manager).records() == stored(
                old(manager).records(),
                id@,
                pause_outcome(old(manager).records(), id@, now),
            ),
        handles_follow(
            old(manager).handles(),
            final(manager).handles(),
            position_of(old(manager).records(), id@),
            pause_effect(old(manager).records(), id@),
        ),
{
    manager.pause(id.as_str(), now_ms())
}

/// Resumes the transfer `id` at the current time, see [`DownloadManager::resume`].
pub fn resume_download(manager: &mut DownloadManager, id: String) -> (result: Result<
    DownloadInfo,
    String,
>)
    requires
        old(manager).wf(),
    ensures
        final(manager).wf(),
        final(manager).limits() == old(manager).limits(),
        exists|now: i64|
            now >= 0 && outcome_view(result) == #[trigger] resume_outcome(
                old(manager).records(),
                id@,
                now,
            ) && final(manager).records() == stored(
                old(manager).records(),
                id@,
                resume_outcome(old(manager).records(), id@, now),
            ),
        handles_follow(
            old(manager).handles(),
            final(manager).handles(),
            position_of(old(manager).records(), id@),
            resume_effect(old(manager).records(), id@),
        ),
{
    manager.resume(id.as_str(), now_ms())
}

/// Cancels the transfer `id` at the current time, see [`DownloadManager::cancel`].
pub fn cancel_download(manager: &mut DownloadManager, id: String) -> (result: Result<
    DownloadInfo,
    String,
>)
    requires
        old(manager).wf(),
    ensures
        final(manager).wf(),
        final(manager).limits() == old(manager).limits(),
        exists|now: i64|
            now >= 0 && outcome_view(result) == #[trigger] cancel_outcome(
                old(manager).records(),
                id@,
                now,
            ) && final(manager).records() == stored(
                old(manager).records(),
                id@,
                cancel_outcome(old(manager).records(), id@, now),
            ),
        handles_follow(
            old(manager).handles(),
            final(manager).handles(),
            position_of(old(manager).records(), id@),
            cancel_effect(old(manager).records(), id@),
        ),
{
    manager.cancel(id.as_str(), now_ms())
}

/// Restarts the transfer `id` at the current time, see [`DownloadManager::restart`].
pub fn restart_download(manager: &mut DownloadManager, id: String) -> (result: Result<
    DownloadInfo,
    String,
>)
    requires
        old(manager).wf(),
    ensures
        final(manager).wf(),
        final(manager).limits() == old(manager).limits(),
        exists|now: i64|
            now >= 0 && outcome_view(result) == #[trigger] restart_outcome(
                old(manager).records(),
                id@,
                now,
            ) && final(manager).records() == stored(
                old(manager).records(),
                id@,
                restart_outcome(old(manager).records(), id@, now),
            ),
        handles_follow(
            old(manager).handles(),
            final(manager).handles(),
            position_of(old(manager).records(), id@),
            restart_effect(old(manager).records(), id@),
        ),
{
    manager.restart(id.as_str(), now_ms())
}

/// Removes the transfer `id`, see [`DownloadManager::remove`].
pub fn remove_download(manager: &mut DownloadManager, id: String) -> (result: Result<(), String>)
    requires
        old(manager).wf(),
    ensures
        final(manager).wf(),
        final(manager).limits() == old(manager).limits(),
        match remove_outcome(old(manager).records(), id@) {
            Ok(_) => result is Ok,
            Err(e) => result is Err && result->Err_0@ == e,
        },
        final(manager).records() == after_remove(old(manager).records(), id@),
        final(manager).handles() == if result is Ok {
            old(manager).handles().remove(position_of(old(manager).records(), id@))
        } else {
            old(manager).handles()
        },
{
    manager.remove(id.as_str())
}

/// Applies a worker's change to the transfer `id` and stamps the record with the
/// current time.
pub fn update_download_info(manager: &mut DownloadManager, id: &str, change: RecordChange)
    requires
        old(manager).wf(),
    ensures
        final(manager).wf(),
        final(manager).limits() == old(manager).limits(),
        final(manager).handles() == old(manager).handles(),
        exists|now: i64|
            now >= 0 && final(manager).records() == #[trigger] updated(
                old(manager).records(),
                id@,
                change@,
                now,
            ),
{
    manager.update(id, change, now_ms())
}

/// A copy of the record of the transfer `id`.
pub fn read_download_info(manager: &DownloadManager, id: &str) -> (r: Option<DownloadInfo>)
    requires
        manager.wf(),
    ensures
        opt_record(r) == lookup(manager.records(), id@),
{
    manager.get(id)
}

} // verus!
