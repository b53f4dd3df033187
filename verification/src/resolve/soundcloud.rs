//! Tracks from SoundCloud, with YouTube in place of what cannot be had there.
use vstd::prelude::*;
use serde_json::Value;
use crate::command::{cookie_args, push_arg, push_cookies, push_route, route_args};
use crate::config::{proxy_url, yt_cookies_file, OutboundSettings};
use crate::json::{
    json_array, json_document, json_get, json_tree, json_trees, json_u64, parse_json, text_at,
    JsonTree,
};
use crate::model::{Track, TrackSource, TrackView};
use crate::resolve::ytdl::{or_else, or_empty, YtdlError};
use crate::text::{
    ascii_lowered, ascii_only, concat, contains, has_prefix, has_text, lowercase, starts_with,
    trim, trimmed,
};
use crate::track_id::{is_random_uuid, new_track_id};

verus! {

/// Why SoundCloud gave no tracks.
#[derive(Debug)]
pub enum SoundcloudError {
    RequestFailed(String),
}

impl SoundcloudError {
    /// The message that a person reads.
    pub open spec fn text(&self) -> Seq<char> {
        match self {
            SoundcloudError::RequestFailed(why) => "soundcloud request failed: "@ + why@,
        }
    }

    /// The message that a person reads.
    pub fn message(&self) -> (r: String)
        ensures
            r@ == self.text(),
    {
        match self {
            SoundcloudError::RequestFailed(why) => concat("soundcloud request failed: ", why),
        }
    }
}

/// The lower-cased text begins with `http://` or `https://`.
pub open spec fn begins_like_url(lower: Seq<char>) -> bool {
    has_prefix(lower, "http://"@) || has_prefix(lower, "https://"@)
}

/// The lower-cased link leads to SoundCloud.
pub open spec fn mentions_soundcloud(lower: Seq<char>) -> bool {
    has_text(lower, "soundcloud.com"@) || has_text(lower, "snd.sc"@)
}

/// The text is a link: trimmed and in lower case it begins with `http://` or `https://`.
pub open spec fn looks_like_url(value: Seq<char>) -> bool {
    begins_like_url(lowercase(trimmed(value)))
}

/// The link leads to SoundCloud.
pub open spec fn names_soundcloud(value: Seq<char>) -> bool {
    mentions_soundcloud(lowercase(value))
}

/// Whether the lower-cased text begins like a link.
pub fn is_lowered_url(lower: &str) -> (r: bool)
    ensures
        r == begins_like_url(lower@),
{
    starts_with(lower, "http://") || starts_with(lower, "https://")
}

/// Whether the lower-cased link leads to SoundCloud.
pub fn is_lowered_soundcloud_url(lower: &str) -> (r: bool)
    ensures
        r == mentions_soundcloud(lower@),
{
    contains(lower, "soundcloud.com") || contains(lower, "snd.sc")
}

/// Whether the text is a link. Of a text in ASCII the lower case is known.
pub fn is_url(value: &str) -> (r: bool)
    ensures
        r == looks_like_url(value@),
        ascii_only(trimmed(value@)) ==> r == begins_like_url(ascii_lowered(trimmed(value@))),
{
    is_lowered_url(&trim(value).as_str().to_lowercase())
}

/// Whether the link leads to SoundCloud. Of a text in ASCII the lower case is known.
pub fn is_soundcloud_url(value: &str) -> (r: bool)
    ensures
        r == names_soundcloud(value@),
        ascii_only(value@) ==> r == mentions_soundcloud(ascii_lowered(value@)),
{
    is_lowered_soundcloud_url(&value.to_lowercase())
}

/// The text under a key, in lower case; empty where there is none.
pub open spec fn lower_at(payload: JsonTree, key: Seq<char>) -> Seq<char> {
    lowercase(or_empty(payload.text_at(key)))
}

/// A format with this note and this codec, both in lower case, is only a preview.
pub open spec fn mentions_preview(note: Seq<char>, codec: Seq<char>) -> bool {
    has_text(note, "preview"@) || has_text(codec, "preview"@)
}

/// The format is only a preview.
pub open spec fn is_preview(format: JsonTree) -> bool {
    mentions_preview(lower_at(format, "format_note"@), lower_at(format, "acodec"@))
}

/// One of the formats is only a preview.
pub open spec fn any_preview(formats: Seq<JsonTree>) -> bool {
    exists|i: int| 0 <= i < formats.len() && is_preview(#[trigger] formats[i])
}

/// The payload has a format that is only a preview.
pub open spec fn offers_preview(payload: JsonTree) -> bool {
    match payload.items_at("formats"@) {
        Some(formats) => any_preview(formats),
        None => false,
    }
}

/// A track of this availability, title and description, all in lower case, and of this whole
/// number of seconds is one that only subscribers hear in full: one of the texts says so, or it
/// lasts just 30 seconds.
pub open spec fn mentions_premium(
    availability: Seq<char>,
    title: Seq<char>,
    description: Seq<char>,
    duration: Option<u64>,
) -> bool {
    ||| has_text(availability, "premium"@) || has_text(availability, "subscriber_only"@)
    ||| has_text(title, "go+"@) || has_text(title, "soundcloud go"@)
    ||| has_text(description, "go+"@) || has_text(description, "go premium"@)
    ||| duration == Some(30u64)
}

/// The number under a key, if it is held as a whole one.
pub open spec fn number_at(payload: JsonTree, key: Seq<char>) -> Option<u64> {
    match payload.field(key) {
        Some(member) => member.number(),
        None => None,
    }
}

/// The payload is of a track that only subscribers hear in full: it says so in its
/// availability, title or description, lasts just 30 seconds, or offers a preview.
pub open spec fn is_go_premium(payload: JsonTree) -> bool {
    ||| mentions_premium(
        lower_at(payload, "availability"@),
        lower_at(payload, "title"@),
        lower_at(payload, "description"@),
        number_at(payload, "duration"@),
    )
    ||| offers_preview(payload)
}

/// Whether a format with this note and this codec, both in lower case, is only a preview.
pub fn is_lowered_preview(note: &str, codec: &str) -> (r: bool)
    ensures
        r == mentions_preview(note@, codec@),
{
    contains(note, "preview") || contains(codec, "preview")
}

/// Whether a track of this availability, title and description, all in lower case, and of this
/// whole number of seconds is one that only subscribers hear in full.
pub fn is_lowered_premium(
    availability: &str,
    title: &str,
    description: &str,
    duration: Option<u64>,
) -> (r: bool)
    ensures
        r == mentions_premium(availability@, title@, description@, duration),
{
    if contains(availability, "premium") || contains(availability, "subscriber_only") {
        return true;
    }
    if contains(title, "go+") || contains(title, "soundcloud go") {
        return true;
    }
    if contains(description, "go+") || contains(description, "go premium") {
        return true;
    }
    match duration {
        Some(secs) => secs == 30,
        None => false,
    }
}

/// The text under a key, in lower case; empty where there is none.
fn lower_text_at(payload: &Value, key: &str) -> (r: String)
    ensures
        r@ == lower_at(json_tree(*payload), key@),
{
    match text_at(payload, key) {
        Some(t) => t.as_str().to_lowercase(),
        None => String::new().as_str().to_lowercase(),
    }
}

/// Whether the payload has a format that is only a preview.
fn has_preview(payload: &Value) -> (r: bool)
    ensures
        r == offers_preview(json_tree(*payload)),
{
    let formats = match json_get(payload, "formats") {
        Some(member) => match json_array(member) {
            Some(items) => items,
            None => {
                return false;
            },
        },
        None => {
            return false;
        },
    };
    let ghost trees = json_trees(formats@);
    for i in 0..formats.len()
        invariant
            trees == json_trees(formats@),
            json_tree(*payload).items_at("formats"@) == Some(trees),
            forall|j: int| 0 <= j < i ==> !is_preview(#[trigger] trees[j]),
    {
        let note = lower_text_at(&formats[i], "format_note");
        let codec = lower_text_at(&formats[i], "acodec");
        assert(trees[i as int] == json_tree(formats@[i as int]));
        if is_lowered_preview(&note, &codec) {
            assert(is_preview(trees[i as int]));
            assert(any_preview(trees));
            return true;
        }
    }
    false
}

/// Whether the payload is of a track that only subscribers hear in full.
pub fn is_go_premium_payload(payload: &Value) -> (r: bool)
    ensures
        r == is_go_premium(json_tree(*payload)),
{
    let availability = lower_text_at(payload, "availability");
    let title = lower_text_at(payload, "title");
    let description = lower_text_at(payload, "description");
    let duration: Option<u64> = match json_get(payload, "duration") {
        Some(member) => json_u64(member),
        None => None,
    };
    is_lowered_premium(&availability, &title, &description, duration) || has_preview(payload)
}

/// The page of the payload's track.
pub open spec fn payload_page(payload: JsonTree) -> Option<Seq<char>> {
    or_else(payload.text_at("webpage_url"@), payload.text_at("original_url"@))
}

/// The link that the payload's track plays from; empty where there is none.
pub open spec fn payload_url(payload: JsonTree) -> Seq<char> {
    or_empty(or_else(payload_page(payload), payload.text_at("url"@)))
}

/// The payload gives a track: one that everybody hears and that has a link.
pub open spec fn is_playable(payload: JsonTree) -> bool {
    !is_go_premium(payload) && payload_url(payload).len() > 0
}

/// The track of a payload.
pub open spec fn track_of_payload(
    id: u128,
    payload: JsonTree,
    duration_ms: Option<u64>,
    source: TrackSource,
) -> TrackView {
    TrackView {
        id,
        title: or_empty(payload.text_at("title"@)),
        url: payload_url(payload),
        thumbnail: payload.text_at("thumbnail"@),
        duration_ms,
        source,
        original_url: payload_page(payload),
        artist: payload.text_at("uploader"@),
    }
}

/// The track of a payload under the given identifier, if the payload gives one.
/// `duration_ms` is the payload's duration in milliseconds.
pub fn payload_with_id(
    id: u128,
    payload: &Value,
    duration_ms: Option<u64>,
    source: TrackSource,
) -> (r: Option<Track>)
    ensures
        r.deep_view() == (if is_playable(json_tree(*payload)) {
            Some(track_of_payload(id, json_tree(*payload), duration_ms, source))
        } else {
            None
        }),
{
    if is_go_premium_payload(payload) {
        return None;
    }
    let title = match text_at(payload, "title") {
        Some(t) => t,
        None => String::new(),
    };
    let original_url = match text_at(payload, "webpage_url") {
        Some(page) => Some(page),
        None => text_at(payload, "original_url"),
    };
    let url = match &original_url {
        Some(page) => page.clone(),
        None => match text_at(payload, "url") {
            Some(link) => link,
            None => String::new(),
        },
    };
    if url.as_str().is_empty() {
        return None;
    }
    Some(
        Track {
            id,
            title,
            url,
            thumbnail: text_at(payload, "thumbnail"),
            duration_ms,
            source,
            original_url,
            artist: text_at(payload, "uploader"),
        },
    )
}

/// The track of a payload under a new identifier, if the payload gives one.
pub fn payload_to_track(
    payload: &Value,
    duration_ms: Option<u64>,
    source: TrackSource,
) -> (r: Option<Track>)
    ensures
        r is Some == is_playable(json_tree(*payload)),
        r matches Some(track) ==> track@ == track_of_payload(
            track.id,
            json_tree(*payload),
            duration_ms,
            source,
        ) && is_random_uuid(track.id),
{
    payload_with_id(new_track_id(), payload, duration_ms, source)
}

/// What YouTube is asked for in place of a payload's track: its artist and title, or the
/// query where it has neither.
pub open spec fn youtube_query(payload: Option<JsonTree>, original_query: Seq<char>) -> Seq<char> {
    let (artist, title) = match payload {
        Some(p) => (or_empty(p.text_at("uploader"@)), or_empty(p.text_at("title"@))),
        None => (Seq::empty(), Seq::empty()),
    };
    let combined = trimmed(artist + " "@ + title);
    if combined.len() == 0 {
        original_query
    } else {
        combined
    }
}

/// What YouTube is asked for in place of a payload's track.
pub fn fallback_query(payload: Option<&Value>, original_query: &str) -> (r: String)
    ensures
        r@ == youtube_query(
            (match payload {
                Some(p) => Some(json_tree(*p)),
                None => None,
            }),
            original_query@,
        ),
{
    let artist = match payload {
        Some(p) => text_at(p, "uploader"),
        None => None,
    };
    let title = match payload {
        Some(p) => text_at(p, "title"),
        None => None,
    };
    let artist = match artist {
        Some(t) => t,
        None => String::new(),
    };
    let title = match title {
        Some(t) => t,
        None => String::new(),
    };
    let combined = trim(&concat(&concat(&artist, " "), &title));
    if combined.as_str().is_empty() {
        String::from_str(original_query)
    } else {
        combined
    }
}

/// What a query leads to.
#[derive(Debug)]
pub enum SoundcloudPlan {
    /// There is nothing to look for.
    Nothing,
    /// YouTube is asked for the text.
    Youtube(String),
    /// `yt-dlp` is asked for the target on behalf of the query.
    Fetch { target: String, query: String },
}

/// What to do for a query. A blank one finds nothing; a link that does not lead to SoundCloud
/// goes to YouTube; a link that does is fetched; any other text is searched for.
pub fn plan_soundcloud(query: &str) -> (r: SoundcloudPlan)
    ensures
        ({
            let wanted = trimmed(query@);
            if wanted.len() == 0 {
                r is Nothing
            } else if looks_like_url(wanted) && !names_soundcloud(wanted) {
                r matches SoundcloudPlan::Youtube(text) && text@ == wanted
            } else {
                r matches SoundcloudPlan::Fetch { target, query: on_behalf } && on_behalf@
                    == wanted && target@ == (if looks_like_url(wanted) {
                    wanted
                } else {
                    "scsearch1:"@ + wanted
                })
            }
        }),
{
    let wanted = trim(query);
    if wanted.as_str().is_empty() {
        return SoundcloudPlan::Nothing;
    }
    if is_url(&wanted) {
        if !is_soundcloud_url(&wanted) {
            return SoundcloudPlan::Youtube(wanted);
        }
        SoundcloudPlan::Fetch { target: wanted.clone(), query: wanted }
    } else {
        SoundcloudPlan::Fetch { target: concat("scsearch1:", &wanted), query: wanted }
    }
}

/// The arguments of `yt-dlp` for a target.
pub fn fetch_args(target: &str, settings: &OutboundSettings, source_addr: Option<&str>) -> (r: Vec<
    String,
>)
    ensures
        r.deep_view() == seq!["--dump-single-json"@, "--no-warnings"@, target@] + cookie_args(
            settings.cookies(),
        ) + route_args(settings.proxy(), source_addr.deep_view()),
{
    let mut args: Vec<String> = Vec::new();
    push_arg(&mut args, "--dump-single-json");
    push_arg(&mut args, "--no-warnings");
    push_arg(&mut args, target);
    push_cookies(&mut args, yt_cookies_file(settings));
    push_route(&mut args, proxy_url(settings), source_addr);
    assert(args.deep_view() =~= seq!["--dump-single-json"@, "--no-warnings"@, target@]
        + cookie_args(settings.cookies()) + route_args(settings.proxy(), source_addr.deep_view()));
    args
}

/// The document that `yt-dlp` printed. It fails if the program failed, with what it wrote to
/// its error stream, or if the output is no JSON document, with the parser's message.
pub fn read_ytdlp_json(success: bool, stdout: &str, stderr: &str) -> (r: Result<
    Value,
    SoundcloudError,
>)
    ensures
        if success {
            match json_document(stdout@) {
                Ok(tree) => r matches Ok(v) && json_tree(v) == tree,
                Err(message) => r matches Err(SoundcloudError::RequestFailed(why)) && why@
                    == message,
            }
        } else {
            r matches Err(SoundcloudError::RequestFailed(why)) && why@ == trimmed(stderr@)
        },
{
    if !success {
        return Err(SoundcloudError::RequestFailed(trim(stderr)));
    }
    match parse_json(stdout) {
        Ok(v) => Ok(v),
        Err(message) => Err(SoundcloudError::RequestFailed(message)),
    }
}

/// How a fetch ended.
#[derive(Debug)]
pub enum FetchOutcome {
    /// The program could not be run; the text says why.
    CannotRun(String),
    /// The program ran, with or without success, and wrote to its output and its error stream.
    Ran { success: bool, stdout: String, stderr: String },
}

/// The document that a fetch gave. It fails if the program could not be run, failed or printed
/// no JSON document.
pub fn fetched_document(outcome: FetchOutcome) -> (r: Result<Value, SoundcloudError>)
    ensures
        match outcome {
            FetchOutcome::CannotRun(why) => r matches Err(SoundcloudError::RequestFailed(t)) && t
                == why,
            FetchOutcome::Ran { success, stdout, stderr } => if !success {
                r matches Err(SoundcloudError::RequestFailed(t)) && t@ == trimmed(stderr@)
            } else {
                match json_document(stdout@) {
                    Ok(tree) => r matches Ok(v) && json_tree(v) == tree,
                    Err(message) => r matches Err(SoundcloudError::RequestFailed(t)) && t@
                        == message,
                }
            },
        },
{
    match outcome {
        FetchOutcome::CannotRun(why) => Err(SoundcloudError::RequestFailed(why)),
        FetchOutcome::Ran { success, stdout, stderr } => read_ytdlp_json(
            success,
            &stdout,
            &stderr,
        ),
    }
}

/// The part of a document that describes the track: its first entry, or the document itself
/// where it has no entries.
pub open spec fn primary_of(document: JsonTree) -> JsonTree {
    match document.items_at("entries"@) {
        Some(entries) => if entries.len() > 0 {
            entries[0]
        } else {
            document
        },
        None => document,
    }
}

/// The part of a document that describes the track.
pub fn primary_payload<'a>(document: &'a Value) -> (r: &'a Value)
    ensures
        json_tree(*r) == primary_of(json_tree(*document)),
{
    match json_get(document, "entries") {
        Some(member) => match json_array(member) {
            Some(entries) => if entries.len() > 0 {
                assert(json_trees(entries@)[0] == json_tree(entries@[0]));
                &entries[0]
            } else {
                document
            },
            None => document,
        },
        None => document,
    }
}

/// What a fetched payload leads to.
#[derive(Debug)]
pub enum SoundcloudOutcome {
    /// The track was found.
    Found(Track),
    /// YouTube is asked for the text.
    Youtube(String),
}

/// What a fetch leads to: the payload's track, or YouTube where the payload gives none or the
/// fetch failed. `payload` is `None` where it failed, `duration_ms` is the payload's duration in
/// milliseconds, and `query` the query that it was fetched for.
pub fn finish_soundcloud(payload: Option<&Value>, duration_ms: Option<u64>, query: &str) -> (r:
    SoundcloudOutcome)
    ensures
        match payload {
            Some(p) => if is_playable(json_tree(*p)) {
                r matches SoundcloudOutcome::Found(track) && is_random_uuid(track.id) && track@
                    == track_of_payload(
                    track.id,
                    json_tree(*p),
                    duration_ms,
                    TrackSource::Soundcloud,
                )
            } else {
                r matches SoundcloudOutcome::Youtube(text) && text@ == youtube_query(
                    Some(json_tree(*p)),
                    query@,
                )
            },
            None => r matches SoundcloudOutcome::Youtube(text) && text@ == query@,
        },
{
    match payload {
        Some(p) => match payload_to_track(p, duration_ms, TrackSource::Soundcloud) {
            Some(track) => SoundcloudOutcome::Found(track),
            None => SoundcloudOutcome::Youtube(fallback_query(Some(p), query)),
        },
        None => SoundcloudOutcome::Youtube(String::from_str(query)),
    }
}

/// The error of a query that YouTube could not be asked for either.
pub fn fallback_failure(err: &YtdlError) -> (r: SoundcloudError)
    ensures
        r matches SoundcloudError::RequestFailed(why) && why@ == err.text(),
{
    SoundcloudError::RequestFailed(err.message())
}

} // verus!
