//! Laws of the tracks from SoundCloud and of the JSON documents that they come in.
use vstd::prelude::*;
use serde_json::Value;
use crate::config::OutboundSettings;
use crate::json::{json_document, json_tree, text_at, whole_seconds, JsonTree};
use crate::laws::command::{cookies_named, way_out};
use crate::model::{Track, TrackSource};
use crate::resolve::soundcloud::{
    fallback_failure, fallback_query, fetch_args, fetched_document, finish_soundcloud,
    is_go_premium_payload, is_lowered_premium, is_lowered_preview, is_lowered_soundcloud_url,
    is_lowered_url, is_soundcloud_url, is_url, payload_to_track, payload_with_id, plan_soundcloud,
    primary_payload, read_ytdlp_json, FetchOutcome, SoundcloudError, SoundcloudOutcome,
    SoundcloudPlan,
};
use crate::resolve::ytdl::YtdlError;
use crate::text::{ascii_lowered, ascii_only, has_prefix, has_text, lowercase, trimmed};

verus! {

/// The value is an object that holds the text under the key.
pub open spec fn tells(payload: JsonTree, key: Seq<char>, text: Seq<char>) -> bool {
    payload is Object && payload->Object_0.contains_key(key) && payload->Object_0[key]
        == JsonTree::Text(text)
}

/// The value is an object that holds some text under the key.
pub open spec fn tells_something(payload: JsonTree, key: Seq<char>) -> bool {
    payload is Object && payload->Object_0.contains_key(key) && payload->Object_0[key] is Text
}

/// The text under a key is given exactly where the value is an object that holds one there.
pub proof fn law_text_at(v: &Value, key: &str, r: Option<String>)
    requires
        call_ensures(text_at, (v, key), r),
    ensures
        r is Some <==> tells_something(json_tree(*v), key@),
        r is Some ==> tells(json_tree(*v), key@, r->0@),
{
    assert(r.deep_view() is Some <==> r is Some);
}

/// A duration is a whole number of seconds exactly where it is held as one.
pub proof fn law_whole_seconds(duration: &Option<Value>, n: u64, r: Option<u64>)
    requires
        call_ensures(whole_seconds, (duration,), r),
    ensures
        r == Some(n) <==> duration is Some && json_tree(duration->0) == JsonTree::Number(Some(n)),
{
}

/// The text that a value holds under a key; none where it holds no text there.
pub open spec fn told(payload: JsonTree, key: Seq<char>) -> Seq<char> {
    if tells_something(payload, key) {
        payload->Object_0[key]->Text_0
    } else {
        Seq::empty()
    }
}

/// A message names the reason.
pub proof fn law_soundcloud_message(err: &SoundcloudError, r: String)
    requires
        call_ensures(SoundcloudError::message, (err,), r),
    ensures
        r@ == "soundcloud request failed: "@ + err->RequestFailed_0@,
{
}

/// A text is a link exactly if, trimmed and in lower case, it begins with `http://` or `https://`.
pub proof fn law_is_url(value: &str, lower: &str, r: bool, of_lower: bool)
    requires
        call_ensures(is_url, (value,), r),
        lower@ == lowercase(trimmed(value@)),
        call_ensures(is_lowered_url, (lower,), of_lower),
    ensures
        of_lower <==> has_prefix(lower@, "http://"@) || has_prefix(lower@, "https://"@),
        r == of_lower,
        ascii_only(trimmed(value@)) ==> (r <==> has_prefix(
            ascii_lowered(trimmed(value@)),
            "http://"@,
        ) || has_prefix(ascii_lowered(trimmed(value@)), "https://"@)),
{
}

/// A link leads to SoundCloud exactly if its lower case names `soundcloud.com` or `snd.sc`.
pub proof fn law_is_soundcloud_url(value: &str, lower: &str, r: bool, of_lower: bool)
    requires
        call_ensures(is_soundcloud_url, (value,), r),
        lower@ == lowercase(value@),
        call_ensures(is_lowered_soundcloud_url, (lower,), of_lower),
    ensures
        of_lower <==> has_text(lower@, "soundcloud.com"@) || has_text(lower@, "snd.sc"@),
        r == of_lower,
        ascii_only(value@) ==> (r <==> has_text(ascii_lowered(value@), "soundcloud.com"@)
            || has_text(ascii_lowered(value@), "snd.sc"@)),
{
}

/// A format is a preview exactly if its note or its codec holds "preview".
pub proof fn law_preview(note: &str, codec: &str, r: bool)
    requires
        call_ensures(is_lowered_preview, (note, codec), r),
    ensures
        r <==> has_text(note@, "preview"@) || has_text(codec@, "preview"@),
{
}

/// A track is for subscribers exactly if its availability holds "premium" or "subscriber_only", its
/// title "go+" or "soundcloud go", or its description "go+" or "go premium", or it lasts 30 seconds.
pub proof fn law_premium(
    availability: &str,
    title: &str,
    description: &str,
    duration: Option<u64>,
    r: bool,
)
    requires
        call_ensures(is_lowered_premium, (availability, title, description, duration), r),
    ensures
        r <==> {
            ||| has_text(availability@, "premium"@)
            ||| has_text(availability@, "subscriber_only"@)
            ||| has_text(title@, "go+"@)
            ||| has_text(title@, "soundcloud go"@)
            ||| has_text(description@, "go+"@)
            ||| has_text(description@, "go premium"@)
            ||| duration is Some && duration->0 == 30
        },
{
}

/// One of the payload's formats holds "preview" in its note or its codec.
pub open spec fn has_a_preview(payload: JsonTree) -> bool {
    payload is Object && payload->Object_0.contains_key("formats"@)
        && payload->Object_0["formats"@] is Array && exists|i: int|
        0 <= i < payload->Object_0["formats"@]->Array_0.len() && (has_text(
            lowercase(told(#[trigger] payload->Object_0["formats"@]->Array_0[i], "format_note"@)),
            "preview"@,
        ) || has_text(
            lowercase(told(payload->Object_0["formats"@]->Array_0[i], "acodec"@)),
            "preview"@,
        ))
}

/// The payload holds none of the phrases that tell of a subscription, and does not last 30 seconds.
pub open spec fn tells_of_no_subscription(payload: JsonTree) -> bool {
    &&& !has_text(lowercase(told(payload, "availability"@)), "premium"@)
    &&& !has_text(lowercase(told(payload, "availability"@)), "subscriber_only"@)
    &&& !has_text(lowercase(told(payload, "title"@)), "go+"@)
    &&& !has_text(lowercase(told(payload, "title"@)), "soundcloud go"@)
    &&& !has_text(lowercase(told(payload, "description"@)), "go+"@)
    &&& !has_text(lowercase(told(payload, "description"@)), "go premium"@)
    &&& !(payload is Object && payload->Object_0.contains_key("duration"@)
        && payload->Object_0["duration"@] == JsonTree::Number(Some(30)))
}

proof fn lemma_told(payload: JsonTree, key: Seq<char>)
    ensures
        told(payload, key) == crate::resolve::ytdl::or_empty(payload.text_at(key)),
        tells_something(payload, key) <==> payload.text_at(key) is Some,
        payload.text_at(key) is Some ==> payload.text_at(key) == Some(told(payload, key)),
{
}

proof fn lemma_previews(payload: JsonTree)
    ensures
        has_a_preview(payload) == crate::resolve::soundcloud::offers_preview(payload),
{
    assert forall|format: JsonTree, key: Seq<char>| #[trigger] told(format, key)
        == crate::resolve::ytdl::or_empty(format.text_at(key)) by {
        lemma_told(format, key);
    }
    if crate::resolve::soundcloud::offers_preview(payload) {
        let formats = payload->Object_0["formats"@]->Array_0;
        let i = choose|i: int|
            0 <= i < formats.len() && crate::resolve::soundcloud::is_preview(
                #[trigger] formats[i],
            );
        let format = payload->Object_0["formats"@]->Array_0[i];
        assert(has_text(lowercase(told(format, "format_note"@)), "preview"@) || has_text(
            lowercase(told(format, "acodec"@)),
            "preview"@,
        ));
    }
    if has_a_preview(payload) {
        let formats = payload->Object_0["formats"@]->Array_0;
        let i = choose|i: int|
            0 <= i < formats.len() && (has_text(
                lowercase(told(#[trigger] formats[i], "format_note"@)),
                "preview"@,
            ) || has_text(lowercase(told(formats[i], "acodec"@)), "preview"@));
        assert(crate::resolve::soundcloud::is_preview(formats[i]));
        assert(crate::resolve::soundcloud::any_preview(formats));
    }
}

/// A payload is for subscribers exactly if it holds one of the phrases, lasts 30 seconds or has a
/// format that is a preview.
pub proof fn law_premium_payload(payload: &Value, r: bool)
    requires
        call_ensures(is_go_premium_payload, (payload,), r),
    ensures
        r <==> !tells_of_no_subscription(json_tree(*payload)) || has_a_preview(
            json_tree(*payload),
        ),
{
    let tree = json_tree(*payload);
    lemma_told(tree, "availability"@);
    lemma_told(tree, "title"@);
    lemma_told(tree, "description"@);
    lemma_previews(tree);
}

/// The link that a payload's track plays from: its page, else the page that it names as its
/// original one, else its own link.
pub open spec fn plays_from(payload: JsonTree) -> Seq<char> {
    if tells_something(payload, "webpage_url"@) {
        told(payload, "webpage_url"@)
    } else if tells_something(payload, "original_url"@) {
        told(payload, "original_url"@)
    } else {
        told(payload, "url"@)
    }
}

/// A payload without any of the phrases and without a preview, that does not last 30 seconds and
/// that has a link, gives its own track; any other gives none.
pub proof fn law_track_of_a_payload(
    id: u128,
    payload: &Value,
    duration_ms: Option<u64>,
    source: TrackSource,
    r: Option<Track>,
)
    requires
        call_ensures(payload_with_id, (id, payload, duration_ms, source), r),
    ensures
        r is Some <==> tells_of_no_subscription(json_tree(*payload)) && !has_a_preview(
            json_tree(*payload),
        ) && plays_from(json_tree(*payload)).len() > 0,
        r is Some ==> {
            let tree = json_tree(*payload);
            let track = r->0;
            &&& track.id == id
            &&& track.source == source
            &&& track.duration_ms == duration_ms
            &&& track.title@ == told(tree, "title"@)
            &&& track.url@ == plays_from(tree)
            &&& track.thumbnail is Some <==> tells_something(tree, "thumbnail"@)
            &&& track.thumbnail is Some ==> track.thumbnail->0@ == told(tree, "thumbnail"@)
            &&& track.artist is Some <==> tells_something(tree, "uploader"@)
            &&& track.artist is Some ==> track.artist->0@ == told(tree, "uploader"@)
            &&& track.original_url is Some <==> tells_something(tree, "webpage_url"@)
                || tells_something(tree, "original_url"@)
            &&& track.original_url is Some ==> track.original_url->0@ == plays_from(tree)
        },
{
    let tree = json_tree(*payload);
    lemma_told(tree, "availability"@);
    lemma_told(tree, "title"@);
    lemma_told(tree, "description"@);
    lemma_told(tree, "webpage_url"@);
    lemma_told(tree, "original_url"@);
    lemma_told(tree, "url"@);
    lemma_told(tree, "thumbnail"@);
    lemma_told(tree, "uploader"@);
    lemma_previews(tree);
    assert(r.deep_view() is Some <==> r is Some);
    if r is Some {
        let track = r->0;
        assert(r.deep_view() == Some(track@));
        assert(track@.thumbnail == track.thumbnail.deep_view());
        assert(track@.artist == track.artist.deep_view());
        assert(track@.original_url == track.original_url.deep_view());
    }
}

/// A track under a new identifier is the one under any other, and the identifier is a random UUID.
pub proof fn law_new_track_of_a_payload(
    payload: &Value,
    duration_ms: Option<u64>,
    source: TrackSource,
    r: Option<Track>,
    id: u128,
    same: Option<Track>,
)
    requires
        call_ensures(payload_to_track, (payload, duration_ms, source), r),
        r is Some ==> id == r->0.id,
        call_ensures(payload_with_id, (id, payload, duration_ms, source), same),
    ensures
        r is Some <==> same is Some,
        r is Some ==> r->0@ == same->0@ && (id >> 76) & 0xf == 4 && (id >> 62) & 0x3 == 2,
{
    assert(same.deep_view() is Some <==> same is Some);
    if same is Some {
        assert(same.deep_view() == Some(same->0@));
    }
}

/// A fetched payload that everybody hears and that has a link gives its own SoundCloud track, and
/// any other leads to YouTube, as does a fetch that failed, with the query that it was for.
pub proof fn law_finished_fetch(
    payload: Option<&Value>,
    duration_ms: Option<u64>,
    query: &str,
    r: SoundcloudOutcome,
    id: u128,
    own: Option<Track>,
    asked: String,
)
    requires
        call_ensures(finish_soundcloud, (payload, duration_ms, query), r),
        r is Found ==> id == r->Found_0.id,
        payload is Some ==> call_ensures(
            payload_with_id,
            (id, payload->0, duration_ms, TrackSource::Soundcloud),
            own,
        ),
        call_ensures(fallback_query, (payload, query), asked),
    ensures
        payload is None ==> r is Youtube && r->Youtube_0@ == query@,
        payload is Some ==> (r is Found <==> own is Some),
        payload is Some && own is Some ==> r->Found_0@ == own->0@ && (id >> 76) & 0xf == 4,
        payload is Some && own is None ==> r is Youtube && r->Youtube_0@ == asked@,
{
    assert(own.deep_view() is Some <==> own is Some);
    if own is Some {
        assert(own.deep_view() == Some(own->0@));
    }
}

/// YouTube is asked for the artist and the title, with a space between them and trimmed, and for
/// the query where there is neither.
pub proof fn law_asked_in_its_place(payload: Option<&Value>, original_query: &str, r: String)
    requires
        call_ensures(fallback_query, (payload, original_query), r),
    ensures
        payload is None ==> r@ == original_query@,
        payload is Some ==> {
            let tree = json_tree(*payload->0);
            let both = trimmed(told(tree, "uploader"@) + seq![' '] + told(tree, "title"@));
            &&& both.len() > 0 ==> r@ == both
            &&& both.len() == 0 ==> r@ == original_query@
        },
{
    reveal_strlit(" ");
    assert(" "@ =~= seq![' ']);
    if payload is Some {
        let tree = json_tree(*payload->0);
        lemma_told(tree, "uploader"@);
        lemma_told(tree, "title"@);
    } else {
        let nothing = Seq::<char>::empty() + " "@ + Seq::<char>::empty();
        assert(nothing =~= seq![' ']);
        crate::laws::text::law_trimmed(nothing);
        assert(crate::laws::text::all_white(nothing));
    }
}

/// A blank query finds nothing, a link elsewhere goes to YouTube as it is, a link to SoundCloud is
/// fetched as it is, and any other text is searched for, all of them trimmed.
pub proof fn law_planned_fetch(
    query: &str,
    wanted: &str,
    link: bool,
    to_soundcloud: bool,
    r: SoundcloudPlan,
)
    requires
        call_ensures(plan_soundcloud, (query,), r),
        wanted@ == trimmed(query@),
        call_ensures(is_url, (wanted,), link),
        call_ensures(is_soundcloud_url, (wanted,), to_soundcloud),
    ensures
        wanted@.len() == 0 ==> r is Nothing,
        wanted@.len() > 0 && link && !to_soundcloud ==> r is Youtube && r->Youtube_0@ == wanted@,
        wanted@.len() > 0 && link && to_soundcloud ==> r is Fetch && r->target@ == wanted@
            && r->query@ == wanted@,
        wanted@.len() > 0 && !link ==> r is Fetch && r->target@ == "scsearch1:"@ + wanted@
            && r->query@ == wanted@,
{
}

/// The arguments of a fetch: one document, without warnings, the target, the cookie file where
/// there is one, and the way out.
pub proof fn law_fetch_arguments(
    target: &str,
    settings: &OutboundSettings,
    source_addr: Option<&str>,
    r: Vec<String>,
)
    requires
        call_ensures(fetch_args, (target, settings, source_addr), r),
    ensures
        r.deep_view() == seq!["--dump-single-json"@, "--no-warnings"@, target@] + cookies_named(
            settings.cookies(),
        ) + way_out(settings.proxy(), source_addr.deep_view()),
{
    let cookies = cookies_named(settings.cookies());
    assert(cookies =~= crate::command::cookie_args(settings.cookies()));
    let route = way_out(settings.proxy(), source_addr.deep_view());
    assert(route =~= crate::command::route_args(settings.proxy(), source_addr.deep_view()));
}

/// What the program printed is read if it succeeded; else what it wrote to its error stream,
/// trimmed, is why there is nothing.
pub proof fn law_printed_document(
    success: bool,
    stdout: &str,
    stderr: &str,
    r: Result<Value, SoundcloudError>,
)
    requires
        call_ensures(read_ytdlp_json, (success, stdout, stderr), r),
    ensures
        r is Ok <==> success && json_document(stdout@) is Ok,
        r is Ok ==> Ok::<JsonTree, Seq<char>>(json_tree(r->Ok_0)) == json_document(stdout@),
        !success ==> r->Err_0->RequestFailed_0@ == trimmed(stderr@),
        success && json_document(stdout@) is Err ==> r->Err_0->RequestFailed_0@ == json_document(
            stdout@,
        )->Err_0,
{
}

/// A program that could not be run gives the reason as it is; one that ran gives what is read from
/// what it printed.
pub proof fn law_fetched_document(
    outcome: FetchOutcome,
    r: Result<Value, SoundcloudError>,
    stdout: &str,
    stderr: &str,
    read: Result<Value, SoundcloudError>,
)
    requires
        call_ensures(fetched_document, (outcome,), r),
        outcome is Ran ==> stdout@ == outcome->stdout@ && stderr@ == outcome->stderr@,
        call_ensures(read_ytdlp_json, (outcome->success, stdout, stderr), read),
    ensures
        outcome is CannotRun ==> r is Err && r->Err_0->RequestFailed_0 == outcome->CannotRun_0,
        outcome is Ran ==> (r is Ok <==> read is Ok),
        outcome is Ran && r is Ok ==> json_tree(r->Ok_0) == json_tree(read->Ok_0),
        outcome is Ran && r is Err ==> r->Err_0->RequestFailed_0@ == read->Err_0->RequestFailed_0@,
{
}

/// The track is described by the first of the document's entries, and by the document itself where
/// it has none.
pub proof fn law_primary_payload(document: &Value, r: &Value)
    requires
        call_ensures(primary_payload, (document,), r),
    ensures
        ({
            let tree = json_tree(*document);
            let listed = tree is Object && tree->Object_0.contains_key("entries"@)
                && tree->Object_0["entries"@] is Array
                && tree->Object_0["entries"@]->Array_0.len() > 0;
            &&& listed ==> json_tree(*r) == tree->Object_0["entries"@]->Array_0[0]
            &&& !listed ==> json_tree(*r) == tree
        }),
{
}

/// A query that YouTube could not be asked for fails with YouTube's message.
pub proof fn law_fallback_failure(err: &YtdlError, r: SoundcloudError, message: String)
    requires
        call_ensures(fallback_failure, (err,), r),
        call_ensures(YtdlError::message, (err,), message),
    ensures
        r->RequestFailed_0@ == message@,
{
}

} // verus!
