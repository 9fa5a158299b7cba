use vstd::prelude::*;
use crate::json::{Json, JsonMember, json_get, json_pointer, opt_str, parse_json, serde_parse};
use crate::output::{CliOutput, OutputView, failed, succeeded};
use crate::session::text_or;
use crate::text::{decimal, decimal_u64, join2, join3, same_text};

verus! {

/// Where still images are requested.
pub const IMAGES_ENDPOINT: &'static str = "https://api.x.ai/v1/images/generations";

/// Where videos are requested.
pub const VIDEOS_ENDPOINT: &'static str = "https://api.x.ai/v1/videos/generations";

/// Where files are uploaded.
pub const FILES_ENDPOINT: &'static str = "https://api.x.ai/v1/files";

/// The prefix of the address at which a video request is polled.
pub const VIDEO_STATUS_PREFIX: &'static str = "https://api.x.ai/v1/videos/";

/// The media type under which an image is uploaded.
pub const UPLOAD_MIME: &'static str = "image/jpeg";

/// The `purpose` field of an image upload.
pub const UPLOAD_PURPOSE: &'static str = "vision";

/// The file name used for an upload whose path names none.
pub const UPLOAD_DEFAULT_NAME: &'static str = "image.jpg";

/// How many times a video request is polled before giving up.
pub const MAX_POLL_ATTEMPTS: u32 = 60;

/// How many seconds pass before each poll.
pub const POLL_INTERVAL_SECS: u64 = 5;

/// `m` is the member `key` holding the JSON string `text`.
pub open spec fn text_member(m: JsonMember, key: Seq<char>, text: Seq<char>) -> bool {
    &&& m.key@ == key
    &&& m.value matches Json::Str(s) && s@ == text
}

/// `m` is the member `key` holding the JSON number written `digits`.
pub open spec fn number_member(m: JsonMember, key: Seq<char>, digits: Seq<char>) -> bool {
    &&& m.key@ == key
    &&& m.value matches Json::Number(n) && n@ == digits
}

fn text_entry(key: &str, text: &str) -> (m: JsonMember)
    ensures
        text_member(m, key@, text@),
{
    JsonMember { key: String::from_str(key), value: Json::Str(String::from_str(text)) }
}

fn number_entry(key: &str, digits: &str) -> (m: JsonMember)
    ensures
        number_member(m, key@, digits@),
{
    JsonMember { key: String::from_str(key), value: Json::Number(String::from_str(digits)) }
}

/// The body of an image request: one image of `prompt` at `ratio`, answered
/// with a URL, members in key order.
pub fn image_request_body(prompt: &str, ratio: &str) -> (j: Json)
    ensures
        j matches Json::Object(ms) && ms@.len() == 5
            && text_member(ms@[0], "aspect_ratio"@, ratio@)
            && text_member(ms@[1], "model"@, "grok-imagine-image-quality"@)
            && number_member(ms@[2], "n"@, "1"@)
            && text_member(ms@[3], "prompt"@, prompt@)
            && text_member(ms@[4], "response_format"@, "url"@),
{
    let mut ms: Vec<JsonMember> = Vec::new();
    ms.push(text_entry("aspect_ratio", ratio));
    ms.push(text_entry("model", "grok-imagine-image-quality"));
    ms.push(number_entry("n", "1"));
    ms.push(text_entry("prompt", prompt));
    ms.push(text_entry("response_format", "url"));
    Json::Object(ms)
}

/// The body of a video request: a six-second video of `prompt`, animating
/// the uploaded file `file_id` when there is one, members in key order.
pub fn video_request_body(prompt: &str, file_id: &Option<String>) -> (j: Json)
    ensures
        j matches Json::Object(ms) && match *file_id {
            Some(id) => ms@.len() == 4
                && number_member(ms@[0], "duration"@, "6"@)
                && text_member(ms@[1], "image_file_id"@, id@)
                && text_member(ms@[2], "model"@, "grok-imagine-video-1.5"@)
                && text_member(ms@[3], "prompt"@, prompt@),
            None => ms@.len() == 3
                && number_member(ms@[0], "duration"@, "6"@)
                && text_member(ms@[1], "model"@, "grok-imagine-video-1.5"@)
                && text_member(ms@[2], "prompt"@, prompt@),
        },
{
    let mut ms: Vec<JsonMember> = Vec::new();
    ms.push(number_entry("duration", "6"));
    match file_id {
        Some(id) => {
            ms.push(text_entry("image_file_id", id.as_str()));
        },
        None => {},
    }
    ms.push(text_entry("model", "grok-imagine-video-1.5"));
    ms.push(text_entry("prompt", prompt));
    Json::Object(ms)
}

/// The text of the JSON string at `ptr` inside `j`, if there is one.
fn string_at(j: &Json, ptr: &str) -> (r: Option<String>)
    ensures
        match r {
            Some(s) => opt_str(json_pointer(*j, ptr@)) == Some(s@),
            None => opt_str(json_pointer(*j, ptr@)) is None,
        },
{
    match j.pointer(ptr) {
        Some(v) => match v.as_str() {
            Some(s) => Some(String::from_str(s)),
            None => None,
        },
        None => None,
    }
}

/// What the reply to an image request yields: the URL of the image, or the
/// answer that ends the command.
pub open spec fn image_reply_outcome(status_ok: bool, status: Seq<char>, body: Seq<char>) -> Result<Seq<char>, OutputView> {
    if !status_ok {
        Err(failed("grok API error "@ + status + ": "@ + body + "\n"@))
    } else {
        match serde_parse(body) {
            Err(e) => Err(failed("grok: failed to parse response JSON: "@ + e + "\n"@)),
            Ok(j) => match opt_str(json_pointer(j, "/data/0/url"@)) {
                Some(u) => Ok(u),
                None => Err(failed("grok: missing url in response\n"@)),
            },
        }
    }
}

/// Read the reply to an image request (`status_ok` tells whether its HTTP
/// status is a success, `status` is that status as printed, `body` its text).
pub fn image_reply_url(status_ok: bool, status: &str, body: &str) -> (r: Result<String, CliOutput>)
    ensures
        match r {
            Ok(u) => image_reply_outcome(status_ok, status@, body@) == Ok::<Seq<char>, OutputView>(u@),
            Err(o) => image_reply_outcome(status_ok, status@, body@) == Err::<Seq<char>, OutputView>(o@),
        },
{
    if !status_ok {
        let mut s = join3("grok API error ", status, ": ");
        s.append(body);
        s.append("\n");
        return Err(CliOutput::failure(s));
    }
    match parse_json(body) {
        Err(e) => Err(CliOutput::failure(join3("grok: failed to parse response JSON: ", e.as_str(), "\n"))),
        Ok(j) => match string_at(&j, "/data/0/url") {
            Some(u) => Ok(u),
            None => Err(CliOutput::failure(String::from_str("grok: missing url in response\n"))),
        },
    }
}

/// What the reply to a video request yields: the id of the request, or the
/// answer that ends the command.
pub open spec fn video_reply_outcome(status_ok: bool, status: Seq<char>, body: Seq<char>) -> Result<Seq<char>, OutputView> {
    if !status_ok {
        Err(failed("grok API error "@ + status + ": "@ + body + "\n"@))
    } else {
        match serde_parse(body) {
            Err(e) => Err(failed("grok: failed to parse response JSON: "@ + e + "\n"@)),
            Ok(j) => match opt_str(json_pointer(j, "/request_id"@)) {
                Some(id) => Ok(id),
                None => Err(failed("grok: missing request_id in response. Body: "@ + body + "\n"@)),
            },
        }
    }
}

/// Read the reply to a video request.
pub fn video_reply_request_id(status_ok: bool, status: &str, body: &str) -> (r: Result<String, CliOutput>)
    ensures
        match r {
            Ok(id) => video_reply_outcome(status_ok, status@, body@) == Ok::<Seq<char>, OutputView>(id@),
            Err(o) => video_reply_outcome(status_ok, status@, body@) == Err::<Seq<char>, OutputView>(o@),
        },
{
    if !status_ok {
        let mut s = join3("grok API error ", status, ": ");
        s.append(body);
        s.append("\n");
        return Err(CliOutput::failure(s));
    }
    match parse_json(body) {
        Err(e) => Err(CliOutput::failure(join3("grok: failed to parse response JSON: ", e.as_str(), "\n"))),
        Ok(j) => match string_at(&j, "/request_id") {
            Some(id) => Ok(id),
            None => Err(CliOutput::failure(join3("grok: missing request_id in response. Body: ", body, "\n"))),
        },
    }
}

/// What the reply to a file upload yields: the id of the uploaded file, or
/// why there is none.
pub open spec fn upload_reply_outcome(status_ok: bool, status: Seq<char>, body: Seq<char>) -> Result<Seq<char>, Seq<char>> {
    if !status_ok {
        Err("files upload error "@ + status + ": "@ + body)
    } else {
        match serde_parse(body) {
            Err(e) => Err("failed to parse response JSON: "@ + e),
            Ok(j) => match opt_str(json_pointer(j, "/id"@)) {
                Some(id) => Ok(id),
                None => Err("missing id in response"@),
            },
        }
    }
}

/// Read the reply to a file upload.
pub fn upload_reply_file_id(status_ok: bool, status: &str, body: &str) -> (r: Result<String, String>)
    ensures
        match r {
            Ok(id) => upload_reply_outcome(status_ok, status@, body@) == Ok::<Seq<char>, Seq<char>>(id@),
            Err(e) => upload_reply_outcome(status_ok, status@, body@) == Err::<Seq<char>, Seq<char>>(e@),
        },
{
    if !status_ok {
        let mut s = join3("files upload error ", status, ": ");
        s.append(body);
        return Err(s);
    }
    match parse_json(body) {
        Err(e) => Err(join2("failed to parse response JSON: ", e.as_str())),
        Ok(j) => match string_at(&j, "/id") {
            Some(id) => Ok(id),
            None => Err(String::from_str("missing id in response")),
        },
    }
}

/// The file name under which an image is uploaded: the last component of
/// its path when it has a readable one, else `image.jpg`.
pub fn upload_file_name(name: &Option<String>) -> (s: String)
    ensures
        s@ == text_or(crate::session::opt_view(*name), UPLOAD_DEFAULT_NAME@),
{
    match name {
        Some(n) => String::from_str(n.as_str()),
        None => String::from_str(UPLOAD_DEFAULT_NAME),
    }
}

/// The address at which the video request `request_id` is polled.
pub fn video_status_url(request_id: &str) -> (s: String)
    ensures
        s@ == VIDEO_STATUS_PREFIX@ + request_id@,
{
    join2(VIDEO_STATUS_PREFIX, request_id)
}

/// The name of the file that a generated image is saved to.
pub fn image_file_name(timestamp: u64) -> (s: String)
    ensures
        s@ == "grok_gen_"@ + decimal(timestamp as int) + ".jpg"@,
{
    let digits = decimal_u64(timestamp);
    join3("grok_gen_", digits.as_str(), ".jpg")
}

/// The name of the file that a generated video is saved to.
pub fn video_file_name(timestamp: u64) -> (s: String)
    ensures
        s@ == "grok_video_"@ + decimal(timestamp as int) + ".mp4"@,
{
    let digits = decimal_u64(timestamp);
    join3("grok_video_", digits.as_str(), ".mp4")
}

/// The answer once a generated image is saved at `path`.
pub fn image_saved(path: &str) -> (o: CliOutput)
    ensures
        o@ == succeeded("Successfully generated image and saved to "@ + path@ + "\n"@),
{
    CliOutput::success(join3("Successfully generated image and saved to ", path, "\n"))
}

/// The answer once a generated video is saved at `path`.
pub fn video_saved(path: &str) -> (o: CliOutput)
    ensures
        o@ == succeeded("Successfully generated video and saved to "@ + path@ + "\n"@),
{
    CliOutput::success(join3("Successfully generated video and saved to ", path, "\n"))
}

/// One more poll after `attempts` polls: allowed while fewer than the
/// maximum have been made.
pub open spec fn attempt_step(attempts: int) -> Option<int> {
    if attempts >= MAX_POLL_ATTEMPTS {
        None
    } else {
        Some(attempts + 1)
    }
}

/// Start the next poll of the video request `request_id`, `attempts` polls
/// having been made: the new count, or the time-out answer.
pub fn next_poll_attempt(attempts: u32, request_id: &str) -> (r: Result<u32, CliOutput>)
    ensures
        match r {
            Ok(a) => attempt_step(attempts as int) == Some(a as int),
            Err(o) => attempt_step(attempts as int) is None
                && o@ == failed("grok: polling timed out for request_id: "@ + request_id@ + "\n"@),
        },
{
    if attempts >= MAX_POLL_ATTEMPTS {
        Err(CliOutput::failure(join3("grok: polling timed out for request_id: ", request_id, "\n")))
    } else {
        Ok(attempts + 1)
    }
}

/// The count of polls after starting `k` polls one after the other from
/// none: nothing once a start was refused.
pub open spec fn attempts_after(k: nat) -> Option<int>
    decreases k,
{
    if k == 0 {
        Some(0)
    } else {
        match attempts_after((k - 1) as nat) {
            Some(a) => attempt_step(a),
            None => None,
        }
    }
}

/// A video request is polled at most `MAX_POLL_ATTEMPTS` times: starting
/// from no poll, the `k`-th start is allowed exactly when `k` is at most the
/// maximum, and then `k` polls have been made, after waiting
/// `POLL_INTERVAL_SECS` before each, so at most 300 seconds in all.
pub proof fn lemma_polls_bounded(k: nat)
    ensures
        attempts_after(k) == (if k <= MAX_POLL_ATTEMPTS {
            Some(k as int)
        } else {
            None::<int>
        }),
        attempts_after(k) is Some ==> k * POLL_INTERVAL_SECS <= 300,
    decreases k,
{
    if k > 0 {
        lemma_polls_bounded((k - 1) as nat);
    }
}

/// What one poll of a video request came to.
#[derive(Debug, PartialEq, Eq)]
pub enum PollEvent {
    /// The request could not be sent (the error's text).
    SendFailed(String),
    /// The reply's body could not be read (the error's text).
    ReadFailed(String),
    /// The reply: whether its status is a success, the status as printed,
    /// and the body.
    Reply { status_ok: bool, status: String, body: String },
}

/// What to do after a poll.
#[derive(Debug, PartialEq, Eq)]
pub enum PollAction {
    /// Print the line and poll again.
    Retry(String),
    /// The video is ready at this address: download it.
    Download(String),
    /// End the command with this answer.
    Finish(CliOutput),
}

/// The mathematical content of a `PollAction`.
pub enum PollActionView {
    Retry(Seq<char>),
    Download(Seq<char>),
    Finish(OutputView),
}

impl View for PollAction {
    type V = PollActionView;

    open spec fn view(&self) -> PollActionView {
        match self {
            PollAction::Retry(s) => PollActionView::Retry(s@),
            PollAction::Download(u) => PollActionView::Download(u@),
            PollAction::Finish(o) => PollActionView::Finish(o@),
        }
    }
}

/// The address of a finished video: `/video/url` when that pointer
/// addresses something, else `/url`, provided it is a JSON string.
pub open spec fn video_url_of(j: Json) -> Option<Seq<char>> {
    opt_str(
        match json_pointer(j, "/video/url"@) {
            Some(v) => Some(v),
            None => json_pointer(j, "/url"@),
        },
    )
}

/// What to do with a parsed status document after `attempts` polls.
pub open spec fn job_decision(attempts: int, j: Json, body: Seq<char>) -> PollActionView {
    let status = text_or(opt_str(json_get(j, "status"@)), "pending"@);
    if status == "done"@ || status == "completed"@ || status == "success"@ {
        match video_url_of(j) {
            Some(u) => PollActionView::Download(u),
            None => PollActionView::Finish(
                failed("grok: missing video url in completed response: "@ + body + "\n"@),
            ),
        }
    } else if status == "failed"@ || status == "error"@ {
        PollActionView::Finish(
            failed(
                "grok video generation failed: "@ + text_or(
                    opt_str(json_get(j, "error"@)),
                    "unknown error"@,
                ) + "\n"@,
            ),
        )
    } else {
        PollActionView::Retry(
            "Job status: "@ + status + " (attempt "@ + decimal(attempts) + "/"@ + decimal(
                MAX_POLL_ATTEMPTS as int,
            ) + ")"@,
        )
    }
}

/// What to do after the poll numbered `attempts` came to `event`.
pub open spec fn poll_decision(attempts: int, event: PollEvent) -> PollActionView {
    match event {
        PollEvent::SendFailed(e) => PollActionView::Retry("grok: polling error: "@ + e@ + ". Retrying..."@),
        PollEvent::ReadFailed(e) => PollActionView::Retry(
            "grok: failed to read polling body: "@ + e@ + ". Retrying..."@,
        ),
        PollEvent::Reply { status_ok, status, body } => if !status_ok {
            PollActionView::Retry(
                "grok: polling API error "@ + status@ + ": "@ + body@ + ". Retrying..."@,
            )
        } else {
            match serde_parse(body@) {
                Err(e) => PollActionView::Retry("grok: failed to parse polling JSON: "@ + e + ". Retrying..."@),
                Ok(j) => job_decision(attempts, j, body@),
            }
        },
    }
}

fn retry_line(a: &str, b: &str, c: &str, d: &str, e: &str) -> (s: String)
    ensures
        s@ == a@ + b@ + c@ + d@ + e@,
{
    let mut s = join3(a, b, c);
    s.append(d);
    s.append(e);
    s
}

fn job_action(attempts: u32, j: &Json, body: &str) -> (a: PollAction)
    ensures
        a@ == job_decision(attempts as int, *j, body@),
{
    let status = crate::session::field_or(j, "status", "pending");
    let st = status.as_str();
    if same_text(st, "done") || same_text(st, "completed") || same_text(st, "success") {
        let found = match j.pointer("/video/url") {
            Some(v) => Some(v),
            None => j.pointer("/url"),
        };
        match found {
            Some(v) => match v.as_str() {
                Some(u) => PollAction::Download(String::from_str(u)),
                None => PollAction::Finish(
                    CliOutput::failure(join3("grok: missing video url in completed response: ", body, "\n")),
                ),
            },
            None => PollAction::Finish(
                CliOutput::failure(join3("grok: missing video url in completed response: ", body, "\n")),
            ),
        }
    } else if same_text(st, "failed") || same_text(st, "error") {
        let msg = crate::session::field_or(j, "error", "unknown error");
        PollAction::Finish(CliOutput::failure(join3("grok video generation failed: ", msg.as_str(), "\n")))
    } else {
        let done = decimal_u64(attempts as u64);
        let max = decimal_u64(MAX_POLL_ATTEMPTS as u64);
        let mut s = retry_line("Job status: ", st, " (attempt ", done.as_str(), "/");
        s.append(max.as_str());
        s.append(")");
        PollAction::Retry(s)
    }
}

/// Decide what to do after the poll numbered `attempts` came to `event`.
pub fn poll_action(attempts: u32, event: &PollEvent) -> (a: PollAction)
    ensures
        a@ == poll_decision(attempts as int, *event),
{
    match event {
        PollEvent::SendFailed(e) => PollAction::Retry(join3("grok: polling error: ", e.as_str(), ". Retrying...")),
        PollEvent::ReadFailed(e) => PollAction::Retry(
            join3("grok: failed to read polling body: ", e.as_str(), ". Retrying..."),
        ),
        PollEvent::Reply { status_ok, status, body } => {
            if !*status_ok {
                PollAction::Retry(
                    retry_line("grok: polling API error ", status.as_str(), ": ", body.as_str(), ". Retrying..."),
                )
            } else {
                match parse_json(body.as_str()) {
                    Err(e) => PollAction::Retry(
                        join3("grok: failed to parse polling JSON: ", e.as_str(), ". Retrying..."),
                    ),
                    Ok(j) => job_action(attempts, &j, body.as_str()),
                }
            }
        },
    }
}

} // verus!
