use vstd::prelude::*;
use crate::dispatch::{CommandView, command_for};
use crate::generation::{PollActionView, PollEvent, image_reply_outcome, poll_decision, video_reply_outcome};
use crate::json::{
    Json, JsonMember, json_get, json_pointer, lemma_pointer_concat, lemma_pointer_member,
    lemma_pointer_one_token, opt_str, parse_index, pointer_step, serde_parse,
};
use crate::output::{OutputView, failed};
use crate::session::{AuthFile, LoginRun, login_outcome, status_outcome, token_outcome};
use crate::generation::{upload_reply_outcome, MAX_POLL_ATTEMPTS};
use crate::dispatch::GROK_USAGE;
use crate::output::succeeded;
use crate::text::decimal;

verus! {

/// Every answer of `maw grok` writes to one stream only: exit code 0 with
/// nothing on standard error, any other exit code with nothing on standard
/// output. This holds of the immediate answers of the dispatcher, of
/// `status` and `login`, of the failures that end an image or video request,
/// and of the answers that end the polling of a video request.
pub proof fn lemma_answers_use_one_stream(
    args: Seq<Seq<char>>,
    path: Seq<char>,
    file: AuthFile,
    run: LoginRun,
    status_ok: bool,
    status: Seq<char>,
    body: Seq<char>,
    attempts: int,
    event: PollEvent,
)
    ensures
        command_for(args) matches CommandView::Reply(o) ==> o.one_stream(),
        status_outcome(path, file).one_stream(),
        login_outcome(run).one_stream(),
        image_reply_outcome(status_ok, status, body) matches Err(o) ==> o.one_stream(),
        video_reply_outcome(status_ok, status, body) matches Err(o) ==> o.one_stream(),
        poll_decision(attempts, event) matches PollActionView::Finish(o) ==> o.one_stream(),
{
}

proof fn lemma_subcommand_names_differ()
    ensures
        "gen"@ != "help"@,
        "gen"@ != "--help"@,
        "gen"@ != "-h"@,
        "gen"@ != "login"@,
        "gen"@ != "status"@,
        "video"@ != "help"@,
        "video"@ != "--help"@,
        "video"@ != "-h"@,
        "video"@ != "login"@,
        "video"@ != "status"@,
        "video"@ != "gen"@,
{
    reveal_strlit("gen");
    reveal_strlit("video");
    reveal_strlit("help");
    reveal_strlit("--help");
    reveal_strlit("-h");
    reveal_strlit("login");
    reveal_strlit("status");
    assert("gen"@.len() != "help"@.len());
    assert("gen"@.len() != "--help"@.len());
    assert("gen"@[0] != "-h"@[0]);
    assert("gen"@.len() != "login"@.len());
    assert("gen"@.len() != "status"@.len());
    assert("video"@.len() != "help"@.len());
    assert("video"@.len() != "--help"@.len());
    assert("video"@.len() != "-h"@.len());
    assert("video"@[0] != "login"@[0]);
    assert("video"@.len() != "status"@.len());
    assert("video"@.len() != "gen"@.len());
}

/// `maw grok gen <prompt> [ratio]` generates an image of the second argument
/// at the ratio given as third argument, whatever follows it; `16:9` only
/// when no ratio is given. Likewise `maw grok video <prompt> [image]`
/// animates the third argument when it is given.
pub proof fn lemma_gen_and_video_arguments(args: Seq<Seq<char>>)
    ensures
        args.len() >= 3 && args[0] == "gen"@ ==> command_for(args) == CommandView::GenImage(args[1], args[2]),
        args.len() == 2 && args[0] == "gen"@ ==> command_for(args) == CommandView::GenImage(args[1], "16:9"@),
        args.len() >= 3 && args[0] == "video"@ ==> command_for(args) == CommandView::GenVideo(args[1], Some(args[2])),
        args.len() == 2 && args[0] == "video"@ ==> command_for(args) == CommandView::GenVideo(args[1], None),
{
    lemma_subcommand_names_differ();
}

/// The API token is the `key` string of the first credential of the
/// session object, the very credential that `maw grok status` reports as
/// its source (and `status` succeeds whenever the object is not empty).
pub proof fn lemma_token_is_first_credential(path: Seq<char>, raw: String, members: Vec<JsonMember>)
    requires
        serde_parse(raw@) == Ok::<Json, Seq<char>>(Json::Object(members)),
        members@.len() > 0,
    ensures
        token_outcome(path, AuthFile::Contents(raw)) == match opt_str(json_get(members@[0].value, "key"@)) {
            Some(t) => Ok::<Seq<char>, Seq<char>>(t),
            None => Err("missing 'key' field in auth.json"@),
        },
        status_outcome(path, AuthFile::Contents(raw)).code == 0,
        exists|before: Seq<char>|
            status_outcome(path, AuthFile::Contents(raw)).stdout == before + "\n  source     "@
                + members@[0].key@ + "\n"@,
{
    let o = status_outcome(path, AuthFile::Contents(raw));
    let v = members@[0].value;
    let key = members@[0].key@;
    let before = "grok session status:\n  email      "@ + crate::session::field_text(v, "email"@, "unknown"@)
        + "\n  user       "@ + crate::session::field_text(v, "first_name"@, ""@) + " "@
        + crate::session::field_text(v, "last_name"@, ""@) + "\n  team_id    "@
        + crate::session::field_text(v, "team_id"@, "unknown"@) + "\n  expires_at "@
        + crate::session::field_text(v, "expires_at"@, "unknown"@);
    assert(o.stdout =~= before + "\n  source     "@ + key + "\n"@);
}

proof fn lemma_plain(t: Seq<char>)
    requires
        t.len() > 0,
        forall|i: int| 0 <= i < t.len() ==> ('a' <= #[trigger] t[i] <= 'z' || t[i] == '_'),
        'a' <= t[0] <= 'z',
    ensures
        crate::json::plain_token(t),
        !crate::text::is_digit(t[0]),
{
}

/// The address of a finished video: the string `url` inside the member
/// `video` when the document has a member `video` holding a member `url`,
/// else the string member `url` of the document.
pub open spec fn finished_video_address(j: Json) -> Option<Seq<char>> {
    let nested = match json_get(j, "video"@) {
        Some(v) => json_get(v, "url"@),
        None => None,
    };
    opt_str(
        match nested {
            Some(v) => Some(v),
            None => json_get(j, "url"@),
        },
    )
}

/// When a poll reports the job `done`, `completed` or `success`, the three
/// are treated alike: the video is downloaded from `video.url`, or from
/// `url` when there is no `video.url`, and the command fails naming the
/// reply when neither holds a string.
pub proof fn lemma_finished_job_downloads(
    attempts: int,
    status: String,
    body: String,
    j: Json,
    st: Seq<char>,
)
    requires
        serde_parse(body@) == Ok::<Json, Seq<char>>(j),
        opt_str(json_get(j, "status"@)) == Some(st),
        st == "done"@ || st == "completed"@ || st == "success"@,
    ensures
        poll_decision(attempts, PollEvent::Reply { status_ok: true, status, body }) == match finished_video_address(j) {
            Some(u) => PollActionView::Download(u),
            None => PollActionView::Finish(
                failed("grok: missing video url in completed response: "@ + body@ + "\n"@),
            ),
        },
{
    reveal_strlit("/video/url");
    reveal_strlit("/url");
    reveal_strlit("video");
    reveal_strlit("url");
    let video = "video"@;
    let url = "url"@;
    lemma_plain(video);
    lemma_plain(url);
    assert("/video/url"@ =~= (seq!['/'] + video) + (seq!['/'] + url));
    assert("/url"@ =~= seq!['/'] + url);
    lemma_pointer_concat(j, seq!['/'] + video, seq!['/'] + url);
    lemma_pointer_member(j, video);
    lemma_pointer_member(j, url);
    match json_get(j, video) {
        Some(w) => {
            lemma_pointer_member(w, url);
        },
        None => {},
    }
}

/// The image of a successful generation reply is the string `url` of the
/// first element of its `data` array, whatever other members it has; a
/// reply without `data` has no image.
pub proof fn lemma_image_url_of_first_item(status: Seq<char>, body: Seq<char>, j: Json, items: Vec<Json>)
    requires
        serde_parse(body) == Ok::<Json, Seq<char>>(j),
    ensures
        json_get(j, "data"@) == Some(Json::Array(items)) && items@.len() > 0 ==> image_reply_outcome(
            true,
            status,
            body,
        ) == match opt_str(json_get(items@[0], "url"@)) {
            Some(u) => Ok::<Seq<char>, OutputView>(u),
            None => Err(failed("grok: missing url in response\n"@)),
        },
        json_get(j, "data"@) is None ==> image_reply_outcome(true, status, body) == Err::<Seq<char>, OutputView>(
            failed("grok: missing url in response\n"@),
        ),
{
    reveal_strlit("/data/0/url");
    reveal_strlit("data");
    reveal_strlit("url");
    let data = "data"@;
    let url = "url"@;
    let zero = seq!['0'];
    lemma_plain(data);
    lemma_plain(url);
    assert(crate::json::plain_token(zero));
    assert("/data/0/url"@ =~= (seq!['/'] + data) + ((seq!['/'] + zero) + (seq!['/'] + url)));
    lemma_pointer_concat(j, seq!['/'] + data, (seq!['/'] + zero) + (seq!['/'] + url));
    lemma_pointer_member(j, data);
    match json_get(j, data) {
        Some(d) => {
            lemma_pointer_concat(d, seq!['/'] + zero, seq!['/'] + url);
            lemma_pointer_one_token(d, zero);
            if json_get(j, "data"@) == Some(Json::Array(items)) && items@.len() > 0 {
                assert(zero.drop_last() =~= Seq::<char>::empty());
                assert(crate::text::digits_value(Seq::<char>::empty()) == 0);
                assert(zero.len() == 1 && zero.last() == '0');
                assert(crate::text::char_value('0') == 0);
                assert(crate::text::digits_value(zero) == crate::text::digits_value(zero.drop_last()) * 10
                    + crate::text::char_value(zero.last()));
                assert(crate::text::digits_value(zero) == 0);
                assert(parse_index(zero) == Some(0nat));
                assert(pointer_step(d, zero) == Some(items@[0]));
                lemma_pointer_member(items@[0], url);
            }
        },
        None => {},
    }
}

/// The file id of a successful upload reply is its string member `id`,
/// whatever other members it has and in whatever order.
pub proof fn lemma_upload_id_is_member(status: Seq<char>, body: Seq<char>, j: Json)
    requires
        serde_parse(body) == Ok::<Json, Seq<char>>(j),
    ensures
        upload_reply_outcome(true, status, body) == match opt_str(json_get(j, "id"@)) {
            Some(id) => Ok::<Seq<char>, Seq<char>>(id),
            None => Err("missing id in response"@),
        },
{
    reveal_strlit("/id");
    reveal_strlit("id");
    let id = "id"@;
    lemma_plain(id);
    assert("/id"@ =~= seq!['/'] + id);
    lemma_pointer_member(j, id);
}

/// The id of a submitted video request is the string member `request_id`
/// of a successful reply, whatever other members it has.
pub proof fn lemma_video_request_id_is_member(status: Seq<char>, body: Seq<char>, j: Json)
    requires
        serde_parse(body) == Ok::<Json, Seq<char>>(j),
    ensures
        video_reply_outcome(true, status, body) == match opt_str(json_get(j, "request_id"@)) {
            Some(id) => Ok::<Seq<char>, OutputView>(id),
            None => Err(failed("grok: missing request_id in response. Body: "@ + body + "\n"@)),
        },
{
    reveal_strlit("/request_id");
    reveal_strlit("request_id");
    let id = "request_id"@;
    lemma_plain(id);
    assert("/request_id"@ =~= seq!['/'] + id);
    lemma_pointer_member(j, id);
}

/// A reply that is not a success never yields an image, a video request or
/// an uploaded file, whatever its body: the status and body are reported.
pub proof fn lemma_http_errors_are_reported(status: Seq<char>, body: Seq<char>)
    ensures
        image_reply_outcome(false, status, body) == Err::<Seq<char>, OutputView>(
            failed("grok API error "@ + status + ": "@ + body + "\n"@),
        ),
        video_reply_outcome(false, status, body) == Err::<Seq<char>, OutputView>(
            failed("grok API error "@ + status + ": "@ + body + "\n"@),
        ),
        upload_reply_outcome(false, status, body) == Err::<Seq<char>, Seq<char>>(
            "files upload error "@ + status + ": "@ + body,
        ),
{
}

/// When a poll reports the job `failed` or `error`, the command ends with
/// exit code 1 naming the reply's string member `error` (or `unknown error`).
pub proof fn lemma_failed_job_ends(attempts: int, status: String, body: String, j: Json, st: Seq<char>)
    requires
        serde_parse(body@) == Ok::<Json, Seq<char>>(j),
        opt_str(json_get(j, "status"@)) == Some(st),
        st == "failed"@ || st == "error"@,
    ensures
        poll_decision(attempts, PollEvent::Reply { status_ok: true, status, body }) == PollActionView::Finish(
            failed(
                "grok video generation failed: "@ + match opt_str(json_get(j, "error"@)) {
                    Some(e) => e,
                    None => "unknown error"@,
                } + "\n"@,
            ),
        ),
{
    reveal_strlit("failed");
    reveal_strlit("error");
    reveal_strlit("done");
    reveal_strlit("completed");
    reveal_strlit("success");
    assert("failed"@ != "done"@ && "failed"@ != "completed"@ && "failed"@ != "success"@) by {
        assert("failed"@.len() != "done"@.len());
        assert("failed"@[0] != "completed"@[0]);
        assert("failed"@[0] != "success"@[0]);
    }
    assert("error"@ != "done"@ && "error"@ != "completed"@ && "error"@ != "success"@) by {
        assert("error"@.len() != "done"@.len());
        assert("error"@[0] != "completed"@[0]);
        assert("error"@[0] != "success"@[0]);
    }
}

/// Any other job status, or none (read as `pending`), means polling goes
/// on, printing the status and the attempt count out of the maximum.
pub proof fn lemma_pending_job_retries(attempts: int, status: String, body: String, j: Json)
    requires
        serde_parse(body@) == Ok::<Json, Seq<char>>(j),
    ensures
        ({
            let st = match opt_str(json_get(j, "status"@)) {
                Some(s) => s,
                None => "pending"@,
            };
            st != "done"@ && st != "completed"@ && st != "success"@ && st != "failed"@ && st != "error"@
                ==> poll_decision(attempts, PollEvent::Reply { status_ok: true, status, body })
                == PollActionView::Retry(
                "Job status: "@ + st + " (attempt "@ + decimal(attempts) + "/"@ + decimal(
                    MAX_POLL_ATTEMPTS as int,
                ) + ")"@,
            )
        }),
{
}

/// `maw grok login` answers with the exit code of the login program (1 when
/// a signal ended it), and succeeds exactly when that code is 0.
pub proof fn lemma_login_keeps_exit_code(code: Option<i32>, e: String)
    ensures
        login_outcome(LoginRun::Exited(code)).code == match code {
            Some(c) => c as int,
            None => 1,
        },
        (login_outcome(LoginRun::Exited(code)).code == 0) == (code == Some(0i32)),
        login_outcome(LoginRun::SpawnFailed(e)).code == 1,
{
}

/// The help subcommands print the usage and succeed; `login` and `status`
/// are recognised whatever follows them.
pub proof fn lemma_fixed_subcommands(args: Seq<Seq<char>>)
    requires
        args.len() > 0,
    ensures
        args[0] == "help"@ || args[0] == "--help"@ || args[0] == "-h"@ ==> command_for(args)
            == CommandView::Reply(succeeded(GROK_USAGE@)),
        args[0] == "login"@ ==> command_for(args) == CommandView::Login,
        args[0] == "status"@ ==> command_for(args) == CommandView::Status,
{
    reveal_strlit("help");
    reveal_strlit("--help");
    reveal_strlit("-h");
    reveal_strlit("login");
    reveal_strlit("status");
    assert("login"@ != "help"@ && "login"@ != "--help"@ && "login"@ != "-h"@) by {
        assert("login"@.len() != "help"@.len());
        assert("login"@.len() != "--help"@.len());
        assert("login"@.len() != "-h"@.len());
    }
    assert("status"@ != "help"@ && "status"@ != "--help"@ && "status"@ != "-h"@ && "status"@ != "login"@) by {
        assert("status"@.len() != "help"@.len());
        assert("status"@[0] != "--help"@[0]);
        assert("status"@.len() != "-h"@.len());
        assert("status"@.len() != "login"@.len());
    }
}

} // verus!
