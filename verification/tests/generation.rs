use maw_grok::generation::{
    image_file_name, image_reply_url, image_request_body, image_saved, next_poll_attempt, poll_action,
    upload_file_name, upload_reply_file_id, video_file_name, video_reply_request_id, video_request_body,
    video_saved, video_status_url, PollAction, PollEvent, MAX_POLL_ATTEMPTS,
};
use maw_grok::json::{Json, JsonMember};
use maw_grok::output::CliOutput;

fn fail(msg: &str) -> CliOutput {
    CliOutput { code: 1, stdout: String::new(), stderr: msg.to_string() }
}

fn text(k: &str, v: &str) -> JsonMember {
    JsonMember { key: k.to_string(), value: Json::Str(v.to_string()) }
}

fn num(k: &str, v: &str) -> JsonMember {
    JsonMember { key: k.to_string(), value: Json::Number(v.to_string()) }
}

fn reply(ok: bool, status: &str, body: &str) -> PollEvent {
    PollEvent::Reply { status_ok: ok, status: status.to_string(), body: body.to_string() }
}

#[test]
fn image_body_members() {
    assert_eq!(
        image_request_body("a fox", "9:16"),
        Json::Object(vec![
            text("aspect_ratio", "9:16"),
            text("model", "grok-imagine-image-quality"),
            num("n", "1"),
            text("prompt", "a fox"),
            text("response_format", "url"),
        ])
    );
}

#[test]
fn video_body_members() {
    assert_eq!(
        video_request_body("waves", &None),
        Json::Object(vec![num("duration", "6"), text("model", "grok-imagine-video-1.5"), text("prompt", "waves")])
    );
    assert_eq!(
        video_request_body("waves", &Some("file-9".to_string())),
        Json::Object(vec![
            num("duration", "6"),
            text("image_file_id", "file-9"),
            text("model", "grok-imagine-video-1.5"),
            text("prompt", "waves"),
        ])
    );
}

#[test]
fn image_reply_cases() {
    assert_eq!(
        image_reply_url(true, "200 OK", r#"{"data": [{"url": "https://img/1.jpg"}]}"#),
        Ok("https://img/1.jpg".to_string())
    );
    assert_eq!(
        image_reply_url(false, "401 Unauthorized", "bad key"),
        Err(fail("grok API error 401 Unauthorized: bad key\n"))
    );
    let e = image_reply_url(true, "200 OK", "<html>").unwrap_err();
    assert!(e.stderr.starts_with("grok: failed to parse response JSON: "));
    assert_eq!(image_reply_url(true, "200 OK", r#"{"data": []}"#), Err(fail("grok: missing url in response\n")));
    assert_eq!(
        image_reply_url(true, "200 OK", r#"{"data": [{"url": 3}]}"#),
        Err(fail("grok: missing url in response\n"))
    );
}

#[test]
fn video_reply_cases() {
    assert_eq!(video_reply_request_id(true, "200 OK", r#"{"request_id": "r-1"}"#), Ok("r-1".to_string()));
    assert_eq!(
        video_reply_request_id(true, "200 OK", r#"{"id": "r-1"}"#),
        Err(fail("grok: missing request_id in response. Body: {\"id\": \"r-1\"}\n"))
    );
    assert_eq!(
        video_reply_request_id(false, "500 Internal Server Error", "oops"),
        Err(fail("grok API error 500 Internal Server Error: oops\n"))
    );
}

#[test]
fn upload_reply_cases() {
    assert_eq!(upload_reply_file_id(true, "200 OK", r#"{"id": "file-1"}"#), Ok("file-1".to_string()));
    assert_eq!(upload_reply_file_id(true, "200 OK", r#"{"ids": 1}"#), Err("missing id in response".to_string()));
    assert_eq!(
        upload_reply_file_id(false, "413 Payload Too Large", "too big"),
        Err("files upload error 413 Payload Too Large: too big".to_string())
    );
    assert!(upload_reply_file_id(true, "200 OK", "").unwrap_err().starts_with("failed to parse response JSON: "));
}

#[test]
fn names_and_addresses() {
    assert_eq!(upload_file_name(&Some("cat.png".to_string())), "cat.png");
    assert_eq!(upload_file_name(&None), "image.jpg");
    assert_eq!(video_status_url("r-1"), "https://api.x.ai/v1/videos/r-1");
    assert_eq!(image_file_name(1725029869), "grok_gen_1725029869.jpg");
    assert_eq!(video_file_name(0), "grok_video_0.mp4");
    assert_eq!(image_saved("/w/grok_gen_1.jpg").stdout, "Successfully generated image and saved to /w/grok_gen_1.jpg\n");
    assert_eq!(video_saved("/w/v.mp4").stdout, "Successfully generated video and saved to /w/v.mp4\n");
    assert_eq!(video_saved("/w/v.mp4").code, 0);
}

#[test]
fn poll_attempts_are_bounded() {
    assert_eq!(next_poll_attempt(0, "r").unwrap(), 1);
    assert_eq!(next_poll_attempt(59, "r").unwrap(), 60);
    assert_eq!(next_poll_attempt(60, "r-7"), Err(fail("grok: polling timed out for request_id: r-7\n")));
    let mut attempts = 0u32;
    let mut polls = 0;
    while let Ok(a) = next_poll_attempt(attempts, "r") {
        attempts = a;
        polls += 1;
    }
    assert_eq!(polls, MAX_POLL_ATTEMPTS);
}

#[test]
fn poll_transport_problems_retry() {
    assert_eq!(
        poll_action(3, &PollEvent::SendFailed("dns".to_string())),
        PollAction::Retry("grok: polling error: dns. Retrying...".to_string())
    );
    assert_eq!(
        poll_action(3, &PollEvent::ReadFailed("eof".to_string())),
        PollAction::Retry("grok: failed to read polling body: eof. Retrying...".to_string())
    );
    assert_eq!(
        poll_action(3, &reply(false, "503 Service Unavailable", "busy")),
        PollAction::Retry("grok: polling API error 503 Service Unavailable: busy. Retrying...".to_string())
    );
    match poll_action(3, &reply(true, "200 OK", "{")) {
        PollAction::Retry(line) => {
            assert!(line.starts_with("grok: failed to parse polling JSON: "));
            assert!(line.ends_with(". Retrying..."));
        },
        other => panic!("unexpected {other:?}"),
    }
}

#[test]
fn poll_job_states() {
    assert_eq!(
        poll_action(2, &reply(true, "200 OK", r#"{"status": "done", "video": {"url": "https://v/1.mp4"}}"#)),
        PollAction::Download("https://v/1.mp4".to_string())
    );
    assert_eq!(
        poll_action(2, &reply(true, "200 OK", r#"{"status": "completed", "url": "https://v/2.mp4"}"#)),
        PollAction::Download("https://v/2.mp4".to_string())
    );
    let body = r#"{"status": "success", "video": {"url": 1}, "url": "https://v/3.mp4"}"#;
    assert_eq!(
        poll_action(2, &reply(true, "200 OK", body)),
        PollAction::Finish(fail(&format!("grok: missing video url in completed response: {body}\n")))
    );
    assert_eq!(
        poll_action(2, &reply(true, "200 OK", r#"{"status": "failed", "error": "nsfw"}"#)),
        PollAction::Finish(fail("grok video generation failed: nsfw\n"))
    );
    assert_eq!(
        poll_action(2, &reply(true, "200 OK", r#"{"status": "error"}"#)),
        PollAction::Finish(fail("grok video generation failed: unknown error\n"))
    );
    assert_eq!(
        poll_action(7, &reply(true, "200 OK", r#"{"status": "queued"}"#)),
        PollAction::Retry("Job status: queued (attempt 7/60)".to_string())
    );
    assert_eq!(
        poll_action(12, &reply(true, "200 OK", r#"{"progress": 3}"#)),
        PollAction::Retry("Job status: pending (attempt 12/60)".to_string())
    );
}

#[test]
fn finished_answers_use_one_stream() {
    for body in [r#"{"status": "failed"}"#, r#"{"status": "done"}"#] {
        if let PollAction::Finish(o) = poll_action(1, &reply(true, "200 OK", body)) {
            assert_ne!(o.code, 0);
            assert!(o.stdout.is_empty());
        } else {
            panic!("expected a final answer");
        }
    }
}
