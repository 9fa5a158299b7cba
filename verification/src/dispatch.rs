use vstd::prelude::*;
use crate::output::{CliOutput, OutputView, failed, succeeded};
use crate::text::{same_text, join3};

verus! {

/// The help text of `maw grok`.
pub const GROK_USAGE: &'static str = "usage: maw grok <subcommand> [args]\n  login                     authenticate via xAI OIDC device flow\n  status                    check OIDC token credentials status\n  gen <prompt> [ratio]      generate still image from text prompt (aspect_ratio: 16:9, 9:16, 1:1)\n  video <prompt> [img_path] animate image/text into 6s/10s video (async polling)\n";

/// The aspect ratio of a generated image when none is given.
pub const DEFAULT_RATIO: &'static str = "16:9";

/// What `maw grok <subcommand> [args]` asks for.
#[derive(Debug, PartialEq, Eq)]
pub enum GrokCommand {
    /// Answer at once, without further work.
    Reply(CliOutput),
    /// Run the device-flow login.
    Login,
    /// Report the stored session.
    Status,
    /// Generate a still image.
    GenImage { prompt: String, ratio: String },
    /// Generate a video, animating the image at `image_path` when one is given.
    GenVideo { prompt: String, image_path: Option<String> },
}

/// The mathematical content of a `GrokCommand`.
pub enum CommandView {
    Reply(OutputView),
    Login,
    Status,
    GenImage(Seq<char>, Seq<char>),
    GenVideo(Seq<char>, Option<Seq<char>>),
}

impl View for GrokCommand {
    type V = CommandView;

    open spec fn view(&self) -> CommandView {
        match self {
            GrokCommand::Reply(o) => CommandView::Reply(o@),
            GrokCommand::Login => CommandView::Login,
            GrokCommand::Status => CommandView::Status,
            GrokCommand::GenImage { prompt, ratio } => CommandView::GenImage(prompt@, ratio@),
            GrokCommand::GenVideo { prompt, image_path } => CommandView::GenVideo(
                prompt@,
                match image_path {
                    Some(p) => Some(p@),
                    None => None,
                },
            ),
        }
    }
}

/// The texts of the arguments.
pub open spec fn arg_texts(args: Seq<String>) -> Seq<Seq<char>> {
    args.map_values(|s: String| s@)
}

/// What the arguments after `grok` ask for: the subcommand is the first
/// argument, the prompt the second, the optional ratio or image path the third.
pub open spec fn command_for(args: Seq<Seq<char>>) -> CommandView {
    if args.len() == 0 {
        CommandView::Reply(failed(GROK_USAGE@))
    } else {
        let cmd = args[0];
        if cmd == "help"@ || cmd == "--help"@ || cmd == "-h"@ {
            CommandView::Reply(succeeded(GROK_USAGE@))
        } else if cmd == "login"@ {
            CommandView::Login
        } else if cmd == "status"@ {
            CommandView::Status
        } else if cmd == "gen"@ {
            if args.len() < 2 {
                CommandView::Reply(failed("usage: maw grok gen <prompt> [aspect_ratio]\n"@))
            } else {
                CommandView::GenImage(
                    args[1],
                    if args.len() > 2 {
                        args[2]
                    } else {
                        DEFAULT_RATIO@
                    },
                )
            }
        } else if cmd == "video"@ {
            if args.len() < 2 {
                CommandView::Reply(failed("usage: maw grok video <prompt> [image_path]\n"@))
            } else {
                CommandView::GenVideo(
                    args[1],
                    if args.len() > 2 {
                        Some(args[2])
                    } else {
                        None
                    },
                )
            }
        } else {
            CommandView::Reply(failed("unknown subcommand '"@ + cmd + "'\n\n"@ + GROK_USAGE@))
        }
    }
}

/// Decide what `maw grok` is asked to do.
pub fn grok_command(args: &Vec<String>) -> (c: GrokCommand)
    ensures
        c@ == command_for(arg_texts(args@)),
{
    let ghost texts = arg_texts(args@);
    if args.len() == 0 {
        return GrokCommand::Reply(CliOutput::failure(String::from_str(GROK_USAGE)));
    }
    assert(texts[0] == args@[0]@);
    let cmd = args[0].as_str();
    if same_text(cmd, "help") || same_text(cmd, "--help") || same_text(cmd, "-h") {
        GrokCommand::Reply(CliOutput::success(String::from_str(GROK_USAGE)))
    } else if same_text(cmd, "login") {
        GrokCommand::Login
    } else if same_text(cmd, "status") {
        GrokCommand::Status
    } else if same_text(cmd, "gen") {
        if args.len() < 2 {
            GrokCommand::Reply(
                CliOutput::failure(String::from_str("usage: maw grok gen <prompt> [aspect_ratio]\n")),
            )
        } else {
            assert(texts[1] == args@[1]@);
            let prompt = String::from_str(args[1].as_str());
            let ratio = if args.len() > 2 {
                assert(texts[2] == args@[2]@);
                String::from_str(args[2].as_str())
            } else {
                String::from_str(DEFAULT_RATIO)
            };
            GrokCommand::GenImage { prompt, ratio }
        }
    } else if same_text(cmd, "video") {
        if args.len() < 2 {
            GrokCommand::Reply(
                CliOutput::failure(String::from_str("usage: maw grok video <prompt> [image_path]\n")),
            )
        } else {
            assert(texts[1] == args@[1]@);
            let prompt = String::from_str(args[1].as_str());
            let image_path = if args.len() > 2 {
                assert(texts[2] == args@[2]@);
                Some(String::from_str(args[2].as_str()))
            } else {
                None
            };
            GrokCommand::GenVideo { prompt, image_path }
        }
    } else {
        GrokCommand::Reply(CliOutput::failure(unknown_subcommand(cmd)))
    }
}

fn unknown_subcommand(cmd: &str) -> (s: String)
    ensures
        s@ == "unknown subcommand '"@ + cmd@ + "'\n\n"@ + GROK_USAGE@,
{
    let mut s = join3("unknown subcommand '", cmd, "'\n\n");
    s.append(GROK_USAGE);
    s
}

} // verus!
