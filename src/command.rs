//! The command language typed into the command line.

use vstd::prelude::*;
use crate::app::{App, Action, ActionView, SessionView};
use crate::weburl::{extract_bvid, resolve_id};
use crate::text::{is_ws, words, words_from, lemma_words_run, split_words, str_eq};

verus! {

/// A parsed command.
#[derive(Debug, PartialEq, Eq)]
pub enum Command {
    /// Play the URL in the media player.
    PlayUrl(String),
    /// Show the details of the video that the argument (an id or a URL) names.
    ShowVideoInfo(String),
    /// End the session.
    Quit,
}

pub enum CommandView {
    PlayUrl(Seq<char>),
    ShowVideoInfo(Seq<char>),
    Quit,
}

impl View for Command {
    type V = CommandView;

    open spec fn view(&self) -> CommandView {
        match self {
            Command::PlayUrl(u) => CommandView::PlayUrl(u@),
            Command::ShowVideoInfo(a) => CommandView::ShowVideoInfo(a@),
            Command::Quit => CommandView::Quit,
        }
    }
}

/// What `parse` makes of a command line: it must begin with `:`, and the
/// rest is a verb and its arguments.
pub open spec fn parse_spec(s: Seq<char>) -> Result<CommandView, Seq<char>> {
    if s.len() == 0 || s[0] != ':' {
        Err("Commands must start with ':'"@)
    } else {
        let w = words(s.subrange(1, s.len() as int));
        if w.len() == 0 {
            Err("No command entered"@)
        } else if w[0] == "video"@ {
            if w.len() != 2 {
                Err("Usage: :video <url>"@)
            } else {
                Ok(CommandView::PlayUrl(w[1]))
            }
        } else if w[0] == "video-info"@ {
            if w.len() != 2 {
                Err("Usage: :video-info <url_or_bvid>"@)
            } else {
                Ok(CommandView::ShowVideoInfo(w[1]))
            }
        } else if w[0] == "q"@ {
            if w.len() != 1 {
                Err("Usage: :q"@)
            } else {
                Ok(CommandView::Quit)
            }
        } else {
            Err("Unknown command: "@ + w[0])
        }
    }
}

/// Parses a command line.
pub fn parse(input: &str) -> (r: Result<Command, String>)
    ensures
        match r {
            Ok(c) => parse_spec(input@) == Ok::<CommandView, Seq<char>>(c@),
            Err(e) => parse_spec(input@) == Err::<CommandView, Seq<char>>(e@),
        },
{
    let n = input.unicode_len();
    if n == 0 || input.get_char(0) != ':' {
        return Err(String::from_str("Commands must start with ':'"));
    }
    let parts = split_words(input.substring_char(1, n));
    if parts.len() == 0 {
        return Err(String::from_str("No command entered"));
    }
    let verb = parts[0].as_str();
    if str_eq(verb, "video") {
        if parts.len() != 2 {
            return Err(String::from_str("Usage: :video <url>"));
        }
        Ok(Command::PlayUrl(parts[1].clone()))
    } else if str_eq(verb, "video-info") {
        if parts.len() != 2 {
            return Err(String::from_str("Usage: :video-info <url_or_bvid>"));
        }
        Ok(Command::ShowVideoInfo(parts[1].clone()))
    } else if str_eq(verb, "q") {
        if parts.len() != 1 {
            return Err(String::from_str("Usage: :q"));
        }
        Ok(Command::Quit)
    } else {
        let mut msg = String::from_str("Unknown command: ");
        msg.append(verb);
        Err(msg)
    }
}

/// A `:video` command whose argument is one word parses to playing exactly that URL.
pub proof fn lemma_video_command_parses(url: Seq<char>)
    requires
        url.len() > 0,
        forall|m: int| 0 <= m < url.len() ==> !is_ws(#[trigger] url[m]),
    ensures
        parse_spec(":video "@ + url) == Ok::<CommandView, Seq<char>>(CommandView::PlayUrl(url)),
{
    reveal_strlit(":video ");
    reveal_strlit("video");
    reveal_strlit("video ");
    let s = ":video "@ + url;
    let t = s.subrange(1, s.len() as int);
    assert(t =~= "video "@ + url);
    lemma_words_run(t, 0, 5, Seq::empty());
    assert(Seq::<char>::empty() + t.subrange(0, 5) =~= "video"@);
    assert(is_ws(t[5]));
    assert(words_from(t, 5, "video"@) == seq!["video"@] + words_from(t, 6, Seq::empty()));
    assert forall|m: int| 6 <= m < t.len() implies !is_ws(#[trigger] t[m]) by {
        assert(t[m] == url[m - 6]);
    }
    lemma_words_run(t, 6, t.len() as int, Seq::empty());
    assert(Seq::<char>::empty() + t.subrange(6, t.len() as int) =~= url);
    assert(words(t) =~= seq!["video"@, url]);
}

/// A line whose first character is not `:` is not a command.
pub proof fn lemma_parse_requires_colon(s: Seq<char>)
    requires
        s.len() == 0 || s[0] != ':',
    ensures
        parse_spec(s) is Err,
{
}

/// What running a parsed command does to the session, and asks of the caller.
pub open spec fn execute_spec(s: SessionView, c: CommandView) -> (SessionView, ActionView) {
    match c {
        CommandView::PlayUrl(u) => (s, ActionView::Launch(u)),
        CommandView::ShowVideoInfo(a) => match resolve_id(a) {
            Some(id) => {
                let (f, t) = s.fetch.submitted(false);
                (SessionView { fetch: f, ..s }, ActionView::FetchInfo(id, t))
            },
            None => (
                SessionView { banner: Some("Invalid Bilibili URL or BVID"@), ..s },
                ActionView::Nothing,
            ),
        },
        CommandView::Quit => (s, ActionView::Quit),
    }
}

/// Runs a parsed command (see `execute_spec`): the player launch and the
/// fetch are left to the caller, which reports back through the session.
pub fn execute(command: Command, app: &mut App) -> (r: Action)
    ensures
        (final(app)@, r@) == execute_spec(old(app)@, command@),
{
    match command {
        Command::PlayUrl(url) => Action::Launch(url),
        Command::ShowVideoInfo(arg) => match extract_bvid(arg.as_str()) {
            Some(id) => {
                let t = app.fetch.submit_info();
                Action::FetchInfo(id, t)
            },
            None => {
                app.last_error = Some(String::from_str("Invalid Bilibili URL or BVID"));
                Action::Nothing
            },
        },
        Command::Quit => Action::Quit,
    }
}

} // verus!
