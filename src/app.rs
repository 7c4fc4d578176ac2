//! The session: focus, interaction mode, results and selection, details and the
//! banner, driven by key events and by the outcomes of background fetches.

use vstd::prelude::*;
use vstd::arithmetic::div_mod::{lemma_mod_add_multiples_vanish, lemma_small_mod};
use crate::api::{VideoInfo, VideoResult, page_prefix, video_page_url};
use crate::fetch::{FetchCoordinator, PendingFetch};
use crate::command::{Command, CommandView, parse, parse_spec, execute, execute_spec};

verus! {

/// The regions that can hold the focus.
#[derive(Clone, Copy, Debug, PartialEq, Eq, Structural)]
pub enum Focusable {
    Search,
    Results,
    Command,
    Unfocused,
}

/// Place of a focus target in the cycle search, results, command.
pub open spec fn cycle_pos(f: Focusable) -> Option<int> {
    match f {
        Focusable::Search => Some(0),
        Focusable::Results => Some(1),
        Focusable::Command => Some(2),
        Focusable::Unfocused => None,
    }
}

pub open spec fn cycle_at(i: int) -> Focusable {
    if i == 0 {
        Focusable::Search
    } else if i == 1 {
        Focusable::Results
    } else {
        Focusable::Command
    }
}

/// The focus target after `f` in the cycle; from no focus, the first one.
pub open spec fn next_spec(f: Focusable) -> Focusable {
    match cycle_pos(f) {
        Some(i) => cycle_at((i + 1) % 3),
        None => cycle_at(0),
    }
}

/// The focus target before `f` in the cycle; from no focus, the last one.
pub open spec fn prev_spec(f: Focusable) -> Focusable {
    match cycle_pos(f) {
        Some(i) => cycle_at((i + 2) % 3),
        None => cycle_at(2),
    }
}

fn pos_of(f: Focusable) -> (r: Option<u8>)
    ensures
        match r {
            Some(i) => cycle_pos(f) == Some(i as int),
            None => cycle_pos(f).is_none(),
        },
{
    match f {
        Focusable::Search => Some(0),
        Focusable::Results => Some(1),
        Focusable::Command => Some(2),
        Focusable::Unfocused => None,
    }
}

fn at_pos(i: u8) -> (r: Focusable)
    ensures
        r == cycle_at(i as int),
{
    if i == 0 {
        Focusable::Search
    } else if i == 1 {
        Focusable::Results
    } else {
        Focusable::Command
    }
}

impl Focusable {
    pub fn next(self) -> (r: Self)
        ensures
            r == next_spec(self),
    {
        match pos_of(self) {
            Some(i) => at_pos((i + 1) % 3),
            None => at_pos(0),
        }
    }

    pub fn prev(self) -> (r: Self)
        ensures
            r == prev_spec(self),
    {
        match pos_of(self) {
            Some(i) => at_pos((i + 2) % 3),
            None => at_pos(2),
        }
    }
}

/// Moving forward and then back, or back and then forward, returns to a focus
/// target, and three moves forward go round the cycle.
pub proof fn lemma_focus_cycle(f: Focusable)
    requires
        f != Focusable::Unfocused,
    ensures
        prev_spec(next_spec(f)) == f,
        next_spec(prev_spec(f)) == f,
        next_spec(next_spec(next_spec(f))) == f,
{
}

/// How keys are interpreted.
#[derive(Clone, Copy, Debug, PartialEq, Eq, Structural)]
pub enum InputMode {
    /// Neutral: focus cycling and entering the other modes.
    Normal,
    /// The search box takes the keys.
    Editing,
    /// The command line takes the keys.
    Command,
    /// The details of one video.
    Detail,
    /// Moving through the results.
    ListNav,
    Help,
}

/// A key press, as far as the session tells keys apart.
#[derive(Clone, Copy, Debug, PartialEq, Eq, Structural)]
pub enum Key {
    Char(char),
    Enter,
    Esc,
    Other,
}

/// What the caller has to carry out after a step of the session.
#[derive(Debug, PartialEq, Eq)]
pub enum Action {
    Nothing,
    /// End the session.
    Quit,
    /// Hand the key to the search box's editor, then store its text.
    EditSearch,
    /// Hand the key to the command line's editor, then store its text.
    EditCommand,
    /// Search for the query in the background; the outcome comes back with the ticket.
    StartSearch(String, u64),
    /// Fetch the details of the video id in the background, with the ticket.
    FetchInfo(String, u64),
    /// Launch the media player on the URL.
    Launch(String),
}

pub enum ActionView {
    Nothing,
    Quit,
    EditSearch,
    EditCommand,
    StartSearch(Seq<char>, u64),
    FetchInfo(Seq<char>, u64),
    Launch(Seq<char>),
}

impl View for Action {
    type V = ActionView;

    open spec fn view(&self) -> ActionView {
        match self {
            Action::Nothing => ActionView::Nothing,
            Action::Quit => ActionView::Quit,
            Action::EditSearch => ActionView::EditSearch,
            Action::EditCommand => ActionView::EditCommand,
            Action::StartSearch(q, t) => ActionView::StartSearch(q@, *t),
            Action::FetchInfo(b, t) => ActionView::FetchInfo(b@, *t),
            Action::Launch(u) => ActionView::Launch(u@),
        }
    }
}

/// The state of a session.
#[derive(Clone, Debug, PartialEq, Eq)]
pub struct App {
    /// Text of the search box.
    pub search_text: String,
    /// Text of the command line.
    pub command_text: String,
    pub mode: InputMode,
    pub focused_panel: Focusable,
    /// Results of the last search, in the service's order.
    pub search_results: Vec<VideoResult>,
    /// Index of the selected result.
    pub selected: Option<usize>,
    /// Details fetched by command, shown in the detail view.
    pub video_info: Option<VideoInfo>,
    /// Status or error text, shown in place of the command line.
    pub last_error: Option<String>,
    pub fetch: FetchCoordinator,
}

pub struct SessionView {
    pub search_text: Seq<char>,
    pub command_text: Seq<char>,
    pub mode: InputMode,
    pub focus: Focusable,
    pub results: Seq<VideoResult>,
    pub selected: Option<usize>,
    pub info: Option<VideoInfo>,
    pub banner: Option<Seq<char>>,
    pub fetch: FetchCoordinator,
}

impl View for App {
    type V = SessionView;

    open spec fn view(&self) -> SessionView {
        SessionView {
            search_text: self.search_text@,
            command_text: self.command_text@,
            mode: self.mode,
            focus: self.focused_panel,
            results: self.search_results@,
            selected: self.selected,
            info: self.video_info,
            banner: match self.last_error {
                Some(e) => Some(e@),
                None => None,
            },
            fetch: self.fetch,
        }
    }
}

impl SessionView {
    /// The selection is absent or a valid index, and the detail view has
    /// something to show.
    pub open spec fn wf(self) -> bool {
        &&& (self.selected matches Some(i) ==> i < self.results.len())
        &&& (self.mode == InputMode::Detail ==> self.info.is_some() || self.selected.is_some())
    }
}

/// The selection after moving down a list of `n` items, wrapping to the top.
pub open spec fn advance_spec(sel: Option<usize>, n: nat) -> Option<usize> {
    if n == 0 {
        sel
    } else {
        match sel {
            Some(i) => if i + 1 >= n {
                Some(0)
            } else {
                Some((i + 1) as usize)
            },
            None => Some(0),
        }
    }
}

/// The selection after moving up a list of `n` items, wrapping to the bottom.
pub open spec fn retreat_spec(sel: Option<usize>, n: nat) -> Option<usize> {
    if n == 0 {
        sel
    } else {
        match sel {
            Some(i) => if i == 0 {
                Some((n - 1) as usize)
            } else {
                Some((i - 1) as usize)
            },
            None => Some(0),
        }
    }
}

pub fn next_index(sel: Option<usize>, len: usize) -> (r: Option<usize>)
    ensures
        r == advance_spec(sel, len as nat),
{
    if len == 0 {
        return sel;
    }
    match sel {
        Some(i) => if i >= len - 1 {
            Some(0)
        } else {
            Some(i + 1)
        },
        None => Some(0),
    }
}

pub fn prev_index(sel: Option<usize>, len: usize) -> (r: Option<usize>)
    ensures
        r == retreat_spec(sel, len as nat),
{
    if len == 0 {
        return sel;
    }
    match sel {
        Some(i) => if i == 0 {
            Some(len - 1)
        } else {
            Some(i - 1)
        },
        None => Some(0),
    }
}

/// The selection after `k` moves down.
pub open spec fn advance_times(sel: Option<usize>, n: nat, k: nat) -> Option<usize>
    decreases k,
{
    if k == 0 {
        sel
    } else {
        advance_times(advance_spec(sel, n), n, (k - 1) as nat)
    }
}

proof fn lemma_advance_times_mod(i: usize, n: nat, k: nat)
    requires
        i < n <= usize::MAX,
    ensures
        advance_times(Some(i), n, k) == Some(((i + k) % (n as int)) as usize),
    decreases k,
{
    if k == 0 {
        lemma_small_mod(i as nat, n);
    } else {
        let j: usize = if i + 1 >= n {
            0
        } else {
            (i + 1) as usize
        };
        lemma_advance_times_mod(j, n, (k - 1) as nat);
        if i + 1 >= n {
            lemma_mod_add_multiples_vanish(k - 1, n as int);
            assert(i + k == n + (k - 1));
        } else {
            assert(j + (k - 1) == i + k);
        }
    }
}

/// On a list of `n` items, `n` moves down return to the selected index, and a
/// move up from the top selects the last item.
pub proof fn lemma_selection_wraps(s: usize, n: usize)
    requires
        s < n,
    ensures
        advance_times(Some(s), n as nat, n as nat) == Some(s),
        retreat_spec(Some(0), n as nat) == Some((n - 1) as usize),
{
    lemma_advance_times_mod(s, n as nat, n as nat);
    lemma_mod_add_multiples_vanish(s as int, n as int);
    lemma_small_mod(s as nat, n as nat);
}

/// The URL that the play key launches: the fetched details' video, else the
/// selected result's.
pub open spec fn launch_target(s: SessionView) -> Option<Seq<char>> {
    match s.info {
        Some(i) => Some(page_prefix() + i.bvid@),
        None => match s.selected {
            Some(j) => if j < s.results.len() {
                Some(page_prefix() + s.results[j as int].bvid@)
            } else {
                None
            },
            None => None,
        },
    }
}

pub open spec fn normal_key(s: SessionView, k: Key) -> (SessionView, ActionView) {
    match k {
        Key::Char(c) => if c == 'q' {
            (s, ActionView::Quit)
        } else if c == 'j' {
            (SessionView { focus: next_spec(s.focus), ..s }, ActionView::Nothing)
        } else if c == 'k' {
            (SessionView { focus: prev_spec(s.focus), ..s }, ActionView::Nothing)
        } else if c == ':' && s.focus == Focusable::Command {
            (SessionView { mode: InputMode::Command, command_text: ":"@, ..s }, ActionView::Nothing)
        } else {
            (s, ActionView::Nothing)
        },
        Key::Enter => match s.focus {
            Focusable::Search => (SessionView { mode: InputMode::Editing, ..s }, ActionView::Nothing),
            Focusable::Results => (SessionView { mode: InputMode::ListNav, ..s }, ActionView::Nothing),
            Focusable::Command => (SessionView { mode: InputMode::Command, ..s }, ActionView::Nothing),
            Focusable::Unfocused => (s, ActionView::Nothing),
        },
        _ => (s, ActionView::Nothing),
    }
}

pub open spec fn editing_key(s: SessionView, k: Key) -> (SessionView, ActionView) {
    match k {
        Key::Enter => {
            let (f, t) = s.fetch.submitted(true);
            (
                SessionView { mode: InputMode::Normal, fetch: f, ..s },
                ActionView::StartSearch(s.search_text, t),
            )
        },
        Key::Esc => (
            SessionView { mode: InputMode::Normal, focus: Focusable::Unfocused, ..s },
            ActionView::Nothing,
        ),
        _ => (s, ActionView::EditSearch),
    }
}

/// Committing the command line: a quit leaves the state as it is; anything
/// else clears the line, returns to the neutral mode and runs or reports.
pub open spec fn command_line(s: SessionView) -> (SessionView, ActionView) {
    let base = SessionView { command_text: Seq::empty(), mode: InputMode::Normal, ..s };
    match parse_spec(s.command_text) {
        Ok(CommandView::Quit) => (s, ActionView::Quit),
        Ok(c) => execute_spec(base, c),
        Err(e) => (SessionView { banner: Some(e), ..base }, ActionView::Nothing),
    }
}

pub open spec fn command_key(s: SessionView, k: Key) -> (SessionView, ActionView) {
    match k {
        Key::Enter => command_line(s),
        Key::Esc => (
            SessionView { mode: InputMode::Normal, focus: Focusable::Unfocused, ..s },
            ActionView::Nothing,
        ),
        _ => (s, ActionView::EditCommand),
    }
}

pub open spec fn detail_key(s: SessionView, k: Key) -> (SessionView, ActionView) {
    match k {
        Key::Char(c) => if c == 'q' {
            (SessionView { mode: InputMode::ListNav, ..s }, ActionView::Nothing)
        } else if c == 'p' {
            match launch_target(s) {
                Some(u) => (s, ActionView::Launch(u)),
                None => (s, ActionView::Nothing),
            }
        } else {
            (s, ActionView::Nothing)
        },
        Key::Esc => (SessionView { mode: InputMode::ListNav, ..s }, ActionView::Nothing),
        _ => (s, ActionView::Nothing),
    }
}

pub open spec fn list_key(s: SessionView, k: Key) -> (SessionView, ActionView) {
    let dismissed = SessionView {
        mode: InputMode::Normal,
        selected: None,
        focus: Focusable::Unfocused,
        ..s
    };
    match k {
        Key::Char(c) => if c == 'j' {
            (
                SessionView { selected: advance_spec(s.selected, s.results.len()), ..s },
                ActionView::Nothing,
            )
        } else if c == 'k' {
            (
                SessionView { selected: retreat_spec(s.selected, s.results.len()), ..s },
                ActionView::Nothing,
            )
        } else if c == 'q' {
            (dismissed, ActionView::Nothing)
        } else {
            (s, ActionView::Nothing)
        },
        Key::Enter => if s.info.is_some() || s.selected.is_some() {
            (SessionView { mode: InputMode::Detail, ..s }, ActionView::Nothing)
        } else {
            (s, ActionView::Nothing)
        },
        Key::Esc => (dismissed, ActionView::Nothing),
        _ => (s, ActionView::Nothing),
    }
}

/// One key press: the next state and what the caller has to do.
pub open spec fn on_key(s: SessionView, k: Key) -> (SessionView, ActionView) {
    match s.mode {
        InputMode::Normal => normal_key(s, k),
        InputMode::Editing => editing_key(s, k),
        InputMode::Command => command_key(s, k),
        InputMode::Detail => detail_key(s, k),
        InputMode::ListNav => list_key(s, k),
        InputMode::Help => (s, ActionView::Nothing),
    }
}

/// The (mode, key) pairs that the session reacts to.
pub open spec fn handled(mode: InputMode, focus: Focusable, k: Key) -> bool {
    match mode {
        InputMode::Normal => match k {
            Key::Char(c) => c == 'q' || c == 'j' || c == 'k' || (c == ':' && focus
                == Focusable::Command),
            Key::Enter => focus != Focusable::Unfocused,
            _ => false,
        },
        InputMode::Editing | InputMode::Command => true,
        InputMode::Detail => match k {
            Key::Char(c) => c == 'q' || c == 'p',
            Key::Esc => true,
            _ => false,
        },
        InputMode::ListNav => match k {
            Key::Char(c) => c == 'j' || c == 'k' || c == 'q',
            Key::Enter | Key::Esc => true,
            _ => false,
        },
        InputMode::Help => false,
    }
}

/// A key that its mode does not list leaves the state as it is and asks for nothing.
pub proof fn lemma_unlisted_keys_do_nothing(s: SessionView, k: Key)
    requires
        !handled(s.mode, s.focus, k),
    ensures
        on_key(s, k) == (s, ActionView::Nothing),
{
}

/// Every key press keeps the session well formed.
pub proof fn lemma_keys_keep_wf(s: SessionView, k: Key)
    requires
        s.wf(),
    ensures
        on_key(s, k).0.wf(),
{
}

/// Committing a quit command ends the session and changes nothing, whatever
/// else the state holds.
pub proof fn lemma_quit_changes_nothing(s: SessionView)
    requires
        s.mode == InputMode::Command,
        parse_spec(s.command_text) == Ok::<CommandView, Seq<char>>(CommandView::Quit),
    ensures
        on_key(s, Key::Enter) == (s, ActionView::Quit),
{
}

pub open spec fn accepted(f: FetchCoordinator) -> FetchCoordinator {
    FetchCoordinator { pending: PendingFetch::NoFetch, ..f }
}

pub open spec fn outcome_view<T>(o: Result<T, String>) -> Result<T, Seq<char>> {
    match o {
        Ok(v) => Ok(v),
        Err(e) => Err(e@),
    }
}

pub open spec fn results_outcome(o: Result<Vec<VideoResult>, String>) -> Result<
    Seq<VideoResult>,
    Seq<char>,
> {
    match o {
        Ok(v) => Ok(v@),
        Err(e) => Err(e@),
    }
}

/// A search outcome: the awaited one replaces the results and opens the list,
/// or reports its failure; any other leaves the state as it is.
pub open spec fn on_search_outcome(
    s: SessionView,
    ticket: u64,
    outcome: Result<Seq<VideoResult>, Seq<char>>,
) -> SessionView {
    if s.fetch.pending != PendingFetch::Search(ticket) {
        s
    } else {
        match outcome {
            Ok(v) => SessionView {
                results: v,
                selected: if v.len() > 0 {
                    Some(0usize)
                } else {
                    None
                },
                banner: None,
                mode: InputMode::ListNav,
                focus: Focusable::Results,
                fetch: accepted(s.fetch),
                ..s
            },
            Err(e) => SessionView { banner: Some(e), fetch: accepted(s.fetch), ..s },
        }
    }
}

/// A video-info outcome: the awaited one opens the detail view, or reports its
/// failure; any other leaves the state as it is.
pub open spec fn on_info_outcome(
    s: SessionView,
    ticket: u64,
    outcome: Result<VideoInfo, Seq<char>>,
) -> SessionView {
    if s.fetch.pending != PendingFetch::Info(ticket) {
        s
    } else {
        match outcome {
            Ok(i) => SessionView {
                info: Some(i),
                banner: None,
                mode: InputMode::Detail,
                fetch: accepted(s.fetch),
                ..s
            },
            Err(e) => SessionView { banner: Some(e), fetch: accepted(s.fetch), ..s },
        }
    }
}

/// The banner after launching the media player on `url`.
pub open spec fn launch_banner(url: Seq<char>, outcome: Result<(), Seq<char>>) -> Seq<char> {
    match outcome {
        Ok(_) => "Playing: "@ + url,
        Err(e) => "Failed to play video: "@ + e,
    }
}

impl App {
    pub fn new() -> (r: Self)
        ensures
            r@.wf(),
            r@.search_text.len() == 0,
            r@.command_text.len() == 0,
            r@.mode == InputMode::Normal,
            r@.focus == Focusable::Search,
            r@.results.len() == 0,
            r@.selected.is_none(),
            r@.info.is_none(),
            r@.banner.is_none(),
            r@.fetch.pending == PendingFetch::NoFetch,
    {
        App {
            search_text: String::new(),
            command_text: String::new(),
            mode: InputMode::Normal,
            focused_panel: Focusable::Search,
            search_results: Vec::new(),
            selected: None,
            video_info: None,
            last_error: None,
            fetch: FetchCoordinator::new(),
        }
    }

    pub fn is_editing(&self) -> (r: bool)
        ensures
            r == (self.mode == InputMode::Editing),
    {
        self.mode == InputMode::Editing
    }

    pub fn is_commanding(&self) -> (r: bool)
        ensures
            r == (self.mode == InputMode::Command),
    {
        self.mode == InputMode::Command
    }

    /// The URL that the play key launches, if there is one.
    pub fn play_video(&self) -> (r: Option<String>)
        ensures
            match r {
                Some(u) => launch_target(self@) == Some(u@),
                None => launch_target(self@).is_none(),
            },
    {
        match &self.video_info {
            Some(info) => Some(video_page_url(info.bvid.as_str())),
            None => match self.selected {
                Some(j) => if j < self.search_results.len() {
                    Some(video_page_url(self.search_results[j].bvid.as_str()))
                } else {
                    None
                },
                None => None,
            },
        }
    }

    pub fn set_search_text(&mut self, text: String)
        ensures
            final(self)@ == (SessionView { search_text: text@, ..old(self)@ }),
    {
        self.search_text = text;
    }

    pub fn set_command_text(&mut self, text: String)
        ensures
            final(self)@ == (SessionView { command_text: text@, ..old(self)@ }),
    {
        self.command_text = text;
    }

    fn normal_key(&mut self, key: Key) -> (r: Action)
        requires
            old(self).mode == InputMode::Normal,
        ensures
            (final(self)@, r@) == normal_key(old(self)@, key),
    {
        match key {
            Key::Char(c) => {
                if c == 'q' {
                    Action::Quit
                } else if c == 'j' {
                    self.focused_panel = self.focused_panel.next();
                    Action::Nothing
                } else if c == 'k' {
                    self.focused_panel = self.focused_panel.prev();
                    Action::Nothing
                } else if c == ':' && self.focused_panel == Focusable::Command {
                    self.mode = InputMode::Command;
                    self.command_text = String::from_str(":");
                    Action::Nothing
                } else {
                    Action::Nothing
                }
            },
            Key::Enter => {
                match self.focused_panel {
                    Focusable::Search => self.mode = InputMode::Editing,
                    Focusable::Results => self.mode = InputMode::ListNav,
                    Focusable::Command => self.mode = InputMode::Command,
                    Focusable::Unfocused => {},
                }
                Action::Nothing
            },
            _ => Action::Nothing,
        }
    }

    fn editing_key(&mut self, key: Key) -> (r: Action)
        requires
            old(self).mode == InputMode::Editing,
        ensures
            (final(self)@, r@) == editing_key(old(self)@, key),
    {
        match key {
            Key::Enter => {
                let t = self.fetch.submit_search();
                self.mode = InputMode::Normal;
                Action::StartSearch(self.search_text.clone(), t)
            },
            Key::Esc => {
                self.mode = InputMode::Normal;
                self.focused_panel = Focusable::Unfocused;
                Action::Nothing
            },
            _ => Action::EditSearch,
        }
    }

    fn command_key(&mut self, key: Key) -> (r: Action)
        requires
            old(self).mode == InputMode::Command,
        ensures
            (final(self)@, r@) == command_key(old(self)@, key),
    {
        match key {
            Key::Enter => {
                match parse(self.command_text.as_str()) {
                    Ok(Command::Quit) => Action::Quit,
                    Ok(cmd) => {
                        self.command_text = String::new();
                        self.mode = InputMode::Normal;
                        execute(cmd, self)
                    },
                    Err(e) => {
                        self.command_text = String::new();
                        self.mode = InputMode::Normal;
                        self.last_error = Some(e);
                        Action::Nothing
                    },
                }
            },
            Key::Esc => {
                self.mode = InputMode::Normal;
                self.focused_panel = Focusable::Unfocused;
                Action::Nothing
            },
            _ => Action::EditCommand,
        }
    }

    fn detail_key(&mut self, key: Key) -> (r: Action)
        requires
            old(self).mode == InputMode::Detail,
        ensures
            (final(self)@, r@) == detail_key(old(self)@, key),
    {
        match key {
            Key::Char(c) => {
                if c == 'q' {
                    self.mode = InputMode::ListNav;
                    Action::Nothing
                } else if c == 'p' {
                    match self.play_video() {
                        Some(u) => Action::Launch(u),
                        None => Action::Nothing,
                    }
                } else {
                    Action::Nothing
                }
            },
            Key::Esc => {
                self.mode = InputMode::ListNav;
                Action::Nothing
            },
            _ => Action::Nothing,
        }
    }

    fn list_key(&mut self, key: Key) -> (r: Action)
        requires
            old(self).mode == InputMode::ListNav,
        ensures
            (final(self)@, r@) == list_key(old(self)@, key),
    {
        let dismiss = match key {
            Key::Char(c) => c == 'q',
            Key::Esc => true,
            _ => false,
        };
        if dismiss {
            self.mode = InputMode::Normal;
            self.selected = None;
            self.focused_panel = Focusable::Unfocused;
            return Action::Nothing;
        }
        match key {
            Key::Char(c) => {
                if c == 'j' {
                    self.selected = next_index(self.selected, self.search_results.len());
                } else if c == 'k' {
                    self.selected = prev_index(self.selected, self.search_results.len());
                }
            },
            Key::Enter => {
                if self.video_info.is_some() || self.selected.is_some() {
                    self.mode = InputMode::Detail;
                }
            },
            _ => {},
        }
        Action::Nothing
    }

    /// Applies one key press (see `on_key`).
    pub fn handle_key(&mut self, key: Key) -> (r: Action)
        requires
            old(self)@.wf(),
        ensures
            final(self)@.wf(),
            (final(self)@, r@) == on_key(old(self)@, key),
    {
        proof {
            lemma_keys_keep_wf(self@, key);
        }
        match self.mode {
            InputMode::Normal => self.normal_key(key),
            InputMode::Editing => self.editing_key(key),
            InputMode::Command => self.command_key(key),
            InputMode::Detail => self.detail_key(key),
            InputMode::ListNav => self.list_key(key),
            InputMode::Help => Action::Nothing,
        }
    }

    /// Applies the outcome of the search with this ticket (see `on_search_outcome`).
    pub fn apply_search(&mut self, ticket: u64, outcome: Result<Vec<VideoResult>, String>)
        requires
            old(self)@.wf(),
        ensures
            final(self)@.wf(),
            final(self)@ == on_search_outcome(
                old(self)@,
                ticket,
                results_outcome(outcome),
            ),
    {
        if !self.fetch.accept_search(ticket) {
            return;
        }
        match outcome {
            Ok(results) => {
                self.selected = if results.len() > 0 {
                    Some(0)
                } else {
                    None
                };
                self.search_results = results;
                self.last_error = None;
                self.mode = InputMode::ListNav;
                self.focused_panel = Focusable::Results;
            },
            Err(e) => {
                self.last_error = Some(e);
            },
        }
    }

    /// Applies the outcome of the video-info fetch with this ticket (see `on_info_outcome`).
    pub fn apply_info(&mut self, ticket: u64, outcome: Result<VideoInfo, String>)
        requires
            old(self)@.wf(),
        ensures
            final(self)@.wf(),
            final(self)@ == on_info_outcome(old(self)@, ticket, outcome_view(outcome)),
    {
        if !self.fetch.accept_info(ticket) {
            return;
        }
        match outcome {
            Ok(info) => {
                self.video_info = Some(info);
                self.last_error = None;
                self.mode = InputMode::Detail;
            },
            Err(e) => {
                self.last_error = Some(e);
            },
        }
    }

    /// Reports the outcome of launching the media player on `url` in the banner.
    pub fn finish_launch(&mut self, url: &str, outcome: Result<(), String>)
        ensures
            final(self)@ == (SessionView {
                banner: Some(launch_banner(url@, outcome_view(outcome))),
                ..old(self)@
            }),
    {
        let msg = match &outcome {
            Ok(_) => {
                let mut m = String::from_str("Playing: ");
                m.append(url);
                m
            },
            Err(e) => {
                let mut m = String::from_str("Failed to play video: ");
                m.append(e.as_str());
                m
            },
        };
        self.last_error = Some(msg);
    }
}

} // verus!
