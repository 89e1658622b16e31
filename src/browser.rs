//! The navigation controller: current URL, history, and load status.
//!
//! Loads are asynchronous. Each fetch that the controller asks for carries a
//! request number, and a completion is applied only when it answers the most
//! recent request: a slow answer to an earlier request never overwrites the
//! state set by a later one. This fencing is deliberate: completions applied in
//! arrival order would let a stale page replace the one the user asked for last.

use vstd::prelude::*;
use vstd::string::*;

use crate::config::Config;
use crate::text::{has_prefix, starts_with};

verus! {

/// What the viewer is showing.
#[derive(Debug, Clone, PartialEq, Eq)]
pub enum LoadStatus {
    Idle,
    Loading(String),
    Loaded(String),
    Errored(String),
}

/// The mathematical value of a `LoadStatus`.
pub enum StatusView {
    Idle,
    Loading(Seq<char>),
    Loaded(Seq<char>),
    Errored(Seq<char>),
}

impl View for LoadStatus {
    type V = StatusView;

    open spec fn view(&self) -> StatusView {
        match self {
            LoadStatus::Idle => StatusView::Idle,
            LoadStatus::Loading(u) => StatusView::Loading(u@),
            LoadStatus::Loaded(t) => StatusView::Loaded(t@),
            LoadStatus::Errored(e) => StatusView::Errored(e@),
        }
    }
}

/// Commands sent to the controller by the user interface, and the answers of fetches.
#[derive(Debug)]
pub enum Message {
    Navigate(String),
    UpdateUrl(String),
    GoBack,
    GoForward,
    Refresh,
    /// The outcome of the fetch with the given request number: the page's text, or an error message.
    LoadComplete(u64, Result<String, String>),
    Close,
}

/// What the controller asks its caller to do next.
#[derive(Debug, Clone, PartialEq, Eq)]
pub enum Command {
    Nothing,
    /// Fetch `url`, and answer with `Message::LoadComplete(request, ..)`.
    Fetch { request: u64, url: String },
}

impl View for Command {
    type V = Option<(u64, Seq<char>)>;

    open spec fn view(&self) -> Option<(u64, Seq<char>)> {
        match self {
            Command::Nothing => None,
            Command::Fetch { request, url } => Some((*request, url@)),
        }
    }
}

/// The secure scheme prefix given to addresses that name no scheme.
pub open spec fn https_prefix() -> Seq<char> {
    seq!['h', 't', 't', 'p', 's', ':', '/', '/']
}

pub open spec fn http_prefix() -> Seq<char> {
    seq!['h', 't', 't', 'p', ':', '/', '/']
}

/// `input` as an address: unchanged if it starts with `http://` or `https://`,
/// else with `https://` put in front.
pub open spec fn normalized(input: Seq<char>) -> Seq<char> {
    if has_prefix(input, http_prefix()) || has_prefix(input, https_prefix()) {
        input
    } else {
        https_prefix() + input
    }
}

/// The request number that follows `id`. Numbers wrap around and never come back to 0,
/// which stands for "nothing requested yet".
pub open spec fn next_request(id: u64) -> u64 {
    if id < u64::MAX {
        (id + 1) as u64
    } else {
        1
    }
}

/// The mathematical state of a `Browser`.
pub struct BrowserView {
    pub config: Config,
    pub url_input: Seq<char>,
    pub status: StatusView,
    pub history: Seq<Seq<char>>,
    pub index: int,
    pub latest_request: u64,
}

impl BrowserView {
    /// The history is never empty and the index points into it.
    pub open spec fn wf(self) -> bool {
        self.history.len() >= 1 && 0 <= self.index < self.history.len()
    }

    pub open spec fn current_url(self) -> Seq<char> {
        self.history[self.index]
    }

    /// The state after a new fetch of `url` has been requested.
    pub open spec fn requested(self, url: Seq<char>) -> BrowserView {
        BrowserView {
            status: StatusView::Loading(url),
            latest_request: next_request(self.latest_request),
            ..self
        }
    }

    /// Entries after the current one are dropped, the normalized address is
    /// appended and becomes current, and its fetch is requested.
    pub open spec fn navigated(self, input: Seq<char>) -> BrowserView {
        let url = normalized(input);
        BrowserView {
            url_input: url,
            history: self.history.subrange(0, self.index + 1).push(url),
            index: self.index + 1,
            ..self
        }.requested(url)
    }

    /// One entry back, unless the first entry is current.
    pub open spec fn went_back(self) -> BrowserView {
        if self.index == 0 {
            self
        } else {
            let url = self.history[self.index - 1];
            BrowserView { url_input: url, index: self.index - 1, ..self }.requested(url)
        }
    }

    /// One entry forward, unless the last entry is current.
    pub open spec fn went_forward(self) -> BrowserView {
        if self.index + 1 >= self.history.len() {
            self
        } else {
            let url = self.history[self.index + 1];
            BrowserView { url_input: url, index: self.index + 1, ..self }.requested(url)
        }
    }

    /// The current entry is fetched again; the history stays as it is.
    pub open spec fn refreshed(self) -> BrowserView {
        self.requested(self.current_url())
    }

    /// Whether an answer to `request` is applied: it answers the latest request,
    /// which is still loading.
    pub open spec fn accepts(self, request: u64) -> bool {
        request == self.latest_request && self.status is Loading
    }

    /// The state after the fetch numbered `request` came back with `outcome`.
    pub open spec fn completed(self, request: u64, outcome: Result<Seq<char>, Seq<char>>) -> BrowserView {
        if self.accepts(request) {
            BrowserView {
                status: match outcome {
                    Ok(text) => StatusView::Loaded(text),
                    Err(message) => StatusView::Errored(message),
                },
                ..self
            }
        } else {
            self
        }
    }

    /// What a request of this state asks to fetch.
    pub open spec fn fetch_of(self) -> Option<(u64, Seq<char>)> {
        Some((self.latest_request, self.current_url()))
    }
}

pub open spec fn outcome_view(outcome: Result<String, String>) -> Result<Seq<char>, Seq<char>> {
    match outcome {
        Ok(t) => Ok(t@),
        Err(e) => Err(e@),
    }
}

/// The browser's navigation controller.
pub struct Browser {
    config: Config,
    url_input: String,
    status: LoadStatus,
    history: Vec<String>,
    history_index: usize,
    latest_request: u64,
}

impl View for Browser {
    type V = BrowserView;

    closed spec fn view(&self) -> BrowserView {
        BrowserView {
            config: self.config,
            url_input: self.url_input@,
            status: self.status@,
            history: self.history@.map_values(|s: String| s@),
            index: self.history_index as int,
            latest_request: self.latest_request,
        }
    }
}

fn following_request(id: u64) -> (r: u64)
    ensures
        r == next_request(id),
{
    if id < u64::MAX {
        id + 1
    } else {
        1
    }
}

/// `input` with `https://` put in front, unless it starts with `http://` or `https://`.
pub fn normalize_url(input: String) -> (r: String)
    ensures
        r@ == normalized(input@),
{
    let http = "http://";
    let https = "https://";
    proof {
        reveal_strlit("http://");
        reveal_strlit("https://");
        assert(http@ =~= http_prefix());
        assert(https@ =~= https_prefix());
    }
    if starts_with(input.as_str(), http) || starts_with(input.as_str(), https) {
        input
    } else {
        String::from_str(https).concat(input.as_str())
    }
}

impl Browser {
    /// A session whose history holds the configured home page alone.
    pub fn new(config: Config) -> (r: Browser)
        ensures
            r@.wf(),
            r@.config == config,
            r@.history == seq![config.applications.browser.homepage@],
            r@.index == 0,
            r@.url_input == config.applications.browser.homepage@,
            r@.status == StatusView::Idle,
            r@.latest_request == 0,
    {
        let homepage = config.applications.browser.homepage.clone();
        let url_input = homepage.clone();
        let history = vec![homepage];
        let r = Browser {
            config,
            url_input,
            status: LoadStatus::Idle,
            history,
            history_index: 0,
            latest_request: 0,
        };
        assert(r@.history =~= seq![config.applications.browser.homepage@]);
        r
    }

    /// Records a new request of `url` and the command that asks for it.
    fn request(&mut self, url: String) -> (r: Command)
        ensures
            final(self)@ == old(self)@.requested(url@),
            r@ == Some((final(self)@.latest_request, url@)),
    {
        self.latest_request = following_request(self.latest_request);
        self.status = LoadStatus::Loading(url.clone());
        Command::Fetch { request: self.latest_request, url }
    }

    /// Goes to the address typed in `input`.
    pub fn navigate(&mut self, input: String) -> (r: Command)
        requires
            old(self)@.wf(),
        ensures
            final(self)@.wf(),
            final(self)@ == old(self)@.navigated(input@),
            r@ == final(self)@.fetch_of(),
    {
        let ghost pre = self@;
        let url = normalize_url(input);
        let len = self.history.len();
        assert(self.history_index < len);
        self.history.truncate(self.history_index + 1);
        self.history.push(url.clone());
        self.history_index = self.history.len() - 1;
        self.url_input = url.clone();
        assert(self@.history =~= pre.history.subrange(0, pre.index + 1).push(url@));
        self.request(url)
    }

    /// Moves one entry back in the history, if there is one.
    pub fn go_back(&mut self) -> (r: Command)
        requires
            old(self)@.wf(),
        ensures
            final(self)@.wf(),
            final(self)@ == old(self)@.went_back(),
            r@ == if old(self)@.index == 0 { None } else { final(self)@.fetch_of() },
    {
        if self.history_index > 0 {
            self.history_index -= 1;
            let url = self.history[self.history_index].clone();
            self.url_input = url.clone();
            self.request(url)
        } else {
            Command::Nothing
        }
    }

    /// Moves one entry forward in the history, if there is one.
    pub fn go_forward(&mut self) -> (r: Command)
        requires
            old(self)@.wf(),
        ensures
            final(self)@.wf(),
            final(self)@ == old(self)@.went_forward(),
            r@ == if old(self)@.index + 1 >= old(self)@.history.len() {
                None
            } else {
                final(self)@.fetch_of()
            },
    {
        if self.history_index < self.history.len() - 1 {
            self.history_index += 1;
            let url = self.history[self.history_index].clone();
            self.url_input = url.clone();
            self.request(url)
        } else {
            Command::Nothing
        }
    }

    /// Fetches the current entry again.
    pub fn refresh(&mut self) -> (r: Command)
        requires
            old(self)@.wf(),
        ensures
            final(self)@.wf(),
            final(self)@ == old(self)@.refreshed(),
            r@ == final(self)@.fetch_of(),
    {
        let url = self.history[self.history_index].clone();
        self.request(url)
    }

    /// Applies the outcome of the fetch numbered `request`, unless a later
    /// request has been made since or nothing is loading.
    pub fn complete(&mut self, request: u64, outcome: Result<String, String>)
        ensures
            final(self)@ == old(self)@.completed(request, outcome_view(outcome)),
    {
        if request == self.latest_request && matches!(self.status, LoadStatus::Loading(_)) {
            self.status = match outcome {
                Ok(text) => LoadStatus::Loaded(text),
                Err(message) => LoadStatus::Errored(message),
            };
        }
    }

    /// The visited addresses, oldest first.
    pub fn history(&self) -> (r: &Vec<String>)
        ensures
            r@.map_values(|s: String| s@) == self@.history,
    {
        &self.history
    }

    /// The position of the current entry in the history.
    pub fn history_index(&self) -> (r: usize)
        ensures
            r == self@.index,
    {
        self.history_index
    }

    /// The address of the current entry.
    pub fn current_url(&self) -> (r: &String)
        requires
            self@.wf(),
        ensures
            r@ == self@.current_url(),
    {
        &self.history[self.history_index]
    }

    /// The text of the address box.
    pub fn url_input(&self) -> (r: &String)
        ensures
            r@ == self@.url_input,
    {
        &self.url_input
    }

    pub fn status(&self) -> (r: &LoadStatus)
        ensures
            r@ == self@.status,
    {
        &self.status
    }

    /// The number of the latest request, or 0 if none was made.
    pub fn latest_request(&self) -> (r: u64)
        ensures
            r == self@.latest_request,
    {
        self.latest_request
    }

    pub fn config(&self) -> (r: &Config)
        ensures
            *r == self@.config,
    {
        &self.config
    }

    /// Handles one message and says what to fetch next, if anything.
    pub fn update(&mut self, message: Message) -> (r: Command)
        requires
            old(self)@.wf(),
        ensures
            final(self)@.wf(),
            match message {
                Message::Navigate(input) => final(self)@ == old(self)@.navigated(input@)
                    && r@ == final(self)@.fetch_of(),
                Message::UpdateUrl(text) => final(self)@ == (BrowserView {
                    url_input: text@,
                    ..old(self)@
                }) && r@ == None::<(u64, Seq<char>)>,
                Message::GoBack => final(self)@ == old(self)@.went_back() && r@ == if old(
                    self,
                )@.index == 0 {
                    None
                } else {
                    final(self)@.fetch_of()
                },
                Message::GoForward => final(self)@ == old(self)@.went_forward() && r@ == if old(
                    self,
                )@.index + 1 >= old(self)@.history.len() {
                    None
                } else {
                    final(self)@.fetch_of()
                },
                Message::Refresh => final(self)@ == old(self)@.refreshed() && r@
                    == final(self)@.fetch_of(),
                Message::LoadComplete(request, outcome) => final(self)@ == old(self)@.completed(
                    request,
                    outcome_view(outcome),
                ) && r@ == None::<(u64, Seq<char>)>,
                Message::Close => final(self)@ == old(self)@ && r@ == None::<(u64, Seq<char>)>,
            },
    {
        match message {
            Message::Navigate(input) => self.navigate(input),
            Message::UpdateUrl(text) => {
                self.url_input = text;
                Command::Nothing
            },
            Message::GoBack => self.go_back(),
            Message::GoForward => self.go_forward(),
            Message::Refresh => self.refresh(),
            Message::LoadComplete(request, outcome) => {
                self.complete(request, outcome);
                Command::Nothing
            },
            Message::Close => Command::Nothing,
        }
    }
}

/// The state after navigating to each of `inputs` in turn.
pub open spec fn navigated_all(v: BrowserView, inputs: Seq<Seq<char>>) -> BrowserView
    decreases inputs.len(),
{
    if inputs.len() == 0 {
        v
    } else {
        navigated_all(v, inputs.drop_last()).navigated(inputs.last())
    }
}

/// Whatever addresses are navigated to, the history stays non-empty, the index
/// stays inside it, and after at least one navigation the last entry is current.
pub proof fn navigation_keeps_history_valid(v: BrowserView, inputs: Seq<Seq<char>>)
    requires
        v.wf(),
    ensures
        navigated_all(v, inputs).wf(),
        inputs.len() > 0 ==> navigated_all(v, inputs).index == navigated_all(v, inputs).history.len()
            - 1,
    decreases inputs.len(),
{
    if inputs.len() > 0 {
        navigation_keeps_history_valid(v, inputs.drop_last());
    }
}

/// Going back from the first entry, or forward from the last, changes nothing.
pub proof fn moves_past_the_ends_change_nothing(v: BrowserView)
    requires
        v.wf(),
    ensures
        v.index == 0 ==> v.went_back() == v,
        v.index == v.history.len() - 1 ==> v.went_forward() == v,
{
}

/// Going back twice and then navigating drops the entries that were ahead of
/// the point reached and appends the new address, which becomes current.
pub proof fn navigation_after_back_drops_forward_entries(v: BrowserView, input: Seq<char>)
    requires
        v.wf(),
        v.index >= 2,
    ensures
        v.went_back().went_back().navigated(input).history == v.history.subrange(0, v.index - 1).push(
            normalized(input),
        ),
        v.went_back().went_back().navigated(input).index == v.index - 1,
{
}

/// A stale answer never overwrites a newer one: navigate to `x` (request one),
/// then to `y` (request two); once the answer to request two has been applied,
/// the late answer to request one changes nothing.
pub proof fn stale_answers_are_ignored(
    v: BrowserView,
    x: Seq<char>,
    y: Seq<char>,
    answer_x: Result<Seq<char>, Seq<char>>,
    answer_y: Result<Seq<char>, Seq<char>>,
)
    requires
        v.wf(),
    ensures
        ({
            let first = v.navigated(x).latest_request;
            let after = v.navigated(x).navigated(y);
            let second = after.latest_request;
            let answered = after.completed(second, answer_y);
            &&& first != second
            &&& answered.status == match answer_y {
                Ok(text) => StatusView::Loaded(text),
                Err(message) => StatusView::Errored(message),
            }
            &&& answered.completed(first, answer_x) == answered
        }),
{
}

/// Every request that the controller makes gets a number that differs from the
/// one before, so an answer to an earlier request is told apart from the latest.
pub proof fn requests_are_renumbered(v: BrowserView, input: Seq<char>)
    requires
        v.wf(),
    ensures
        v.navigated(input).latest_request != v.latest_request,
        v.refreshed().latest_request != v.latest_request,
        v.index > 0 ==> v.went_back().latest_request != v.latest_request,
        v.index + 1 < v.history.len() ==> v.went_forward().latest_request != v.latest_request,
{
}

} // verus!
