//! The package manager's state: the search, its results, and the operation in progress.
//!
//! Running the package tool is left to the caller: each update says which
//! operation to start, and its outcome comes back as a later message.

use vstd::prelude::*;
use vstd::string::*;

use crate::config::Config;

verus! {

/// One package as the package tool lists it.
#[derive(Debug, Clone)]
pub struct Package {
    pub name: String,
    pub version: String,
    pub description: String,
    pub installed: bool,
}

/// Requests from the user interface, and the outcomes of operations.
#[derive(Debug)]
pub enum Message {
    Search(String),
    Install(String),
    Remove(String),
    UpdateCache,
    SearchResults(Vec<Package>),
    OperationComplete(String),
    OperationError(String),
    Close,
}

/// The operation that the caller is asked to start.
#[derive(Debug, Clone, PartialEq, Eq)]
pub enum Task {
    Nothing,
    Search(String),
    Install(String),
    Remove(String),
    UpdateCache,
}

/// The mathematical value of a `Task`.
pub enum TaskView {
    Nothing,
    Search(Seq<char>),
    Install(Seq<char>),
    Remove(Seq<char>),
    UpdateCache,
}

impl View for Task {
    type V = TaskView;

    open spec fn view(&self) -> TaskView {
        match self {
            Task::Nothing => TaskView::Nothing,
            Task::Search(q) => TaskView::Search(q@),
            Task::Install(p) => TaskView::Install(p@),
            Task::Remove(p) => TaskView::Remove(p@),
            Task::UpdateCache => TaskView::UpdateCache,
        }
    }
}

/// The mathematical state of a `PackageManager`.
pub struct PackageManagerView {
    pub config: Config,
    pub search_query: Seq<char>,
    pub packages: Seq<Package>,
    pub loading: bool,
    pub message: Option<Seq<char>>,
    pub error: Option<Seq<char>>,
}

pub open spec fn option_view(o: Option<String>) -> Option<Seq<char>> {
    match o {
        Some(s) => Some(s@),
        None => None,
    }
}

impl PackageManagerView {
    /// The state once an operation has started, with its progress note.
    pub open spec fn started(self, note: Seq<char>) -> PackageManagerView {
        PackageManagerView { loading: true, error: None, message: Some(note), ..self }
    }

    /// After an operation finished, the current search is run again, if there is one.
    pub open spec fn search_again(self) -> TaskView {
        if self.search_query.len() > 0 {
            TaskView::Search(self.search_query)
        } else {
            TaskView::Nothing
        }
    }
}

/// The package manager's state.
pub struct PackageManager {
    config: Config,
    search_query: String,
    packages: Vec<Package>,
    loading: bool,
    message: Option<String>,
    error: Option<String>,
}

impl View for PackageManager {
    type V = PackageManagerView;

    closed spec fn view(&self) -> PackageManagerView {
        PackageManagerView {
            config: self.config,
            search_query: self.search_query@,
            packages: self.packages@,
            loading: self.loading,
            message: option_view(self.message),
            error: option_view(self.error),
        }
    }
}

impl PackageManager {
    /// An idle manager with no search and no results.
    pub fn new(config: Config) -> (r: PackageManager)
        ensures
            r@ == (PackageManagerView {
                config,
                search_query: Seq::empty(),
                packages: Seq::empty(),
                loading: false,
                message: None,
                error: None,
            }),
    {
        PackageManager {
            config,
            search_query: String::new(),
            packages: Vec::new(),
            loading: false,
            message: None,
            error: None,
        }
    }

    pub fn search_query(&self) -> (r: &String)
        ensures
            r@ == self@.search_query,
    {
        &self.search_query
    }

    pub fn packages(&self) -> (r: &Vec<Package>)
        ensures
            r@ == self@.packages,
    {
        &self.packages
    }

    pub fn is_loading(&self) -> (r: bool)
        ensures
            r == self@.loading,
    {
        self.loading
    }

    /// The progress or success note, if any.
    pub fn message(&self) -> (r: &Option<String>)
        ensures
            option_view(*r) == self@.message,
    {
        &self.message
    }

    pub fn error(&self) -> (r: &Option<String>)
        ensures
            option_view(*r) == self@.error,
    {
        &self.error
    }

    pub fn config(&self) -> (r: &Config)
        ensures
            *r == self@.config,
    {
        &self.config
    }

    /// Handles one message and says which operation to start, if any.
    pub fn update(&mut self, message: Message) -> (r: Task)
        ensures
            match message {
                Message::Search(q) => if q@.len() > 0 {
                    final(self)@ == (PackageManagerView {
                        search_query: q@,
                        loading: true,
                        error: None,
                        ..old(self)@
                    }) && r@ == TaskView::Search(q@)
                } else {
                    final(self)@ == (PackageManagerView {
                        search_query: q@,
                        packages: Seq::empty(),
                        ..old(self)@
                    }) && r@ == TaskView::Nothing
                },
                Message::Install(p) => final(self)@ == old(self)@.started(
                    "Installing "@ + p@ + "..."@,
                ) && r@ == TaskView::Install(p@),
                Message::Remove(p) => final(self)@ == old(self)@.started(
                    "Removing "@ + p@ + "..."@,
                ) && r@ == TaskView::Remove(p@),
                Message::UpdateCache => final(self)@ == old(self)@.started(
                    "Updating package cache..."@,
                ) && r@ == TaskView::UpdateCache,
                Message::SearchResults(ps) => final(self)@ == (PackageManagerView {
                    packages: ps@,
                    loading: false,
                    ..old(self)@
                }) && r@ == TaskView::Nothing,
                Message::OperationComplete(note) => final(self)@ == (PackageManagerView {
                    loading: false,
                    message: Some(note@),
                    error: None,
                    ..old(self)@
                }) && r@ == old(self)@.search_again(),
                Message::OperationError(e) => final(self)@ == (PackageManagerView {
                    loading: false,
                    message: None,
                    error: Some(e@),
                    ..old(self)@
                }) && r@ == TaskView::Nothing,
                Message::Close => final(self)@ == old(self)@ && r@ == TaskView::Nothing,
            },
    {
        match message {
            Message::Search(query) => {
                let nonempty = !query.as_str().is_empty();
                self.search_query = query.clone();
                if nonempty {
                    self.loading = true;
                    self.error = None;
                    Task::Search(query)
                } else {
                    self.packages = Vec::new();
                    Task::Nothing
                }
            },
            Message::SearchResults(packages) => {
                self.packages = packages;
                self.loading = false;
                Task::Nothing
            },
            Message::Install(name) => {
                self.loading = true;
                self.error = None;
                self.message = Some(
                    String::from_str("Installing ").concat(name.as_str()).concat("..."),
                );
                Task::Install(name)
            },
            Message::Remove(name) => {
                self.loading = true;
                self.error = None;
                self.message = Some(
                    String::from_str("Removing ").concat(name.as_str()).concat("..."),
                );
                Task::Remove(name)
            },
            Message::UpdateCache => {
                self.loading = true;
                self.error = None;
                self.message = Some(String::from_str("Updating package cache..."));
                Task::UpdateCache
            },
            Message::OperationComplete(note) => {
                self.loading = false;
                self.message = Some(note);
                self.error = None;
                if !self.search_query.as_str().is_empty() {
                    Task::Search(self.search_query.clone())
                } else {
                    Task::Nothing
                }
            },
            Message::OperationError(e) => {
                self.loading = false;
                self.error = Some(e);
                self.message = None;
                Task::Nothing
            },
            Message::Close => Task::Nothing,
        }
    }
}

} // verus!
