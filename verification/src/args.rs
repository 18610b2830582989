//! The parsed command line: where to send a request and what to publish.

use vstd::prelude::*;

verus! {

/// Everything the user asked for in one invocation.
#[derive(Debug)]
pub struct PPCArgs {
    /// Host of the Password Pusher instance, as the user typed it.
    pub instance_url: String,
    /// Protocol used to reach the instance.
    pub instance_protocol: InstanceProtocol,
    /// Email for authenticated requests.
    pub email: Option<String>,
    /// Token for authenticated requests.
    pub token: Option<String>,
    /// Whether output is wanted as JSON rather than as text for humans.
    pub json_output: bool,
    /// How much is logged.
    pub log_verbosity: LogVerbosity,
    /// Top-level action to perform.
    pub action: PPCAction,
}

/// The action to perform on an object.
#[derive(Debug)]
pub enum PPCAction {
    /// Publish a new secret.
    Push(PPCObject),
    /// Expire an existing secret.
    Expire(PPCObject),
}

/// The kind of object an action works on.
#[derive(Debug)]
pub enum PPCObject {
    /// Text-based secrets, typically passwords.
    Text(PPCText),
    /// Files.
    File(PPCFile),
    /// URLs.
    URL(PPCURL),
}

/// A text secret to publish, with the options the user chose. An option left
/// at `None` is not sent, so that the instance applies its own default.
#[derive(Debug)]
pub struct PPCText {
    /// The secret text to share.
    pub password_payload: String,
    /// Passphrase that recipients must enter to view the secret.
    pub passphrase: Option<String>,
    /// Note for the secret, visible only to its creator.
    pub note: Option<String>,
    /// Number of days after which the secret expires.
    pub expire_after_days: Option<usize>,
    /// Number of views after which the secret expires.
    pub expire_after_views: Option<usize>,
    /// Whether viewers may delete the secret once retrieved.
    pub deletable_by_viewer: Option<bool>,
    /// Whether viewers pass an extra click-through step before the reveal.
    pub retrieval_step: Option<bool>,
}

/// The pair of command-line switches behind [`PPCText::deletable_by_viewer`].
#[derive(Debug)]
pub struct DeletableByViewerGroup {
    /// `true` when `--is-deletable-by-viewer` was given.
    pub is_deletable_by_viewer: bool,
    /// `false` when `--not-deletable-by-viewer` was given.
    pub not_deletable_by_viewer: bool,
}

/// The pair of command-line switches behind [`PPCText::retrieval_step`].
#[derive(Debug)]
pub struct RetrievalStepGroup {
    /// `true` when `--with-retrieval-step` was given.
    pub with_retrieval_step: bool,
    /// `false` when `--without-retrieval-step` was given.
    pub without_retrieval_step: bool,
}

/// A file to publish. Carries no options yet.
#[derive(Debug)]
pub struct PPCFile {}

/// A URL to publish. Carries no options yet.
#[derive(Debug)]
pub struct PPCURL {}

/// The protocols an instance can be reached by.
#[derive(Debug, Copy, Clone)]
pub enum InstanceProtocol {
    /// API calls use `http://`.
    Http,
    /// API calls use `https://`.
    Https,
}

/// How much the program logs, from least to most.
#[derive(Debug, Copy, Clone)]
pub enum LogVerbosity {
    /// Only fatal messages.
    Error,
    /// Unexpected states and responses too.
    Warn,
    /// General information about the run too.
    Info,
    /// Program flow and internal data too.
    Debug,
    /// Everything.
    Trace,
}

/// The text of a string that may be absent.
pub open spec fn text_of(string: Option<String>) -> Option<Seq<char>> {
    match string {
        Some(string) => Some(string@),
        None => None,
    }
}

/// A [`PPCArgs`] as a mathematical value.
pub ghost struct PPCArgsView {
    pub instance_url: Seq<char>,
    pub instance_protocol: InstanceProtocol,
    pub email: Option<Seq<char>>,
    pub token: Option<Seq<char>>,
    pub json_output: bool,
    pub log_verbosity: LogVerbosity,
    pub action: PPCActionView,
}

/// A [`PPCAction`] as a mathematical value.
pub ghost enum PPCActionView {
    Push(PPCObjectView),
    Expire(PPCObjectView),
}

/// A [`PPCObject`] as a mathematical value.
pub ghost enum PPCObjectView {
    Text(PPCTextView),
    File,
    URL,
}

/// A [`PPCText`] as a mathematical value.
pub ghost struct PPCTextView {
    pub password_payload: Seq<char>,
    pub passphrase: Option<Seq<char>>,
    pub note: Option<Seq<char>>,
    pub expire_after_days: Option<usize>,
    pub expire_after_views: Option<usize>,
    pub deletable_by_viewer: Option<bool>,
    pub retrieval_step: Option<bool>,
}

impl View for PPCText {
    type V = PPCTextView;

    open spec fn view(&self) -> PPCTextView {
        PPCTextView {
            password_payload: self.password_payload@,
            passphrase: text_of(self.passphrase),
            note: text_of(self.note),
            expire_after_days: self.expire_after_days,
            expire_after_views: self.expire_after_views,
            deletable_by_viewer: self.deletable_by_viewer,
            retrieval_step: self.retrieval_step,
        }
    }
}

impl View for PPCObject {
    type V = PPCObjectView;

    open spec fn view(&self) -> PPCObjectView {
        match self {
            PPCObject::Text(text) => PPCObjectView::Text(text@),
            PPCObject::File(_) => PPCObjectView::File,
            PPCObject::URL(_) => PPCObjectView::URL,
        }
    }
}

impl View for PPCAction {
    type V = PPCActionView;

    open spec fn view(&self) -> PPCActionView {
        match self {
            PPCAction::Push(object) => PPCActionView::Push(object@),
            PPCAction::Expire(object) => PPCActionView::Expire(object@),
        }
    }
}

impl View for PPCArgs {
    type V = PPCArgsView;

    open spec fn view(&self) -> PPCArgsView {
        PPCArgsView {
            instance_url: self.instance_url@,
            instance_protocol: self.instance_protocol,
            email: text_of(self.email),
            token: text_of(self.token),
            json_output: self.json_output,
            log_verbosity: self.log_verbosity,
            action: self.action@,
        }
    }
}

impl PPCArgsView {
    /// Email and token come together: both are given or neither is.
    pub open spec fn wf(&self) -> bool {
        self.email is Some <==> self.token is Some
    }
}

impl PPCArgs {
    /// Tells whether email and token are both given or both absent.
    pub fn is_wf(&self) -> (paired: bool)
        ensures
            paired == self@.wf(),
    {
        self.email.is_some() == self.token.is_some()
    }
}

impl InstanceProtocol {
    /// The scheme that starts a URL of this protocol.
    pub open spec fn scheme(&self) -> Seq<char> {
        match self {
            InstanceProtocol::Http => "http"@,
            InstanceProtocol::Https => "https"@,
        }
    }

    /// The protocol's name as it stands in a URL: `http` or `https`.
    pub fn to_string(&self) -> (text: String)
        ensures
            text@ == self.scheme(),
    {
        match self {
            InstanceProtocol::Http => "http".to_owned(),
            InstanceProtocol::Https => "https".to_owned(),
        }
    }
}

impl LogVerbosity {
    /// The number of the level: 0 for `Error` up to 4 for `Trace`.
    pub open spec fn rank(&self) -> nat {
        match self {
            LogVerbosity::Error => 0,
            LogVerbosity::Warn => 1,
            LogVerbosity::Info => 2,
            LogVerbosity::Debug => 3,
            LogVerbosity::Trace => 4,
        }
    }

    /// The level as the number a logging backend takes.
    pub fn level(&self) -> (level: usize)
        ensures
            level == self.rank(),
    {
        match self {
            LogVerbosity::Error => 0,
            LogVerbosity::Warn => 1,
            LogVerbosity::Info => 2,
            LogVerbosity::Debug => 3,
            LogVerbosity::Trace => 4,
        }
    }
}

impl DeletableByViewerGroup {
    /// `--is-deletable-by-viewer` was given.
    pub open spec fn allows(&self) -> bool {
        self.is_deletable_by_viewer
    }

    /// `--not-deletable-by-viewer` was given.
    pub open spec fn forbids(&self) -> bool {
        !self.not_deletable_by_viewer
    }

    /// The switches exclude each other: no invocation gives both.
    pub open spec fn wf(&self) -> bool {
        !(self.allows() && self.forbids())
    }

    /// What the switches say: `Some(true)` for `--is-deletable-by-viewer`,
    /// `Some(false)` for `--not-deletable-by-viewer`, `None` for neither.
    pub open spec fn choice(&self) -> Option<bool> {
        if self.allows() {
            Some(true)
        } else if self.forbids() {
            Some(false)
        } else {
            None
        }
    }

    /// Tells whether at most one of the switches was given.
    pub fn is_wf(&self) -> (fine: bool)
        ensures
            fine == self.wf(),
    {
        !(self.is_deletable_by_viewer && !self.not_deletable_by_viewer)
    }

    /// Resolves the two switches into the one three-valued option.
    pub fn resolve(&self) -> (choice: Option<bool>)
        requires
            self.wf(),
        ensures
            choice == self.choice(),
    {
        if self.is_deletable_by_viewer {
            Some(true)
        } else if !self.not_deletable_by_viewer {
            Some(false)
        } else {
            None
        }
    }
}

impl RetrievalStepGroup {
    /// `--with-retrieval-step` was given.
    pub open spec fn adds(&self) -> bool {
        self.with_retrieval_step
    }

    /// `--without-retrieval-step` was given.
    pub open spec fn omits(&self) -> bool {
        !self.without_retrieval_step
    }

    /// The switches exclude each other: no invocation gives both.
    pub open spec fn wf(&self) -> bool {
        !(self.adds() && self.omits())
    }

    /// What the switches say: `Some(true)` for `--with-retrieval-step`,
    /// `Some(false)` for `--without-retrieval-step`, `None` for neither.
    pub open spec fn choice(&self) -> Option<bool> {
        if self.adds() {
            Some(true)
        } else if self.omits() {
            Some(false)
        } else {
            None
        }
    }

    /// Tells whether at most one of the switches was given.
    pub fn is_wf(&self) -> (fine: bool)
        ensures
            fine == self.wf(),
    {
        !(self.with_retrieval_step && !self.without_retrieval_step)
    }

    /// Resolves the two switches into the one three-valued option.
    pub fn resolve(&self) -> (choice: Option<bool>)
        requires
            self.wf(),
        ensures
            choice == self.choice(),
    {
        if self.with_retrieval_step {
            Some(true)
        } else if !self.without_retrieval_step {
            Some(false)
        } else {
            None
        }
    }
}

} // verus!
