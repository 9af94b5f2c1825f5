use vstd::prelude::*;

use crate::config::{first_missing, Config, ConfigError, ConfigView};

verus! {

/// The steps of one login-and-reboot run, in the order in which they come.
#[derive(Clone, Copy, Debug, PartialEq, Eq, Structural)]
pub enum Step {
    /// Start a headless browser that ignores certificate errors.
    Launch,
    /// Open a tab, go to the gateway address and wait for the page.
    Navigate,
    /// Focus the username field, type the username, press Enter.
    EnterUsername,
    /// Focus the password field, type the password, press Enter.
    EnterPassword,
    /// Wait for the navigation that the login causes.
    ConfirmLogin,
    /// Let the page settle for a fixed time.
    Settle,
    /// Click the reboot icon.
    Reboot,
}

impl Step {
    /// The step's place in the run, counted from one.
    pub open spec fn spec_number(self) -> nat {
        match self {
            Step::Launch => 1,
            Step::Navigate => 2,
            Step::EnterUsername => 3,
            Step::EnterPassword => 4,
            Step::ConfirmLogin => 5,
            Step::Settle => 6,
            Step::Reboot => 7,
        }
    }

    pub fn number(&self) -> (r: u8)
        ensures
            r as nat == self.spec_number(),
    {
        match self {
            Step::Launch => 1,
            Step::Navigate => 2,
            Step::EnterUsername => 3,
            Step::EnterPassword => 4,
            Step::ConfirmLogin => 5,
            Step::Settle => 6,
            Step::Reboot => 7,
        }
    }
}

/// One thing that the browser driver is asked to do.
#[derive(Debug, PartialEq, Eq)]
pub enum Action {
    /// Start a headless browser with certificate errors ignored.
    LaunchBrowser,
    /// Open a new tab in the browser.
    OpenTab,
    /// Go to the address.
    NavigateTo(String),
    /// Block until the tab has finished navigating.
    WaitUntilNavigated,
    /// Wait until an element matching the CSS selector is in the page, then
    /// click it.
    ClickElement(String),
    /// Type the text into the focused element.
    TypeText(String),
    /// Press the named key.
    PressKey(String),
    /// Sleep for the number of seconds, unconditionally.
    Pause(u64),
}

pub enum ActionView {
    LaunchBrowser,
    OpenTab,
    NavigateTo(Seq<char>),
    WaitUntilNavigated,
    ClickElement(Seq<char>),
    TypeText(Seq<char>),
    PressKey(Seq<char>),
    Pause(nat),
}

impl View for Action {
    type V = ActionView;

    open spec fn view(&self) -> ActionView {
        match self {
            Action::LaunchBrowser => ActionView::LaunchBrowser,
            Action::OpenTab => ActionView::OpenTab,
            Action::NavigateTo(u) => ActionView::NavigateTo(u@),
            Action::WaitUntilNavigated => ActionView::WaitUntilNavigated,
            Action::ClickElement(s) => ActionView::ClickElement(s@),
            Action::TypeText(t) => ActionView::TypeText(t@),
            Action::PressKey(k) => ActionView::PressKey(k@),
            Action::Pause(n) => ActionView::Pause(*n as nat),
        }
    }
}

/// The selector of the login form's username field.
pub open spec fn username_selector() -> Seq<char> {
    "#loginform-username"@
}

/// The selector of the login form's password field.
pub open spec fn password_selector() -> Seq<char> {
    "#loginform-password"@
}

/// The selector of the reboot icon on the page shown after login.
pub open spec fn reboot_selector() -> Seq<char> {
    ".ubnt-icon--refresh"@
}

/// The key pressed after each credential.
pub open spec fn submit_key() -> Seq<char> {
    "Enter"@
}

/// Seconds to wait after login before the reboot icon is looked for.
pub const SETTLE_SECONDS: u64 = 3;

/// The number of actions in a run.
pub const PLAN_LEN: usize = 13;

/// The actions of a run with the given settings, in order.
pub open spec fn plan(c: ConfigView) -> Seq<ActionView> {
    seq![
        ActionView::LaunchBrowser,
        ActionView::OpenTab,
        ActionView::NavigateTo(c.gateway_url),
        ActionView::WaitUntilNavigated,
        ActionView::ClickElement(username_selector()),
        ActionView::TypeText(c.username),
        ActionView::PressKey(submit_key()),
        ActionView::ClickElement(password_selector()),
        ActionView::TypeText(c.password),
        ActionView::PressKey(submit_key()),
        ActionView::WaitUntilNavigated,
        ActionView::Pause(SETTLE_SECONDS as nat),
        ActionView::ClickElement(reboot_selector()),
    ]
}

/// The step that the action at index `i` of the plan belongs to.
pub open spec fn step_of(i: int) -> Step {
    if i <= 0 {
        Step::Launch
    } else if i <= 3 {
        Step::Navigate
    } else if i <= 6 {
        Step::EnterUsername
    } else if i <= 9 {
        Step::EnterPassword
    } else if i == 10 {
        Step::ConfirmLogin
    } else if i == 11 {
        Step::Settle
    } else {
        Step::Reboot
    }
}

/// Builds the action at index `i` of the plan.
pub fn action_at(c: &Config, i: usize) -> (r: Action)
    requires
        i < PLAN_LEN,
    ensures
        r@ == plan(c@)[i as int],
{
    if i == 0 {
        Action::LaunchBrowser
    } else if i == 1 {
        Action::OpenTab
    } else if i == 2 {
        Action::NavigateTo(String::from_str(c.gateway_url()))
    } else if i == 3 || i == 10 {
        Action::WaitUntilNavigated
    } else if i == 4 {
        Action::ClickElement(String::from_str("#loginform-username"))
    } else if i == 5 {
        Action::TypeText(String::from_str(c.username()))
    } else if i == 6 || i == 9 {
        Action::PressKey(String::from_str("Enter"))
    } else if i == 7 {
        Action::ClickElement(String::from_str("#loginform-password"))
    } else if i == 8 {
        Action::TypeText(String::from_str(c.password()))
    } else if i == 11 {
        Action::Pause(SETTLE_SECONDS)
    } else {
        Action::ClickElement(String::from_str(".ubnt-icon--refresh"))
    }
}

pub fn step_at(i: usize) -> (r: Step)
    ensures
        r == step_of(i as int),
{
    if i == 0 {
        Step::Launch
    } else if i <= 3 {
        Step::Navigate
    } else if i <= 6 {
        Step::EnterUsername
    } else if i <= 9 {
        Step::EnterPassword
    } else if i == 10 {
        Step::ConfirmLogin
    } else if i == 11 {
        Step::Settle
    } else {
        Step::Reboot
    }
}

/// What the driver reports after it has tried an action.
#[derive(Debug, PartialEq, Eq)]
pub enum Event {
    /// The action completed.
    Done,
    /// The action waited for something that did not come in time.
    TimedOut(String),
    /// The action failed otherwise; the text describes how.
    Failed(String),
}

pub enum EventView {
    Done,
    TimedOut(Seq<char>),
    Failed(Seq<char>),
}

impl View for Event {
    type V = EventView;

    open spec fn view(&self) -> EventView {
        match self {
            Event::Done => EventView::Done,
            Event::TimedOut(d) => EventView::TimedOut(d@),
            Event::Failed(d) => EventView::Failed(d@),
        }
    }
}

/// The kinds of failure of a run.
#[derive(Clone, Copy, Debug, PartialEq, Eq, Structural)]
pub enum ErrorKind {
    /// The browser could not be started.
    Launch,
    /// The gateway page could not be reached.
    Navigation,
    /// An element never appeared in the page.
    ElementNotFound,
    /// A navigation never completed.
    Timeout,
    /// The browser failed in some other way.
    Protocol,
}

/// The kind of failure when `action`, which belongs to `step`, did not
/// complete; `timed_out` tells whether it waited in vain.
pub open spec fn error_kind(action: ActionView, step: Step, timed_out: bool) -> ErrorKind {
    if action is LaunchBrowser {
        ErrorKind::Launch
    } else if timed_out {
        if action is ClickElement {
            ErrorKind::ElementNotFound
        } else {
            ErrorKind::Timeout
        }
    } else if step == Step::Navigate {
        ErrorKind::Navigation
    } else {
        ErrorKind::Protocol
    }
}

/// Which step of a run failed, at which action, and why.
#[derive(Debug, PartialEq, Eq)]
pub struct Failure {
    pub step: Step,
    pub action: Action,
    pub kind: ErrorKind,
    pub detail: String,
}

pub struct FailureView {
    pub step: Step,
    pub action: ActionView,
    pub kind: ErrorKind,
    pub detail: Seq<char>,
}

impl View for Failure {
    type V = FailureView;

    open spec fn view(&self) -> FailureView {
        FailureView {
            step: self.step,
            action: self.action@,
            kind: self.kind,
            detail: self.detail@,
        }
    }
}

/// Where a run stands.
#[derive(Debug, PartialEq, Eq)]
pub enum Status {
    Running,
    Succeeded,
    Failed(Failure),
}

pub enum StatusView {
    Running,
    Succeeded,
    Failed(FailureView),
}

impl View for Status {
    type V = StatusView;

    open spec fn view(&self) -> StatusView {
        match self {
            Status::Running => StatusView::Running,
            Status::Succeeded => StatusView::Succeeded,
            Status::Failed(f) => StatusView::Failed(f@),
        }
    }
}

/// A run: its settings, the index in the plan of the next action, and where
/// it stands.
pub struct SessionView {
    pub config: ConfigView,
    pub next: nat,
    pub status: StatusView,
}

/// The state of a run before its first action.
pub open spec fn initial(c: ConfigView) -> SessionView {
    SessionView { config: c, next: 0, status: StatusView::Running }
}

/// The action that a run asks for next, if it is still running.
pub open spec fn pending(s: SessionView) -> Option<ActionView> {
    if s.status is Running && s.next < plan(s.config).len() {
        Some(plan(s.config)[s.next as int])
    } else {
        None
    }
}

/// The run after the driver has reported `e` on the pending action. A run
/// that has ended stays as it is.
pub open spec fn advance(s: SessionView, e: EventView) -> SessionView {
    if pending(s) is None {
        s
    } else {
        match e {
            EventView::Done => SessionView {
                config: s.config,
                next: s.next + 1,
                status: if s.next + 1 == plan(s.config).len() {
                    StatusView::Succeeded
                } else {
                    StatusView::Running
                },
            },
            EventView::TimedOut(d) => SessionView {
                config: s.config,
                next: s.next,
                status: StatusView::Failed(
                    FailureView {
                        step: step_of(s.next as int),
                        action: plan(s.config)[s.next as int],
                        kind: error_kind(plan(s.config)[s.next as int], step_of(s.next as int), true),
                        detail: d,
                    },
                ),
            },
            EventView::Failed(d) => SessionView {
                config: s.config,
                next: s.next,
                status: StatusView::Failed(
                    FailureView {
                        step: step_of(s.next as int),
                        action: plan(s.config)[s.next as int],
                        kind: error_kind(plan(s.config)[s.next as int], step_of(s.next as int), false),
                        detail: d,
                    },
                ),
            },
        }
    }
}

/// The run after the driver has reported each of `events` in turn.
pub open spec fn run(s: SessionView, events: Seq<EventView>) -> SessionView
    decreases events.len(),
{
    if events.len() == 0 {
        s
    } else {
        run(advance(s, events[0]), events.drop_first())
    }
}

/// The actions that a run hands to the driver while `events` are reported,
/// one for each event until the run ends.
pub open spec fn handed_out(s: SessionView, events: Seq<EventView>) -> Seq<ActionView>
    decreases events.len(),
{
    if events.len() == 0 || pending(s) is None {
        Seq::empty()
    } else {
        seq![pending(s)->0] + handed_out(advance(s, events[0]), events.drop_first())
    }
}

/// One login-and-reboot run, stepped through by a browser driver: the driver
/// asks for the next action, performs it, and reports the outcome. The run
/// stops at the first action that fails, naming its step.
pub struct Session {
    config: Config,
    next: usize,
    status: Status,
}

impl View for Session {
    type V = SessionView;

    closed spec fn view(&self) -> SessionView {
        SessionView { config: self.config@, next: self.next as nat, status: self.status@ }
    }
}

impl Session {
    #[verifier::type_invariant]
    spec fn inv(self) -> bool {
        &&& self.next <= PLAN_LEN
        &&& (self.status is Running ==> self.next < PLAN_LEN)
    }

    /// A run with the given settings, before its first action. Nothing but
    /// the settings goes into it.
    pub fn new(config: Config) -> (r: Session)
        ensures
            r@ == initial(config@),
    {
        Session { config, next: 0, status: Status::Running }
    }

    /// A run from the settings as they were found, `None` standing for one
    /// that is not set. When a setting is absent or empty no run exists, so
    /// no browser is started: the first such setting is named instead.
    pub fn start(
        username: Option<String>,
        password: Option<String>,
        gateway_url: Option<String>,
    ) -> (r: Result<Session, ConfigError>)
        ensures
            first_missing(username, password, gateway_url) matches Some(m) ==> r == Err::<
                Session,
                ConfigError,
            >(ConfigError::Missing(m)),
            first_missing(username, password, gateway_url) is None ==> (r matches Ok(s) && s@
                == initial(
                ConfigView {
                    username: username->0@,
                    password: password->0@,
                    gateway_url: gateway_url->0@,
                },
            )),
    {
        match Config::from_values(username, password, gateway_url) {
            Ok(c) => Ok(Session::new(c)),
            Err(e) => Err(e),
        }
    }

    pub fn config(&self) -> (r: &Config)
        ensures
            r@ == self@.config,
    {
        &self.config
    }

    /// Whether the run has neither succeeded nor failed yet.
    pub fn is_running(&self) -> (r: bool)
        ensures
            r == (self@.status is Running),
    {
        match self.status {
            Status::Running => true,
            _ => false,
        }
    }

    /// The step of the pending action, or of the action that failed; the
    /// last step once the run has succeeded.
    pub fn current_step(&self) -> (r: Step)
        ensures
            r == step_of(self@.next as int),
    {
        step_at(self.next)
    }

    /// The action to perform next; `None` once the run has ended.
    pub fn next_action(&self) -> (r: Option<Action>)
        ensures
            r is None <==> pending(self@) is None,
            r matches Some(a) ==> pending(self@) == Some(a@),
    {
        proof {
            use_type_invariant(self);
        }
        match self.status {
            Status::Running => Some(action_at(&self.config, self.next)),
            _ => None,
        }
    }

    /// Takes the driver's report on the pending action. A report on a run
    /// that has ended changes nothing.
    pub fn report(&mut self, event: Event)
        ensures
            final(self)@ == advance(old(self)@, event@),
    {
        proof {
            use_type_invariant(&*self);
        }
        let running = self.is_running();
        if !running {
            return;
        }
        let i = self.next;
        match event {
            Event::Done => {
                if i + 1 == PLAN_LEN {
                    self.status = Status::Succeeded;
                    self.next = i + 1;
                } else {
                    self.next = i + 1;
                }
            },
            Event::TimedOut(d) => {
                let action = action_at(&self.config, i);
                let kind = classify(&action, step_at(i), true);
                self.status = Status::Failed(
                    Failure { step: step_at(i), action, kind, detail: d },
                );
            },
            Event::Failed(d) => {
                let action = action_at(&self.config, i);
                let kind = classify(&action, step_at(i), false);
                self.status = Status::Failed(
                    Failure { step: step_at(i), action, kind, detail: d },
                );
            },
        }
    }

    /// The outcome of the run: `None` while it runs, else success or the
    /// failure that ended it.
    pub fn finish(self) -> (r: Option<Result<(), Failure>>)
        ensures
            (self@.status is Running) <==> r is None,
            (self@.status is Succeeded) <==> r == Some(Ok::<(), Failure>(())),
            self@.status matches StatusView::Failed(f) ==> (r matches Some(Err(g)) && g@ == f),
    {
        match self.status {
            Status::Running => None,
            Status::Succeeded => Some(Ok(())),
            Status::Failed(f) => Some(Err(f)),
        }
    }
}

fn classify(action: &Action, step: Step, timed_out: bool) -> (r: ErrorKind)
    ensures
        r == error_kind(action@, step, timed_out),
{
    match action {
        Action::LaunchBrowser => ErrorKind::Launch,
        Action::ClickElement(_) if timed_out => ErrorKind::ElementNotFound,
        _ => {
            if timed_out {
                ErrorKind::Timeout
            } else if step == Step::Navigate {
                ErrorKind::Navigation
            } else {
                ErrorKind::Protocol
            }
        },
    }
}

} // verus!
