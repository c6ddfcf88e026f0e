//! Data model of the scheduling engine: tasks, their lifecycle status,
//! repeat policy, and the audit record of executions.
//!
//! Absolute instants are seconds since the Unix epoch (UTC); the IANA
//! timezone name on a task is used only for recurrence arithmetic.
//! Each enum has a canonical lowercase label and a case-insensitive
//! parser, so that the stored string form cannot drift between the
//! write and read paths.

use vstd::prelude::*;
use vstd::string::StringExecFns;

use crate::text::ascii_lower_char;
use crate::text::ascii_lower_seq;
use crate::text::eq_ignore_ascii_case;
use crate::text::to_char_vec;

verus! {

/// Latest instant the engine schedules for: 9999-12-31T23:59:59 UTC,
/// in seconds since the Unix epoch.
pub const MAX_INSTANT: i64 = 253402300799;

/// Which browser a task drives.
#[derive(Clone, Copy, Debug, PartialEq, Eq, Structural)]
pub enum BrowserType {
    Chrome,
    Firefox,
    Edge,
    Safari,
    Brave,
    Opera,
}

/// Lifecycle status of a task.
#[derive(Clone, Copy, Debug, PartialEq, Eq, Structural)]
pub enum TaskStatus {
    Active,
    Completed,
    Failed,
}

/// How often a repeating task recurs.
#[derive(Clone, Copy, Debug, PartialEq, Eq, Structural)]
pub enum RepeatInterval {
    Daily,
    Weekly,
    Monthly,
}

/// The two actions the engine performs on a task.
#[derive(Clone, Copy, Debug, PartialEq, Eq, Structural)]
pub enum ExecutionAction {
    Open,
    Close,
}

/// Outcome recorded for one execution attempt.
#[derive(Clone, Copy, Debug, PartialEq, Eq, Structural)]
pub enum ExecutionStatus {
    Success,
    Failed,
}

/// Repeat policy of a task: the interval, and an optional continuation
/// limit (a maximum number of open executions, or an end date).
#[derive(Clone, Copy, Debug, PartialEq, Eq, Structural)]
pub struct RepeatConfig {
    pub interval: RepeatInterval,
    pub end_after: Option<i32>,
    pub end_date: Option<i64>,
}

/// The unit of scheduling: when (and how often) to open a browser,
/// and optionally when to close it again.
///
/// `next_open_execution` and `next_close_execution` are the engine's
/// cursors: the next due instant for each action, tracked
/// independently.  `execution_count` counts successful open actions
/// and drives the `end_after` continuation limit.
#[derive(Clone, Debug)]
pub struct Task {
    pub id: Option<i64>,
    pub name: String,
    pub browser: BrowserType,
    pub browser_profile: Option<String>,
    pub url: Option<String>,
    /// Must be explicitly true before a close action without a URL may
    /// close every instance of the browser.
    pub allow_close_all: bool,
    pub start_time: i64,
    pub close_time: Option<i64>,
    pub timezone: String,
    pub repeat_config: Option<RepeatConfig>,
    pub status: TaskStatus,
    pub created_at: i64,
    pub updated_at: i64,
    pub last_open_execution: Option<i64>,
    pub last_close_execution: Option<i64>,
    pub next_open_execution: Option<i64>,
    pub next_close_execution: Option<i64>,
    pub execution_count: i64,
}

impl Task {
    /// Scheduled times lie in the supported instant range and the open
    /// count is a count.
    pub open spec fn wf(self) -> bool {
        &&& 0 <= self.start_time <= MAX_INSTANT
        &&& self.close_time matches Some(ct) ==> 0 <= ct <= MAX_INSTANT
        &&& 0 <= self.execution_count
    }

    /// A fresh one-shot task, active and due to open at `start_time`.
    pub fn new(name: String, browser: BrowserType, start_time: i64, timezone: String) -> (r: Task)
        ensures
            r.id is None,
            r.name == name,
            r.browser == browser,
            r.browser_profile is None,
            r.url is None,
            !r.allow_close_all,
            r.start_time == start_time,
            r.close_time is None,
            r.timezone == timezone,
            r.repeat_config is None,
            r.status == TaskStatus::Active,
            r.created_at == r.updated_at,
            r.last_open_execution is None,
            r.last_close_execution is None,
            r.next_open_execution == Some(start_time),
            r.next_close_execution is None,
            r.execution_count == 0,
    {
        let now = crate::tz::now_seconds();
        Task {
            id: None,
            name,
            browser,
            browser_profile: None,
            url: None,
            allow_close_all: false,
            start_time,
            close_time: None,
            timezone,
            repeat_config: None,
            status: TaskStatus::Active,
            created_at: now,
            updated_at: now,
            last_open_execution: None,
            last_close_execution: None,
            next_open_execution: Some(start_time),
            next_close_execution: None,
            execution_count: 0,
        }
    }
}

/// One row of the append-only execution audit log.
#[derive(Clone, Debug)]
pub struct TaskExecution {
    pub id: i64,
    pub task_id: i64,
    pub executed_at: i64,
    pub action: ExecutionAction,
    pub status: ExecutionStatus,
    pub error_message: Option<String>,
}

impl BrowserType {
    /// The canonical lowercase label of this browser.
    pub open spec fn label_spec(self) -> Seq<char> {
        match self {
            BrowserType::Chrome => "chrome"@,
            BrowserType::Firefox => "firefox"@,
            BrowserType::Edge => "edge"@,
            BrowserType::Safari => "safari"@,
            BrowserType::Brave => "brave"@,
            BrowserType::Opera => "opera"@,
        }
    }

    /// The canonical lowercase label of this browser.
    pub fn label(&self) -> (r: String)
        ensures
            r@ == self.label_spec(),
    {
        match self {
            BrowserType::Chrome => String::from_str("chrome"),
            BrowserType::Firefox => String::from_str("firefox"),
            BrowserType::Edge => String::from_str("edge"),
            BrowserType::Safari => String::from_str("safari"),
            BrowserType::Brave => String::from_str("brave"),
            BrowserType::Opera => String::from_str("opera"),
        }
    }

    /// Which browser a string names, compared case-insensitively.
    pub open spec fn from_str_spec(s: Seq<char>) -> Option<BrowserType> {
        if ascii_lower_seq(s) == ascii_lower_seq("chrome"@) {
            Some(BrowserType::Chrome)
        } else if ascii_lower_seq(s) == ascii_lower_seq("firefox"@) {
            Some(BrowserType::Firefox)
        } else if ascii_lower_seq(s) == ascii_lower_seq("edge"@) {
            Some(BrowserType::Edge)
        } else if ascii_lower_seq(s) == ascii_lower_seq("safari"@) {
            Some(BrowserType::Safari)
        } else if ascii_lower_seq(s) == ascii_lower_seq("brave"@) {
            Some(BrowserType::Brave)
        } else if ascii_lower_seq(s) == ascii_lower_seq("opera"@) {
            Some(BrowserType::Opera)
        } else {
            None
        }
    }

    /// Parse a browser label, case-insensitively.
    pub fn from_str(s: &str) -> (r: Result<BrowserType, String>)
        ensures
            Self::from_str_spec(s@) matches Some(b) ==> r == Ok::<BrowserType, String>(b),
            Self::from_str_spec(s@) is None ==> r is Err,
    {
        let v = to_char_vec(s);
        if eq_ignore_ascii_case(&v, &to_char_vec("chrome")) {
            Ok(BrowserType::Chrome)
        } else if eq_ignore_ascii_case(&v, &to_char_vec("firefox")) {
            Ok(BrowserType::Firefox)
        } else if eq_ignore_ascii_case(&v, &to_char_vec("edge")) {
            Ok(BrowserType::Edge)
        } else if eq_ignore_ascii_case(&v, &to_char_vec("safari")) {
            Ok(BrowserType::Safari)
        } else if eq_ignore_ascii_case(&v, &to_char_vec("brave")) {
            Ok(BrowserType::Brave)
        } else if eq_ignore_ascii_case(&v, &to_char_vec("opera")) {
            Ok(BrowserType::Opera)
        } else {
            let mut m = String::from_str("Unknown browser type: ");
            m.append(s);
            Err(m)
        }
    }
}

impl TaskStatus {
    /// The canonical lowercase label of this status.
    pub open spec fn label_spec(self) -> Seq<char> {
        match self {
            TaskStatus::Active => "active"@,
            TaskStatus::Completed => "completed"@,
            TaskStatus::Failed => "failed"@,
        }
    }

    /// The canonical lowercase label of this status.
    pub fn label(&self) -> (r: String)
        ensures
            r@ == self.label_spec(),
    {
        match self {
            TaskStatus::Active => String::from_str("active"),
            TaskStatus::Completed => String::from_str("completed"),
            TaskStatus::Failed => String::from_str("failed"),
        }
    }

    /// Which status a string names, compared case-insensitively.
    pub open spec fn from_str_spec(s: Seq<char>) -> Option<TaskStatus> {
        if ascii_lower_seq(s) == ascii_lower_seq("active"@) {
            Some(TaskStatus::Active)
        } else if ascii_lower_seq(s) == ascii_lower_seq("completed"@) {
            Some(TaskStatus::Completed)
        } else if ascii_lower_seq(s) == ascii_lower_seq("failed"@) {
            Some(TaskStatus::Failed)
        } else {
            None
        }
    }

    /// Parse a status label, case-insensitively.
    pub fn from_str(s: &str) -> (r: Result<TaskStatus, String>)
        ensures
            Self::from_str_spec(s@) matches Some(v) ==> r == Ok::<TaskStatus, String>(v),
            Self::from_str_spec(s@) is None ==> r is Err,
    {
        let v = to_char_vec(s);
        if eq_ignore_ascii_case(&v, &to_char_vec("active")) {
            Ok(TaskStatus::Active)
        } else if eq_ignore_ascii_case(&v, &to_char_vec("completed")) {
            Ok(TaskStatus::Completed)
        } else if eq_ignore_ascii_case(&v, &to_char_vec("failed")) {
            Ok(TaskStatus::Failed)
        } else {
            let mut m = String::from_str("Unknown task status: ");
            m.append(s);
            Err(m)
        }
    }
}

impl RepeatInterval {
    /// The canonical lowercase label of this interval.
    pub open spec fn label_spec(self) -> Seq<char> {
        match self {
            RepeatInterval::Daily => "daily"@,
            RepeatInterval::Weekly => "weekly"@,
            RepeatInterval::Monthly => "monthly"@,
        }
    }

    /// The canonical lowercase label of this interval.
    pub fn label(&self) -> (r: String)
        ensures
            r@ == self.label_spec(),
    {
        match self {
            RepeatInterval::Daily => String::from_str("daily"),
            RepeatInterval::Weekly => String::from_str("weekly"),
            RepeatInterval::Monthly => String::from_str("monthly"),
        }
    }

    /// Which interval a string names, compared case-insensitively.
    pub open spec fn from_str_spec(s: Seq<char>) -> Option<RepeatInterval> {
        if ascii_lower_seq(s) == ascii_lower_seq("daily"@) {
            Some(RepeatInterval::Daily)
        } else if ascii_lower_seq(s) == ascii_lower_seq("weekly"@) {
            Some(RepeatInterval::Weekly)
        } else if ascii_lower_seq(s) == ascii_lower_seq("monthly"@) {
            Some(RepeatInterval::Monthly)
        } else {
            None
        }
    }

    /// Parse an interval label, case-insensitively.
    pub fn from_str(s: &str) -> (r: Result<RepeatInterval, String>)
        ensures
            Self::from_str_spec(s@) matches Some(v) ==> r == Ok::<RepeatInterval, String>(v),
            Self::from_str_spec(s@) is None ==> r is Err,
    {
        let v = to_char_vec(s);
        if eq_ignore_ascii_case(&v, &to_char_vec("daily")) {
            Ok(RepeatInterval::Daily)
        } else if eq_ignore_ascii_case(&v, &to_char_vec("weekly")) {
            Ok(RepeatInterval::Weekly)
        } else if eq_ignore_ascii_case(&v, &to_char_vec("monthly")) {
            Ok(RepeatInterval::Monthly)
        } else {
            let mut m = String::from_str("Unknown repeat interval: ");
            m.append(s);
            Err(m)
        }
    }
}

impl ExecutionAction {
    /// The canonical lowercase label of this action.
    pub open spec fn label_spec(self) -> Seq<char> {
        match self {
            ExecutionAction::Open => "open"@,
            ExecutionAction::Close => "close"@,
        }
    }

    /// The canonical lowercase label of this action.
    pub fn label(&self) -> (r: String)
        ensures
            r@ == self.label_spec(),
    {
        match self {
            ExecutionAction::Open => String::from_str("open"),
            ExecutionAction::Close => String::from_str("close"),
        }
    }

    /// Which action a string names, compared case-insensitively.
    pub open spec fn from_str_spec(s: Seq<char>) -> Option<ExecutionAction> {
        if ascii_lower_seq(s) == ascii_lower_seq("open"@) {
            Some(ExecutionAction::Open)
        } else if ascii_lower_seq(s) == ascii_lower_seq("close"@) {
            Some(ExecutionAction::Close)
        } else {
            None
        }
    }

    /// Parse an action label, case-insensitively.
    pub fn from_str(s: &str) -> (r: Result<ExecutionAction, String>)
        ensures
            Self::from_str_spec(s@) matches Some(v) ==> r == Ok::<ExecutionAction, String>(v),
            Self::from_str_spec(s@) is None ==> r is Err,
    {
        let v = to_char_vec(s);
        if eq_ignore_ascii_case(&v, &to_char_vec("open")) {
            Ok(ExecutionAction::Open)
        } else if eq_ignore_ascii_case(&v, &to_char_vec("close")) {
            Ok(ExecutionAction::Close)
        } else {
            let mut m = String::from_str("Unknown execution action: ");
            m.append(s);
            Err(m)
        }
    }
}

impl ExecutionStatus {
    /// The canonical lowercase label of this outcome.
    pub open spec fn label_spec(self) -> Seq<char> {
        match self {
            ExecutionStatus::Success => "success"@,
            ExecutionStatus::Failed => "failed"@,
        }
    }

    /// The canonical lowercase label of this outcome.
    pub fn label(&self) -> (r: String)
        ensures
            r@ == self.label_spec(),
    {
        match self {
            ExecutionStatus::Success => String::from_str("success"),
            ExecutionStatus::Failed => String::from_str("failed"),
        }
    }

    /// Which outcome a string names, compared case-insensitively.
    pub open spec fn from_str_spec(s: Seq<char>) -> Option<ExecutionStatus> {
        if ascii_lower_seq(s) == ascii_lower_seq("success"@) {
            Some(ExecutionStatus::Success)
        } else if ascii_lower_seq(s) == ascii_lower_seq("failed"@) {
            Some(ExecutionStatus::Failed)
        } else {
            None
        }
    }

    /// Parse an outcome label, case-insensitively.
    pub fn from_str(s: &str) -> (r: Result<ExecutionStatus, String>)
        ensures
            Self::from_str_spec(s@) matches Some(v) ==> r == Ok::<ExecutionStatus, String>(v),
            Self::from_str_spec(s@) is None ==> r is Err,
    {
        let v = to_char_vec(s);
        if eq_ignore_ascii_case(&v, &to_char_vec("success")) {
            Ok(ExecutionStatus::Success)
        } else if eq_ignore_ascii_case(&v, &to_char_vec("failed")) {
            Ok(ExecutionStatus::Failed)
        } else {
            let mut m = String::from_str("Unknown execution status: ");
            m.append(s);
            Err(m)
        }
    }
}

/// Parsing a browser's canonical label yields the browser back: the
/// stored string form cannot drift between the write and read paths.
pub proof fn lemma_browser_label_round_trip(b: BrowserType)
    ensures
        BrowserType::from_str_spec(b.label_spec()) == Some(b),
{
    reveal_strlit("chrome");
    reveal_strlit("firefox");
    reveal_strlit("edge");
    reveal_strlit("safari");
    reveal_strlit("brave");
    reveal_strlit("opera");
    assert(ascii_lower_seq("chrome"@).len() == 6);
    assert(ascii_lower_seq("firefox"@).len() == 7);
    assert(ascii_lower_seq("edge"@).len() == 4);
    assert(ascii_lower_seq("safari"@).len() == 6);
    assert(ascii_lower_seq("brave"@).len() == 5);
    assert(ascii_lower_seq("opera"@).len() == 5);
    match b {
        BrowserType::Safari => {
            assert(ascii_lower_seq("safari"@)[0] == ascii_lower_char('s'));
            assert(ascii_lower_seq("chrome"@)[0] == ascii_lower_char('c'));
        },
        BrowserType::Opera => {
            assert(ascii_lower_seq("opera"@)[0] == ascii_lower_char('o'));
            assert(ascii_lower_seq("brave"@)[0] == ascii_lower_char('b'));
        },
        _ => {},
    }
}

/// Parsing a status's canonical label yields the status back.
pub proof fn lemma_status_label_round_trip(s: TaskStatus)
    ensures
        TaskStatus::from_str_spec(s.label_spec()) == Some(s),
{
    reveal_strlit("active");
    reveal_strlit("completed");
    reveal_strlit("failed");
    assert(ascii_lower_seq("active"@).len() == 6);
    assert(ascii_lower_seq("completed"@).len() == 9);
    assert(ascii_lower_seq("failed"@).len() == 6);
    if s == TaskStatus::Failed {
        assert(ascii_lower_seq("failed"@)[0] == ascii_lower_char('f'));
        assert(ascii_lower_seq("active"@)[0] == ascii_lower_char('a'));
    }
}

/// Parsing an interval's canonical label yields the interval back.
pub proof fn lemma_interval_label_round_trip(i: RepeatInterval)
    ensures
        RepeatInterval::from_str_spec(i.label_spec()) == Some(i),
{
    reveal_strlit("daily");
    reveal_strlit("weekly");
    reveal_strlit("monthly");
    assert(ascii_lower_seq("daily"@).len() == 5);
    assert(ascii_lower_seq("weekly"@).len() == 6);
    assert(ascii_lower_seq("monthly"@).len() == 7);
}

/// Parsing an action's canonical label yields the action back.
pub proof fn lemma_action_label_round_trip(a: ExecutionAction)
    ensures
        ExecutionAction::from_str_spec(a.label_spec()) == Some(a),
{
    reveal_strlit("open");
    reveal_strlit("close");
    assert(ascii_lower_seq("open"@).len() == 4);
    assert(ascii_lower_seq("close"@).len() == 5);
}

/// Parsing an outcome's canonical label yields the outcome back.
pub proof fn lemma_outcome_label_round_trip(s: ExecutionStatus)
    ensures
        ExecutionStatus::from_str_spec(s.label_spec()) == Some(s),
{
    reveal_strlit("success");
    reveal_strlit("failed");
    assert(ascii_lower_seq("success"@).len() == 7);
    assert(ascii_lower_seq("failed"@).len() == 6);
}

} // verus!
