//! The log pipeline: a query names a service and a calendar day; the service is resolved to
//! a container, the container's log of that day is read chunk by chunk, and the lines that
//! hold the pattern are collected up to the limit. The pipeline is a state machine that is
//! told what each outside call gave and answers with the next call to make.

use crate::containers::{
    resolve_by_service_label, resolved_container, ContainerListing, ContainerListingView,
};
use crate::lines::{
    all_wanted, clamped_limit, collector_inv, fed, CollectorView, LogCollector,
};
use vstd::prelude::*;
use vstd::string::*;

verus! {

/// The day number of the calendar date that `chrono` reads from `text` under the format
/// `%Y-%m-%d` (year, month and day with hyphens between), counted in the proleptic Gregorian
/// calendar with 1 January of year 1 as day 1; `None` where it reads no date.
pub uninterp spec fn parsed_day_number(text: Seq<char>) -> Option<i32>;

/// The text that `bytes` decode to as UTF-8 where the standard library replaces every
/// malformed part by the replacement character.
pub uninterp spec fn lossy_text(bytes: Seq<u8>) -> Seq<char>;

/// Parses `text` with `chrono::NaiveDate::parse_from_str` under the format `%Y-%m-%d` and
/// gives the date found as its day number (`Datelike::num_days_from_ce`). The contract only
/// names the result: the same text always gives the same answer.
#[verifier::external_body]
fn parse_day_number(text: &str) -> (day: Option<i32>)
    ensures
        day == parsed_day_number(text@),
{
    match chrono::NaiveDate::parse_from_str(text, "%Y-%m-%d") {
        Ok(date) => Some(chrono::Datelike::num_days_from_ce(&date)),
        Err(_) => None,
    }
}

/// Decodes `bytes` with `String::from_utf8_lossy`. The contract only names the result: the
/// same bytes always give the same text.
#[verifier::external_body]
fn decode_lossy(bytes: &Vec<u8>) -> (text: String)
    ensures
        text@ == lossy_text(bytes@),
{
    String::from_utf8_lossy(bytes).into_owned()
}

/// The day number of 1 January 1970.
pub const UNIX_EPOCH_DAY: i64 = 719163;

/// The number of seconds in a day.
pub const SECONDS_PER_DAY: i64 = 86400;

/// The first and the last second of a UTC day, in seconds since 1 January 1970, 0:00 UTC.
#[derive(Clone, Copy, PartialEq, Eq, Structural, Debug)]
pub struct DayWindow {
    pub since: i64,
    pub until: i64,
}

/// The window of the day with the number `day`: from 0:00:00 to 23:59:59.
pub open spec fn window_of(day: i32) -> DayWindow {
    DayWindow {
        since: ((day - UNIX_EPOCH_DAY) * SECONDS_PER_DAY) as i64,
        until: ((day - UNIX_EPOCH_DAY) * SECONDS_PER_DAY + SECONDS_PER_DAY - 1) as i64,
    }
}

/// Computes the window of the day with the number `day`.
pub fn window_of_day(day: i32) -> (window: DayWindow)
    ensures
        window == window_of(day),
        window.since == (day - 719163) * 86400,
        window.until == window.since + 86399,
{
    let since: i64 = (day as i64 - UNIX_EPOCH_DAY) * SECONDS_PER_DAY;
    DayWindow { since, until: since + (SECONDS_PER_DAY - 1) }
}

/// The window of the calendar day that `date` holds, or `None` where `date` holds no
/// calendar date.
pub fn day_window(date: &str) -> (window: Option<DayWindow>)
    ensures
        window == match parsed_day_number(date@) {
            Some(day) => Some(window_of(day)),
            None => None,
        },
{
    match parse_day_number(date) {
        Some(day) => Some(window_of_day(day)),
        None => None,
    }
}

/// A request for the log of a service.
#[derive(Debug, PartialEq, Eq)]
pub struct LogQuery {
    /// The logical name of the service.
    pub service: String,
    /// The calendar day, read as a UTC day.
    pub date: String,
    /// The text that a line must hold; none, or the empty one, lets every line pass.
    pub pattern: Option<String>,
    /// The most lines wanted.
    pub limit: Option<usize>,
}

pub struct LogQueryView {
    pub service: Seq<char>,
    pub date: Seq<char>,
    pub pattern: Option<Seq<char>>,
    pub limit: Option<usize>,
}

impl View for LogQuery {
    type V = LogQueryView;

    open spec fn view(&self) -> LogQueryView {
        LogQueryView {
            service: self.service@,
            date: self.date@,
            pattern: self.pattern.deep_view(),
            limit: self.limit,
        }
    }
}

/// Why a query got no log.
#[derive(Debug, PartialEq, Eq)]
pub enum LogError {
    /// The date is no calendar date.
    InvalidDate,
    /// No container runs the service.
    ServiceNotFound,
    /// The runtime could not be reached, or the log stream broke.
    RuntimeUnavailable { message: String },
}

pub enum LogErrorView {
    InvalidDate,
    ServiceNotFound,
    RuntimeUnavailable { message: Seq<char> },
}

impl View for LogError {
    type V = LogErrorView;

    open spec fn view(&self) -> LogErrorView {
        match self {
            LogError::InvalidDate => LogErrorView::InvalidDate,
            LogError::ServiceNotFound => LogErrorView::ServiceNotFound,
            LogError::RuntimeUnavailable { message } => LogErrorView::RuntimeUnavailable {
                message: message@,
            },
        }
    }
}

/// The HTTP status that reports an error.
pub open spec fn error_status(error: LogErrorView) -> u16 {
    match error {
        LogErrorView::InvalidDate => 400,
        LogErrorView::ServiceNotFound => 404,
        LogErrorView::RuntimeUnavailable { .. } => 502,
    }
}

/// The text that goes with an error's status.
pub open spec fn error_body(error: LogErrorView) -> Seq<char> {
    match error {
        LogErrorView::InvalidDate => "date debe ser YYYY-MM-DD"@,
        LogErrorView::ServiceNotFound => "service not found"@,
        LogErrorView::RuntimeUnavailable { message } => message,
    }
}

impl LogError {
    /// The HTTP status that reports this error.
    pub fn status_code(&self) -> (status: u16)
        ensures
            status == error_status(self@),
    {
        match self {
            LogError::InvalidDate => 400,
            LogError::ServiceNotFound => 404,
            LogError::RuntimeUnavailable { .. } => 502,
        }
    }

    /// The text that goes with the status.
    pub fn body(&self) -> (text: String)
        ensures
            text@ == error_body(self@),
    {
        match self {
            LogError::InvalidDate => String::from_str("date debe ser YYYY-MM-DD"),
            LogError::ServiceNotFound => String::from_str("service not found"),
            LogError::RuntimeUnavailable { message } => message.clone(),
        }
    }
}

/// The answer to a query: the service and the date as they were asked for, and the lines
/// found, with their number.
#[derive(Debug, PartialEq, Eq)]
pub struct LogReport {
    pub service: String,
    pub date: String,
    pub count: usize,
    pub lines: Vec<String>,
}

pub struct LogReportView {
    pub service: Seq<char>,
    pub date: Seq<char>,
    pub count: usize,
    pub lines: Seq<Seq<char>>,
}

impl View for LogReport {
    type V = LogReportView;

    open spec fn view(&self) -> LogReportView {
        LogReportView {
            service: self.service@,
            date: self.date@,
            count: self.count,
            lines: self.lines.deep_view(),
        }
    }
}

/// What to ask of the runtime for a container's log: the log that is there, without
/// waiting for more; what the container wrote to standard output and to standard error;
/// every line with its time; the time window applied by the runtime; the whole of it, not
/// only its end (`tail` is `all`).
#[derive(Debug, PartialEq, Eq)]
pub struct LogRequest {
    pub container_id: String,
    pub since: i64,
    pub until: i64,
    pub follow: bool,
    pub stdout: bool,
    pub stderr: bool,
    pub timestamps: bool,
    pub tail: String,
}

pub struct LogRequestView {
    pub container_id: Seq<char>,
    pub since: i64,
    pub until: i64,
    pub follow: bool,
    pub stdout: bool,
    pub stderr: bool,
    pub timestamps: bool,
    pub tail: Seq<char>,
}

impl View for LogRequest {
    type V = LogRequestView;

    open spec fn view(&self) -> LogRequestView {
        LogRequestView {
            container_id: self.container_id@,
            since: self.since,
            until: self.until,
            follow: self.follow,
            stdout: self.stdout,
            stderr: self.stderr,
            timestamps: self.timestamps,
            tail: self.tail@,
        }
    }
}

/// The request for the log of the container `container_id` within `window`.
pub open spec fn log_request(container_id: Seq<char>, window: DayWindow) -> LogRequestView {
    LogRequestView {
        container_id,
        since: window.since,
        until: window.until,
        follow: false,
        stdout: true,
        stderr: true,
        timestamps: true,
        tail: "all"@,
    }
}

/// Where a chunk of a log stream came from.
#[derive(Clone, Copy, PartialEq, Eq, Structural, Debug)]
pub enum StreamKind {
    StdOut,
    StdErr,
    StdIn,
    Console,
}

/// One item of a log stream.
#[derive(Debug, PartialEq, Eq)]
pub enum LogChunk {
    /// Bytes that the container wrote or read.
    Output { kind: StreamKind, bytes: Vec<u8> },
    /// The stream broke.
    Failed { error: String },
}

pub enum LogChunkView {
    Output { kind: StreamKind, bytes: Seq<u8> },
    Failed { error: Seq<char> },
}

impl View for LogChunk {
    type V = LogChunkView;

    open spec fn view(&self) -> LogChunkView {
        match self {
            LogChunk::Output { kind, bytes } => LogChunkView::Output { kind: *kind, bytes: bytes@ },
            LogChunk::Failed { error } => LogChunkView::Failed { error: error@ },
        }
    }
}

/// The result of an outside call, handed to the session.
#[derive(Debug, PartialEq, Eq)]
pub enum LogEvent {
    Containers(ContainerListing),
    Chunk(LogChunk),
    EndOfStream,
}

pub enum LogEventView {
    Containers(ContainerListingView),
    Chunk(LogChunkView),
    EndOfStream,
}

impl View for LogEvent {
    type V = LogEventView;

    open spec fn view(&self) -> LogEventView {
        match self {
            LogEvent::Containers(listing) => LogEventView::Containers(listing@),
            LogEvent::Chunk(chunk) => LogEventView::Chunk(chunk@),
            LogEvent::EndOfStream => LogEventView::EndOfStream,
        }
    }
}

/// The next outside call that the session asks for, or the end of the session.
#[derive(Debug, PartialEq, Eq)]
pub enum LogAction {
    /// List the containers of the runtime, the stopped ones too.
    ListContainers,
    /// Open the log stream that `request` describes and read its first chunk.
    OpenStream { request: LogRequest },
    /// Read the next chunk of the stream.
    ReadChunk,
    /// Make no further call: the session has ended.
    Finish { result: Result<LogReport, LogError> },
}

pub enum LogActionView {
    ListContainers,
    OpenStream { request: LogRequestView },
    ReadChunk,
    Finish { result: Result<LogReportView, LogErrorView> },
}

impl View for LogAction {
    type V = LogActionView;

    open spec fn view(&self) -> LogActionView {
        match self {
            LogAction::ListContainers => LogActionView::ListContainers,
            LogAction::OpenStream { request } => LogActionView::OpenStream { request: request@ },
            LogAction::ReadChunk => LogActionView::ReadChunk,
            LogAction::Finish { result } => LogActionView::Finish {
                result: match result {
                    Ok(report) => Ok(report@),
                    Err(error) => Err(error@),
                },
            },
        }
    }
}

/// Where a session stands: which result it waits for, and what it keeps meanwhile.
pub enum LogStageView {
    AwaitContainers { window: DayWindow, collector: CollectorView },
    Streaming { collector: CollectorView },
    Finished,
}

pub struct SessionView {
    pub service: Seq<char>,
    pub date: Seq<char>,
    pub stage: LogStageView,
}

/// The report of the session `session` on `lines`.
pub open spec fn report_of(session: SessionView, lines: Seq<Seq<char>>) -> LogReportView {
    LogReportView {
        service: session.service,
        date: session.date,
        count: lines.len() as usize,
        lines,
    }
}

/// The end of `session` with `result`.
pub open spec fn log_finish(session: SessionView, result: Result<LogReportView, LogErrorView>)
    -> Option<(SessionView, LogActionView)> {
    Some((SessionView { stage: LogStageView::Finished, ..session }, LogActionView::Finish { result }))
}

/// The start of a session. A date that is no calendar date ends it at once with
/// `InvalidDate`, before anything is asked of the runtime. Otherwise the containers are
/// asked for, and the session keeps the day's window and an empty collector for the
/// query's pattern and limit.
pub open spec fn log_begin(query: LogQueryView) -> (SessionView, LogActionView) {
    match parsed_day_number(query.date) {
        None => (
            SessionView { service: query.service, date: query.date, stage: LogStageView::Finished },
            LogActionView::Finish { result: Err(LogErrorView::InvalidDate) },
        ),
        Some(day) => (
            SessionView {
                service: query.service,
                date: query.date,
                stage: LogStageView::AwaitContainers {
                    window: window_of(day),
                    collector: CollectorView {
                        needle: match query.pattern {
                            Some(needle) => needle,
                            None => Seq::empty(),
                        },
                        limit: clamped_limit(query.limit),
                        lines: Seq::empty(),
                    },
                },
            },
            LogActionView::ListContainers,
        ),
    }
}

/// One step of a session: the stage and the action that follow when `event` arrives, or
/// `None` where `event` does not answer the call that the session waits for.
///
/// - The containers: a runtime that could not be reached ends the session with
///   `RuntimeUnavailable`, a service that no container runs with `ServiceNotFound`;
///   otherwise the log of the container found is asked for, within the day's window.
/// - A chunk of output: its bytes are decoded and fed to the collector. Where that fills
///   the collector the session ends with the report, without reading on; otherwise the next
///   chunk is asked for. What the container read on standard input is passed over.
/// - A broken stream ends the session with `RuntimeUnavailable`; the lines collected so far
///   are not reported.
/// - The end of the stream ends the session with the report.
pub open spec fn log_step(session: SessionView, event: LogEventView) -> Option<
    (SessionView, LogActionView),
> {
    match (session.stage, event) {
        (
            LogStageView::AwaitContainers { window, collector },
            LogEventView::Containers(listing),
        ) => match listing {
            ContainerListingView::Failed { error } => log_finish(
                session,
                Err(LogErrorView::RuntimeUnavailable { message: error }),
            ),
            ContainerListingView::Listed { containers } => match resolved_container(
                containers,
                session.service,
            ) {
                None => log_finish(session, Err(LogErrorView::ServiceNotFound)),
                Some(container_id) => Some(
                    (
                        SessionView { stage: LogStageView::Streaming { collector }, ..session },
                        LogActionView::OpenStream { request: log_request(container_id, window) },
                    ),
                ),
            },
        },
        (LogStageView::Streaming { collector }, LogEventView::Chunk(chunk)) => match chunk {
            LogChunkView::Failed { error } => log_finish(
                session,
                Err(LogErrorView::RuntimeUnavailable { message: error }),
            ),
            LogChunkView::Output { kind, bytes } => if kind == StreamKind::StdIn {
                Some((session, LogActionView::ReadChunk))
            } else {
                let filled = fed(collector, lossy_text(bytes));
                if filled.lines.len() >= filled.limit {
                    log_finish(session, Ok(report_of(session, filled.lines)))
                } else {
                    Some(
                        (
                            SessionView {
                                stage: LogStageView::Streaming { collector: filled },
                                ..session
                            },
                            LogActionView::ReadChunk,
                        ),
                    )
                }
            },
        },
        (LogStageView::Streaming { collector }, LogEventView::EndOfStream) => log_finish(
            session,
            Ok(report_of(session, collector.lines)),
        ),
        _ => None,
    }
}

/// The actions that the session answers with when it is handed `events` one after another,
/// up to the first event that it refuses. The action at position `k` answers the event at
/// position `k`.
pub open spec fn log_actions(session: SessionView, events: Seq<LogEventView>) -> Seq<LogActionView>
    decreases events.len(),
{
    if events.len() == 0 {
        Seq::empty()
    } else {
        match log_step(session, events[0]) {
            None => Seq::empty(),
            Some((next, action)) => seq![action] + log_actions(next, events.skip(1)),
        }
    }
}

/// The session after `event`: as `log_step` gives it, and unchanged where the event is refused.
pub open spec fn log_next(session: SessionView, event: LogEventView) -> SessionView {
    match log_step(session, event) {
        Some((next, action)) => next,
        None => session,
    }
}

/// The action that answers `event`, where the event is accepted.
pub open spec fn log_answer(session: SessionView, event: LogEventView) -> Option<LogActionView> {
    match log_step(session, event) {
        Some((next, action)) => Some(action),
        None => None,
    }
}

/// The collector that a session keeps, while it keeps one.
pub open spec fn session_collector(session: SessionView) -> Option<CollectorView> {
    match session.stage {
        LogStageView::AwaitContainers { window, collector } => Some(collector),
        LogStageView::Streaming { collector } => Some(collector),
        LogStageView::Finished => None,
    }
}

/// The session works for the pattern `needle` and the limit `limit`, and its collector is
/// in order.
pub open spec fn session_inv(session: SessionView, needle: Seq<char>, limit: usize) -> bool {
    session_collector(session) matches Some(collector) ==> {
        &&& collector_inv(collector)
        &&& collector.needle == needle
        &&& collector.limit == limit
    }
}

/// What holds of every report: it names the service and the date asked for, its count is
/// the number of its lines and at most the limit, and each line is not empty and holds the
/// pattern.
pub open spec fn report_in_order(
    report: LogReportView,
    service: Seq<char>,
    date: Seq<char>,
    needle: Seq<char>,
    limit: usize,
) -> bool {
    &&& report.service == service
    &&& report.date == date
    &&& report.count == report.lines.len()
    &&& report.lines.len() <= limit
    &&& all_wanted(report.lines, needle)
}

/// The limit in force is the requested limit raised to 1 and cut to 20000, and 1000 without
/// a request.
pub proof fn lemma_limit_clamp(requested: Option<usize>)
    ensures
        requested is None ==> clamped_limit(requested) == 1000,
        requested matches Some(wanted) ==> clamped_limit(requested) == vstd::math::min(
            vstd::math::max(wanted as int, 1),
            20000,
        ),
        1 <= clamped_limit(requested) <= 20000,
{
}

/// Feeding a collector keeps it in order.
pub proof fn lemma_fed_inv(collector: CollectorView, text: Seq<char>)
    requires
        collector_inv(collector),
    ensures
        collector_inv(fed(collector, text)),
{
    crate::lines::lemma_kept_all_wanted(crate::lines::lines_of(text), collector.needle);
}

/// A step keeps the session in order, and a report that it ends with is in order.
pub proof fn lemma_log_step_inv(
    session: SessionView,
    event: LogEventView,
    needle: Seq<char>,
    limit: usize,
)
    requires
        session_inv(session, needle, limit),
        log_step(session, event) is Some,
    ensures
        session_inv(log_next(session, event), needle, limit),
        log_next(session, event).service == session.service,
        log_next(session, event).date == session.date,
        log_answer(session, event) matches Some(LogActionView::Finish { result: Ok(report) })
            ==> report_in_order(report, session.service, session.date, needle, limit),
{
    match (session.stage, event) {
        (
            LogStageView::Streaming { collector },
            LogEventView::Chunk(LogChunkView::Output { kind, bytes }),
        ) => {
            lemma_fed_inv(collector, lossy_text(bytes));
        },
        _ => {},
    }
}

/// Whatever the runtime gives, a report that ends a session is in order for the session's
/// pattern and limit.
pub proof fn lemma_log_run_reports(
    session: SessionView,
    events: Seq<LogEventView>,
    needle: Seq<char>,
    limit: usize,
    k: int,
)
    requires
        session_inv(session, needle, limit),
        0 <= k < log_actions(session, events).len(),
    ensures
        log_actions(session, events)[k] matches LogActionView::Finish { result: Ok(report) }
            ==> report_in_order(report, session.service, session.date, needle, limit),
    decreases events.len(),
{
    lemma_log_step_inv(session, events[0], needle, limit);
    if k > 0 {
        lemma_log_run_reports(log_next(session, events[0]), events.skip(1), needle, limit, k - 1);
    }
}

/// The log filter's promise. However the answering of `query` runs, a report that it ends
/// with names the query's service and date; its count is the number of its lines, which is
/// at most the limit in force; and every line is not empty and holds the query's pattern.
pub proof fn lemma_query_report(query: LogQueryView, events: Seq<LogEventView>, k: int)
    requires
        0 <= k < log_actions(log_begin(query).0, events).len(),
    ensures
        log_actions(log_begin(query).0, events)[k] matches LogActionView::Finish {
            result: Ok(report),
        } ==> {
            &&& report.service == query.service
            &&& report.date == query.date
            &&& report.count == report.lines.len()
            &&& report.lines.len() <= clamped_limit(query.limit)
            &&& forall|i: int|
                0 <= i < report.lines.len() ==> (#[trigger] report.lines[i]).len() > 0 && (
                query.pattern matches Some(needle) ==> crate::text::is_substring(
                    report.lines[i],
                    needle,
                ))
        },
{
    let needle = match query.pattern {
        Some(needle) => needle,
        None => Seq::empty(),
    };
    let limit = clamped_limit(query.limit);
    lemma_log_run_reports(log_begin(query).0, events, needle, limit, k);
    assert forall|line: Seq<char>, pattern: Seq<char>|
        crate::lines::wanted(line, pattern) implies crate::text::is_substring(line, pattern) by {
        if pattern.len() == 0 {
            assert(line.subrange(0, 0) =~= pattern);
            assert(crate::text::occurs_at(line, pattern, 0));
        }
    }
}

/// Where a session stands, with what it keeps for the steps to come.
#[derive(Debug, PartialEq, Eq)]
enum LogStage {
    AwaitContainers { window: DayWindow, collector: LogCollector },
    Streaming { collector: LogCollector },
    Finished,
}

impl View for LogStage {
    type V = LogStageView;

    closed spec fn view(&self) -> LogStageView {
        match self {
            LogStage::AwaitContainers { window, collector } => LogStageView::AwaitContainers {
                window: *window,
                collector: collector@,
            },
            LogStage::Streaming { collector } => LogStageView::Streaming { collector: collector@ },
            LogStage::Finished => LogStageView::Finished,
        }
    }
}

/// An event that does not answer the call that the session waits for.
#[derive(Debug, PartialEq, Eq)]
pub struct UnexpectedLogEvent {}

/// The answering of one log query, in progress.
#[derive(Debug, PartialEq, Eq)]
pub struct LogSession {
    service: String,
    date: String,
    stage: LogStage,
}

impl View for LogSession {
    type V = SessionView;

    closed spec fn view(&self) -> SessionView {
        SessionView { service: self.service@, date: self.date@, stage: self.stage@ }
    }
}

impl LogSession {
    /// Starts to answer `query`.
    pub fn begin(query: LogQuery) -> (started: (LogSession, LogAction))
        ensures
            (started.0@, started.1@) == log_begin(query@),
    {
        let LogQuery { service, date, pattern, limit } = query;
        match day_window(date.as_str()) {
            None => (
                LogSession { service, date, stage: LogStage::Finished },
                LogAction::Finish { result: Err(LogError::InvalidDate) },
            ),
            Some(window) => {
                let collector = match &pattern {
                    Some(needle) => LogCollector::new(Some(needle.as_str()), limit),
                    None => LogCollector::new(None, limit),
                };
                (
                    LogSession {
                        service,
                        date,
                        stage: LogStage::AwaitContainers { window, collector },
                    },
                    LogAction::ListContainers,
                )
            },
        }
    }

    /// Whether the session has ended.
    pub fn is_finished(&self) -> (done: bool)
        ensures
            done == (self@.stage is Finished),
    {
        match self.stage {
            LogStage::Finished => true,
            _ => false,
        }
    }

    /// The report on `lines`.
    fn report(&self, collector: LogCollector) -> (report: LogReport)
        ensures
            report@ == report_of(self@, collector@.lines),
    {
        let lines = collector.into_lines();
        LogReport {
            service: self.service.clone(),
            date: self.date.clone(),
            count: lines.len(),
            lines,
        }
    }

    /// Takes the result of the call that was asked for last and answers with the next one.
    /// An event that does not answer that call changes nothing and is refused.
    pub fn step(&mut self, event: LogEvent) -> (next: Result<LogAction, UnexpectedLogEvent>)
        ensures
            match log_step(old(self)@, event@) {
                Some((session, action)) => next is Ok && next->Ok_0@ == action && final(self)@
                    == session,
                None => next is Err && final(self)@ == old(self)@,
            },
    {
        let mut stage = LogStage::Finished;
        core::mem::swap(&mut self.stage, &mut stage);
        match stage {
            LogStage::AwaitContainers { window, collector } => match event {
                LogEvent::Containers(listing) => match listing {
                    ContainerListing::Failed { error } => Ok(
                        LogAction::Finish {
                            result: Err(LogError::RuntimeUnavailable { message: error }),
                        },
                    ),
                    ContainerListing::Listed { containers } => match resolve_by_service_label(
                        &containers,
                        self.service.as_str(),
                    ) {
                        Err(_) => Ok(LogAction::Finish { result: Err(LogError::ServiceNotFound) }),
                        Ok(container_id) => {
                            self.stage = LogStage::Streaming { collector };
                            Ok(
                                LogAction::OpenStream {
                                    request: LogRequest {
                                        container_id,
                                        since: window.since,
                                        until: window.until,
                                        follow: false,
                                        stdout: true,
                                        stderr: true,
                                        timestamps: true,
                                        tail: String::from_str("all"),
                                    },
                                },
                            )
                        },
                    },
                },
                _ => {
                    self.stage = LogStage::AwaitContainers { window, collector };
                    Err(UnexpectedLogEvent {  })
                },
            },
            LogStage::Streaming { collector } => match event {
                LogEvent::Chunk(chunk) => match chunk {
                    LogChunk::Failed { error } => Ok(
                        LogAction::Finish {
                            result: Err(LogError::RuntimeUnavailable { message: error }),
                        },
                    ),
                    LogChunk::Output { kind, bytes } => {
                        let mut collector = collector;
                        if kind == StreamKind::StdIn {
                            self.stage = LogStage::Streaming { collector };
                            Ok(LogAction::ReadChunk)
                        } else {
                            let text = decode_lossy(&bytes);
                            collector.feed_text(text.as_str());
                            if collector.is_full() {
                                Ok(LogAction::Finish { result: Ok(self.report(collector)) })
                            } else {
                                self.stage = LogStage::Streaming { collector };
                                Ok(LogAction::ReadChunk)
                            }
                        }
                    },
                },
                LogEvent::EndOfStream => Ok(
                    LogAction::Finish { result: Ok(self.report(collector)) },
                ),
                _ => {
                    self.stage = LogStage::Streaming { collector };
                    Err(UnexpectedLogEvent {  })
                },
            },
            LogStage::Finished => Err(UnexpectedLogEvent {  }),
        }
    }
}

} // verus!
