use vstd::prelude::*;
use vstd::string::StringExecFns;
use crate::clock::now_millis;
use crate::text::text_of;
use crate::ids::fresh_id;
use crate::json::{is_null, json_is_null, json_string_member, string_member};
use crate::text::{lowercase, owned, same_text, to_lowercase};

verus! {

/// How grave a log entry is.
#[derive(Debug, Clone, Copy, PartialEq, Eq, Structural)]
pub enum LogLevel {
    Debug,
    Info,
    Warning,
    Alert,
    Critical,
}

/// Why a text is no log level.
#[derive(Debug)]
pub struct ParseLogLevelError {
    pub input: String,
    pub message: String,
}

impl ParseLogLevelError {
    /// The text of the error: the input in quotes, then what was expected.
    pub fn to_string(&self) -> (r: String)
        ensures
            r@ == "Invalid log level '"@ + self.input@ + "': "@ + self.message@,
    {
        let mut out: String = owned("Invalid log level '");
        out.append(self.input.as_str());
        out.append("': ");
        out.append(self.message.as_str());
        out
    }
}

impl LogLevel {
    /// The lowercase name of the level.
    pub open spec fn name(self) -> Seq<char> {
        match self {
            LogLevel::Debug => "debug"@,
            LogLevel::Info => "info"@,
            LogLevel::Warning => "warning"@,
            LogLevel::Alert => "alert"@,
            LogLevel::Critical => "critical"@,
        }
    }

    /// The level that has the lowercase name `text`, if there is one.
    pub open spec fn named(text: Seq<char>) -> Option<LogLevel> {
        if text == "debug"@ {
            Some(LogLevel::Debug)
        } else if text == "info"@ {
            Some(LogLevel::Info)
        } else if text == "warning"@ {
            Some(LogLevel::Warning)
        } else if text == "alert"@ {
            Some(LogLevel::Alert)
        } else if text == "critical"@ {
            Some(LogLevel::Critical)
        } else {
            None
        }
    }

    /// Every variant is found again under its own name.
    pub proof fn lemma_name_round_trip(v: LogLevel)
        ensures
            LogLevel::named(v.name()) == Some(v),
    {
        reveal_strlit("debug");
        reveal_strlit("info");
        reveal_strlit("warning");
        reveal_strlit("alert");
        reveal_strlit("critical");
        assert("debug"@.len() == 5);
        assert("info"@.len() == 4);
        assert("warning"@.len() == 7);
        assert("alert"@.len() == 5);
        assert("critical"@.len() == 8);
        assert("alert"@[0] == 'a');
        assert("debug"@[0] == 'd');
    }

    /// The lowercase name as an owned string.
    pub fn to_string(&self) -> (r: String)
        ensures
            r@ == self.name(),
    {
        match self {
            LogLevel::Debug => owned("debug"),
            LogLevel::Info => owned("info"),
            LogLevel::Warning => owned("warning"),
            LogLevel::Alert => owned("alert"),
            LogLevel::Critical => owned("critical"),
        }
    }

    /// Looks a level up by its exact lowercase name.
    pub fn from_name(text: &str) -> (r: Option<LogLevel>)
        ensures
            r == LogLevel::named(text@),
    {
        if same_text(text, "debug") {
            Some(LogLevel::Debug)
        } else if same_text(text, "info") {
            Some(LogLevel::Info)
        } else if same_text(text, "warning") {
            Some(LogLevel::Warning)
        } else if same_text(text, "alert") {
            Some(LogLevel::Alert)
        } else if same_text(text, "critical") {
            Some(LogLevel::Critical)
        } else {
            None
        }
    }

    /// Reads a level from its name in any letter case. Any other text is
    /// refused with an error that quotes it.
    pub fn from_str(s: &str) -> (r: Result<LogLevel, ParseLogLevelError>)
        ensures
            match LogLevel::named(lowercase(s@)) {
                Some(level) => r is Ok && r->Ok_0 == level,
                None => r is Err && r->Err_0.input@ == s@ && r->Err_0.message@
                    == "Expected one of: debug, info, warning, alert, critical"@,
            },
    {
        let lowered = to_lowercase(s);
        match LogLevel::from_name(lowered.as_str()) {
            Some(level) => Ok(level),
            None => Err(
                ParseLogLevelError {
                    input: owned(s),
                    message: owned("Expected one of: debug, info, warning, alert, critical"),
                },
            ),
        }
    }
}

impl std::str::FromStr for LogLevel {
    type Err = ParseLogLevelError;

    /// Reads a level as the inherent `from_str` does.
    fn from_str(s: &str) -> (r: Result<Self, ParseLogLevelError>)
        ensures
            match LogLevel::named(lowercase(s@)) {
                Some(level) => r is Ok && r->Ok_0 == level,
                None => r is Err && r->Err_0.input@ == s@ && r->Err_0.message@
                    == "Expected one of: debug, info, warning, alert, critical"@,
            },
    {
        LogLevel::from_str(s)
    }
}

/// What comes with a log entry: a context line and free-form details, the
/// details as JSON text.
#[derive(Debug, PartialEq, Eq)]
pub struct LogMetadata {
    pub context: Option<String>,
    pub details: Option<String>,
}

pub struct LogMetadataView {
    pub context: Option<Seq<char>>,
    pub details: Option<Seq<char>>,
}

impl View for LogMetadata {
    type V = LogMetadataView;

    open spec fn view(&self) -> LogMetadataView {
        LogMetadataView { context: text_of(self.context), details: text_of(self.details) }
    }
}

impl Default for LogMetadata {
    fn default() -> (r: Self)
        ensures
            r@ == (LogMetadataView { context: None, details: None }),
    {
        LogMetadata { context: None, details: None }
    }
}

/// The metadata that a stored JSON document amounts to: nothing for a
/// missing document or `null`; else the document as the details, with the
/// context that the document names, if it is an object that names one.
pub open spec fn metadata_of(json: Option<Seq<char>>) -> LogMetadataView {
    match json {
        None => LogMetadataView { context: None, details: None },
        Some(text) => if json_is_null(text) {
            LogMetadataView { context: None, details: None }
        } else {
            LogMetadataView { context: json_string_member(text, "context"@), details: Some(text) }
        },
    }
}

impl LogMetadata {
    /// Puts metadata together from what was read off a stored document:
    /// whether it is `null`, and its context.
    pub fn assemble(json: Option<String>, null: bool, context: Option<String>) -> (r: Self)
        ensures
            r@ == (match json {
                None => LogMetadataView { context: None, details: None },
                Some(text) => if null {
                    LogMetadataView { context: None, details: None }
                } else {
                    LogMetadataView { context: text_of(context), details: Some(text@) }
                },
            }),
    {
        match json {
            None => LogMetadata::default(),
            Some(text) => {
                if null {
                    LogMetadata::default()
                } else {
                    LogMetadata { context, details: Some(text) }
                }
            },
        }
    }

    /// The metadata of a stored JSON document.
    pub fn from_json(json: Option<String>) -> (r: Self)
        ensures
            r@ == metadata_of(text_of(json)),
    {
        match json {
            None => LogMetadata::default(),
            Some(text) => {
                let null = is_null(text.as_str());
                let context = string_member(text.as_str(), "context");
                LogMetadata::assemble(Some(text), null, context)
            },
        }
    }
}

/// A request to store a log entry. `metadata` is JSON text.
#[derive(Debug)]
pub struct CreateLogRequest {
    pub level: LogLevel,
    pub message: String,
    pub component: String,
    pub server_id: Option<String>,
    pub metadata: Option<String>,
    pub stack_trace: Option<String>,
    pub source_location: Option<String>,
}

/// A stored log entry. `timestamp` is in milliseconds since the Unix epoch.
#[derive(Debug)]
pub struct LogEntry {
    pub id: String,
    pub level: LogLevel,
    pub message: String,
    pub component: String,
    pub server_id: Option<String>,
    pub timestamp: i64,
    pub metadata: LogMetadata,
    pub stack_trace: Option<String>,
    pub source_location: Option<String>,
    pub correlation_id: Option<String>,
}

impl LogEntry {
    /// An entry with a fresh id, stamped now, without metadata.
    pub fn new(level: LogLevel, message: String, component: String, server_id: Option<String>) -> (r:
        Self)
        ensures
            r.level == level,
            r.message == message,
            r.component == component,
            r.server_id == server_id,
            r.metadata@ == (LogMetadataView { context: None, details: None }),
            r.stack_trace is None,
            r.source_location is None,
            r.correlation_id is None,
    {
        LogEntry {
            id: fresh_id(),
            level,
            message,
            component,
            server_id,
            timestamp: now_millis(),
            metadata: LogMetadata::default(),
            stack_trace: None,
            source_location: None,
            correlation_id: None,
        }
    }

    /// The entry that a request asks to store: a fresh id, stamped now, the
    /// metadata of the request as details without a context.
    pub fn from_request(request: &CreateLogRequest) -> (r: Self)
        ensures
            r.level == request.level,
            r.message@ == request.message@,
            r.component@ == request.component@,
            text_of(r.server_id) == text_of(request.server_id),
            r.metadata@ == (LogMetadataView { context: None, details: text_of(request.metadata) }),
            text_of(r.stack_trace) == text_of(request.stack_trace),
            text_of(r.source_location) == text_of(request.source_location),
            r.correlation_id is None,
    {
        LogEntry {
            id: fresh_id(),
            level: request.level,
            message: request.message.clone(),
            component: request.component.clone(),
            server_id: request.server_id.clone(),
            timestamp: now_millis(),
            metadata: LogMetadata { context: None, details: request.metadata.clone() },
            stack_trace: request.stack_trace.clone(),
            source_location: request.source_location.clone(),
            correlation_id: None,
        }
    }

    /// Replaces the metadata by the given details, as JSON text, without a
    /// context.
    pub fn with_metadata(self, metadata: String) -> (r: Self)
        ensures
            r == (LogEntry { metadata: r.metadata, ..self }),
            r.metadata.context is None,
            r.metadata.details == Some(metadata),
    {
        let mut entry = self;
        entry.metadata = LogMetadata { context: None, details: Some(metadata) };
        entry
    }

    pub fn with_stack_trace(self, stack_trace: String) -> (r: Self)
        ensures
            r == (LogEntry { stack_trace: Some(stack_trace), ..self }),
    {
        let mut entry = self;
        entry.stack_trace = Some(stack_trace);
        entry
    }

    pub fn with_source_location(self, source_location: String) -> (r: Self)
        ensures
            r == (LogEntry { source_location: Some(source_location), ..self }),
    {
        let mut entry = self;
        entry.source_location = Some(source_location);
        entry
    }

    pub fn with_correlation_id(self, correlation_id: String) -> (r: Self)
        ensures
            r == (LogEntry { correlation_id: Some(correlation_id), ..self }),
    {
        let mut entry = self;
        entry.correlation_id = Some(correlation_id);
        entry
    }
}

/// Which log entries a query is about. Every condition that is set narrows
/// the selection; `from` and `to` are in milliseconds since the Unix epoch.
#[derive(Debug)]
pub struct LogFilter {
    pub levels: Option<Vec<LogLevel>>,
    pub from: Option<i64>,
    pub to: Option<i64>,
    pub server_id: Option<String>,
    pub component: Option<String>,
    pub search: Option<String>,
    pub limit: Option<i64>,
    pub offset: Option<i64>,
}

impl LogFilter {
    /// The filter that selects everything.
    pub fn new() -> (r: Self)
        ensures
            r.levels is None,
            r.from is None,
            r.to is None,
            r.server_id is None,
            r.component is None,
            r.search is None,
            r.limit is None,
            r.offset is None,
    {
        LogFilter {
            levels: None,
            from: None,
            to: None,
            server_id: None,
            component: None,
            search: None,
            limit: None,
            offset: None,
        }
    }

    pub fn with_levels(self, levels: Vec<LogLevel>) -> (r: Self)
        ensures
            r == (LogFilter { levels: Some(levels), ..self }),
    {
        let mut filter = self;
        filter.levels = Some(levels);
        filter
    }

    pub fn with_timerange(self, from: i64, to: i64) -> (r: Self)
        ensures
            r == (LogFilter { from: Some(from), to: Some(to), ..self }),
    {
        let mut filter = self;
        filter.from = Some(from);
        filter.to = Some(to);
        filter
    }

    pub fn with_server_id(self, server_id: String) -> (r: Self)
        ensures
            r == (LogFilter { server_id: Some(server_id), ..self }),
    {
        let mut filter = self;
        filter.server_id = Some(server_id);
        filter
    }

    pub fn with_component(self, component: String) -> (r: Self)
        ensures
            r == (LogFilter { component: Some(component), ..self }),
    {
        let mut filter = self;
        filter.component = Some(component);
        filter
    }

    pub fn with_search(self, search: String) -> (r: Self)
        ensures
            r == (LogFilter { search: Some(search), ..self }),
    {
        let mut filter = self;
        filter.search = Some(search);
        filter
    }

    pub fn with_pagination(self, limit: i64, offset: i64) -> (r: Self)
        ensures
            r == (LogFilter { limit: Some(limit), offset: Some(offset), ..self }),
    {
        let mut filter = self;
        filter.limit = Some(limit);
        filter.offset = Some(offset);
        filter
    }
}

/// One condition of a query on the log, with the value that it binds.
#[derive(Debug, PartialEq, Eq)]
pub enum LogCondition {
    /// The level is one of these, given by name.
    Levels(Vec<String>),
    /// The timestamp is not before this instant.
    From(i64),
    /// The timestamp is not after this instant.
    To(i64),
    /// The entry belongs to this server.
    Server(String),
    /// The entry comes from this component.
    Component(String),
    /// The message matches this search text.
    Search(String),
    /// At most this many entries.
    Limit(i64),
    /// Skip this many entries.
    Offset(i64),
}

pub enum LogConditionView {
    Levels(Seq<LogLevel>),
    From(i64),
    To(i64),
    Server(Seq<char>),
    Component(Seq<char>),
    Search(Seq<char>),
    Limit(i64),
    Offset(i64),
}

/// Whether `names` are the names of `levels`, one for one.
pub open spec fn names_of(names: Seq<String>, levels: Seq<LogLevel>) -> bool {
    &&& names.len() == levels.len()
    &&& forall|i: int| 0 <= i < names.len() ==> (#[trigger] names[i])@ == levels[i].name()
}

/// Whether a condition is the one that `view` describes.
pub open spec fn condition_is(condition: LogCondition, view: LogConditionView) -> bool {
    match (condition, view) {
        (LogCondition::Levels(names), LogConditionView::Levels(levels)) => names_of(names@, levels),
        (LogCondition::From(a), LogConditionView::From(b)) => a == b,
        (LogCondition::To(a), LogConditionView::To(b)) => a == b,
        (LogCondition::Server(a), LogConditionView::Server(b)) => a@ == b,
        (LogCondition::Component(a), LogConditionView::Component(b)) => a@ == b,
        (LogCondition::Search(a), LogConditionView::Search(b)) => a@ == b,
        (LogCondition::Limit(a), LogConditionView::Limit(b)) => a == b,
        (LogCondition::Offset(a), LogConditionView::Offset(b)) => a == b,
        _ => false,
    }
}

/// Whether the conditions are those that `views` describe, in order.
pub open spec fn conditions_are(conditions: Seq<LogCondition>, views: Seq<LogConditionView>) -> bool {
    &&& conditions.len() == views.len()
    &&& forall|i: int| 0 <= i < conditions.len() ==> condition_is(#[trigger] conditions[i], views[i])
}

/// The one condition that an optional setting gives.
pub open spec fn optional<T>(setting: Option<T>, condition: spec_fn(T) -> LogConditionView) -> Seq<
    LogConditionView,
> {
    match setting {
        Some(value) => seq![condition(value)],
        None => Seq::empty(),
    }
}

/// The conditions that narrow a selection: time, server and component.
pub open spec fn narrowing(filter: LogFilter) -> Seq<LogConditionView> {
    optional(filter.from, |t: i64| LogConditionView::From(t)) + optional(
        filter.to,
        |t: i64| LogConditionView::To(t),
    ) + optional(filter.server_id, |s: String| LogConditionView::Server(s@)) + optional(
        filter.component,
        |s: String| LogConditionView::Component(s@),
    )
}

/// The conditions of a query that reads entries: the levels first, then
/// what narrows the selection, the search text, and the page.
pub open spec fn reading(filter: LogFilter) -> Seq<LogConditionView> {
    optional(filter.levels, |l: Vec<LogLevel>| LogConditionView::Levels(l@)) + narrowing(filter)
        + optional(filter.search, |s: String| LogConditionView::Search(s@)) + optional(
        filter.limit,
        |n: i64| LogConditionView::Limit(n),
    ) + optional(filter.offset, |n: i64| LogConditionView::Offset(n))
}

fn level_names(levels: &Vec<LogLevel>) -> (names: Vec<String>)
    ensures
        names_of(names@, levels@),
{
    let mut names: Vec<String> = Vec::new();
    let mut i: usize = 0;
    while i < levels.len()
        invariant
            i <= levels.len(),
            names@.len() == i,
            forall|j: int| 0 <= j < i ==> (#[trigger] names@[j])@ == levels@[j].name(),
        decreases levels.len() - i,
    {
        names.push(levels[i].to_string());
        i = i + 1;
    }
    names
}

fn push_condition(
    conditions: &mut Vec<LogCondition>,
    condition: LogCondition,
    Ghost(views): Ghost<Seq<LogConditionView>>,
    Ghost(view): Ghost<LogConditionView>,
)
    requires
        conditions_are(old(conditions)@, views),
        condition_is(condition, view),
    ensures
        conditions_are(final(conditions)@, views + seq![view]),
{
    conditions.push(condition);
    assert forall|i: int| 0 <= i < conditions@.len() implies condition_is(
        #[trigger] conditions@[i],
        (views + seq![view])[i],
    ) by {
        if i < views.len() {
            assert(conditions@[i] == old(conditions)@[i]);
        }
    }
}

impl LogFilter {
    fn push_narrowing(&self, conditions: &mut Vec<LogCondition>, Ghost(views): Ghost<Seq<LogConditionView>>)
        requires
            conditions_are(old(conditions)@, views),
        ensures
            conditions_are(final(conditions)@, views + narrowing(*self)),
    {
        let ghost mut so_far = views;
        match self.from {
            Some(from) => {
                push_condition(conditions, LogCondition::From(from), Ghost(so_far), Ghost(LogConditionView::From(from)));
                proof {
                    so_far = so_far + seq![LogConditionView::From(from)];
                }
            },
            None => {},
        }
        match self.to {
            Some(to) => {
                push_condition(conditions, LogCondition::To(to), Ghost(so_far), Ghost(LogConditionView::To(to)));
                proof {
                    so_far = so_far + seq![LogConditionView::To(to)];
                }
            },
            None => {},
        }
        match &self.server_id {
            Some(id) => {
                push_condition(
                    conditions,
                    LogCondition::Server(id.clone()),
                    Ghost(so_far),
                    Ghost(LogConditionView::Server(id@)),
                );
                proof {
                    so_far = so_far + seq![LogConditionView::Server(id@)];
                }
            },
            None => {},
        }
        match &self.component {
            Some(component) => {
                push_condition(
                    conditions,
                    LogCondition::Component(component.clone()),
                    Ghost(so_far),
                    Ghost(LogConditionView::Component(component@)),
                );
                proof {
                    so_far = so_far + seq![LogConditionView::Component(component@)];
                }
            },
            None => {},
        }
        assert(so_far =~= views + narrowing(*self));
    }

    /// The conditions of a query that deletes entries: time, server and
    /// component, in this order, each only if it is set. Levels, search text
    /// and page do not bear on a deletion.
    pub fn deletion_conditions(&self) -> (r: Vec<LogCondition>)
        ensures
            conditions_are(r@, narrowing(*self)),
    {
        let mut conditions: Vec<LogCondition> = Vec::new();
        self.push_narrowing(&mut conditions, Ghost(Seq::empty()));
        assert(Seq::<LogConditionView>::empty() + narrowing(*self) =~= narrowing(*self));
        conditions
    }

    /// The conditions of a query that reads entries, in the order in which
    /// they go into the query, each only if it is set.
    pub fn conditions(&self) -> (r: Vec<LogCondition>)
        ensures
            conditions_are(r@, reading(*self)),
    {
        let mut conditions: Vec<LogCondition> = Vec::new();
        let ghost mut so_far: Seq<LogConditionView> = Seq::empty();
        match &self.levels {
            Some(levels) => {
                let names = level_names(levels);
                push_condition(
                    &mut conditions,
                    LogCondition::Levels(names),
                    Ghost(so_far),
                    Ghost(LogConditionView::Levels(levels@)),
                );
                proof {
                    so_far = so_far + seq![LogConditionView::Levels(levels@)];
                }
            },
            None => {},
        }
        self.push_narrowing(&mut conditions, Ghost(so_far));
        proof {
            so_far = so_far + narrowing(*self);
        }
        match &self.search {
            Some(search) => {
                push_condition(
                    &mut conditions,
                    LogCondition::Search(search.clone()),
                    Ghost(so_far),
                    Ghost(LogConditionView::Search(search@)),
                );
                proof {
                    so_far = so_far + seq![LogConditionView::Search(search@)];
                }
            },
            None => {},
        }
        match self.limit {
            Some(limit) => {
                push_condition(
                    &mut conditions,
                    LogCondition::Limit(limit),
                    Ghost(so_far),
                    Ghost(LogConditionView::Limit(limit)),
                );
                proof {
                    so_far = so_far + seq![LogConditionView::Limit(limit)];
                }
            },
            None => {},
        }
        match self.offset {
            Some(offset) => {
                push_condition(
                    &mut conditions,
                    LogCondition::Offset(offset),
                    Ghost(so_far),
                    Ghost(LogConditionView::Offset(offset)),
                );
                proof {
                    so_far = so_far + seq![LogConditionView::Offset(offset)];
                }
            },
            None => {},
        }
        assert(so_far =~= reading(*self));
        conditions
    }
}

} // verus!
