//! Routing of log records into Tizen's dlog system.

use vstd::prelude::*;

use crate::text::push_char;

verus! {

/// Priority of a dlog line, as `<dlog.h>` numbers them.
#[derive(Copy, Clone, Debug, PartialEq, Eq, Structural)]
pub enum log_priority {
    DLOG_UNKNOWN,
    DLOG_DEFAULT,
    DLOG_VERBOSE,
    DLOG_DEBUG,
    DLOG_INFO,
    DLOG_WARN,
    DLOG_ERROR,
    DLOG_FATAL,
    DLOG_SILENT,
}

/// The C value of a priority.
pub open spec fn priority_code(p: log_priority) -> int {
    match p {
        log_priority::DLOG_UNKNOWN => 0,
        log_priority::DLOG_DEFAULT => 1,
        log_priority::DLOG_VERBOSE => 2,
        log_priority::DLOG_DEBUG => 3,
        log_priority::DLOG_INFO => 4,
        log_priority::DLOG_WARN => 5,
        log_priority::DLOG_ERROR => 6,
        log_priority::DLOG_FATAL => 7,
        log_priority::DLOG_SILENT => 8,
    }
}

impl log_priority {
    /// The value handed to `__dlog_print` for this priority.
    pub fn as_raw(self) -> (r: i32)
        ensures
            r == priority_code(self),
    {
        match self {
            log_priority::DLOG_UNKNOWN => 0,
            log_priority::DLOG_DEFAULT => 1,
            log_priority::DLOG_VERBOSE => 2,
            log_priority::DLOG_DEBUG => 3,
            log_priority::DLOG_INFO => 4,
            log_priority::DLOG_WARN => 5,
            log_priority::DLOG_ERROR => 6,
            log_priority::DLOG_FATAL => 7,
            log_priority::DLOG_SILENT => 8,
        }
    }
}

/// The dlog buffer a line is written to.
#[derive(Copy, Clone, Debug, PartialEq, Eq, Structural)]
pub enum log_id_t {
    LOG_ID_INVALID,
    LOG_ID_MAIN,
    LOG_ID_RADIO,
    LOG_ID_SYSTEM,
    LOG_ID_APPS,
    LOG_ID_KMSG,
    LOG_ID_SYSLOG,
}

/// The dlog buffer a line is written to.
pub type LogId = log_id_t;

/// The C value of a buffer id.
pub open spec fn log_id_code(id: log_id_t) -> int {
    match id {
        log_id_t::LOG_ID_INVALID => -1,
        log_id_t::LOG_ID_MAIN => 0,
        log_id_t::LOG_ID_RADIO => 1,
        log_id_t::LOG_ID_SYSTEM => 2,
        log_id_t::LOG_ID_APPS => 3,
        log_id_t::LOG_ID_KMSG => 4,
        log_id_t::LOG_ID_SYSLOG => 5,
    }
}

impl log_id_t {
    /// The value handed to `__dlog_print` for this buffer.
    pub fn as_raw(self) -> (r: i32)
        ensures
            r == log_id_code(self),
    {
        match self {
            log_id_t::LOG_ID_INVALID => -1,
            log_id_t::LOG_ID_MAIN => 0,
            log_id_t::LOG_ID_RADIO => 1,
            log_id_t::LOG_ID_SYSTEM => 2,
            log_id_t::LOG_ID_APPS => 3,
            log_id_t::LOG_ID_KMSG => 4,
            log_id_t::LOG_ID_SYSLOG => 5,
        }
    }
}

/// Verbosity of one log record, most severe first.
#[derive(Copy, Clone, Debug, PartialEq, Eq, Structural)]
pub enum Level {
    Error,
    Warn,
    Info,
    Debug,
    Trace,
}

/// Most verbose level that a logger forwards (`Off` forwards nothing).
#[derive(Copy, Clone, Debug, PartialEq, Eq, Structural)]
pub enum LevelFilter {
    Off,
    Error,
    Warn,
    Info,
    Debug,
    Trace,
}

/// Rank of a level: 1 for `Error` up to 5 for `Trace`.
pub open spec fn level_rank(level: Level) -> int {
    match level {
        Level::Error => 1,
        Level::Warn => 2,
        Level::Info => 3,
        Level::Debug => 4,
        Level::Trace => 5,
    }
}

/// Rank of a filter on the same scale as [`level_rank`], 0 for `Off`.
pub open spec fn filter_rank(filter: LevelFilter) -> int {
    match filter {
        LevelFilter::Off => 0,
        LevelFilter::Error => 1,
        LevelFilter::Warn => 2,
        LevelFilter::Info => 3,
        LevelFilter::Debug => 4,
        LevelFilter::Trace => 5,
    }
}

/// The dlog priority a record of `level` is written with.
pub open spec fn priority_of_level(level: Level) -> log_priority {
    match level {
        Level::Error => log_priority::DLOG_ERROR,
        Level::Warn => log_priority::DLOG_WARN,
        Level::Info => log_priority::DLOG_INFO,
        Level::Debug => log_priority::DLOG_DEBUG,
        Level::Trace => log_priority::DLOG_VERBOSE,
    }
}

/// Map a record level onto a dlog priority.
pub fn level_to_priority(level: Level) -> (r: log_priority)
    ensures
        r == priority_of_level(level),
{
    match level {
        Level::Error => log_priority::DLOG_ERROR,
        Level::Warn => log_priority::DLOG_WARN,
        Level::Info => log_priority::DLOG_INFO,
        Level::Debug => log_priority::DLOG_DEBUG,
        Level::Trace => log_priority::DLOG_VERBOSE,
    }
}

/// The minimum priority dlog keeps for a logger filtering at `filter`.
pub open spec fn priority_of_filter(filter: LevelFilter) -> log_priority {
    match filter {
        LevelFilter::Off => log_priority::DLOG_SILENT,
        LevelFilter::Error => log_priority::DLOG_ERROR,
        LevelFilter::Warn => log_priority::DLOG_WARN,
        LevelFilter::Info => log_priority::DLOG_INFO,
        LevelFilter::Debug => log_priority::DLOG_DEBUG,
        LevelFilter::Trace => log_priority::DLOG_VERBOSE,
    }
}

/// Map a logger's filter onto the minimum dlog priority it lets through.
pub fn level_filter_to_priority(filter: LevelFilter) -> (r: log_priority)
    ensures
        r == priority_of_filter(filter),
{
    match filter {
        LevelFilter::Off => log_priority::DLOG_SILENT,
        LevelFilter::Error => log_priority::DLOG_ERROR,
        LevelFilter::Warn => log_priority::DLOG_WARN,
        LevelFilter::Info => log_priority::DLOG_INFO,
        LevelFilter::Debug => log_priority::DLOG_DEBUG,
        LevelFilter::Trace => log_priority::DLOG_VERBOSE,
    }
}

/// The one-letter level marker used on the standard-error fallback.
pub open spec fn letter_of_level(level: Level) -> char {
    match level {
        Level::Error => 'E',
        Level::Warn => 'W',
        Level::Info => 'I',
        Level::Debug => 'D',
        Level::Trace => 'V',
    }
}

/// The one-letter level marker used on the standard-error fallback.
pub fn level_letter(level: Level) -> (r: char)
    ensures
        r == letter_of_level(level),
{
    match level {
        Level::Error => 'E',
        Level::Warn => 'W',
        Level::Info => 'I',
        Level::Debug => 'D',
        Level::Trace => 'V',
    }
}

/// Whether a record at `level` passes a logger filtering at `filter`.
pub fn level_enabled(level: Level, filter: LevelFilter) -> (r: bool)
    ensures
        r == (level_rank(level) <= filter_rank(filter)),
{
    let l: u8 = match level {
        Level::Error => 1,
        Level::Warn => 2,
        Level::Info => 3,
        Level::Debug => 4,
        Level::Trace => 5,
    };
    let f: u8 = match filter {
        LevelFilter::Off => 0,
        LevelFilter::Error => 1,
        LevelFilter::Warn => 2,
        LevelFilter::Info => 3,
        LevelFilter::Debug => 4,
        LevelFilter::Trace => 5,
    };
    l <= f
}

/// What each filter lets through, filter by filter: `Off` nothing, `Error`
/// only errors, `Warn` errors and warnings, `Info` those and info, `Debug`
/// all but trace, `Trace` everything. Filters and levels are ranked in
/// the order Off < Error < Warn < Info < Debug < Trace, strictly.
pub proof fn lemma_filter_table(level: Level)
    ensures
        !(level_rank(level) <= filter_rank(LevelFilter::Off)),
        level_rank(level) <= filter_rank(LevelFilter::Error) <==> level == Level::Error,
        level_rank(level) <= filter_rank(LevelFilter::Warn) <==> (level == Level::Error || level
            == Level::Warn),
        level_rank(level) <= filter_rank(LevelFilter::Info) <==> (level == Level::Error || level
            == Level::Warn || level == Level::Info),
        level_rank(level) <= filter_rank(LevelFilter::Debug) <==> level != Level::Trace,
        level_rank(level) <= filter_rank(LevelFilter::Trace),
        filter_rank(LevelFilter::Off) < filter_rank(LevelFilter::Error) < filter_rank(LevelFilter::Warn)
            < filter_rank(LevelFilter::Info) < filter_rank(LevelFilter::Debug) < filter_rank(
            LevelFilter::Trace),
        level_rank(Level::Error) < level_rank(Level::Warn) < level_rank(Level::Info) < level_rank(
            Level::Debug) < level_rank(Level::Trace),
{
}

/// The C values of `log_priority` (`DLOG_UNKNOWN` 0 up to `DLOG_SILENT` 8,
/// in declaration order) and of `log_id_t` (`LOG_ID_INVALID` -1, then
/// `LOG_ID_MAIN` 0 up to `LOG_ID_SYSLOG` 5).
pub proof fn lemma_dlog_codes()
    ensures
        priority_code(log_priority::DLOG_UNKNOWN) == 0,
        priority_code(log_priority::DLOG_DEFAULT) == 1,
        priority_code(log_priority::DLOG_VERBOSE) == 2,
        priority_code(log_priority::DLOG_DEBUG) == 3,
        priority_code(log_priority::DLOG_INFO) == 4,
        priority_code(log_priority::DLOG_WARN) == 5,
        priority_code(log_priority::DLOG_ERROR) == 6,
        priority_code(log_priority::DLOG_FATAL) == 7,
        priority_code(log_priority::DLOG_SILENT) == 8,
        log_id_code(log_id_t::LOG_ID_INVALID) == -1,
        log_id_code(log_id_t::LOG_ID_MAIN) == 0,
        log_id_code(log_id_t::LOG_ID_RADIO) == 1,
        log_id_code(log_id_t::LOG_ID_SYSTEM) == 2,
        log_id_code(log_id_t::LOG_ID_APPS) == 3,
        log_id_code(log_id_t::LOG_ID_KMSG) == 4,
        log_id_code(log_id_t::LOG_ID_SYSLOG) == 5,
{
}

/// Levels, filters, priorities and letters agree: a logger filtering at
/// `filter` forwards a record exactly when the record's dlog priority is at
/// least the minimum priority of the filter; each level has its own
/// priority, from Verbose for trace up to Error for errors, and its own
/// letter (E, W, I, D, V).
pub proof fn lemma_levels_and_priorities(level: Level, filter: LevelFilter)
    ensures
        (level_rank(level) <= filter_rank(filter)) <==> priority_code(priority_of_level(level))
            >= priority_code(priority_of_filter(filter)),
        priority_of_level(level) == log_priority::DLOG_ERROR <==> level == Level::Error,
        priority_of_level(level) == log_priority::DLOG_WARN <==> level == Level::Warn,
        priority_of_level(level) == log_priority::DLOG_INFO <==> level == Level::Info,
        priority_of_level(level) == log_priority::DLOG_DEBUG <==> level == Level::Debug,
        priority_of_level(level) == log_priority::DLOG_VERBOSE <==> level == Level::Trace,
        priority_of_filter(filter) == log_priority::DLOG_SILENT <==> filter == LevelFilter::Off,
        letter_of_level(level) == 'E' <==> level == Level::Error,
        letter_of_level(level) == 'W' <==> level == Level::Warn,
        letter_of_level(level) == 'I' <==> level == Level::Info,
        letter_of_level(level) == 'D' <==> level == Level::Debug,
        letter_of_level(level) == 'V' <==> level == Level::Trace,
{
}

/// A filter that lets a level through lets every more severe level
/// through, and `Off` lets nothing through.
pub proof fn lemma_filter_monotone(a: Level, b: Level, filter: LevelFilter)
    ensures
        level_rank(a) <= level_rank(b) && level_rank(b) <= filter_rank(filter) ==> level_rank(a)
            <= filter_rank(filter),
        filter == LevelFilter::Off ==> !(level_rank(a) <= filter_rank(filter)),
{
}

/// `s` with every NUL character replaced by a space.
pub open spec fn sanitised(s: Seq<char>) -> Seq<char> {
    s.map_values(|c: char| if c == '\0' { ' ' } else { c })
}

/// The text of the C string built from `s`: every interior NUL is replaced
/// by a space, so that the conversion to a C string cannot fail.
pub fn sanitise_to_cstring(s: &str) -> (r: String)
    ensures
        r@ == sanitised(s@),
        forall|i: int| 0 <= i < r@.len() ==> r@[i] != '\0',
{
    let mut out = String::new();
    for c in it: s.chars()
        invariant
            it.seq() == s@,
            out@ == sanitised(s@.subrange(0, it.index())),
    {
        let ghost k = it.index();
        assert(c == s@[k]);
        if c == '\0' {
            push_char(&mut out, ' ');
        } else {
            push_char(&mut out, c);
        }
        assert(s@.subrange(0, k + 1) == s@.subrange(0, k).push(c));
        assert(out@ =~= sanitised(s@.subrange(0, k + 1)));
    }
    assert(s@.subrange(0, s@.len() as int) == s@);
    out
}

/// How to derive the dlog tag from a log record.
#[derive(Copy, Clone, Debug, PartialEq, Eq, Structural)]
pub enum TagStrategy {
    /// Use the record's target when it looks like an explicit override
    /// (non-empty and free of `::`), otherwise the configured default tag.
    TargetThenDefault,
    /// Always use the configured default tag.
    AlwaysDefault,
    /// Always use the record's target.
    AlwaysTarget,
}

/// `s[i]` and `s[i + 1]` are both `:`.
pub open spec fn colon_pair_at(s: Seq<char>, i: int) -> bool {
    0 <= i && i + 1 < s.len() && s[i] == ':' && s[i + 1] == ':'
}

/// `s` holds two consecutive `:` characters somewhere.
pub open spec fn has_path_separator(s: Seq<char>) -> bool {
    exists|i: int| #[trigger] colon_pair_at(s, i)
}

/// Whether the default tag (rather than the target) names the record.
pub open spec fn uses_default_tag(strategy: TagStrategy, target: Seq<char>) -> bool {
    match strategy {
        TagStrategy::AlwaysDefault => true,
        TagStrategy::AlwaysTarget => false,
        TagStrategy::TargetThenDefault => target.len() == 0 || has_path_separator(target),
    }
}

fn contains_path_separator(s: &str) -> (r: bool)
    ensures
        r == has_path_separator(s@),
{
    let mut prev_colon = false;
    let mut found = false;
    for c in it: s.chars()
        invariant
            it.seq() == s@,
            found == (exists|i: int| i + 1 < it.index() && #[trigger] colon_pair_at(s@, i)),
            prev_colon == (it.index() > 0 && s@[it.index() - 1] == ':'),
    {
        let ghost k = it.index();
        assert(c == s@[k]);
        if c == ':' && prev_colon {
            assert(colon_pair_at(s@, k - 1));
            found = true;
        }
        assert(found == (exists|i: int| i + 1 < k + 1 && #[trigger] colon_pair_at(s@, i))) by {
            if exists|i: int| i + 1 < k + 1 && #[trigger] colon_pair_at(s@, i) {
                let i = choose|i: int| i + 1 < k + 1 && #[trigger] colon_pair_at(s@, i);
                if i + 1 == k {
                    assert(c == ':' && prev_colon);
                }
            }
        }
        prev_colon = c == ':';
    }
    found
}

/// Pick the dlog tag for a record with the given target.
pub fn resolve<'a>(strategy: TagStrategy, target: &'a str, default_tag: &'a str) -> (r: &'a str)
    ensures
        r@ == (if uses_default_tag(strategy, target@) { default_tag@ } else { target@ }),
{
    match strategy {
        TagStrategy::AlwaysDefault => default_tag,
        TagStrategy::AlwaysTarget => target,
        TagStrategy::TargetThenDefault => {
            if target.is_empty() || contains_path_separator(target) {
                default_tag
            } else {
                target
            }
        },
    }
}

/// Text free of NULs passes through the sanitiser unchanged, and
/// sanitising twice is sanitising once.
pub proof fn lemma_sanitise_clean_and_idempotent(s: Seq<char>)
    ensures
        (forall|i: int| 0 <= i < s.len() ==> s[i] != '\0') ==> sanitised(s) == s,
        sanitised(sanitised(s)) == sanitised(s),
{
    if forall|i: int| 0 <= i < s.len() ==> s[i] != '\0' {
        assert(sanitised(s) =~= s);
    }
    assert(sanitised(sanitised(s)) =~= sanitised(s));
}

/// Builder for [`DlogLogger`].
pub struct DlogLoggerBuilder {
    default_tag: String,
    level: LevelFilter,
    log_id: LogId,
    tag_strategy: TagStrategy,
}

impl DlogLoggerBuilder {
    /// Tag used when the record's target is not taken.
    pub closed spec fn tag_view(&self) -> Seq<char> {
        self.default_tag@
    }

    /// Filter the built logger applies.
    pub closed spec fn level_view(&self) -> LevelFilter {
        self.level
    }

    /// Buffer the built logger writes to.
    pub closed spec fn log_id_view(&self) -> LogId {
        self.log_id
    }

    /// Tag strategy of the built logger.
    pub closed spec fn strategy_view(&self) -> TagStrategy {
        self.tag_strategy
    }
}

impl Default for DlogLoggerBuilder {
    /// Default tag `"RUST"`, level `Info`, the main buffer, and
    /// [`TagStrategy::TargetThenDefault`].
    fn default() -> (r: Self)
        ensures
            r.tag_view() == "RUST"@,
            r.level_view() == LevelFilter::Info,
            r.log_id_view() == log_id_t::LOG_ID_MAIN,
            r.strategy_view() == TagStrategy::TargetThenDefault,
    {
        DlogLoggerBuilder {
            default_tag: String::from_str("RUST"),
            level: LevelFilter::Info,
            log_id: log_id_t::LOG_ID_MAIN,
            tag_strategy: TagStrategy::TargetThenDefault,
        }
    }
}

impl DlogLoggerBuilder {
    /// Tag used when the record's target is not taken (see [`TagStrategy`]).
    pub fn default_tag(self, tag: &str) -> (r: Self)
        ensures
            r.tag_view() == tag@,
            r.level_view() == self.level_view(),
            r.log_id_view() == self.log_id_view(),
            r.strategy_view() == self.strategy_view(),
    {
        DlogLoggerBuilder { default_tag: String::from_str(tag), ..self }
    }

    /// Most verbose level to forward.
    pub fn level(self, level: LevelFilter) -> (r: Self)
        ensures
            r.tag_view() == self.tag_view(),
            r.level_view() == level,
            r.log_id_view() == self.log_id_view(),
            r.strategy_view() == self.strategy_view(),
    {
        DlogLoggerBuilder { level, ..self }
    }

    /// Which dlog buffer to write to.
    pub fn log_id(self, id: LogId) -> (r: Self)
        ensures
            r.tag_view() == self.tag_view(),
            r.level_view() == self.level_view(),
            r.log_id_view() == id,
            r.strategy_view() == self.strategy_view(),
    {
        DlogLoggerBuilder { log_id: id, ..self }
    }

    /// How to derive the dlog tag from each record.
    pub fn tag_strategy(self, s: TagStrategy) -> (r: Self)
        ensures
            r.tag_view() == self.tag_view(),
            r.level_view() == self.level_view(),
            r.log_id_view() == self.log_id_view(),
            r.strategy_view() == s,
    {
        DlogLoggerBuilder { tag_strategy: s, ..self }
    }

    /// Build the logger; its default tag is the configured one with NULs
    /// replaced by spaces.
    pub fn build(self) -> (r: DlogLogger)
        ensures
            r.tag_view() == sanitised(self.tag_view()),
            r.level_view() == self.level_view(),
            r.log_id_view() == self.log_id_view(),
            r.strategy_view() == self.strategy_view(),
    {
        DlogLogger {
            default_tag: sanitise_to_cstring(self.default_tag.as_str()),
            level: self.level,
            log_id: self.log_id,
            tag_strategy: self.tag_strategy,
        }
    }
}

/// A logger that forwards records to Tizen's dlog system.
pub struct DlogLogger {
    default_tag: String,
    level: LevelFilter,
    log_id: LogId,
    tag_strategy: TagStrategy,
}

/// Where one record goes: the tag it is filed under, its dlog priority and
/// the letter that marks it on the standard-error fallback.
pub struct LogRoute {
    pub tag: String,
    pub priority: log_priority,
    pub letter: char,
}

impl DlogLogger {
    /// Start a builder with the defaults.
    pub fn builder() -> (r: DlogLoggerBuilder)
        ensures
            r.tag_view() == "RUST"@,
            r.level_view() == LevelFilter::Info,
            r.log_id_view() == log_id_t::LOG_ID_MAIN,
            r.strategy_view() == TagStrategy::TargetThenDefault,
    {
        DlogLoggerBuilder::default()
    }

    /// The logger's default tag, free of NULs.
    pub closed spec fn tag_view(&self) -> Seq<char> {
        self.default_tag@
    }

    /// The logger's filter.
    pub closed spec fn level_view(&self) -> LevelFilter {
        self.level
    }

    /// The logger's dlog buffer.
    pub closed spec fn log_id_view(&self) -> LogId {
        self.log_id
    }

    /// The logger's tag strategy.
    pub closed spec fn strategy_view(&self) -> TagStrategy {
        self.tag_strategy
    }

    /// The default tag, as sanitised at build time.
    pub fn default_tag(&self) -> (r: &str)
        ensures
            r@ == self.tag_view(),
    {
        self.default_tag.as_str()
    }

    /// The logger's filter.
    pub fn level(&self) -> (r: LevelFilter)
        ensures
            r == self.level_view(),
    {
        self.level
    }

    /// The dlog buffer the logger writes to.
    pub fn log_id(&self) -> (r: LogId)
        ensures
            r == self.log_id_view(),
    {
        self.log_id
    }

    /// The logger's tag strategy.
    pub fn tag_strategy(&self) -> (r: TagStrategy)
        ensures
            r == self.strategy_view(),
    {
        self.tag_strategy
    }

    /// Whether a record at `level` is forwarded.
    pub fn enabled(&self, level: Level) -> (r: bool)
        ensures
            r == (level_rank(level) <= filter_rank(self.level_view())),
    {
        level_enabled(level, self.level)
    }

    /// Decide what becomes of a record: `None` when the filter drops it,
    /// otherwise its tag, priority and fallback letter.
    pub fn route(&self, level: Level, target: &str) -> (r: Option<LogRoute>)
        ensures
            r is None <==> !(level_rank(level) <= filter_rank(self.level_view())),
            r matches Some(route) ==> {
                &&& route.tag@ == (if uses_default_tag(self.strategy_view(), target@) {
                    self.tag_view()
                } else {
                    target@
                })
                &&& route.priority == priority_of_level(level)
                &&& route.letter == letter_of_level(level)
            },
    {
        if !self.enabled(level) {
            return None;
        }
        let tag = resolve(self.tag_strategy, target, self.default_tag.as_str());
        Some(LogRoute {
            tag: String::from_str(tag),
            priority: level_to_priority(level),
            letter: level_letter(level),
        })
    }
}

} // verus!
