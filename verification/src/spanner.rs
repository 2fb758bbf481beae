//! The emitter, the span handle and the line rendering.

use std::io::Write;
use std::sync::Mutex;
use std::sync::atomic::AtomicUsize;
use std::sync::atomic::Ordering;
use vstd::prelude::*;
use vstd::string::StringExecFns;

use crate::config::Config;
use crate::config::default_config;
use crate::config::glyph_at;
use crate::level::Level;

verus! {

#[verifier::external_type_specification]
#[verifier::external_body]
#[verifier::reject_recursive_types(T)]
pub struct ExMutex<T: ?Sized>(Mutex<T>);

#[verifier::external_type_specification]
#[verifier::external_body]
pub struct ExStdout(std::io::Stdout);

#[verifier::external_type_specification]
#[verifier::external_body]
pub struct ExArguments<'a>(std::fmt::Arguments<'a>);

/// Relies on `std::fmt::format`: renders pre-built formatting arguments to
/// their textual form.
#[verifier::external_body]
fn format_arguments(args: std::fmt::Arguments<'_>) -> String {
    std::fmt::format(args)
}

/// An append-only destination for rendered lines.
///
/// Nothing is promised of an append: writes are best-effort, failures are
/// swallowed, and an implementation must serialize concurrent appends itself
/// and must never unwind — tracing never aborts the traced program.  The
/// default implementation discards the line.
pub trait Sink {
    /// Appends one rendered line to the destination, best-effort.
    fn append_line(&self, line: &String)
        opens_invariants none
        no_unwind
    {
    }
}

/// Relies on `std::sync::Mutex::new`: puts the buffer behind a lock, so
/// that concurrent appends are serialized.
#[verifier::external_body]
fn locked_buffer(buffer: Vec<u8>) -> Mutex<Vec<u8>> {
    Mutex::new(buffer)
}

/// Relies on `std::sync::Mutex::into_inner`: hands the buffer back,
/// recovering it from a poisoned lock as well.
#[verifier::external_body]
fn unlocked_buffer(buffer: Mutex<Vec<u8>>) -> Vec<u8> {
    match buffer.into_inner() {
        Ok(inner) => inner,
        Err(poisoned) => poisoned.into_inner(),
    }
}

/// Relies on `std::sync::Mutex::lock` and `std::io::Write::write`: takes
/// the lock for the duration of a single write and appends the line's
/// bytes to the buffer.  A poisoned lock is ignored, and a write to a
/// `Vec<u8>` never fails and never panics short of allocation failure,
/// which aborts.
#[verifier::external_body]
fn write_buffer(buffer: &Mutex<Vec<u8>>, line: &String)
    opens_invariants none
    no_unwind
{
    if let Ok(mut inner) = buffer.lock() {
        let _ = inner.write(line.as_bytes());
    }
}

/// Relies on `std::io::stdout`: a handle to the process standard output.
#[verifier::external_body]
fn stdout_handle() -> std::io::Stdout {
    std::io::stdout()
}

/// Relies on `std::io::Write::write` for `&Stdout`, which serializes
/// concurrent writers through the standard output's own lock; a failed or
/// short write is ignored.
#[verifier::external_body]
fn write_stdout(out: &std::io::Stdout, line: &String)
    opens_invariants none
    no_unwind
{
    let mut handle = out;
    let _ = handle.write(line.as_bytes());
}

/// A [`Sink`] collecting the rendered lines in a growable byte buffer.
pub struct BufferSink {
    buffer: Mutex<Vec<u8>>,
}

impl BufferSink {
    /// An empty buffer sink.
    #[must_use]
    pub fn new() -> Self {
        BufferSink { buffer: locked_buffer(Vec::new()) }
    }

    /// A buffer sink appending to an existing vector.
    #[must_use]
    pub fn from_vec(vec: Vec<u8>) -> Self {
        BufferSink { buffer: locked_buffer(vec) }
    }

    /// Hands the accumulated bytes back.
    pub fn into_inner(self) -> Vec<u8> {
        unlocked_buffer(self.buffer)
    }
}

impl Sink for BufferSink {
    /// Appends the line's bytes to the buffer, under its lock.
    fn append_line(&self, line: &String) {
        write_buffer(&self.buffer, line)
    }
}

/// A [`Sink`] writing to the process standard output.
pub struct StdoutSink {
    out: std::io::Stdout,
}

impl StdoutSink {
    /// A sink over the process standard output.
    #[must_use]
    pub fn new() -> Self {
        StdoutSink { out: stdout_handle() }
    }
}

impl Sink for StdoutSink {
    /// Appends the line's bytes to the standard output.
    fn append_line(&self, line: &String) {
        write_stdout(&self.out, line)
    }
}

/// Relies on `std::sync::atomic::AtomicUsize::fetch_sub`: atomically
/// decrements the shared depth counter (wrapping on underflow) and never
/// unwinds, so it can be called while a span handle is dropped.
#[verifier::external_body]
fn depth_fetch_sub(depth: &AtomicUsize)
    opens_invariants none
    no_unwind
{
    depth.fetch_sub(1, Ordering::Relaxed);
}

/// A sequence of `n` blank characters (empty when `n` is negative).
pub open spec fn blanks(n: int) -> Seq<char> {
    Seq::new(if n <= 0 { 0 } else { n as nat }, |k: int| ' ')
}

/// Whether a bar or marker glyph is shown at depth `i`: never when `skip`
/// is 0, else at every multiple of `skip`.
pub open spec fn shows_bar(skip: int, i: int) -> bool {
    skip != 0 && i % skip == 0
}

/// One indentation column for depth `i`: the bar glyph or a blank, padded
/// with `tabwidth - 1` further blanks.  A column is never empty: `tabwidth`
/// of 0 still draws the glyph slot itself.
pub open spec fn column(cfg: Config, i: int) -> Seq<char> {
    seq![
        if shows_bar(cfg.skip as int, i) {
            glyph_at(cfg.depthmap@, i)
        } else {
            ' '
        },
    ] + blanks(cfg.tabwidth as int - 1)
}

/// The indentation prefix of a line at nesting depth `depth`: one column
/// for each depth level below it.
pub open spec fn indentation(cfg: Config, depth: int) -> Seq<char>
    decreases depth,
{
    if depth <= 0 {
        Seq::empty()
    } else {
        indentation(cfg, depth - 1) + column(cfg, depth - 1)
    }
}

/// A full rendered line: indentation, then the marker (or a blank in its
/// place, per the skip rule at `depth`), then the name, then a newline.
pub open spec fn rendered_line(cfg: Config, depth: int, marker: char, name: Seq<char>) -> Seq<char> {
    indentation(cfg, depth) + seq![
        if shows_bar(cfg.skip as int, depth) {
            marker
        } else {
            ' '
        },
    ] + name + seq!['\n']
}

/// The line written when a span at depth `depth` is entered.
pub open spec fn enter_line(cfg: Config, depth: int, name: Seq<char>) -> Seq<char> {
    rendered_line(cfg, depth, '┌', name)
}

/// The line written when a span at depth `depth` is released.
pub open spec fn exit_line(cfg: Config, depth: int, name: Seq<char>) -> Seq<char> {
    rendered_line(cfg, depth, '└', name)
}

/// The shared depth after a begin with level `level` at depth `d`: it is
/// incremented exactly when the span is emitted.
pub open spec fn depth_after_begin(cfg: Config, d: nat, level: Level) -> nat {
    if emits(cfg, level) {
        d + 1
    } else {
        d
    }
}

/// The shared depth after releasing a span with level `level` at depth `d`:
/// it is decremented exactly when the span was emitted.
pub open spec fn depth_after_release(cfg: Config, d: nat, level: Level) -> nat {
    if emits(cfg, level) && d > 0 {
        (d - 1) as nat
    } else {
        d
    }
}

/// The lines a begin at depth `d` writes to the sink.
pub open spec fn lines_on_begin(cfg: Config, d: nat, level: Level, name: Seq<char>) -> Seq<
    Seq<char>,
> {
    if emits(cfg, level) {
        seq![enter_line(cfg, d as int, name)]
    } else {
        Seq::empty()
    }
}

/// The lines the matching release writes to the sink, `d` being the same
/// pre-increment depth that labelled the begin.
pub open spec fn lines_on_release(cfg: Config, d: nat, level: Level, name: Seq<char>) -> Seq<
    Seq<char>,
> {
    if emits(cfg, level) {
        seq![exit_line(cfg, d as int, name)]
    } else {
        Seq::empty()
    }
}

/// The depth after beginning one span per level in `levels`, outermost
/// first, and releasing all of them in reverse order.
pub open spec fn depth_after_nested(cfg: Config, d: nat, levels: Seq<Level>) -> nat
    decreases levels.len(),
{
    if levels.len() == 0 {
        d
    } else {
        let inner = depth_after_nested(cfg, depth_after_begin(cfg, d, levels[0]), levels.skip(1));
        depth_after_release(cfg, inner, levels[0])
    }
}

/// The transcript of a fully emitted nested run: one span per name in
/// `names`, entered outermost first at depth `d`, each released in reverse
/// order after the spans within it.
pub open spec fn nested_lines(cfg: Config, d: nat, names: Seq<Seq<char>>) -> Seq<Seq<char>>
    decreases names.len(),
{
    if names.len() == 0 {
        Seq::empty()
    } else {
        seq![enter_line(cfg, d as int, names[0])] + nested_lines(cfg, d + 1, names.skip(1))
            + seq![exit_line(cfg, d as int, names[0])]
    }
}

/// A nested run of `n` spans emits `2 * n` lines: every span's enter line
/// has a matching exit line.
pub proof fn lemma_nested_lines_len(cfg: Config, d: nat, names: Seq<Seq<char>>)
    ensures
        nested_lines(cfg, d, names).len() == 2 * names.len(),
    decreases names.len(),
{
    if names.len() > 0 {
        lemma_nested_lines_len(cfg, d + 1, names.skip(1));
    }
}

/// Law: in a nested run the `j`-th emitted line is the enter line of the
/// `j`-th span at depth `d + j` on the way down, and the exit line of the
/// mirrored span at the mirrored depth on the way back up — so one and the
/// same depth labels a span's enter and its exit line, and, with
/// [`lemma_depth_indentation`], every emitted line carries exactly its
/// emission depth times `tabwidth` characters of indentation.
pub proof fn lemma_nested_lines_at(cfg: Config, d: nat, names: Seq<Seq<char>>, j: int)
    requires
        0 <= j < 2 * names.len(),
    ensures
        j < names.len() ==> nested_lines(cfg, d, names)[j] == enter_line(cfg, d + j, names[j]),
        names.len() <= j ==> nested_lines(cfg, d, names)[j] == exit_line(
            cfg,
            d + 2 * names.len() - 1 - j,
            names[2 * names.len() - 1 - j],
        ),
    decreases names.len(),
{
    lemma_nested_lines_len(cfg, d + 1, names.skip(1));
    if 0 < j < 2 * names.len() - 1 {
        lemma_nested_lines_at(cfg, d + 1, names.skip(1), j - 1);
    }
}

/// Law: entry and exit suppression always agree, so a release writes
/// exactly as many lines as its matching begin wrote — one each when the
/// span is emitted, none when it is suppressed — and a matched
/// begin/release pair leaves the shared depth exactly where it was.
pub proof fn lemma_balanced_pair(cfg: Config, d: nat, level: Level, name: Seq<char>)
    ensures
        lines_on_begin(cfg, d, level, name).len() == lines_on_release(cfg, d, level, name).len(),
        depth_after_release(cfg, depth_after_begin(cfg, d, level), level) == d,
{
}

/// Law: for any sequence of nested begins on one emitter, released in
/// reverse order, the depth returns to its pre-sequence value.
pub proof fn lemma_nested_balance(cfg: Config, d: nat, levels: Seq<Level>)
    ensures
        depth_after_nested(cfg, d, levels) == d,
    decreases levels.len(),
{
    if levels.len() > 0 {
        lemma_nested_balance(cfg, depth_after_begin(cfg, d, levels[0]), levels.skip(1));
    }
}

/// Law: a span whose level is below the configured minimum produces no
/// output and leaves the depth unchanged, both at entry and at release.
pub proof fn lemma_filtering(cfg: Config, d: nat, level: Level, name: Seq<char>)
    requires
        !emits(cfg, level),
    ensures
        lines_on_begin(cfg, d, level, name) == Seq::<Seq<char>>::empty(),
        lines_on_release(cfg, d, level, name) == Seq::<Seq<char>>::empty(),
        depth_after_begin(cfg, d, level) == d,
        depth_after_release(cfg, d, level) == d,
{
}

/// The indentation at depth `d` is `d` columns of `tabwidth` characters
/// each (for a positive `tabwidth`).
pub proof fn lemma_indentation_len(cfg: Config, d: int)
    requires
        1 <= cfg.tabwidth,
        0 <= d,
    ensures
        indentation(cfg, d).len() == d * cfg.tabwidth,
    decreases d,
{
    if d > 0 {
        lemma_indentation_len(cfg, d - 1);
        assert(indentation(cfg, d) == indentation(cfg, d - 1) + column(cfg, d - 1));
        assert((indentation(cfg, d - 1) + column(cfg, d - 1)).len() == indentation(
            cfg,
            d - 1,
        ).len() + column(cfg, d - 1).len());
        assert(column(cfg, d - 1).len() == cfg.tabwidth);
        assert((d - 1) * cfg.tabwidth + cfg.tabwidth == d * cfg.tabwidth) by (nonlinear_arith);
    } else {
        assert(0 * cfg.tabwidth == 0) by (nonlinear_arith);
    }
}

/// Law: a line rendered at depth `d` starts with exactly
/// `d * tabwidth` characters of indentation, and the enter line and the
/// exit line of one span — both rendered at the same pre-increment depth —
/// carry the same indentation.
pub proof fn lemma_depth_indentation(cfg: Config, d: int, name: Seq<char>)
    requires
        1 <= cfg.tabwidth,
        0 <= d,
    ensures
        indentation(cfg, d).len() == d * cfg.tabwidth,
        enter_line(cfg, d, name).subrange(0, d * cfg.tabwidth) == indentation(cfg, d),
        exit_line(cfg, d, name).subrange(0, d * cfg.tabwidth) == indentation(cfg, d),
{
    lemma_indentation_len(cfg, d);
    assert(enter_line(cfg, d, name).subrange(0, d * cfg.tabwidth) =~= indentation(cfg, d));
    assert(exit_line(cfg, d, name).subrange(0, d * cfg.tabwidth) =~= indentation(cfg, d));
}

/// Law: for `skip == s > 0`, the bar glyph appears exactly at the columns
/// whose depth index is a multiple of `s`, and every other indentation
/// character is blank; `skip == 0` shows no bar at any column.
pub proof fn lemma_skip_correctness(cfg: Config, d: int, i: int)
    requires
        1 <= cfg.tabwidth,
        0 <= i < d,
    ensures
        indentation(cfg, d)[i * cfg.tabwidth] == if shows_bar(cfg.skip as int, i) {
            glyph_at(cfg.depthmap@, i)
        } else {
            ' '
        },
        forall|k: int|
            i * cfg.tabwidth < k < (i + 1) * cfg.tabwidth ==> indentation(cfg, d)[k] == ' ',
    decreases d,
{
    lemma_indentation_len(cfg, d);
    lemma_indentation_len(cfg, d - 1);
    assert((i + 1) * cfg.tabwidth == i * cfg.tabwidth + cfg.tabwidth) by (nonlinear_arith);
    if i + 1 == d {
        assert(indentation(cfg, d) == indentation(cfg, d - 1) + column(cfg, i));
        assert(forall|k: int|
            i * cfg.tabwidth < k < (i + 1) * cfg.tabwidth ==> indentation(cfg, d)[k] == column(
                cfg,
                i,
            )[k - i * cfg.tabwidth] && column(cfg, i)[k - i * cfg.tabwidth] == ' ');
    } else {
        lemma_skip_correctness(cfg, d - 1, i);
        assert((i + 1) * cfg.tabwidth <= (d - 1) * cfg.tabwidth) by (nonlinear_arith)
            requires
                i + 1 <= d - 1,
                1 <= cfg.tabwidth,
        ;
        assert(forall|k: int|
            0 <= k < (d - 1) * cfg.tabwidth ==> indentation(cfg, d)[k] == indentation(
                cfg,
                d - 1,
            )[k]);
    }
}

/// Law: the marker slot of a line at depth `d` — the character right after
/// the indentation — holds the enter or exit marker exactly when `d` is a
/// multiple of a positive `skip`, and a blank otherwise.
pub proof fn lemma_marker_slot(cfg: Config, d: int, marker: char, name: Seq<char>)
    requires
        1 <= cfg.tabwidth,
        0 <= d,
    ensures
        rendered_line(cfg, d, marker, name)[d * cfg.tabwidth] == if shows_bar(
            cfg.skip as int,
            d,
        ) {
            marker
        } else {
            ' '
        },
{
    lemma_indentation_len(cfg, d);
}

/// Law: with `skip == 0` no glyph is drawn at all — every indentation
/// character is blank, and the marker slot after the indentation holds a
/// blank in place of the enter or exit marker.
pub proof fn lemma_skip_zero(cfg: Config, d: int, marker: char, name: Seq<char>)
    requires
        cfg.skip == 0,
        0 <= d,
    ensures
        forall|k: int|
            0 <= k < indentation(cfg, d).len() ==> #[trigger] indentation(cfg, d)[k] == ' ',
        rendered_line(cfg, d, marker, name)[indentation(cfg, d).len() as int] == ' ',
    decreases d,
{
    if d > 0 {
        lemma_skip_zero(cfg, d - 1, marker, name);
        assert(forall|k: int|
            0 <= k < column(cfg, d - 1).len() ==> #[trigger] column(cfg, d - 1)[k] == ' ');
        assert(forall|k: int|
            0 <= k < indentation(cfg, d).len() ==> #[trigger] indentation(cfg, d)[k] == ' ');
    }
}

/// Relies on `String::push`: appends one character at the end of the string.
#[verifier::external_body]
fn push_char(s: &mut String, c: char)
    ensures
        final(s)@ == old(s)@.push(c),
    no_unwind
{
    s.push(c);
}

/// Renders the enter and exit lines for a span named `name` at nesting
/// depth `depth`.
pub fn generate_messages(name: &str, depth: usize, cfg: &Config) -> (r: (String, String))
    ensures
        r.0@ == enter_line(*cfg, depth as int, name@),
        r.1@ == exit_line(*cfg, depth as int, name@),
{
    let mut spaces = String::new();
    let mut i: usize = 0;
    while i < depth
        invariant
            i <= depth,
            spaces@ == indentation(*cfg, i as int),
        decreases depth - i,
    {
        let shows = cfg.skip != 0 && i % cfg.skip == 0;
        let c = if shows { cfg.depth_glyph(i) } else { ' ' };
        push_char(&mut spaces, c);
        let pad = if cfg.tabwidth > 0 { cfg.tabwidth - 1 } else { 0 };
        let mut j: usize = 0;
        while j < pad
            invariant
                j <= pad,
                pad == if cfg.tabwidth > 0 { cfg.tabwidth - 1 } else { 0 },
                i < depth,
                c == (if shows_bar(cfg.skip as int, i as int) {
                    glyph_at(cfg.depthmap@, i as int)
                } else {
                    ' '
                }),
                spaces@ == indentation(*cfg, i as int).push(c) + blanks(j as int),
            decreases pad - j,
        {
            push_char(&mut spaces, ' ');
            proof {
                assert(blanks(j as int).push(' ') =~= blanks(j as int + 1));
                assert((indentation(*cfg, i as int).push(c) + blanks(j as int)).push(' ')
                    =~= indentation(*cfg, i as int).push(c) + blanks(j as int + 1));
            }
            j += 1;
        }
        proof {
            assert(spaces@ =~= indentation(*cfg, i as int) + column(*cfg, i as int));
        }
        i += 1;
    }
    let shows = cfg.skip != 0 && depth % cfg.skip == 0;
    let mut enter_message = spaces.clone();
    let mut drop_message = spaces;
    push_char(&mut enter_message, if shows { '┌' } else { ' ' });
    enter_message.append(name);
    push_char(&mut enter_message, '\n');
    push_char(&mut drop_message, if shows { '└' } else { ' ' });
    drop_message.append(name);
    push_char(&mut drop_message, '\n');
    proof {
        assert(enter_message@ =~= enter_line(*cfg, depth as int, name@));
        assert(drop_message@ =~= exit_line(*cfg, depth as int, name@));
    }
    (enter_message, drop_message)
}

/// Whether a span with level `level` is emitted at all under configuration
/// `cfg`: its level must be at least the configured minimum.  The same
/// decision governs entry and release of a span, so the two always agree.
pub open spec fn emits(cfg: Config, level: Level) -> bool {
    cfg.level.severity() <= level.severity()
}

/// A structure that generates spans and keeps track of the span depth.
///
/// The depth counter is shared by every active [`Span`] created from one
/// `Spanner`, and the sink is written under a lock, so a `Spanner` can be
/// shared across threads; no ordering of lines from unrelated concurrent
/// spans is promised, though.
pub struct Spanner<T> where T: Sink {
    writer: T,
    depth: AtomicUsize,
    config: Config,
}

impl<T> Spanner<T> where T: Sink {
    /// The active configuration.
    pub closed spec fn spec_config(&self) -> Config {
        self.config
    }

    /// The sink this spanner writes to.
    pub closed spec fn spec_writer(&self) -> T {
        self.writer
    }

    /// Creates a new `Spanner` with depth 0 and the default configuration,
    /// writing to the given sink.
    pub fn from_writer(writer: T) -> (spanner: Self)
        ensures
            default_config(spanner.spec_config()),
            spanner.spec_writer() == writer,
    {
        Spanner {
            writer,
            depth: AtomicUsize::new(0),
            config: Config::new(),
        }
    }

    /// Enters a span with `Level::Info`: see [`Spanner::enter_with_level`].
    pub fn enter_span(&self, name: &str) -> (span: Span<'_, T>)
        ensures
            span.spec_level() == Level::Info,
            span.spec_config() == self.spec_config(),
            emits(self.spec_config(), Level::Info) ==> exists|d: int|
                0 <= d && span.exit_text() == exit_line(self.spec_config(), d, name@),
            !emits(self.spec_config(), Level::Info) ==> span.exit_text() == Seq::<char>::empty(),
    {
        self.enter_with_level(Level::Info, name)
    }

    /// Enters a span with level `level`.  If `level` is below the configured
    /// minimum, nothing is written, the depth is untouched, and the returned
    /// handle does nothing on release (its exit text is empty).  Otherwise
    /// the shared depth is atomically incremented, an enter line for the
    /// pre-increment depth is written, and the returned handle carries the
    /// matching exit line for the same depth.
    pub fn enter_with_level(&self, level: Level, name: &str) -> (span: Span<'_, T>)
        ensures
            span.spec_level() == level,
            span.spec_config() == self.spec_config(),
            emits(self.spec_config(), level) ==> exists|d: int|
                0 <= d && span.exit_text() == exit_line(self.spec_config(), d, name@),
            !emits(self.spec_config(), level) ==> span.exit_text() == Seq::<char>::empty(),
    {
        Span::enter(self, level, name)
    }

    /// Does the same as [`Spanner::enter_with_level`], but takes pre-built
    /// `std::fmt::Arguments` as the span's name, to avoid an allocation at
    /// the caller where possible.  The arguments are opaque here, so only
    /// the shape of the exit line is promised, not its name text.
    pub fn enter_args(&self, level: Level, args: std::fmt::Arguments<'_>) -> (span: Span<'_, T>)
        ensures
            span.spec_level() == level,
            span.spec_config() == self.spec_config(),
            emits(self.spec_config(), level) ==> exists|d: int, n: Seq<char>|
                0 <= d && span.exit_text() == exit_line(self.spec_config(), d, n),
            !emits(self.spec_config(), level) ==> span.exit_text() == Seq::<char>::empty(),
    {
        let name = format_arguments(args);
        self.enter_with_level(level, name.as_str())
    }

    /// Sets a custom configuration for the spanner, consuming it and
    /// returning a new one with the same sink and depth state.
    #[must_use]
    pub fn with_config(self, cfg: Config) -> (spanner: Self)
        ensures
            spanner.spec_config() == cfg,
            spanner.spec_writer() == self.spec_writer(),
    {
        Spanner {
            config: cfg,
            ..self
        }
    }

    /// Hands the sink back, consuming the spanner.
    pub fn into_writer(self) -> (writer: T)
        ensures
            writer == self.spec_writer(),
    {
        self.writer
    }
}

/// A `Spanner` that writes to a `Vec` of bytes.
pub type VecSpanner = Spanner<BufferSink>;

impl VecSpanner {
    /// Creates a `VecSpanner` with an empty buffer and default values.
    #[must_use]
    pub fn new() -> (spanner: Self)
        ensures
            default_config(spanner.spec_config()),
    {
        Spanner::from_writer(BufferSink::new())
    }

    /// Creates a new `VecSpanner` appending to an existing vector.
    #[must_use]
    pub fn from_vec(vec: Vec<u8>) -> (spanner: Self)
        ensures
            default_config(spanner.spec_config()),
    {
        Spanner::from_writer(BufferSink::from_vec(vec))
    }
}

impl Default for VecSpanner {
    fn default() -> (spanner: Self)
        ensures
            default_config(spanner.spec_config()),
    {
        VecSpanner::new()
    }
}

/// A `Spanner` that writes to the standard output.
pub type StdoutSpanner = Spanner<StdoutSink>;

impl StdoutSpanner {
    /// Creates a `StdoutSpanner` with default values.
    #[must_use]
    pub fn new() -> (spanner: Self)
        ensures
            default_config(spanner.spec_config()),
    {
        Spanner::from_writer(StdoutSink::new())
    }
}

impl Default for StdoutSpanner {
    fn default() -> (spanner: Self)
        ensures
            default_config(spanner.spec_config()),
    {
        StdoutSpanner::new()
    }
}

/// A handle for one traced section of code.
///
/// It is created only by the emitter's begin operations and, when its scope
/// ends — however it ends — it writes its pre-rendered exit line and restores
/// the shared depth, exactly once.  A suppressed span (level below the
/// configured minimum) carries an empty exit text and does nothing on
/// release.  A `Span` is deliberately not cloneable: exactly one handle owns
/// the depth decrement for a given increment.
pub struct Span<'a, T> where T: Sink {
    parent: &'a Spanner<T>,
    drop_message: String,
    level: Level,
}

impl<'a, T> Span<'a, T> where T: Sink {
    /// The severity this span was created with.
    pub closed spec fn spec_level(&self) -> Level {
        self.level
    }

    /// The configuration of the emitter that created this span.
    pub closed spec fn spec_config(&self) -> Config {
        self.parent.config
    }

    /// The pre-rendered exit text written when this span is released.
    pub closed spec fn exit_text(&self) -> Seq<char> {
        self.drop_message@
    }

    /// Begins a span: decides emission, updates the shared depth, writes the
    /// enter line and pre-renders the exit line.
    fn enter(parent: &'a Spanner<T>, level: Level, name: &str) -> (span: Self)
        ensures
            span.spec_level() == level,
            span.spec_config() == parent.spec_config(),
            emits(parent.spec_config(), level) ==> exists|d: int|
                0 <= d && span.exit_text() == exit_line(parent.spec_config(), d, name@),
            !emits(parent.spec_config(), level) ==> span.exit_text() == Seq::<char>::empty(),
    {
        let mut drop_message = String::new();
        if level.at_least(parent.config.level) {
            let prev_depth = parent.depth.fetch_add(1, Ordering::Relaxed);
            let (enter_message, drop_msg) = generate_messages(name, prev_depth, &parent.config);
            drop_message = drop_msg;
            parent.writer.append_line(&enter_message);
            proof {
                assert(drop_message@ == exit_line(parent.spec_config(), prev_depth as int, name@));
            }
        }
        Span {
            parent,
            drop_message,
            level,
        }
    }
}

impl<'a, T> Drop for Span<'a, T> where T: Sink {
    /// Releases the span: iff it was emitted at entry (the suppression
    /// decision is re-taken against the same immutable configuration, so
    /// entry and release always agree), the shared depth is decremented and
    /// the pre-rendered exit line is written.
    fn drop(&mut self)
        opens_invariants none
        no_unwind
    {
        if self.level.at_least(self.parent.config.level) {
            depth_fetch_sub(&self.parent.depth);
            self.parent.writer.append_line(&self.drop_message);
        }
    }
}

} // verus!
