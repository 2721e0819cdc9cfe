//! The layer: span metadata capture, the last-rendered-span cursor, and the
//! tree-diff renderer that reprints only the divergent part of a span chain.

use rand::Rng;
use rand::SeedableRng;
use std::collections::HashMap;
use vstd::prelude::*;
use vstd::string::StringExecFns;

use crate::output::Output;
use crate::render::opt_view;
use crate::render::push_error_line;
use crate::render::push_event_line;
use crate::render::push_span_line;
use crate::render::recs_view;
use crate::render::spec_error_line;
use crate::render::spec_event_line;
use crate::render::spec_span_line;
use crate::render::Level;

verus! {

broadcast use vstd::std_specs::hash::group_hash_axioms;

/// What the layer reads of one span in an ancestor chain: the host's span id
/// and the span's static metadata. Host span ids are never zero; zero is the
/// cursor's "no span" sentinel.
pub struct SpanRef {
    pub id: u64,
    pub target: String,
    pub name: String,
}

/// Per-span metadata, captured once when the span is created and immutable
/// afterwards except for the one-shot `new` flag.
pub struct SpanInfo {
    /// Small cosmetic display id, rendered as four hex digits.
    pub id: u16,
    /// Timestamp rendered at creation time, when timestamps are enabled.
    pub date_time: Option<String>,
    /// The fields captured at creation, in order, already rendered to text.
    pub records: Vec<(String, String)>,
    /// Whether this span has never been rendered yet.
    pub new: bool,
}

/// The mathematical view of [`SpanInfo`].
pub ghost struct SpanInfoV {
    pub id: u16,
    pub date_time: Option<Seq<char>>,
    pub records: Seq<(Seq<char>, Seq<char>)>,
    pub new: bool,
}

impl View for SpanInfo {
    type V = SpanInfoV;

    open spec fn view(&self) -> SpanInfoV {
        SpanInfoV {
            id: self.id,
            date_time: opt_view(self.date_time),
            records: recs_view(self.records@),
            new: self.new,
        }
    }
}

/// Relies on rand's `SmallRng` and `Rng::random`: draws a fresh 16-bit
/// display id, seeding from the operating system; when the OS entropy source
/// fails (`try_from_os_rng` returns its error rather than panicking), a
/// fixed seed stands in — display ids are cosmetic and collisions are
/// acceptable. The value is random, so nothing is promised of it.
#[verifier::external_body]
fn random_display_id() -> u16 {
    match rand::rngs::SmallRng::try_from_os_rng() {
        Ok(mut rng) => rng.random(),
        Err(_) => rand::rngs::SmallRng::seed_from_u64(0).random(),
    }
}

/// Relies on std's `SystemTime::now`, chrono's `From<SystemTime>` conversion
/// (which handles clocks before 1970 without panicking, unlike `Utc::now`),
/// and chrono's strftime-style formatting: renders the current wall-clock
/// time as `year-month-day hour:minute:second`. The value depends on the
/// clock, so nothing is promised of it.
#[verifier::external_body]
fn now_timestamp() -> String {
    let now: chrono::DateTime<chrono::Utc> = std::time::SystemTime::now().into();
    now.format("%Y-%m-%d %H:%M:%S").to_string()
}

impl SpanInfo {
    /// Captures metadata for a just-created span: a random display id, a
    /// creation timestamp when `timestamp` is enabled, the rendered fields in
    /// capture order, and the unseen flag set.
    pub fn new(records: Vec<(String, String)>, timestamp: bool) -> (r: SpanInfo)
        ensures
            r@.records == recs_view(records@),
            r@.new == true,
            r@.date_time is Some <==> timestamp,
    {
        SpanInfo {
            id: random_display_id(),
            date_time: if timestamp {
                Some(now_timestamp())
            } else {
                None
            },
            records,
            new: true,
        }
    }
}

/// The mathematical view of the span metadata store.
pub open spec fn infos_of(m: Map<u64, SpanInfo>) -> Map<u64, SpanInfoV> {
    m.map_values(|i: SpanInfo| i@)
}

/// `info` with its unseen flag consumed.
pub open spec fn seen(info: SpanInfoV) -> SpanInfoV {
    SpanInfoV { new: false, ..info }
}

/// A span's header line as rendered from its chain entry and metadata, with
/// `was_new` the unseen flag as read before it was cleared.
pub open spec fn spec_span_entry(
    s: SpanRef,
    info: SpanInfoV,
    was_new: bool,
    depth: nat,
    multiline: bool,
) -> Seq<char> {
    spec_span_line(
        s.target@,
        s.name@,
        info.records,
        info.id,
        info.date_time,
        was_new,
        depth,
        multiline,
    )
}

/// What rendering the ancestor chain `chain[0..=j]` (root first) does, given
/// the metadata store and the cursor: the text emitted, and the store after
/// the unseen flags of the visited spans are consumed.
///
/// Walking up from the leaf, each span's unseen flag is read and cleared; a
/// span whose id equals the cursor and whose flag was already clear stops the
/// walk (it and, inductively, everything above it was the last thing shown);
/// a span without metadata renders an error placeholder and stops the walk;
/// every other span renders its header below its ancestors'.
pub open spec fn spec_render_chain(
    chain: Seq<SpanRef>,
    infos: Map<u64, SpanInfoV>,
    cursor: u64,
    multiline: bool,
    j: int,
) -> (Seq<char>, Map<u64, SpanInfoV>)
    decreases j,
{
    let s = chain[j];
    if !infos.contains_key(s.id) {
        (spec_error_line(), infos)
    } else {
        let info = infos[s.id];
        let infos1 = infos.insert(s.id, seen(info));
        if s.id == cursor && !info.new {
            (Seq::<char>::empty(), infos1)
        } else if j <= 0 {
            (spec_span_entry(s, info, info.new, 0, multiline), infos1)
        } else {
            let rest = spec_render_chain(chain, infos1, cursor, multiline, j - 1);
            (rest.0 + spec_span_entry(s, info, info.new, j as nat, multiline), rest.1)
        }
    }
}

/// Rendering a whole chain; an empty chain renders nothing.
pub open spec fn spec_render_ancestors(
    chain: Seq<SpanRef>,
    infos: Map<u64, SpanInfoV>,
    cursor: u64,
    multiline: bool,
) -> (Seq<char>, Map<u64, SpanInfoV>) {
    if chain.len() == 0 {
        (Seq::<char>::empty(), infos)
    } else {
        spec_render_chain(chain, infos, cursor, multiline, chain.len() - 1)
    }
}

proof fn lemma_infos_insert(m: Map<u64, SpanInfo>, k: u64, v: SpanInfo)
    ensures
        infos_of(m.insert(k, v)) == infos_of(m).insert(k, v@),
{
    assert(infos_of(m.insert(k, v)) =~= infos_of(m).insert(k, v@));
}

proof fn lemma_infos_remove(m: Map<u64, SpanInfo>, k: u64)
    ensures
        infos_of(m.remove(k)) == infos_of(m).remove(k),
{
    assert(infos_of(m.remove(k)) =~= infos_of(m).remove(k));
}

/// Renders the part of `chain[0..=j]` that diverges from the cursor into
/// `out`, consuming the unseen flags of the visited spans.
fn render_chain(
    spans: &mut HashMap<u64, SpanInfo>,
    out: &mut String,
    chain: &Vec<SpanRef>,
    j: usize,
    cursor: u64,
    multiline: bool,
)
    requires
        j < chain@.len(),
        2 * chain@.len() + 22 <= usize::MAX,
    ensures
        ({
            let r = spec_render_chain(chain@, infos_of(old(spans)@), cursor, multiline, j as int);
            &&& final(out)@ == old(out)@ + r.0
            &&& infos_of(final(spans)@) == r.1
        }),
    decreases j,
{
    let id = chain[j].id;
    match spans.remove(&id) {
        None => {
            proof {
                assert(!old(spans)@.contains_key(id));
                assert(spans@ =~= old(spans)@);
                assert(!infos_of(old(spans)@).contains_key(id));
                assert(infos_of(spans@) == infos_of(old(spans)@));
            }
            push_error_line(out);
        },
        Some(mut info) => {
            proof {
                assert(old(spans)@.contains_key(id) && old(spans)@[id] == info);
                assert(infos_of(old(spans)@)[id] == info@);
                lemma_infos_remove(old(spans)@, id);
            }
            let was_new = info.new;
            // render this span's own line into a scratch buffer first, so the
            // store is back in place before recursing
            let mut line = String::new();
            push_span_line(
                &mut line,
                &chain[j].target,
                &chain[j].name,
                &info.records,
                info.id,
                &info.date_time,
                was_new,
                j,
                multiline,
            );
            proof {
                assert(line@ == spec_span_entry(
                    chain@[j as int],
                    infos_of(old(spans)@)[id],
                    was_new,
                    j as nat,
                    multiline,
                ));
            }
            info.new = false;
            proof {
                assert(info@ == seen(infos_of(old(spans)@)[id]));
            }
            let _ = spans.insert(id, info);
            proof {
                lemma_infos_insert(old(spans)@.remove(id), id, info);
                assert(infos_of(spans@) =~= infos_of(old(spans)@).insert(id, info@));
            }
            if id != cursor || was_new {
                if j > 0 {
                    render_chain(spans, out, chain, j - 1, cursor, multiline);
                }
                out.append(line.as_str());
            }
        },
    }
}

/// The configuration and the sink of a layer are never changed by a
/// lifecycle call.
pub open spec fn same_config<O: Output>(pre: Layer<O>, post: Layer<O>) -> bool {
    &&& post.output == pre.output
    &&& post.log_spans == pre.log_spans
    &&& post.multiline == pre.multiline
    &&& post.timestamp == pre.timestamp
}

/// What reacting to span creation does: metadata for the new span (the leaf
/// of `chain`) is recorded unless already present; when span logging is
/// enabled, the divergent part of the chain is rendered and the cursor moves
/// to the new span.
pub open spec fn spec_on_new_span<O: Output>(
    pre: Layer<O>,
    chain: Seq<SpanRef>,
    info: SpanInfoV,
    post: Layer<O>,
    r: Seq<char>,
) -> bool {
    &&& same_config(pre, post)
    &&& if chain.len() == 0 {
        &&& post.infos() == pre.infos()
        &&& post.last_span == pre.last_span
        &&& r == Seq::<char>::empty()
    } else {
        let id = chain.last().id;
        let m1 = if pre.infos().contains_key(id) {
            pre.infos()
        } else {
            pre.infos().insert(id, info)
        };
        if pre.log_spans {
            let res = spec_render_chain(chain, m1, pre.last_span, pre.multiline, chain.len() - 1);
            &&& post.infos() == res.1
            &&& post.last_span == id
            &&& r == res.0
        } else {
            &&& post.infos() == m1
            &&& post.last_span == pre.last_span
            &&& r == Seq::<char>::empty()
        }
    }
}

/// What reacting to an event does: the divergent ancestors of the event's
/// span (the leaf of `chain`) are rendered, the cursor moves to that span (or
/// to none), and the event line is rendered one level below its span's
/// header.
pub open spec fn spec_on_event<O: Output>(
    pre: Layer<O>,
    chain: Seq<SpanRef>,
    level: Level,
    fields: Seq<(String, String)>,
    ts: Option<Seq<char>>,
    post: Layer<O>,
    r: Seq<char>,
) -> bool {
    let res = spec_render_ancestors(chain, pre.infos(), pre.last_span, pre.multiline);
    &&& same_config(pre, post)
    &&& post.infos() == res.1
    &&& post.last_span == if chain.len() > 0 {
        chain.last().id
    } else {
        0u64
    }
    &&& r == res.0 + spec_event_line(level, recs_view(fields), ts, chain.len(), pre.multiline)
}

/// A layer that renders each event below the divergent part of its span
/// hierarchy, writing to an [`Output`].
pub struct Layer<O: Output> {
    /// The destination for rendered records.
    pub output: O,
    /// Render every span when it is created, not only when an event occurs.
    pub log_spans: bool,
    /// Render each field on its own line.
    pub multiline: bool,
    /// Render a wall-clock timestamp on each line.
    pub timestamp: bool,
    /// The cursor: the id of the span most recently rendered, or zero.
    pub last_span: u64,
    /// The metadata store, keyed by host span id.
    pub spans: HashMap<u64, SpanInfo>,
}

impl<O: Output> Layer<O> {
    /// The mathematical view of the metadata store.
    pub open spec fn infos(self) -> Map<u64, SpanInfoV> {
        infos_of(self.spans@)
    }

    /// Creates a layer over `output` with the given options, timestamps
    /// enabled, no metadata recorded, and no span rendered yet.
    pub fn new(output: O, log_spans: bool, multiline: bool) -> (l: Layer<O>)
        ensures
            l.output == output,
            l.log_spans == log_spans,
            l.multiline == multiline,
            l.timestamp == true,
            l.last_span == 0,
            l.infos() == Map::<u64, SpanInfoV>::empty(),
    {
        let l = Layer {
            output,
            log_spans,
            multiline,
            timestamp: true,
            last_span: 0,
            spans: HashMap::new(),
        };
        proof {
            assert(l.infos() =~= Map::<u64, SpanInfoV>::empty());
        }
        l
    }

    /// Creates a new [`Builder`] using `output` as the [`Output`].
    pub fn builder(output: O) -> (b: Builder<O, false, false, true>)
        ensures
            b.0 == output,
    {
        Builder(output)
    }

    /// Reacts to span creation, with the metadata to record handed in:
    /// records it for the new span (the leaf of `chain`, which is given root
    /// first) unless some is already present; then, when span logging is
    /// enabled, renders the divergent part of the chain, moves the cursor to
    /// the new span, and writes the record to the output. Returns the
    /// rendered text. An empty chain means the host knows no such span, and
    /// nothing happens.
    pub fn on_new_span_with(&mut self, chain: &Vec<SpanRef>, info: SpanInfo) -> (r: String)
        requires
            2 * chain@.len() + 22 <= usize::MAX,
        ensures
            spec_on_new_span(*old(self), chain@, info@, *final(self), r@),
    {
        let mut r = String::new();
        if chain.len() == 0 {
            return r;
        }
        let id = chain[chain.len() - 1].id;
        if !self.spans.contains_key(&id) {
            let ghost pre = self.spans@;
            let _ = self.spans.insert(id, info);
            proof {
                lemma_infos_insert(pre, id, info);
            }
        }
        if self.log_spans {
            let cursor = self.last_span;
            render_chain(&mut self.spans, &mut r, chain, chain.len() - 1, cursor, self.multiline);
            self.last_span = id;
            self.output.write_record(&r);
        }
        r
    }

    /// Reacts to span creation: captures metadata for the new span (a fresh
    /// display id, the rendered fields, and a creation timestamp when
    /// enabled), then renders the span when span logging is enabled.
    pub fn on_new_span(&mut self, chain: &Vec<SpanRef>, records: Vec<(String, String)>) -> (r:
        String)
        requires
            2 * chain@.len() + 22 <= usize::MAX,
        ensures
            exists|info: SpanInfoV|
                {
                    &&& #[trigger] spec_on_new_span(*old(self), chain@, info, *final(self), r@)
                    &&& info.records == recs_view(records@)
                    &&& info.new == true
                    &&& info.date_time is Some <==> old(self).timestamp
                },
    {
        let timestamp = self.timestamp;
        let info = SpanInfo::new(records, timestamp);
        let ghost iv = info@;
        let r = self.on_new_span_with(chain, info);
        proof {
            assert(spec_on_new_span(*old(self), chain@, iv, *self, r@));
        }
        r
    }

    /// Reacts to an event, with the rendered timestamp handed in: renders the
    /// divergent ancestors of the event's span (the leaf of `chain`), moves
    /// the cursor to that span (or to none for an event outside every span),
    /// renders the event line one level below its span's header, and writes
    /// the record to the output. Returns the rendered text.
    pub fn on_event_with(
        &mut self,
        chain: &Vec<SpanRef>,
        level: Level,
        fields: &Vec<(String, String)>,
        ts: Option<String>,
    ) -> (r: String)
        requires
            2 * chain@.len() + 22 <= usize::MAX,
        ensures
            spec_on_event(*old(self), chain@, level, fields@, opt_view(ts), *final(self), r@),
    {
        let mut r = String::new();
        if chain.len() > 0 {
            let cursor = self.last_span;
            render_chain(&mut self.spans, &mut r, chain, chain.len() - 1, cursor, self.multiline);
            self.last_span = chain[chain.len() - 1].id;
        } else {
            self.last_span = 0;
        }
        push_event_line(&mut r, level, fields, &ts, chain.len(), self.multiline);
        self.output.write_record(&r);
        r
    }

    /// Reacts to an event: renders the divergent ancestors of the event's
    /// span, the cursor moves to that span, and the event line is rendered
    /// below it, with a wall-clock timestamp when enabled.
    pub fn on_event(
        &mut self,
        chain: &Vec<SpanRef>,
        level: Level,
        fields: &Vec<(String, String)>,
    ) -> (r: String)
        requires
            2 * chain@.len() + 22 <= usize::MAX,
        ensures
            exists|ts: Option<Seq<char>>|
                {
                    &&& #[trigger] spec_on_event(
                        *old(self),
                        chain@,
                        level,
                        fields@,
                        ts,
                        *final(self),
                        r@,
                    )
                    &&& ts is Some <==> old(self).timestamp
                },
    {
        let ts = if self.timestamp {
            Some(now_timestamp())
        } else {
            None
        };
        let ghost tv = opt_view(ts);
        let r = self.on_event_with(chain, level, fields, ts);
        proof {
            assert(spec_on_event(*old(self), chain@, level, fields@, tv, *self, r@));
        }
        r
    }

    /// Reacts to span closure: when the cursor still points at the closing
    /// span, it retires to the span's parent, or to none for a root span, so
    /// that the next render treats the parent as what is currently displayed.
    pub fn on_close(&mut self, id: u64, parent: Option<u64>)
        ensures
            same_config(*old(self), *final(self)),
            final(self).infos() == old(self).infos(),
            final(self).last_span == if old(self).last_span == id {
                match parent {
                    Some(p) => p,
                    None => 0u64,
                }
            } else {
                old(self).last_span
            },
    {
        if self.last_span == id {
            self.last_span = match parent {
                Some(p) => p,
                None => 0,
            };
        }
    }

    /// Evicts the metadata recorded for span `id`, if any: an explicit hook
    /// for hosts whose closure notification should prune the store and bound
    /// its memory, mirroring a registry that drops a span's storage when the
    /// span closes. Only that one entry is removed; every other entry, the
    /// cursor and the configuration are untouched.
    pub fn evict(&mut self, id: u64)
        ensures
            same_config(*old(self), *final(self)),
            final(self).last_span == old(self).last_span,
            final(self).infos() == old(self).infos().remove(id),
    {
        let ghost pre = self.spans@;
        let _ = self.spans.remove(&id);
        proof {
            lemma_infos_remove(pre, id);
            assert(infos_of(self.spans@) =~= infos_of(pre).remove(id));
        }
    }
}

/// The builder for a [`Layer`], tracking in its type which options have been
/// set, so that each can be set at most once.
pub struct Builder<O: Output, const LOG_SPANS: bool, const MULTILINE: bool, const TIMESTAMP: bool>(
    pub O,
);

impl<O: Output, const MULTILINE: bool, const TIMESTAMP: bool> Builder<O, false, MULTILINE, TIMESTAMP> {
    /// Log spans on every entry, not only when an event occurs inside them.
    pub fn log_spans(self) -> (b: Builder<O, true, MULTILINE, TIMESTAMP>)
        ensures
            b.0 == self.0,
    {
        Builder(self.0)
    }
}

impl<O: Output, const LOG_SPANS: bool, const TIMESTAMP: bool> Builder<O, LOG_SPANS, false, TIMESTAMP> {
    /// Split the log fields into multiple lines.
    pub fn multiline(self) -> (b: Builder<O, LOG_SPANS, true, TIMESTAMP>)
        ensures
            b.0 == self.0,
    {
        Builder(self.0)
    }
}

impl<O: Output, const LOG_SPANS: bool, const MULTILINE: bool> Builder<O, LOG_SPANS, MULTILINE, true> {
    /// Omit the timestamp in the log; useful to avoid noise under hosts that
    /// add their own.
    pub fn omit_timestamp(self) -> (b: Builder<O, LOG_SPANS, MULTILINE, false>)
        ensures
            b.0 == self.0,
    {
        Builder(self.0)
    }
}

impl<O: Output, const LOG_SPANS: bool, const MULTILINE: bool, const TIMESTAMP: bool> Builder<
    O,
    LOG_SPANS,
    MULTILINE,
    TIMESTAMP,
> {
    /// Constructs the final [`Layer`] instance with the options provided.
    pub fn build(self) -> (l: Layer<O>)
        ensures
            l.output == self.0,
            l.log_spans == LOG_SPANS,
            l.multiline == MULTILINE,
            l.timestamp == TIMESTAMP,
            l.last_span == 0,
            l.infos() == Map::<u64, SpanInfoV>::empty(),
    {
        let l = Layer {
            output: self.0,
            log_spans: LOG_SPANS,
            multiline: MULTILINE,
            timestamp: TIMESTAMP,
            last_span: 0,
            spans: HashMap::new(),
        };
        proof {
            assert(l.infos() =~= Map::<u64, SpanInfoV>::empty());
        }
        l
    }
}

} // verus!
