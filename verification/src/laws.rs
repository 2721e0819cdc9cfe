//! Laws of the tree-diff renderer: deduplication, divergence, the full
//! render when nothing is deduplicated, the corrected cursor after a close,
//! and the one-shot unseen flag.

use vstd::prelude::*;

use crate::layer::seen;
use crate::layer::spec_on_event;
use crate::layer::spec_on_new_span;
use crate::layer::spec_render_chain;
use crate::layer::spec_span_entry;
use crate::layer::Layer;
use crate::layer::SpanInfoV;
use crate::layer::SpanRef;
use crate::output::Output;
use crate::render::recs_view;
use crate::render::spec_event_line;
use crate::render::Level;

verus! {

/// Deduplication: when the span at position `j` of the chain is exactly the
/// one the cursor points at and its unseen flag is already clear, rendering
/// the chain up to `j` emits nothing and leaves the metadata store unchanged
/// — consecutive renders under the same span print its headers only once.
pub proof fn lemma_dedup(
    chain: Seq<SpanRef>,
    infos: Map<u64, SpanInfoV>,
    cursor: u64,
    multiline: bool,
    j: int,
)
    requires
        0 <= j < chain.len(),
        infos.contains_key(chain[j].id),
        chain[j].id == cursor,
        !infos[chain[j].id].new,
    ensures
        spec_render_chain(chain, infos, cursor, multiline, j).0 == Seq::<char>::empty(),
        spec_render_chain(chain, infos, cursor, multiline, j).1 == infos,
{
    assert(seen(infos[chain[j].id]) == infos[chain[j].id]);
    assert(infos.insert(chain[j].id, seen(infos[chain[j].id])) =~= infos);
}

/// Unseen flags only ever go out, never come back: rendering a chain
/// consumes the leaf's flag, and every entry of the resulting store either
/// has a clear flag or is exactly what it was before.
pub proof fn lemma_render_clears(
    chain: Seq<SpanRef>,
    infos: Map<u64, SpanInfoV>,
    cursor: u64,
    multiline: bool,
    j: int,
)
    requires
        0 <= j < chain.len(),
    ensures
        ({
            let res = spec_render_chain(chain, infos, cursor, multiline, j);
            &&& res.1.dom() == infos.dom()
            &&& (infos.contains_key(chain[j].id) ==> !res.1[chain[j].id].new)
            &&& forall|k: u64|
                res.1.contains_key(k) ==> (!(#[trigger] res.1[k]).new || res.1[k] == infos[k])
        }),
    decreases j,
{
    let res = spec_render_chain(chain, infos, cursor, multiline, j);
    let s = chain[j];
    if !infos.contains_key(s.id) {
    } else {
        let info = infos[s.id];
        let infos1 = infos.insert(s.id, seen(info));
        assert(infos1.dom() =~= infos.dom());
        if s.id == cursor && !info.new {
        } else if j <= 0 {
        } else {
            lemma_render_clears(chain, infos1, cursor, multiline, j - 1);
        }
    }
}

/// First render shows the first-time marker: when the span at position `j`
/// still carries its unseen flag, the chain's rendering ends with that
/// span's header line rendered as new (blank marker), below whatever its
/// ancestors contribute.
pub proof fn lemma_first_render_marker(
    chain: Seq<SpanRef>,
    infos: Map<u64, SpanInfoV>,
    cursor: u64,
    multiline: bool,
    j: int,
)
    requires
        0 <= j < chain.len(),
        infos.contains_key(chain[j].id),
        infos[chain[j].id].new,
    ensures
        ({
            let res = spec_render_chain(chain, infos, cursor, multiline, j);
            let info = infos[chain[j].id];
            let above = if j <= 0 {
                Seq::<char>::empty()
            } else {
                spec_render_chain(
                    chain,
                    infos.insert(chain[j].id, seen(info)),
                    cursor,
                    multiline,
                    j - 1,
                ).0
            };
            res.0 == above + spec_span_entry(chain[j], info, true, j as nat, multiline)
        }),
{
}

/// The header lines of `chain[lo..hi]`, root first, each at its own depth,
/// rendered from the store `infos`.
pub open spec fn lines_between(
    chain: Seq<SpanRef>,
    infos: Map<u64, SpanInfoV>,
    lo: int,
    hi: int,
    multiline: bool,
) -> Seq<char>
    decreases hi - lo,
{
    if hi <= lo {
        Seq::<char>::empty()
    } else {
        lines_between(chain, infos, lo, hi - 1, multiline) + spec_span_entry(
            chain[hi - 1],
            infos[chain[hi - 1].id],
            infos[chain[hi - 1].id].new,
            (hi - 1) as nat,
            multiline,
        )
    }
}

proof fn lemma_lines_between_congr(
    chain: Seq<SpanRef>,
    m1: Map<u64, SpanInfoV>,
    m2: Map<u64, SpanInfoV>,
    lo: int,
    hi: int,
    multiline: bool,
)
    requires
        forall|k: int|
            #![trigger chain[k]]
            lo <= k < hi ==> m1.contains_key(chain[k].id) && m2.contains_key(chain[k].id)
                && m1[chain[k].id] == m2[chain[k].id],
    ensures
        lines_between(chain, m1, lo, hi, multiline) == lines_between(chain, m2, lo, hi, multiline),
    decreases hi - lo,
{
    if hi <= lo {
    } else {
        lemma_lines_between_congr(chain, m1, m2, lo, hi - 1, multiline);
    }
}

/// Divergence: when the cursor points at the span at position `j` of the
/// chain (already shown, flag clear) and everything below it in the chain is
/// known, has distinct ids, and differs from the cursor, then rendering the
/// chain up to `i` reprints exactly the spans strictly below `j` — the
/// common ancestors, `j` included, are never redundantly reprinted.
pub proof fn lemma_divergence(
    chain: Seq<SpanRef>,
    infos: Map<u64, SpanInfoV>,
    cursor: u64,
    multiline: bool,
    i: int,
    j: int,
)
    requires
        0 <= j <= i < chain.len(),
        chain[j].id == cursor,
        infos.contains_key(chain[j].id),
        !infos[chain[j].id].new,
        forall|k: int| #![trigger chain[k]] j < k <= i ==> infos.contains_key(chain[k].id),
        forall|k: int| #![trigger chain[k]] j < k <= i ==> chain[k].id != cursor,
        forall|k1: int, k2: int|
            #![trigger chain[k1], chain[k2]]
            j <= k1 < k2 <= i ==> chain[k1].id != chain[k2].id,
    ensures
        spec_render_chain(chain, infos, cursor, multiline, i).0 == lines_between(
            chain,
            infos,
            j + 1,
            i + 1,
            multiline,
        ),
    decreases i - j,
{
    if i == j {
        lemma_dedup(chain, infos, cursor, multiline, j);
    } else {
        let s = chain[i];
        let info = infos[s.id];
        let infos1 = infos.insert(s.id, seen(info));
        assert(chain[j].id != chain[i].id);
        lemma_divergence(chain, infos1, cursor, multiline, i - 1, j);
        lemma_lines_between_congr(chain, infos1, infos, j + 1, i, multiline);
        assert(spec_render_chain(chain, infos, cursor, multiline, i).0 =~= lines_between(
            chain,
            infos,
            j + 1,
            i + 1,
            multiline,
        ));
    }
}

/// Full render: when no span of the chain up to `i` is both the cursor's
/// span and already seen — no node stops the walk — every span of the chain
/// gets exactly one header line, root to leaf, each at its own depth.
pub proof fn lemma_render_all(
    chain: Seq<SpanRef>,
    infos: Map<u64, SpanInfoV>,
    cursor: u64,
    multiline: bool,
    i: int,
)
    requires
        0 <= i < chain.len(),
        forall|k: int| #![trigger chain[k]] 0 <= k <= i ==> infos.contains_key(chain[k].id),
        forall|k: int|
            #![trigger chain[k]]
            0 <= k <= i ==> (chain[k].id != cursor || infos[chain[k].id].new),
        forall|k1: int, k2: int|
            #![trigger chain[k1], chain[k2]]
            0 <= k1 < k2 <= i ==> chain[k1].id != chain[k2].id,
    ensures
        spec_render_chain(chain, infos, cursor, multiline, i).0 == lines_between(
            chain,
            infos,
            0,
            i + 1,
            multiline,
        ),
    decreases i,
{
    let s = chain[i];
    let info = infos[s.id];
    let infos1 = infos.insert(s.id, seen(info));
    if i == 0 {
        assert(lines_between(chain, infos, 0, 0, multiline) == Seq::<char>::empty());
        assert(lines_between(chain, infos, 0, 1, multiline) =~= spec_span_entry(
            chain[0],
            infos[chain[0].id],
            infos[chain[0].id].new,
            0,
            multiline,
        ));
    } else {
        lemma_render_all(chain, infos1, cursor, multiline, i - 1);
        lemma_lines_between_congr(chain, infos1, infos, 0, i, multiline);
        assert(spec_render_chain(chain, infos, cursor, multiline, i).0 =~= lines_between(
            chain,
            infos,
            0,
            i + 1,
            multiline,
        ));
    }
}

/// Divergence between siblings: when the parent `p` is the last-shown span
/// (cursor on it, flag clear) and an event arrives under its child `b`, only
/// `b`'s header is rendered above the event line — the common parent is not
/// reprinted. This is the two-level instance of [`lemma_divergence`].
pub proof fn lemma_sibling_divergence<O: Output>(
    pre: Layer<O>,
    post: Layer<O>,
    p: SpanRef,
    b: SpanRef,
    level: Level,
    fields: Seq<(String, String)>,
    ts: Option<Seq<char>>,
    r: Seq<char>,
)
    requires
        pre.last_span == p.id,
        b.id != p.id,
        pre.infos().contains_key(p.id),
        pre.infos().contains_key(b.id),
        !pre.infos()[p.id].new,
        spec_on_event(pre, seq![p, b], level, fields, ts, post, r),
    ensures
        r == spec_span_entry(b, pre.infos()[b.id], pre.infos()[b.id].new, 1, pre.multiline)
            + spec_event_line(level, recs_view(fields), ts, 2, pre.multiline),
{
    let chain = seq![p, b];
    assert(chain[0] == p && chain[1] == b);
    lemma_divergence(chain, pre.infos(), pre.last_span, pre.multiline, 1, 0);
    assert(lines_between(chain, pre.infos(), 1, 1, pre.multiline) == Seq::<char>::empty());
    assert(lines_between(chain, pre.infos(), 1, 2, pre.multiline) =~= spec_span_entry(
        b,
        pre.infos()[b.id],
        pre.infos()[b.id].new,
        1,
        pre.multiline,
    ));
}

/// Close-then-reenter: after the currently-displayed span is closed, the
/// cursor has been retired to the closed span's parent, and an event emitted
/// right after, under a chain ending in that parent (flag clear), is
/// deduplicated: only the event's own line is rendered. Whether the parent's
/// header is suppressed depends solely on the parent's own id matching the
/// corrected cursor.
pub proof fn lemma_close_then_reenter<O: Output>(
    closed: Layer<O>,
    reentered: Layer<O>,
    chain: Seq<SpanRef>,
    level: Level,
    fields: Seq<(String, String)>,
    ts: Option<Seq<char>>,
    r: Seq<char>,
)
    requires
        chain.len() > 0,
        closed.last_span == chain.last().id,
        closed.infos().contains_key(chain.last().id),
        !closed.infos()[chain.last().id].new,
        spec_on_event(closed, chain, level, fields, ts, reentered, r),
    ensures
        r == spec_event_line(level, recs_view(fields), ts, chain.len(), closed.multiline),
        reentered.infos() == closed.infos(),
        reentered.last_span == chain.last().id,
{
    lemma_dedup(chain, closed.infos(), closed.last_span, closed.multiline, chain.len() - 1);
    assert(r =~= spec_event_line(level, recs_view(fields), ts, chain.len(), closed.multiline));
}

/// Deduplication at the event level: of two consecutive events emitted under
/// the same known span chain with nothing in between, the second renders no
/// span headers — only its own event line — and leaves the store unchanged.
pub proof fn lemma_dedup_consecutive<O: Output>(
    l0: Layer<O>,
    l1: Layer<O>,
    l2: Layer<O>,
    chain: Seq<SpanRef>,
    level1: Level,
    fields1: Seq<(String, String)>,
    ts1: Option<Seq<char>>,
    r1: Seq<char>,
    level2: Level,
    fields2: Seq<(String, String)>,
    ts2: Option<Seq<char>>,
    r2: Seq<char>,
)
    requires
        chain.len() > 0,
        l0.infos().contains_key(chain.last().id),
        spec_on_event(l0, chain, level1, fields1, ts1, l1, r1),
        spec_on_event(l1, chain, level2, fields2, ts2, l2, r2),
    ensures
        r2 == spec_event_line(level2, recs_view(fields2), ts2, chain.len(), l0.multiline),
        l2.infos() == l1.infos(),
{
    let leaf = chain.last().id;
    lemma_render_clears(chain, l0.infos(), l0.last_span, l0.multiline, chain.len() - 1);
    assert(l1.infos().contains_key(leaf));
    assert(!l1.infos()[leaf].new);
    lemma_dedup(chain, l1.infos(), l1.last_span, l1.multiline, chain.len() - 1);
    assert(r2 =~= spec_event_line(level2, recs_view(fields2), ts2, chain.len(), l0.multiline));
}

/// A consumed unseen flag never returns across an event: any span whose
/// flag was clear before `on_event` and whose entry survives has it clear
/// after. With the same facts for the other lifecycle steps (span creation
/// below; closing changes no entry and eviction only removes one), the flag
/// is blank-markered at most once over a span's whole lifetime, by induction
/// over the call sequence.
pub proof fn lemma_no_flag_rebirth_on_event<O: Output>(
    pre: Layer<O>,
    chain: Seq<SpanRef>,
    level: Level,
    fields: Seq<(String, String)>,
    ts: Option<Seq<char>>,
    post: Layer<O>,
    r: Seq<char>,
)
    requires
        spec_on_event(pre, chain, level, fields, ts, post, r),
    ensures
        forall|k: u64|
            pre.infos().contains_key(k) && !pre.infos()[k].new && post.infos().contains_key(k)
                ==> !(#[trigger] post.infos()[k]).new,
{
    if chain.len() > 0 {
        lemma_render_clears(chain, pre.infos(), pre.last_span, pre.multiline, chain.len() - 1);
    }
}

/// A consumed unseen flag never returns across a span creation either: the
/// insert touches only an absent id, and the optional entry-logging render
/// only ever clears flags.
pub proof fn lemma_no_flag_rebirth_on_new_span<O: Output>(
    pre: Layer<O>,
    chain: Seq<SpanRef>,
    info: SpanInfoV,
    post: Layer<O>,
    r: Seq<char>,
)
    requires
        spec_on_new_span(pre, chain, info, post, r),
    ensures
        forall|k: u64|
            pre.infos().contains_key(k) && !pre.infos()[k].new && post.infos().contains_key(k)
                ==> !(#[trigger] post.infos()[k]).new,
{
    if chain.len() > 0 {
        let id = chain.last().id;
        let m1 = if pre.infos().contains_key(id) {
            pre.infos()
        } else {
            pre.infos().insert(id, info)
        };
        assert forall|k: u64|
            pre.infos().contains_key(k) && !pre.infos()[k].new && m1.contains_key(k) implies !(
        #[trigger] m1[k]).new by {
            assert(m1[k] == pre.infos()[k]);
        }
        if pre.log_spans {
            lemma_render_clears(chain, m1, pre.last_span, pre.multiline, chain.len() - 1);
        }
    }
}

} // verus!
