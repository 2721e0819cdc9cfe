use treetrace::layer::{Layer, SpanInfo, SpanRef};
use treetrace::output::Memory;
use treetrace::render::Level;

fn s(x: &str) -> String {
    x.to_string()
}

fn span(id: u64, name: &str) -> SpanRef {
    SpanRef { id, target: s(""), name: s(name) }
}

fn info(display_id: u16, records: Vec<(String, String)>) -> SpanInfo {
    SpanInfo { id: display_id, date_time: None, records, new: true }
}

fn quiet_layer() -> Layer<Memory> {
    Layer::builder(Memory::new(String::new())).omit_timestamp().build()
}

fn svc_header_line() -> String {
    // root span "svc", no fields, depth 0, first time, display id 00aa
    s("\u{1b}[m\u{1b}[m\u{1b}[37msvc  \u{1b}[37m[00aa]\u{1b}[36m\u{1b}[m\n")
}

fn req_header_line() -> String {
    // child span "req" with id: 42, depth 1, first time, display id 00bb
    s("\u{1b}[m  \u{1b}[m\u{1b}[37mreq  \u{1b}[37m[00bb]\u{1b}[36m \u{1b}[2mid: \u{1b}[22m42\u{1b}[m\n")
}

fn info_line(depth: usize, message: &str) -> String {
    let msg = if message.is_empty() { String::new() } else { format!(" {message}") };
    format!(
        "\u{1b}[m{}\u{1b}[32mINFO\u{1b}[m{}\u{1b}[m\n",
        " ".repeat(2 * depth),
        msg
    )
}

#[test]
fn concrete_scenario_two_headers_then_event_then_dedup() {
    // root span svc (no fields), child req{id=42}, one info event under req:
    // both headers print (depths 0 and 2 columns), then INFO at 4 columns;
    // a second event under req prints only its own line
    let mut layer = quiet_layer();
    let chain_svc = vec![span(1, "svc")];
    let chain_req = vec![span(1, "svc"), span(2, "req")];

    let r = layer.on_new_span_with(&chain_svc, info(0x00aa, vec![]));
    assert_eq!(r, "");
    let r = layer.on_new_span_with(&chain_req, info(0x00bb, vec![(s("id"), s("42"))]));
    assert_eq!(r, "");

    let r1 = layer.on_event_with(&chain_req, Level::Info, &vec![(s("message"), s("start"))], None);
    assert_eq!(r1, format!("{}{}{}", svc_header_line(), req_header_line(), info_line(2, "start")));

    let r2 = layer.on_event_with(&chain_req, Level::Info, &vec![(s("message"), s("more"))], None);
    assert_eq!(r2, info_line(2, "more"));

    // the sink saw exactly the two records, in order
    assert_eq!(layer.output.take(), format!("{r1}{r2}"));
}

#[test]
fn dedup_many_events_under_same_span() {
    let mut layer = quiet_layer();
    let chain = vec![span(1, "svc")];
    layer.on_new_span_with(&chain, info(0x00aa, vec![]));
    let r1 = layer.on_event_with(&chain, Level::Info, &vec![(s("message"), s("a"))], None);
    assert_eq!(r1, format!("{}{}", svc_header_line(), info_line(1, "a")));
    for m in ["b", "c", "d"] {
        let r = layer.on_event_with(&chain, Level::Info, &vec![(s("message"), s(m))], None);
        assert_eq!(r, info_line(1, m));
    }
}

#[test]
fn divergence_after_close_reprints_only_the_sibling() {
    // A and B are siblings under P; an event under A, then A closes (the
    // cursor retires to P), then an event under B reprints only B's header
    let mut layer = quiet_layer();
    let p = || span(1, "p");
    let a = || span(2, "a");
    let b = || span(3, "b");
    layer.on_new_span_with(&vec![p()], info(0x0001, vec![]));
    layer.on_new_span_with(&vec![p(), a()], info(0x0002, vec![]));
    layer.on_new_span_with(&vec![p(), b()], info(0x0003, vec![]));

    let r1 = layer.on_event_with(&vec![p(), a()], Level::Info, &vec![(s("message"), s("ea"))], None);
    assert_eq!(
        r1,
        format!(
            "\u{1b}[m\u{1b}[m\u{1b}[37mp  \u{1b}[37m[0001]\u{1b}[36m\u{1b}[m\n\u{1b}[m  \u{1b}[m\u{1b}[37ma  \u{1b}[37m[0002]\u{1b}[36m\u{1b}[m\n{}",
            info_line(2, "ea")
        )
    );

    // close A: the cursor pointed at it, so it retires to P
    layer.on_close(2, Some(1));
    assert_eq!(layer.last_span, 1);

    // an event under B reprints only B's header: P is not reprinted
    let r2 = layer.on_event_with(&vec![p(), b()], Level::Info, &vec![(s("message"), s("eb"))], None);
    assert_eq!(
        r2,
        format!(
            "\u{1b}[m  \u{1b}[m\u{1b}[37mb  \u{1b}[37m[0003]\u{1b}[36m\u{1b}[m\n{}",
            info_line(2, "eb")
        )
    );
}

#[test]
fn close_of_undisplayed_span_keeps_cursor() {
    let mut layer = quiet_layer();
    let chain = vec![span(1, "svc")];
    layer.on_new_span_with(&chain, info(0x00aa, vec![]));
    layer.on_event_with(&chain, Level::Info, &vec![], None);
    assert_eq!(layer.last_span, 1);
    layer.on_close(7, Some(3));
    assert_eq!(layer.last_span, 1);
}

#[test]
fn close_of_displayed_root_clears_cursor() {
    let mut layer = quiet_layer();
    let chain = vec![span(1, "svc")];
    layer.on_new_span_with(&chain, info(0x00aa, vec![]));
    layer.on_event_with(&chain, Level::Info, &vec![], None);
    layer.on_close(1, None);
    assert_eq!(layer.last_span, 0);
    // the span was closed but its metadata remains: re-rendering shows the
    // back-reference caret, not the first-time blank
    let r = layer.on_event_with(&chain, Level::Info, &vec![], None);
    assert_eq!(
        r,
        format!(
            "\u{1b}[m\u{1b}[m\u{1b}[37msvc\u{1b}[93m^ \u{1b}[37m[00aa]\u{1b}[36m\u{1b}[m\n{}",
            info_line(1, "")
        )
    );
}

#[test]
fn unseen_marker_shown_once_then_caret() {
    let mut layer = quiet_layer();
    let chain = vec![span(1, "svc")];
    layer.on_new_span_with(&chain, info(0x00aa, vec![]));
    // first render: blank first-time marker
    let r1 = layer.on_event_with(&chain, Level::Info, &vec![], None);
    assert!(r1.contains("svc  \u{1b}[37m[00aa]"));
    // an event outside every span moves the cursor away
    let r = layer.on_event_with(&vec![], Level::Info, &vec![], None);
    assert_eq!(r, info_line(0, ""));
    assert_eq!(layer.last_span, 0);
    // second render of svc: caret marker, never the blank again
    let r2 = layer.on_event_with(&chain, Level::Info, &vec![], None);
    assert!(r2.contains("svc\u{1b}[93m^ \u{1b}[37m[00aa]"));
}

#[test]
fn new_span_entry_logged_when_log_spans_enabled() {
    let mut layer = Layer::builder(Memory::new(String::new())).log_spans().omit_timestamp().build();
    let chain = vec![span(1, "svc")];
    let r = layer.on_new_span_with(&chain, info(0x00aa, vec![]));
    assert_eq!(r, svc_header_line());
    assert_eq!(layer.last_span, 1);
    // the first event under the span no longer reprints its header
    let r = layer.on_event_with(&chain, Level::Info, &vec![(s("message"), s("go"))], None);
    assert_eq!(r, info_line(1, "go"));
}

#[test]
fn metadata_insert_is_idempotent() {
    let mut layer = quiet_layer();
    let chain = vec![span(1, "svc")];
    layer.on_new_span_with(&chain, info(0x00aa, vec![]));
    // a second creation notification for the same id changes nothing
    layer.on_new_span_with(&chain, info(0x0c0c, vec![(s("zz"), s("9"))]));
    let r = layer.on_event_with(&chain, Level::Info, &vec![], None);
    assert_eq!(r, format!("{}{}", svc_header_line(), info_line(1, "")));
}

#[test]
fn missing_metadata_renders_error_line_and_stops_branch() {
    let mut layer = quiet_layer();
    // only the child is known; its parent was never announced
    let chain = vec![span(9, "ghost"), span(2, "req")];
    layer.on_new_span_with(&vec![span(2, "req")], info(0x00bb, vec![]));
    let r = layer.on_event_with(&chain, Level::Info, &vec![], None);
    assert_eq!(
        r,
        format!(
            "\u{1b}[31mFailed to read span info\u{1b}[m\n\u{1b}[m  \u{1b}[m\u{1b}[37mreq  \u{1b}[37m[00bb]\u{1b}[36m\u{1b}[m\n{}",
            info_line(2, "")
        )
    );
}

#[test]
fn evict_removes_only_that_entry_and_keeps_cursor() {
    let mut layer = quiet_layer();
    let chain_svc = vec![span(1, "svc")];
    let chain_req = vec![span(1, "svc"), span(2, "req")];
    layer.on_new_span_with(&chain_svc, info(0x00aa, vec![]));
    layer.on_new_span_with(&chain_req, info(0x00bb, vec![(s("id"), s("42"))]));
    layer.on_event_with(&chain_svc, Level::Info, &vec![], None);
    assert_eq!(layer.last_span, 1);

    layer.evict(2);
    assert_eq!(layer.last_span, 1);

    // req's metadata is gone: its header degrades to the error placeholder,
    // and the walk stops at the broken node, so no ancestor is reprinted
    let r = layer.on_event_with(&chain_req, Level::Info, &vec![], None);
    assert_eq!(
        r,
        format!("\u{1b}[31mFailed to read span info\u{1b}[m\n{}", info_line(2, ""))
    );
}

#[test]
fn evict_of_unknown_id_changes_nothing() {
    let mut layer = quiet_layer();
    let chain = vec![span(1, "svc")];
    layer.on_new_span_with(&chain, info(0x00aa, vec![]));
    layer.evict(42);
    let r = layer.on_event_with(&chain, Level::Info, &vec![], None);
    assert_eq!(r, format!("{}{}", svc_header_line(), info_line(1, "")));
}

#[test]
fn event_outside_every_span_renders_alone() {
    let mut layer = quiet_layer();
    let r = layer.on_event_with(&vec![], Level::Warn, &vec![(s("k"), s("v"))], None);
    assert_eq!(r, "\u{1b}[m\u{1b}[33mWARN\u{1b}[m \u{1b}[36;2mk: \u{1b}[22mv\u{1b}[m\n");
    assert_eq!(layer.last_span, 0);
}

#[test]
fn on_new_span_captures_timestamp_only_when_enabled() {
    let with_ts = SpanInfo::new(vec![], true);
    assert!(with_ts.date_time.is_some());
    assert!(with_ts.new);
    let without_ts = SpanInfo::new(vec![(s("a"), s("1"))], false);
    assert!(without_ts.date_time.is_none());
    assert_eq!(without_ts.records, vec![(s("a"), s("1"))]);
}

#[test]
fn timestamped_event_line_has_timestamp_prefix() {
    let mut layer = Layer::new(Memory::new(String::new()), false, false);
    assert!(layer.timestamp);
    let r = layer.on_event(&vec![], Level::Info, &vec![]);
    assert!(r.starts_with("\u{1b}[;2m["));
    assert!(r.contains("] \u{1b}[m\u{1b}[32mINFO"));
    assert!(r.ends_with("\u{1b}[m\n"));
}

#[test]
fn random_display_ids_render_in_range() {
    let mut layer = quiet_layer();
    let chain = vec![span(1, "svc")];
    let r = layer.on_new_span(&chain, vec![]);
    assert_eq!(r, "");
    let r = layer.on_event(&chain, Level::Info, &vec![]);
    // the display id rendered between [..] is four lowercase hex digits
    let open = r.find("\u{1b}[37m[").unwrap() + "\u{1b}[37m[".len();
    let tag = &r[open..open + 4];
    assert!(tag.chars().all(|c| c.is_ascii_hexdigit() && !c.is_ascii_uppercase()));
}

#[test]
fn memory_sink_accumulates_and_take_empties() {
    let memory = Memory::new(String::from("start:"));
    let mut layer = Layer::new(memory, false, false);
    layer.on_event_with(&vec![], Level::Info, &vec![], None);
    let text = layer.output.take();
    assert_eq!(text, format!("start:{}", info_line(0, "")));
    assert_eq!(layer.output.take(), "");
}
