use treetrace::render::{push_error_line, push_event_line, push_hex4, push_span_line, Level};

fn s(x: &str) -> String {
    x.to_string()
}

#[test]
fn hex4_renders_four_lowercase_digits() {
    let mut out = String::new();
    push_hex4(&mut out, 0xbeef);
    assert_eq!(out, "beef");
    let mut out = String::new();
    push_hex4(&mut out, 0x0001);
    assert_eq!(out, "0001");
    let mut out = String::new();
    push_hex4(&mut out, 0);
    assert_eq!(out, "0000");
    let mut out = String::new();
    push_hex4(&mut out, 0xffff);
    assert_eq!(out, "ffff");
}

#[test]
fn span_line_message_inline_and_field_order_kept() {
    // fields [a=1, message=hi, b=2]: "hi" goes inline after the header, the
    // rest keeps its order with the message removed
    let rs = vec![(s("a"), s("1")), (s("message"), s("hi")), (s("b"), s("2"))];
    let mut out = String::new();
    push_span_line(&mut out, &s("t"), &s("n"), &rs, 0x0001, &None, true, 0, false);
    assert_eq!(
        out,
        "\u{1b}[m\u{1b}[mt::\u{1b}[37mn\u{1b}[m hi  \u{1b}[37m[0001]\u{1b}[36m \u{1b}[2ma: \u{1b}[22m1 \u{1b}[2mb: \u{1b}[22m2\u{1b}[m\n"
    );
}

#[test]
fn span_line_only_first_message_is_inline() {
    // only the first field named "message" is the inline message; a later
    // field with that name is an ordinary field and stays in the trailing
    // segment, in its place
    let rs = vec![(s("message"), s("hi")), (s("message"), s("again"))];
    let mut out = String::new();
    push_span_line(&mut out, &s(""), &s("n"), &rs, 0x00ff, &None, true, 0, false);
    assert_eq!(
        out,
        "\u{1b}[m\u{1b}[m\u{1b}[37mn\u{1b}[m hi  \u{1b}[37m[00ff]\u{1b}[36m \u{1b}[2mmessage: \u{1b}[22magain\u{1b}[m\n"
    );
}

#[test]
fn span_line_empty_target_and_name_omit_separator_and_space() {
    let rs = vec![(s("message"), s("hi"))];
    let mut out = String::new();
    push_span_line(&mut out, &s(""), &s(""), &rs, 0x0002, &None, true, 0, false);
    assert_eq!(
        out,
        "\u{1b}[m\u{1b}[m\u{1b}[37m\u{1b}[mhi  \u{1b}[37m[0002]\u{1b}[36m\u{1b}[m\n"
    );
}

#[test]
fn span_line_caret_marker_when_seen_before() {
    let rs: Vec<(String, String)> = vec![];
    let mut out = String::new();
    push_span_line(&mut out, &s("t"), &s("n"), &rs, 0x0003, &None, false, 1, false);
    assert_eq!(
        out,
        "\u{1b}[m  \u{1b}[mt::\u{1b}[37mn\u{1b}[93m^ \u{1b}[37m[0003]\u{1b}[36m\u{1b}[m\n"
    );
}

#[test]
fn span_line_multiline_fields_use_aligned_gutter() {
    let rs = vec![(s("a"), s("1")), (s("b"), s("2"))];
    let mut out = String::new();
    push_span_line(&mut out, &s(""), &s("n"), &rs, 0x0004, &None, true, 1, true);
    let gutter = " ".repeat(2 * 1 + 22);
    assert_eq!(
        out,
        format!(
            "\u{1b}[m  \u{1b}[m\u{1b}[37mn  \u{1b}[37m[0004]\u{1b}[36m\n{g}- \u{1b}[2ma: \u{1b}[22m1\n{g}- \u{1b}[2mb: \u{1b}[22m2\u{1b}[m\n",
            g = gutter
        )
    );
}

#[test]
fn span_line_timestamp_prefix() {
    let rs: Vec<(String, String)> = vec![];
    let ts = Some(s("2021-01-02 03:04:05"));
    let mut out = String::new();
    push_span_line(&mut out, &s(""), &s("n"), &rs, 0x0005, &ts, true, 0, false);
    assert_eq!(
        out,
        "\u{1b}[;2m[2021-01-02 03:04:05] \u{1b}[m\u{1b}[m\u{1b}[37mn  \u{1b}[37m[0005]\u{1b}[36m\u{1b}[m\n"
    );
}

#[test]
fn event_line_each_level_has_its_colour() {
    let rs: Vec<(String, String)> = vec![];
    for (level, tag) in [
        (Level::Trace, "\u{1b}[94mTRACE"),
        (Level::Debug, "\u{1b}[34mDEBUG"),
        (Level::Info, "\u{1b}[32mINFO"),
        (Level::Warn, "\u{1b}[33mWARN"),
        (Level::Error, "\u{1b}[31mERROR"),
    ] {
        let mut out = String::new();
        push_event_line(&mut out, level, &rs, &None, 0, false);
        assert_eq!(out, format!("\u{1b}[m{tag}\u{1b}[m\u{1b}[m\n"));
    }
}

#[test]
fn event_line_messages_then_fields() {
    let rs = vec![(s("x"), s("7")), (s("message"), s("go")), (s("y"), s("8"))];
    let mut out = String::new();
    push_event_line(&mut out, Level::Warn, &rs, &None, 2, false);
    assert_eq!(
        out,
        "\u{1b}[m    \u{1b}[33mWARN\u{1b}[m go \u{1b}[36;2mx: \u{1b}[22m7 \u{1b}[36;2my: \u{1b}[22m8\u{1b}[m\n"
    );
}

#[test]
fn event_line_every_message_field_is_shown() {
    let rs = vec![(s("message"), s("one")), (s("message"), s("two"))];
    let mut out = String::new();
    push_event_line(&mut out, Level::Info, &rs, &None, 0, false);
    assert_eq!(
        out,
        "\u{1b}[m\u{1b}[32mINFO\u{1b}[m one two\u{1b}[m\n"
    );
}

#[test]
fn event_line_multiline_fields_use_aligned_gutter() {
    let rs = vec![(s("x"), s("7")), (s("y"), s("8"))];
    let mut out = String::new();
    push_event_line(&mut out, Level::Error, &rs, &None, 1, true);
    let gutter = " ".repeat(2 * 1 + 22);
    assert_eq!(
        out,
        format!(
            "\u{1b}[m  \u{1b}[31mERROR\u{1b}[m\n{g}- \u{1b}[36;2mx: \u{1b}[22m7\n{g}- \u{1b}[36;2my: \u{1b}[22m8\u{1b}[m\n",
            g = gutter
        )
    );
}

#[test]
fn event_line_timestamp_prefix() {
    let rs: Vec<(String, String)> = vec![];
    let ts = Some(s("2021-01-02 03:04:05"));
    let mut out = String::new();
    push_event_line(&mut out, Level::Info, &rs, &ts, 0, false);
    assert_eq!(
        out,
        "\u{1b}[;2m[2021-01-02 03:04:05] \u{1b}[m\u{1b}[32mINFO\u{1b}[m\u{1b}[m\n"
    );
}

#[test]
fn error_line_text() {
    let mut out = String::new();
    push_error_line(&mut out);
    assert_eq!(out, "\u{1b}[31mFailed to read span info\u{1b}[m\n");
}
