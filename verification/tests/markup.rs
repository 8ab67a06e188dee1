use kcshot::markup::{
    check_renderable, markdown2pango, render_pango, try_markdown2pango, MarkdownEvent, MarkupTag,
};

#[test]
fn basic() {
    let bold = markdown2pango("**uwu**");
    let italic = markdown2pango("*owo*");
    let strikethrough = markdown2pango("~~UwU~~");
    let combined = markdown2pango("**uwu *owo* ~~UwU~~**");
    let triple_backtick = markdown2pango("```\nOwO\n```");

    assert_eq!(bold, "<b>uwu</b>");
    assert_eq!(italic, "<i>owo</i>");
    assert_eq!(strikethrough, "<s>UwU</s>");
    assert_eq!(combined, "<b>uwu <i>owo</i> <s>UwU</s></b>");
    assert_eq!(triple_backtick, "<tt>OwO\n</tt>");
}

#[test]
fn pango() {
    let html = markdown2pango("hmmm <u >underline </u>");
    assert_eq!(html, "hmmm <u >underline </u>");

    let big = markdown2pango("<big>BIG</big>");
    assert_eq!(big, "<big>BIG</big>");

    let all_the_tags_orig = "<b><u><i><s><tt><small><span><sub><sup><big></b ></u > </i ></s ></tt ><small ></span ></sub ></sup ></big >";
    let all_the_tags = markdown2pango(all_the_tags_orig);
    assert_eq!(all_the_tags_orig, all_the_tags);
}

#[test]
fn text_is_escaped() {
    assert_eq!(markdown2pango("a < b & c > d"), "a &lt; b &amp; c &gt; d");
    assert_eq!(markdown2pango("it's \"quoted\""), "it&#39;s &quot;quoted&quot;");
}

#[test]
fn inline_code_is_escaped() {
    assert_eq!(markdown2pango("`<b>`"), "&lt;b&gt;");
}

#[test]
fn span_tags_are_kept() {
    let markup = markdown2pango("<span foreground=\"red\">hi</span>");
    assert_eq!(markup, "<span foreground=\"red\">hi</span>");
}

#[test]
fn other_html_is_escaped() {
    assert_eq!(markdown2pango("a <em>x</em>"), "a &lt;em&gt;x&lt;/em&gt;");
}

#[test]
fn line_breaks_become_newlines() {
    assert_eq!(markdown2pango("one\ntwo"), "one\ntwo");
}

#[test]
fn try_markdown2pango_renders_what_it_accepts() {
    assert_eq!(try_markdown2pango("**x**"), Some("<b>x</b>".to_string()));
}

#[test]
fn render_pango_follows_events() {
    let events = vec![
        MarkdownEvent::Start(MarkupTag::Strong),
        MarkdownEvent::Text("a&b".to_string()),
        MarkdownEvent::End(MarkupTag::Strong),
        MarkdownEvent::Break,
        MarkdownEvent::Start(MarkupTag::Other),
        MarkdownEvent::Ignored,
        MarkdownEvent::Html("<tt>".to_string()),
        MarkdownEvent::Html("</span>".to_string()),
        MarkdownEvent::Html("<p>".to_string()),
        MarkdownEvent::Code("<i>".to_string()),
    ];
    assert!(check_renderable(&events));
    assert_eq!(render_pango(&events), "<b>a&amp;b</b>\n<tt></span>&lt;p&gt;&lt;i&gt;");
}

#[test]
fn math_and_non_ascii_html_are_not_renderable() {
    assert!(!check_renderable(&vec![MarkdownEvent::Math]));
    assert!(!check_renderable(&vec![MarkdownEvent::Html("é>".to_string())]));
    assert!(!check_renderable(&vec![MarkdownEvent::Html(String::new())]));
    assert!(check_renderable(&vec![MarkdownEvent::Html("</é>".to_string())]));
}
