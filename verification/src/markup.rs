use vstd::prelude::*;
use vstd::string::*;

use pulldown_cmark::{Event as E, Options, Parser, TagEnd as T};

use crate::text::occurs_at;

use self::MarkdownEvent as M;
use self::MarkupTag::{CodeBlock, Emphasis, Other, Strikethrough, Strong};

verus! {

/// The Markdown elements that have a Pango counterpart.
#[derive(Clone, Copy, Debug, PartialEq, Eq, Structural)]
pub enum MarkupTag {
    CodeBlock,
    Emphasis,
    Strong,
    Strikethrough,
    /// Any other element, which has no Pango markup.
    Other,
}

/// A Markdown parsing event, as far as rendering to Pango tells events apart.
#[derive(Debug)]
pub enum MarkdownEvent {
    Start(MarkupTag),
    End(MarkupTag),
    Text(String),
    /// Inline code.
    Code(String),
    /// Block or inline HTML.
    Html(String),
    /// Inline or display math, which the parser only produces when asked to.
    Math,
    /// A soft or hard line break.
    Break,
    /// Footnote references, rules and task list markers, which have no Pango markup.
    Ignored,
}

/// The events `pulldown_cmark` yields for a Markdown text with strikethrough enabled.
pub uninterp spec fn markdown_events(markdown: Seq<char>) -> Seq<MarkdownEvent>;

/// `pulldown_cmark::Parser::new_ext` with strikethrough, its events converted one for one.
#[verifier::external_body]
fn parse_markdown(markdown: &str) -> (events: Vec<MarkdownEvent>)
    ensures
        events@ == markdown_events(markdown@),
{
    let tag = |t| match t {
        T::CodeBlock => CodeBlock, T::Emphasis => Emphasis,
        T::Strong => Strong, T::Strikethrough => Strikethrough, _ => Other,
    };
    Parser::new_ext(markdown, Options::ENABLE_STRIKETHROUGH).map(|event| match event {
        E::Start(t) => M::Start(tag(t.to_end())),
        E::End(t) => M::End(tag(t)),
        E::Text(s) => M::Text(s.into()),
        E::Code(s) => M::Code(s.into()),
        E::Html(s) | E::InlineHtml(s) => M::Html(s.into()),
        E::InlineMath(_) | E::DisplayMath(_) => M::Math,
        E::SoftBreak | E::HardBreak => M::Break,
        _ => M::Ignored,
    }).collect()
}

/// What HTML escaping writes for one character.
pub open spec fn escaped_char(c: char) -> Seq<char> {
    if c == '&' {
        seq!['&', 'a', 'm', 'p', ';']
    } else if c == '<' {
        seq!['&', 'l', 't', ';']
    } else if c == '>' {
        seq!['&', 'g', 't', ';']
    } else if c == '"' {
        seq!['&', 'q', 'u', 'o', 't', ';']
    } else if c == '\'' {
        seq!['&', '#', '3', '9', ';']
    } else {
        seq![c]
    }
}

/// `s` with `&`, `<`, `>`, `"` and `'` replaced by their HTML entities.
pub open spec fn html_escaped(s: Seq<char>) -> Seq<char>
    decreases s.len(),
{
    if s.len() == 0 {
        Seq::empty()
    } else {
        html_escaped(s.drop_last()) + escaped_char(s.last())
    }
}

/// `pulldown_cmark_escape::escape_html` writing into a `String`: it appends
/// `text` with `&`, `<`, `>`, `"` and `'` replaced by `&amp;`, `&lt;`, `&gt;`,
/// `&quot;` and `&#39;`. Writing into a `String` never fails.
#[verifier::external_body]
fn escape_html_into(out: &mut String, text: &str)
    ensures
        final(out)@ == old(out)@ + html_escaped(text@),
{
    let _ = pulldown_cmark_escape::escape_html(out, text);
}

/// The pattern of the Pango tags that HTML in Markdown may use as they are.
pub const PANGO_TAG_PATTERN: &'static str = r"(</|<)(b|big|i|s|sub|sup|small|tt|u)\s?>";

/// The names of the Pango tags that [`PANGO_TAG_PATTERN`] accepts.
pub open spec fn is_pango_tag_name(name: Seq<char>) -> bool {
    ||| name == seq!['b']
    ||| name == seq!['b', 'i', 'g']
    ||| name == seq!['i']
    ||| name == seq!['s']
    ||| name == seq!['s', 'u', 'b']
    ||| name == seq!['s', 'u', 'p']
    ||| name == seq!['s', 'm', 'a', 'l', 'l']
    ||| name == seq!['t', 't']
    ||| name == seq!['u']
}

/// The characters with the Unicode `White_Space` property, which `\s` matches.
pub open spec fn is_white_space(c: char) -> bool {
    let u = c as u32;
    ||| 0x09 <= u <= 0x0d
    ||| u == 0x20
    ||| u == 0x85
    ||| u == 0xa0
    ||| u == 0x1680
    ||| 0x2000 <= u <= 0x200a
    ||| u == 0x2028
    ||| u == 0x2029
    ||| u == 0x202f
    ||| u == 0x205f
    ||| u == 0x3000
}

/// `t` is, as a whole, a match of [`PANGO_TAG_PATTERN`]: `<`, an optional `/`,
/// a tag name, at most one whitespace character and `>`.
pub open spec fn is_pango_tag(t: Seq<char>) -> bool {
    &&& t.len() >= 3
    &&& t[0] == '<'
    &&& t.last() == '>'
    &&& {
        let inner = t.subrange(if t[1] == '/' { 2 } else { 1 }, t.len() - 1);
        ||| is_pango_tag_name(inner)
        ||| inner.len() > 0 && is_white_space(inner.last()) && is_pango_tag_name(inner.drop_last())
    }
}

/// Some part of `s` is a Pango tag.
pub open spec fn has_pango_tag(s: Seq<char>) -> bool {
    exists|i: int, j: int| 0 <= i <= j <= s.len() && #[trigger] is_pango_tag(s.subrange(i, j))
}

/// `regex::Regex::new` and `Regex::is_match`: whether some part of `text`
/// matches `pattern`, here the pattern of Pango tags.
#[verifier::external_body]
fn regex_is_match(pattern: &str, text: &str) -> (found: bool)
    requires
        pattern@ == PANGO_TAG_PATTERN@,
    ensures
        found == has_pango_tag(text@),
{
    match regex::Regex::new(pattern) {
        Ok(re) => re.is_match(text),
        Err(_) => false,
    }
}

/// `s` starts with `</`.
pub open spec fn starts_closing(s: Seq<char>) -> bool {
    s.len() >= 2 && s[0] == '<' && s[1] == '/'
}

/// The character offset of the tag name in HTML that starts a tag.
pub open spec fn tag_name_offset(html: Seq<char>) -> int {
    if starts_closing(html) {
        2
    } else {
        1
    }
}

/// HTML that is kept as it is: a Pango tag, or an opening or closing `span`
/// tag, whatever its attributes.
pub open spec fn html_kept(html: Seq<char>) -> bool {
    has_pango_tag(html) || occurs_at(html, seq!['s', 'p', 'a', 'n'], tag_name_offset(html))
}

/// HTML that can be rendered: a Pango tag, or text whose first character is
/// a whole byte, so that the tag name can be looked at after it.
pub open spec fn html_renderable(html: Seq<char>) -> bool {
    has_pango_tag(html) || starts_closing(html) || (html.len() > 0 && (html[0] as u32) < 0x80)
}

/// What HTML in Markdown becomes: itself where it is kept, else escaped.
pub open spec fn pango_of_html(html: Seq<char>) -> Seq<char> {
    if html_kept(html) {
        html
    } else {
        html_escaped(html)
    }
}

/// Whether `s` holds `word` at `at`.
fn word_at(s: &str, len: usize, word: &str, at: usize) -> (found: bool)
    requires
        len == s@.len(),
    ensures
        found == occurs_at(s@, word@, at as int),
{
    let n = word.unicode_len();
    if at > len || n > len - at {
        return false;
    }
    let mut i: usize = 0;
    while i < n
        invariant
            len == s@.len(),
            n == word@.len(),
            at + n <= len,
            i <= n,
            forall|j: int| 0 <= j < i ==> s@[at + j] == word@[j],
        decreases n - i,
    {
        if s.get_char(at + i) != word.get_char(i) {
            assert(s@.subrange(at as int, at + n)[i as int] != word@[i as int]);
            return false;
        }
        i = i + 1;
    }
    assert(s@.subrange(at as int, at + n) =~= word@);
    true
}

/// Appends HTML met in Markdown: Pango tags and `span` tags as they are,
/// anything else escaped.
fn push_html(out: &mut String, html: &str)
    requires
        html_renderable(html@),
    ensures
        final(out)@ == old(out)@ + pango_of_html(html@),
{
    if regex_is_match(PANGO_TAG_PATTERN, html) {
        out.append(html);
        return;
    }
    let len = html.unicode_len();
    let closing = len >= 2 && html.get_char(0) == '<' && html.get_char(1) == '/';
    let offset: usize = if closing { 2 } else { 1 };
    proof {
        reveal_strlit("span");
        assert("span"@ =~= seq!['s', 'p', 'a', 'n']);
        assert(offset == tag_name_offset(html@));
    }
    if word_at(html, len, "span", offset) {
        out.append(html);
    } else {
        escape_html_into(out, html);
    }
}

/// The Pango markup that opens a Markdown element.
pub open spec fn opening_markup(tag: MarkupTag) -> Seq<char> {
    match tag {
        MarkupTag::CodeBlock => seq!['<', 't', 't', '>'],
        MarkupTag::Emphasis => seq!['<', 'i', '>'],
        MarkupTag::Strong => seq!['<', 'b', '>'],
        MarkupTag::Strikethrough => seq!['<', 's', '>'],
        MarkupTag::Other => Seq::empty(),
    }
}

/// The Pango markup that closes a Markdown element.
pub open spec fn closing_markup(tag: MarkupTag) -> Seq<char> {
    match tag {
        MarkupTag::CodeBlock => seq!['<', '/', 't', 't', '>'],
        MarkupTag::Emphasis => seq!['<', '/', 'i', '>'],
        MarkupTag::Strong => seq!['<', '/', 'b', '>'],
        MarkupTag::Strikethrough => seq!['<', '/', 's', '>'],
        MarkupTag::Other => Seq::empty(),
    }
}

/// The Pango markup of one event.
pub open spec fn pango_of_event(event: MarkdownEvent) -> Seq<char> {
    match event {
        MarkdownEvent::Start(tag) => opening_markup(tag),
        MarkdownEvent::End(tag) => closing_markup(tag),
        MarkdownEvent::Text(text) => html_escaped(text@),
        MarkdownEvent::Code(code) => html_escaped(code@),
        MarkdownEvent::Html(html) => pango_of_html(html@),
        MarkdownEvent::Break => seq!['\n'],
        MarkdownEvent::Math | MarkdownEvent::Ignored => Seq::empty(),
    }
}

/// The Pango markup of a sequence of events, event after event.
pub open spec fn pango_of(events: Seq<MarkdownEvent>) -> Seq<char>
    decreases events.len(),
{
    if events.len() == 0 {
        Seq::empty()
    } else {
        pango_of(events.drop_last()) + pango_of_event(events.last())
    }
}

/// An event that rendering accepts: no math, and HTML that can be rendered.
pub open spec fn event_renderable(event: MarkdownEvent) -> bool {
    match event {
        MarkdownEvent::Math => false,
        MarkdownEvent::Html(html) => html_renderable(html@),
        _ => true,
    }
}

/// Every event is one that rendering accepts.
pub open spec fn events_renderable(events: Seq<MarkdownEvent>) -> bool {
    forall|i: int| 0 <= i < events.len() ==> #[trigger] event_renderable(events[i])
}

/// Appends the markup that opens or closes an element.
fn push_tag(out: &mut String, tag: MarkupTag, closing: bool)
    ensures
        final(out)@ == old(out)@ + (if closing {
            closing_markup(tag)
        } else {
            opening_markup(tag)
        }),
{
    proof {
        reveal_strlit("<tt>");
        reveal_strlit("<i>");
        reveal_strlit("<b>");
        reveal_strlit("<s>");
        reveal_strlit("</tt>");
        reveal_strlit("</i>");
        reveal_strlit("</b>");
        reveal_strlit("</s>");
    }
    match (tag, closing) {
        (MarkupTag::CodeBlock, false) => out.append("<tt>"),
        (MarkupTag::Emphasis, false) => out.append("<i>"),
        (MarkupTag::Strong, false) => out.append("<b>"),
        (MarkupTag::Strikethrough, false) => out.append("<s>"),
        (MarkupTag::CodeBlock, true) => out.append("</tt>"),
        (MarkupTag::Emphasis, true) => out.append("</i>"),
        (MarkupTag::Strong, true) => out.append("</b>"),
        (MarkupTag::Strikethrough, true) => out.append("</s>"),
        (MarkupTag::Other, _) => {
            assert(out@ =~= out@ + Seq::<char>::empty());
        },
    }
}

/// Renders Markdown events as Pango markup: emphasis, strong emphasis,
/// strikethrough and code blocks become `<i>`, `<b>`, `<s>` and `<tt>`; text
/// and code are escaped; line breaks become newlines; HTML is kept where it is
/// Pango markup and escaped otherwise.
pub fn render_pango(events: &Vec<MarkdownEvent>) -> (markup: String)
    requires
        events_renderable(events@),
    ensures
        markup@ == pango_of(events@),
{
    let mut out = String::new();
    let mut i: usize = 0;
    while i < events.len()
        invariant
            i <= events@.len(),
            events_renderable(events@),
            out@ == pango_of(events@.subrange(0, i as int)),
        decreases events.len() - i,
    {
        proof {
            assert(events@.subrange(0, i + 1).drop_last() =~= events@.subrange(0, i as int));
            assert(event_renderable(events@[i as int]));
        }
        match &events[i] {
            MarkdownEvent::Start(tag) => push_tag(&mut out, *tag, false),
            MarkdownEvent::End(tag) => push_tag(&mut out, *tag, true),
            MarkdownEvent::Text(text) => escape_html_into(&mut out, text.as_str()),
            MarkdownEvent::Code(code) => escape_html_into(&mut out, code.as_str()),
            MarkdownEvent::Html(html) => push_html(&mut out, html.as_str()),
            MarkdownEvent::Break => {
                proof {
                    reveal_strlit("\n");
                }
                out.append("\n");
            },
            MarkdownEvent::Math | MarkdownEvent::Ignored => {
                assert(out@ =~= out@ + Seq::<char>::empty());
            },
        }
        i = i + 1;
    }
    assert(events@.subrange(0, events@.len() as int) =~= events@);
    out
}

/// Whether rendering accepts every event.
pub fn check_renderable(events: &Vec<MarkdownEvent>) -> (ok: bool)
    ensures
        ok == events_renderable(events@),
{
    let mut i: usize = 0;
    while i < events.len()
        invariant
            i <= events@.len(),
            forall|j: int| 0 <= j < i ==> #[trigger] event_renderable(events@[j]),
        decreases events.len() - i,
    {
        let ok = match &events[i] {
            MarkdownEvent::Math => false,
            MarkdownEvent::Html(html) => html_renderable_exec(html.as_str()),
            _ => true,
        };
        if !ok {
            assert(!event_renderable(events@[i as int]));
            return false;
        }
        i = i + 1;
    }
    true
}

/// Whether HTML can be rendered.
fn html_renderable_exec(html: &str) -> (ok: bool)
    ensures
        ok == html_renderable(html@),
{
    if regex_is_match(PANGO_TAG_PATTERN, html) {
        return true;
    }
    let len = html.unicode_len();
    if len == 0 {
        return false;
    }
    let first = html.get_char(0);
    if len >= 2 && first == '<' && html.get_char(1) == '/' {
        return true;
    }
    (first as u32) < 0x80
}

/// Converts Markdown to Pango markup.
pub fn markdown2pango(markdown: &str) -> (markup: String)
    requires
        events_renderable(markdown_events(markdown@)),
    ensures
        markup@ == pango_of(markdown_events(markdown@)),
{
    let events = parse_markdown(markdown);
    render_pango(&events)
}

/// Converts Markdown to Pango markup, or gives `None` where the parser yields
/// an event that rendering does not accept.
pub fn try_markdown2pango(markdown: &str) -> (markup: Option<String>)
    ensures
        markup is Some <==> events_renderable(markdown_events(markdown@)),
        markup matches Some(m) ==> m@ == pango_of(markdown_events(markdown@)),
{
    let events = parse_markdown(markdown);
    if check_renderable(&events) {
        Some(markdown2pango(markdown))
    } else {
        None
    }
}

/// Escaped text holds no `<` and no `>`, so text and code can never open or close Pango
/// markup.
pub proof fn lemma_escaped_has_no_angle_brackets(text: Seq<char>)
    ensures
        forall|i: int|
            0 <= i < html_escaped(text).len() ==> #[trigger] html_escaped(text)[i] != '<'
                && html_escaped(text)[i] != '>',
    decreases text.len(),
{
    if text.len() > 0 {
        lemma_escaped_has_no_angle_brackets(text.drop_last());
        let before = html_escaped(text.drop_last());
        let tail = escaped_char(text.last());
        assert forall|i: int| 0 <= i < html_escaped(text).len() implies #[trigger] html_escaped(
            text,
        )[i] != '<' && html_escaped(text)[i] != '>' by {
            if i >= before.len() {
                assert(html_escaped(text)[i] == tail[i - before.len()]);
            } else {
                assert(html_escaped(text)[i] == before[i]);
            }
        }
    }
}

/// Rendering goes event by event: the markup of two runs of events one after the other is
/// the markup of the first followed by that of the second.
pub proof fn lemma_pango_of_append(first: Seq<MarkdownEvent>, second: Seq<MarkdownEvent>)
    ensures
        pango_of(first + second) == pango_of(first) + pango_of(second),
    decreases second.len(),
{
    if second.len() == 0 {
        assert(first + second =~= first);
        assert(pango_of(first) + pango_of(second) =~= pango_of(first));
    } else {
        lemma_pango_of_append(first, second.drop_last());
        assert((first + second).drop_last() =~= first + second.drop_last());
        assert((first + second).last() == second.last());
        assert(pango_of(first) + pango_of(second) =~= pango_of(first) + pango_of(
            second.drop_last(),
        ) + pango_of_event(second.last()));
    }
}

} // verus!
