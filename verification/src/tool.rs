use vstd::prelude::*;

use crate::text::ascii_lower;

verus! {

/// The tools of the editor, like [`crate::operations::Operation`] but without any associated data.
#[derive(Clone, Copy, Debug, PartialEq, Eq, Structural)]
pub enum Tool {
    CropAndSave,
    Line,
    Arrow,
    Rectangle,
    Ellipse,
    Highlight,
    Pixelate,
    Blur,
    AutoincrementBubble,
    Text,
    Pencil,
    // These are used when editing starts with cropping.
    // Unlike `CropAndSave`, `Crop` has no button.
    Crop,
    Save,
}

/// The resource path of the icon of each tool that has a button.
pub open spec fn tool_path(tool: Tool) -> Seq<char> {
    match tool {
        Tool::CropAndSave => "/kc/kcshot/editor/tool-rectanglecrop.png"@,
        Tool::Line => "/kc/kcshot/editor/tool-line.png"@,
        Tool::Arrow => "/kc/kcshot/editor/tool-arrow.png"@,
        Tool::Rectangle => "/kc/kcshot/editor/tool-rectangle.png"@,
        Tool::Ellipse => "/kc/kcshot/editor/tool-ellipse.png"@,
        Tool::Highlight => "/kc/kcshot/editor/tool-highlight.png"@,
        Tool::Pixelate => "/kc/kcshot/editor/tool-pixelate.png"@,
        Tool::Blur => "/kc/kcshot/editor/tool-blur.png"@,
        Tool::AutoincrementBubble => "/kc/kcshot/editor/tool-autoincrementbubble.png"@,
        Tool::Text => "/kc/kcshot/editor/tool-text.png"@,
        Tool::Pencil => "/kc/kcshot/editor/tool-pencil.png"@,
        Tool::Crop => Seq::empty(),
        Tool::Save => "/kc/kcshot/editor/tool-checkmark.png"@,
    }
}

/// The tooltip markup of each tool that has a button.
pub open spec fn tool_tooltip(tool: Tool) -> Seq<char> {
    match tool {
        Tool::CropAndSave => "<u>C</u>rop tool"@,
        Tool::Line => "<u>L</u>ine tool"@,
        Tool::Arrow => "<u>A</u>rrow tool"@,
        Tool::Rectangle => "<u>R</u>ectangle tool"@,
        Tool::Ellipse => "<u>E</u>llipse tool"@,
        Tool::Highlight => "<u>H</u>ighlight tool"@,
        Tool::Pixelate => "Pi<u>x</u>elate tool"@,
        Tool::Blur => "<u>B</u>lur tool"@,
        Tool::AutoincrementBubble => "Auto<u>i</u>crement bubble tool"@,
        Tool::Text => "<u>T</u>ext tool"@,
        Tool::Pencil => "Pe<u>n</u>cil tool"@,
        Tool::Crop => Seq::empty(),
        Tool::Save => "Save current screenshot"@,
    }
}

/// The keyboard shortcut of each tool: a letter, in either case.
pub open spec fn tool_for_key(key: char) -> Option<Tool> {
    if key == 'c' || key == 'C' {
        Some(Tool::CropAndSave)
    } else if key == 'l' || key == 'L' {
        Some(Tool::Line)
    } else if key == 'a' || key == 'A' {
        Some(Tool::Arrow)
    } else if key == 'r' || key == 'R' {
        Some(Tool::Rectangle)
    } else if key == 'e' || key == 'E' {
        Some(Tool::Ellipse)
    } else if key == 'h' || key == 'H' {
        Some(Tool::Highlight)
    } else if key == 'x' || key == 'X' {
        Some(Tool::Pixelate)
    } else if key == 'b' || key == 'B' {
        Some(Tool::Blur)
    } else if key == 'i' || key == 'I' {
        Some(Tool::AutoincrementBubble)
    } else if key == 't' || key == 'T' {
        Some(Tool::Text)
    } else if key == 'p' || key == 'P' {
        Some(Tool::Pencil)
    } else {
        None
    }
}

pub open spec fn spec_is_saving_tool(tool: Tool) -> bool {
    tool == Tool::CropAndSave || tool == Tool::Save
}

pub open spec fn spec_is_cropping_tool(tool: Tool) -> bool {
    tool == Tool::CropAndSave || tool == Tool::Crop
}

impl Tool {
    /// The icon of the tool's button. `Crop` intentionally has no button, so it has no icon.
    pub fn path(self) -> (path: &'static str)
        requires
            self != Tool::Crop,
        ensures
            path@ == tool_path(self),
    {
        match self {
            Tool::CropAndSave => "/kc/kcshot/editor/tool-rectanglecrop.png",
            Tool::Line => "/kc/kcshot/editor/tool-line.png",
            Tool::Arrow => "/kc/kcshot/editor/tool-arrow.png",
            Tool::Rectangle => "/kc/kcshot/editor/tool-rectangle.png",
            Tool::Ellipse => "/kc/kcshot/editor/tool-ellipse.png",
            Tool::Highlight => "/kc/kcshot/editor/tool-highlight.png",
            Tool::Pixelate => "/kc/kcshot/editor/tool-pixelate.png",
            Tool::Blur => "/kc/kcshot/editor/tool-blur.png",
            Tool::AutoincrementBubble => "/kc/kcshot/editor/tool-autoincrementbubble.png",
            Tool::Text => "/kc/kcshot/editor/tool-text.png",
            Tool::Pencil => "/kc/kcshot/editor/tool-pencil.png",
            Tool::Crop => "",
            Tool::Save => "/kc/kcshot/editor/tool-checkmark.png",
        }
    }

    /// Maps a key the user typed to the tool it activates, if any.
    pub fn from_unicode(key: char) -> (tool: Option<Tool>)
        ensures
            tool == tool_for_key(key),
    {
        if key == 'c' || key == 'C' {
            Some(Tool::CropAndSave)
        } else if key == 'l' || key == 'L' {
            Some(Tool::Line)
        } else if key == 'a' || key == 'A' {
            Some(Tool::Arrow)
        } else if key == 'r' || key == 'R' {
            Some(Tool::Rectangle)
        } else if key == 'e' || key == 'E' {
            Some(Tool::Ellipse)
        } else if key == 'h' || key == 'H' {
            Some(Tool::Highlight)
        } else if key == 'x' || key == 'X' {
            Some(Tool::Pixelate)
        } else if key == 'b' || key == 'B' {
            Some(Tool::Blur)
        } else if key == 'i' || key == 'I' {
            Some(Tool::AutoincrementBubble)
        } else if key == 't' || key == 'T' {
            Some(Tool::Text)
        } else if key == 'p' || key == 'P' {
            Some(Tool::Pencil)
        } else {
            None
        }
    }

    /// The tooltip markup of the tool's button. `Crop` has no button, so it has no tooltip.
    pub fn tooltip(self) -> (tooltip: &'static str)
        requires
            self != Tool::Crop,
        ensures
            tooltip@ == tool_tooltip(self),
    {
        match self {
            Tool::CropAndSave => "<u>C</u>rop tool",
            Tool::Line => "<u>L</u>ine tool",
            Tool::Arrow => "<u>A</u>rrow tool",
            Tool::Rectangle => "<u>R</u>ectangle tool",
            Tool::Ellipse => "<u>E</u>llipse tool",
            Tool::Highlight => "<u>H</u>ighlight tool",
            Tool::Pixelate => "Pi<u>x</u>elate tool",
            Tool::Blur => "<u>B</u>lur tool",
            Tool::AutoincrementBubble => "Auto<u>i</u>crement bubble tool",
            Tool::Text => "<u>T</u>ext tool",
            Tool::Pencil => "Pe<u>n</u>cil tool",
            Tool::Crop => "",
            Tool::Save => "Save current screenshot",
        }
    }

    /// Whether using this tool ends in saving the screenshot.
    pub fn is_saving_tool(self) -> (saving: bool)
        ensures
            saving == spec_is_saving_tool(self),
    {
        match self {
            Tool::CropAndSave | Tool::Save => true,
            _ => false,
        }
    }

    /// Whether this tool selects the region to crop.
    pub fn is_cropping_tool(self) -> (cropping: bool)
        ensures
            cropping == spec_is_cropping_tool(self),
    {
        match self {
            Tool::CropAndSave | Tool::Crop => true,
            _ => false,
        }
    }
}

/// `markup` opens an underline (`<u>`) at `at`.
pub open spec fn opens_underline_at(markup: Seq<char>, at: int) -> bool {
    0 <= at && at + 3 <= markup.len() && markup[at] == '<' && markup[at + 1] == 'u' && markup[at
        + 2] == '>'
}

/// How many underlines `markup` opens from `from` on.
pub open spec fn underline_count(markup: Seq<char>, from: int) -> nat
    decreases markup.len() - from,
{
    if from >= markup.len() {
        0
    } else {
        (if opens_underline_at(markup, from) {
            1nat
        } else {
            0nat
        }) + underline_count(markup, from + 1)
    }
}

/// `markup` underlines exactly one character, `<u>` that character `</u>`, and that
/// character is the keyboard shortcut of `tool`.
pub open spec fn underlines_shortcut(markup: Seq<char>, tool: Tool) -> bool {
    &&& underline_count(markup, 0) == 1
    &&& exists|at: int|
        #![trigger opens_underline_at(markup, at)]
        opens_underline_at(markup, at) && at + 8 <= markup.len() && markup.subrange(at + 4, at + 8)
            == seq!['<', '/', 'u', '>'] && tool_for_key(markup[at + 3]) == Some(tool)
}

/// Each tooltip underlines the tool's keyboard shortcut, and only that letter. The pencil
/// is the exception: its tooltip underlines `n` while its shortcut is `p`; the crop tool
/// and saving have no shortcut.
pub proof fn lemma_tooltips_underline_shortcuts(tool: Tool)
    requires
        tool != Tool::Crop,
        tool != Tool::Save,
        tool != Tool::Pencil,
    ensures
        underlines_shortcut(tool_tooltip(tool), tool),
{
    match tool {
        Tool::CropAndSave => lemma_tooltip_of_crop_and_save(),
        Tool::Line => lemma_tooltip_of_line(),
        Tool::Arrow => lemma_tooltip_of_arrow(),
        Tool::Rectangle => lemma_tooltip_of_rectangle(),
        Tool::Ellipse => lemma_tooltip_of_ellipse(),
        Tool::Highlight => lemma_tooltip_of_highlight(),
        Tool::Pixelate => lemma_tooltip_of_pixelate(),
        Tool::Blur => lemma_tooltip_of_blur(),
        Tool::AutoincrementBubble => lemma_tooltip_of_autoincrement_bubble(),
        Tool::Text => lemma_tooltip_of_text(),
        _ => {},
    }
}

#[verifier::spinoff_prover]
proof fn lemma_tooltip_of_crop_and_save()
    ensures
        underlines_shortcut(tool_tooltip(Tool::CropAndSave), Tool::CropAndSave),
{
    reveal_strlit("<u>C</u>rop tool");
    let m = tool_tooltip(Tool::CropAndSave);
    assert(m =~= seq!['<', 'u', '>', 'C', '<', '/', 'u', '>', 'r', 'o', 'p', ' ', 't', 'o', 'o', 'l']);
    assert(underline_count(m, 16) == 0);
    assert(underline_count(m, 15) == 0);
    assert(underline_count(m, 14) == 0);
    assert(underline_count(m, 13) == 0);
    assert(underline_count(m, 12) == 0);
    assert(underline_count(m, 11) == 0);
    assert(underline_count(m, 10) == 0);
    assert(underline_count(m, 9) == 0);
    assert(underline_count(m, 8) == 0);
    assert(underline_count(m, 7) == 0);
    assert(underline_count(m, 6) == 0);
    assert(underline_count(m, 5) == 0);
    assert(underline_count(m, 4) == 0);
    assert(underline_count(m, 3) == 0);
    assert(underline_count(m, 2) == 0);
    assert(underline_count(m, 1) == 0);
    assert(underline_count(m, 0) == 1);
    assert(m.subrange(4, 8) =~= seq!['<', '/', 'u', '>']);
    assert(opens_underline_at(m, 0));
}

#[verifier::spinoff_prover]
proof fn lemma_tooltip_of_line()
    ensures
        underlines_shortcut(tool_tooltip(Tool::Line), Tool::Line),
{
    reveal_strlit("<u>L</u>ine tool");
    let m = tool_tooltip(Tool::Line);
    assert(m =~= seq!['<', 'u', '>', 'L', '<', '/', 'u', '>', 'i', 'n', 'e', ' ', 't', 'o', 'o', 'l']);
    assert(underline_count(m, 16) == 0);
    assert(underline_count(m, 15) == 0);
    assert(underline_count(m, 14) == 0);
    assert(underline_count(m, 13) == 0);
    assert(underline_count(m, 12) == 0);
    assert(underline_count(m, 11) == 0);
    assert(underline_count(m, 10) == 0);
    assert(underline_count(m, 9) == 0);
    assert(underline_count(m, 8) == 0);
    assert(underline_count(m, 7) == 0);
    assert(underline_count(m, 6) == 0);
    assert(underline_count(m, 5) == 0);
    assert(underline_count(m, 4) == 0);
    assert(underline_count(m, 3) == 0);
    assert(underline_count(m, 2) == 0);
    assert(underline_count(m, 1) == 0);
    assert(underline_count(m, 0) == 1);
    assert(m.subrange(4, 8) =~= seq!['<', '/', 'u', '>']);
    assert(opens_underline_at(m, 0));
}

#[verifier::spinoff_prover]
proof fn lemma_tooltip_of_arrow()
    ensures
        underlines_shortcut(tool_tooltip(Tool::Arrow), Tool::Arrow),
{
    reveal_strlit("<u>A</u>rrow tool");
    let m = tool_tooltip(Tool::Arrow);
    assert(m =~= seq!['<', 'u', '>', 'A', '<', '/', 'u', '>', 'r', 'r', 'o', 'w', ' ', 't', 'o', 'o', 'l']);
    assert(underline_count(m, 17) == 0);
    assert(underline_count(m, 16) == 0);
    assert(underline_count(m, 15) == 0);
    assert(underline_count(m, 14) == 0);
    assert(underline_count(m, 13) == 0);
    assert(underline_count(m, 12) == 0);
    assert(underline_count(m, 11) == 0);
    assert(underline_count(m, 10) == 0);
    assert(underline_count(m, 9) == 0);
    assert(underline_count(m, 8) == 0);
    assert(underline_count(m, 7) == 0);
    assert(underline_count(m, 6) == 0);
    assert(underline_count(m, 5) == 0);
    assert(underline_count(m, 4) == 0);
    assert(underline_count(m, 3) == 0);
    assert(underline_count(m, 2) == 0);
    assert(underline_count(m, 1) == 0);
    assert(underline_count(m, 0) == 1);
    assert(m.subrange(4, 8) =~= seq!['<', '/', 'u', '>']);
    assert(opens_underline_at(m, 0));
}

#[verifier::spinoff_prover]
proof fn lemma_tooltip_of_rectangle()
    ensures
        underlines_shortcut(tool_tooltip(Tool::Rectangle), Tool::Rectangle),
{
    reveal_strlit("<u>R</u>ectangle tool");
    let m = tool_tooltip(Tool::Rectangle);
    assert(m =~= seq!['<', 'u', '>', 'R', '<', '/', 'u', '>', 'e', 'c', 't', 'a', 'n', 'g', 'l', 'e', ' ', 't', 'o', 'o', 'l']);
    assert(underline_count(m, 21) == 0);
    assert(underline_count(m, 20) == 0);
    assert(underline_count(m, 19) == 0);
    assert(underline_count(m, 18) == 0);
    assert(underline_count(m, 17) == 0);
    assert(underline_count(m, 16) == 0);
    assert(underline_count(m, 15) == 0);
    assert(underline_count(m, 14) == 0);
    assert(underline_count(m, 13) == 0);
    assert(underline_count(m, 12) == 0);
    assert(underline_count(m, 11) == 0);
    assert(underline_count(m, 10) == 0);
    assert(underline_count(m, 9) == 0);
    assert(underline_count(m, 8) == 0);
    assert(underline_count(m, 7) == 0);
    assert(underline_count(m, 6) == 0);
    assert(underline_count(m, 5) == 0);
    assert(underline_count(m, 4) == 0);
    assert(underline_count(m, 3) == 0);
    assert(underline_count(m, 2) == 0);
    assert(underline_count(m, 1) == 0);
    assert(underline_count(m, 0) == 1);
    assert(m.subrange(4, 8) =~= seq!['<', '/', 'u', '>']);
    assert(opens_underline_at(m, 0));
}

#[verifier::spinoff_prover]
proof fn lemma_tooltip_of_ellipse()
    ensures
        underlines_shortcut(tool_tooltip(Tool::Ellipse), Tool::Ellipse),
{
    reveal_strlit("<u>E</u>llipse tool");
    let m = tool_tooltip(Tool::Ellipse);
    assert(m =~= seq!['<', 'u', '>', 'E', '<', '/', 'u', '>', 'l', 'l', 'i', 'p', 's', 'e', ' ', 't', 'o', 'o', 'l']);
    assert(underline_count(m, 19) == 0);
    assert(underline_count(m, 18) == 0);
    assert(underline_count(m, 17) == 0);
    assert(underline_count(m, 16) == 0);
    assert(underline_count(m, 15) == 0);
    assert(underline_count(m, 14) == 0);
    assert(underline_count(m, 13) == 0);
    assert(underline_count(m, 12) == 0);
    assert(underline_count(m, 11) == 0);
    assert(underline_count(m, 10) == 0);
    assert(underline_count(m, 9) == 0);
    assert(underline_count(m, 8) == 0);
    assert(underline_count(m, 7) == 0);
    assert(underline_count(m, 6) == 0);
    assert(underline_count(m, 5) == 0);
    assert(underline_count(m, 4) == 0);
    assert(underline_count(m, 3) == 0);
    assert(underline_count(m, 2) == 0);
    assert(underline_count(m, 1) == 0);
    assert(underline_count(m, 0) == 1);
    assert(m.subrange(4, 8) =~= seq!['<', '/', 'u', '>']);
    assert(opens_underline_at(m, 0));
}

#[verifier::spinoff_prover]
proof fn lemma_tooltip_of_highlight()
    ensures
        underlines_shortcut(tool_tooltip(Tool::Highlight), Tool::Highlight),
{
    reveal_strlit("<u>H</u>ighlight tool");
    let m = tool_tooltip(Tool::Highlight);
    assert(m =~= seq!['<', 'u', '>', 'H', '<', '/', 'u', '>', 'i', 'g', 'h', 'l', 'i', 'g', 'h', 't', ' ', 't', 'o', 'o', 'l']);
    assert(underline_count(m, 21) == 0);
    assert(underline_count(m, 20) == 0);
    assert(underline_count(m, 19) == 0);
    assert(underline_count(m, 18) == 0);
    assert(underline_count(m, 17) == 0);
    assert(underline_count(m, 16) == 0);
    assert(underline_count(m, 15) == 0);
    assert(underline_count(m, 14) == 0);
    assert(underline_count(m, 13) == 0);
    assert(underline_count(m, 12) == 0);
    assert(underline_count(m, 11) == 0);
    assert(underline_count(m, 10) == 0);
    assert(underline_count(m, 9) == 0);
    assert(underline_count(m, 8) == 0);
    assert(underline_count(m, 7) == 0);
    assert(underline_count(m, 6) == 0);
    assert(underline_count(m, 5) == 0);
    assert(underline_count(m, 4) == 0);
    assert(underline_count(m, 3) == 0);
    assert(underline_count(m, 2) == 0);
    assert(underline_count(m, 1) == 0);
    assert(underline_count(m, 0) == 1);
    assert(m.subrange(4, 8) =~= seq!['<', '/', 'u', '>']);
    assert(opens_underline_at(m, 0));
}

#[verifier::spinoff_prover]
proof fn lemma_tooltip_of_pixelate()
    ensures
        underlines_shortcut(tool_tooltip(Tool::Pixelate), Tool::Pixelate),
{
    reveal_strlit("Pi<u>x</u>elate tool");
    let m = tool_tooltip(Tool::Pixelate);
    assert(m =~= seq!['P', 'i', '<', 'u', '>', 'x', '<', '/', 'u', '>', 'e', 'l', 'a', 't', 'e', ' ', 't', 'o', 'o', 'l']);
    assert(underline_count(m, 20) == 0);
    assert(underline_count(m, 19) == 0);
    assert(underline_count(m, 18) == 0);
    assert(underline_count(m, 17) == 0);
    assert(underline_count(m, 16) == 0);
    assert(underline_count(m, 15) == 0);
    assert(underline_count(m, 14) == 0);
    assert(underline_count(m, 13) == 0);
    assert(underline_count(m, 12) == 0);
    assert(underline_count(m, 11) == 0);
    assert(underline_count(m, 10) == 0);
    assert(underline_count(m, 9) == 0);
    assert(underline_count(m, 8) == 0);
    assert(underline_count(m, 7) == 0);
    assert(underline_count(m, 6) == 0);
    assert(underline_count(m, 5) == 0);
    assert(underline_count(m, 4) == 0);
    assert(underline_count(m, 3) == 0);
    assert(underline_count(m, 2) == 1);
    assert(underline_count(m, 1) == 1);
    assert(underline_count(m, 0) == 1);
    assert(m.subrange(6, 10) =~= seq!['<', '/', 'u', '>']);
    assert(opens_underline_at(m, 2));
}

#[verifier::spinoff_prover]
proof fn lemma_tooltip_of_blur()
    ensures
        underlines_shortcut(tool_tooltip(Tool::Blur), Tool::Blur),
{
    reveal_strlit("<u>B</u>lur tool");
    let m = tool_tooltip(Tool::Blur);
    assert(m =~= seq!['<', 'u', '>', 'B', '<', '/', 'u', '>', 'l', 'u', 'r', ' ', 't', 'o', 'o', 'l']);
    assert(underline_count(m, 16) == 0);
    assert(underline_count(m, 15) == 0);
    assert(underline_count(m, 14) == 0);
    assert(underline_count(m, 13) == 0);
    assert(underline_count(m, 12) == 0);
    assert(underline_count(m, 11) == 0);
    assert(underline_count(m, 10) == 0);
    assert(underline_count(m, 9) == 0);
    assert(underline_count(m, 8) == 0);
    assert(underline_count(m, 7) == 0);
    assert(underline_count(m, 6) == 0);
    assert(underline_count(m, 5) == 0);
    assert(underline_count(m, 4) == 0);
    assert(underline_count(m, 3) == 0);
    assert(underline_count(m, 2) == 0);
    assert(underline_count(m, 1) == 0);
    assert(underline_count(m, 0) == 1);
    assert(m.subrange(4, 8) =~= seq!['<', '/', 'u', '>']);
    assert(opens_underline_at(m, 0));
}

#[verifier::spinoff_prover]
proof fn lemma_tooltip_of_autoincrement_bubble()
    ensures
        underlines_shortcut(tool_tooltip(Tool::AutoincrementBubble), Tool::AutoincrementBubble),
{
    reveal_strlit("Auto<u>i</u>crement bubble tool");
    let m = tool_tooltip(Tool::AutoincrementBubble);
    assert(m =~= seq!['A', 'u', 't', 'o', '<', 'u', '>', 'i', '<', '/', 'u', '>', 'c', 'r', 'e', 'm', 'e', 'n', 't', ' ', 'b', 'u', 'b', 'b', 'l', 'e', ' ', 't', 'o', 'o', 'l']);
    assert(underline_count(m, 31) == 0);
    assert(underline_count(m, 30) == 0);
    assert(underline_count(m, 29) == 0);
    assert(underline_count(m, 28) == 0);
    assert(underline_count(m, 27) == 0);
    assert(underline_count(m, 26) == 0);
    assert(underline_count(m, 25) == 0);
    assert(underline_count(m, 24) == 0);
    assert(underline_count(m, 23) == 0);
    assert(underline_count(m, 22) == 0);
    assert(underline_count(m, 21) == 0);
    assert(underline_count(m, 20) == 0);
    assert(underline_count(m, 19) == 0);
    assert(underline_count(m, 18) == 0);
    assert(underline_count(m, 17) == 0);
    assert(underline_count(m, 16) == 0);
    assert(underline_count(m, 15) == 0);
    assert(underline_count(m, 14) == 0);
    assert(underline_count(m, 13) == 0);
    assert(underline_count(m, 12) == 0);
    assert(underline_count(m, 11) == 0);
    assert(underline_count(m, 10) == 0);
    assert(underline_count(m, 9) == 0);
    assert(underline_count(m, 8) == 0);
    assert(underline_count(m, 7) == 0);
    assert(underline_count(m, 6) == 0);
    assert(underline_count(m, 5) == 0);
    assert(underline_count(m, 4) == 1);
    assert(underline_count(m, 3) == 1);
    assert(underline_count(m, 2) == 1);
    assert(underline_count(m, 1) == 1);
    assert(underline_count(m, 0) == 1);
    assert(m.subrange(8, 12) =~= seq!['<', '/', 'u', '>']);
    assert(opens_underline_at(m, 4));
}

#[verifier::spinoff_prover]
proof fn lemma_tooltip_of_text()
    ensures
        underlines_shortcut(tool_tooltip(Tool::Text), Tool::Text),
{
    reveal_strlit("<u>T</u>ext tool");
    let m = tool_tooltip(Tool::Text);
    assert(m =~= seq!['<', 'u', '>', 'T', '<', '/', 'u', '>', 'e', 'x', 't', ' ', 't', 'o', 'o', 'l']);
    assert(underline_count(m, 16) == 0);
    assert(underline_count(m, 15) == 0);
    assert(underline_count(m, 14) == 0);
    assert(underline_count(m, 13) == 0);
    assert(underline_count(m, 12) == 0);
    assert(underline_count(m, 11) == 0);
    assert(underline_count(m, 10) == 0);
    assert(underline_count(m, 9) == 0);
    assert(underline_count(m, 8) == 0);
    assert(underline_count(m, 7) == 0);
    assert(underline_count(m, 6) == 0);
    assert(underline_count(m, 5) == 0);
    assert(underline_count(m, 4) == 0);
    assert(underline_count(m, 3) == 0);
    assert(underline_count(m, 2) == 0);
    assert(underline_count(m, 1) == 0);
    assert(underline_count(m, 0) == 1);
    assert(m.subrange(4, 8) =~= seq!['<', '/', 'u', '>']);
    assert(opens_underline_at(m, 0));
}

/// Shortcuts ignore case: a letter picks the same tool as its lowercase.
pub proof fn lemma_shortcuts_ignore_case(key: char)
    ensures
        tool_for_key(key) == tool_for_key(ascii_lower(key)),
{
    if 'A' <= key && key <= 'Z' {
        assert(ascii_lower(key) as u32 == key as u32 + 32);
    }
}

/// Shortcuts only pick tools that have a button: never the hidden crop tool nor saving.
pub proof fn lemma_shortcuts_pick_buttons(key: char)
    ensures
        tool_for_key(key) matches Some(tool) ==> tool != Tool::Crop && tool != Tool::Save,
{
}

} // verus!
