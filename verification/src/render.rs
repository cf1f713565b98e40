use vstd::prelude::*;

verus! {

/// How one run of text is styled.  The core only names the role of a run;
/// mapping roles to colors and modifiers is the renderer's business.
#[derive(Clone, Copy, PartialEq, Eq, Structural, Debug)]
pub enum RunStyle {
    /// Ordinary text.
    Plain,
    /// Ordinary text carrying the cursor underline.
    PlainUnderlined,
    /// De-emphasized text, such as a placeholder message.
    Dim,
    /// De-emphasized text carrying the cursor underline.
    DimUnderlined,
}

/// One styled run of text, ready to be painted.
#[derive(Clone, Debug)]
pub struct TextRun {
    pub text: String,
    pub style: RunStyle,
}

impl TextRun {
    pub fn new(text: String, style: RunStyle) -> (r: TextRun)
        ensures
            r.text == text,
            r.style == style,
    {
        TextRun { text, style }
    }
}

/// The mathematical shadow of a run list: each run as its character
/// sequence and style, with the `String` allocation abstracted away.
pub open spec fn run_views(rs: Seq<TextRun>) -> Seq<(Seq<char>, RunStyle)> {
    rs.map_values(|tr: TextRun| (tr.text@, tr.style))
}

} // verus!
