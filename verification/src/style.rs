//! Pieces of terminal output and the way they are painted.
//!
//! What is written where is decided elsewhere, as a sequence of [`Span`]s.
//! Only [`Span::paint`] turns a span into the characters that reach the
//! terminal, and it leaves the colouring to the `colored` crate: whether
//! there is any depends on the terminal and the environment, but the text of
//! the span is written either way.

use colored::Colorize;
use vstd::prelude::*;

verus! {

/// How a piece of output is painted.
#[derive(Debug, Clone, Copy, PartialEq, Eq, Structural)]
pub enum Style {
    /// As it is.
    Plain,
    /// Bold red: the marker that asks the user to speak.
    Prompt,
    /// Bold green: the marker in front of a reply.
    Assistant,
    /// Yellow: the report of a failed exchange.
    Warning,
}

/// A piece of output with its style.
#[derive(Debug, Clone, PartialEq, Eq)]
pub struct Span {
    pub style: Style,
    pub text: String,
}

/// Mathematical model of [`Span`].
pub struct SpanView {
    pub style: Style,
    pub text: Seq<char>,
}

impl View for Span {
    type V = SpanView;

    open spec fn view(&self) -> SpanView {
        SpanView { style: self.style, text: self.text@ }
    }
}

impl DeepView for Span {
    type V = SpanView;

    open spec fn deep_view(&self) -> SpanView {
        self@
    }
}

/// `colored::ColoredString`: a text with the colours and the style to show it
/// in. Nothing inside it is visible to the verifier.
#[verifier::external_type_specification]
#[verifier::external_body]
pub struct ExColoredString(colored::ColoredString);

/// The character that starts every control sequence of a terminal.
pub const ESCAPE: char = '\u{1b}';

/// The control sequence that ends a style.
pub const RESET: &'static str = "\u{1b}[0m";

/// The text inside a styled text: its field `input`.
pub uninterp spec fn styled_text(text: colored::ColoredString) -> Seq<char>;

/// Whether `painted` shows `text`: it is the text alone, or the text between
/// some lead and the sequence that ends a style.
pub open spec fn is_painting_of(painted: Seq<char>, text: Seq<char>) -> bool {
    exists|lead: Seq<char>, trail: Seq<char>|
        painted == lead + text + trail && (trail == RESET@ || (lead.len() == 0 && trail.len()
            == 0))
}

/// Calls `Colorize::bold` on a string slice: the result is a styled text that
/// holds the slice. Nothing is claimed of its style.
#[verifier::external_body]
fn bold(text: &str) -> (styled: colored::ColoredString)
    ensures
        styled_text(styled) == text@,
{
    text.bold()
}

/// Calls `Colorize::red` on a styled text: the result holds the same text.
/// Nothing is claimed of its style.
#[verifier::external_body]
fn red(text: colored::ColoredString) -> (styled: colored::ColoredString)
    ensures
        styled_text(styled) == styled_text(text),
{
    text.red()
}

/// Calls `Colorize::green` on a styled text: the result holds the same text.
/// Nothing is claimed of its style.
#[verifier::external_body]
fn green(text: colored::ColoredString) -> (styled: colored::ColoredString)
    ensures
        styled_text(styled) == styled_text(text),
{
    text.green()
}

/// Calls `Colorize::yellow` on a string slice: the result is a styled text
/// that holds the slice. Nothing is claimed of its style.
#[verifier::external_body]
fn yellow(text: &str) -> (styled: colored::ColoredString)
    ensures
        styled_text(styled) == text@,
{
    text.yellow()
}

/// Calls `to_string` on a styled text. Whether the result holds control
/// sequences depends on the terminal and the environment. Either way, a text
/// without [`ESCAPE`] comes out as it is, alone or between the sequence for
/// its style and [`RESET`]. A text that holds [`RESET`] is rewritten inside,
/// so nothing is claimed of a text with [`ESCAPE`] in it.
#[verifier::external_body]
fn shown(text: &colored::ColoredString) -> (painted: String)
    ensures
        !styled_text(*text).contains(ESCAPE) ==> is_painting_of(painted@, styled_text(*text)),
{
    text.to_string()
}

impl Span {
    /// A span of the given style.
    pub fn new(style: Style, text: &str) -> (span: Span)
        ensures
            span@ == (SpanView { style, text: text@ }),
    {
        Span { style, text: text.to_owned() }
    }

    /// The characters to write for this span. A plain span is written as it
    /// is. A span of another style is handed to `colored`, which writes the
    /// text alone or between control sequences, as the terminal and the
    /// environment ask for: unless the text holds [`ESCAPE`], the text is
    /// there in what is written.
    pub fn paint(&self) -> (painted: String)
        ensures
            self.style == Style::Plain ==> painted@ == self.text@,
            !self.text@.contains(ESCAPE) ==> is_painting_of(painted@, self.text@),
    {
        let painted = match self.style {
            Style::Plain => self.text.clone(),
            Style::Prompt => shown(&red(bold(self.text.as_str()))),
            Style::Assistant => shown(&green(bold(self.text.as_str()))),
            Style::Warning => shown(&yellow(self.text.as_str())),
        };
        proof {
            if self.style == Style::Plain {
                lemma_text_shows_itself(self.text@);
            }
        }
        painted
    }
}

/// A text shows itself.
pub proof fn lemma_text_shows_itself(text: Seq<char>)
    ensures
        is_painting_of(text, text),
{
    let nothing = Seq::<char>::empty();
    assert(text =~= nothing + text + nothing);
}

/// What shows a text holds it: the text stands in it, in one piece.
pub proof fn lemma_painting_holds_text(painted: Seq<char>, text: Seq<char>)
    requires
        is_painting_of(painted, text),
    ensures
        exists|lead: Seq<char>, trail: Seq<char>| painted == lead + text + trail,
        painted.len() >= text.len(),
{
    let (lead, trail) = choose|lead: Seq<char>, trail: Seq<char>|
        painted == lead + text + trail && (trail == RESET@ || (lead.len() == 0 && trail.len()
            == 0));
    assert(painted == lead + text + trail);
}

} // verus!
