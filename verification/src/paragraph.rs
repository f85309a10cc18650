//! The text to type: a paragraph with its credits, and the cells that the
//! session scores, one for each character.

use vstd::prelude::*;

verus! {

/// How a cell is shown and scored.
#[derive(Clone, Copy, Debug, PartialEq, Eq, Structural)]
pub enum CharStatus {
    /// Typed, and the key matched.
    Correct,
    /// Typed, and the key did not match.
    Wrong,
    /// Not reached yet.
    Default,
    /// The cell that the next key is held against.
    Current,
}

/// One character of the paragraph with its status.
#[derive(Clone, Copy, Debug)]
pub struct ParagraphChar {
    pub character: char,
    pub status: CharStatus,
}

/// The colours that text is drawn in.
#[derive(Clone, Copy, Debug, PartialEq, Eq, Structural)]
pub enum Color {
    Green,
    White,
    DarkGray,
    Red,
}

/// How a piece of text is drawn: the colour of the text and the colour
/// behind it, each left to the terminal where it is `None`.
#[derive(Clone, Copy, Debug, PartialEq, Eq, Structural)]
pub struct Style {
    pub fg: Option<Color>,
    pub bg: Option<Color>,
}

/// A piece of text with its style.
#[derive(Debug)]
pub struct Span {
    pub content: String,
    pub style: Style,
}

/// The style of a cell by its status: green where it was typed right, white
/// on dark grey under the cursor, red where it was typed wrong, dark grey
/// where it is not reached. A wrong space has a red background, since it has
/// no text to colour.
pub open spec fn cell_style(cell: ParagraphChar) -> Style {
    match cell.status {
        CharStatus::Correct => Style { fg: Some(Color::Green), bg: None },
        CharStatus::Current => Style { fg: Some(Color::White), bg: Some(Color::DarkGray) },
        CharStatus::Wrong => if cell.character == ' ' {
            Style { fg: None, bg: Some(Color::Red) }
        } else {
            Style { fg: Some(Color::Red), bg: None }
        },
        CharStatus::Default => Style { fg: Some(Color::DarkGray), bg: None },
    }
}

impl ParagraphChar {
    /// A cell of this character and status.
    pub fn new(c: char, status: CharStatus) -> (cell: ParagraphChar)
        ensures
            cell.character == c,
            cell.status == status,
    {
        ParagraphChar { character: c, status }
    }

    /// The cell as a piece of styled text: its character, drawn by its
    /// status.
    pub fn to_span(&self) -> (span: Span)
        ensures
            span.content@ == seq![self.character],
            span.style == cell_style(*self),
    {
        let style = match self.status {
            CharStatus::Correct => Style { fg: Some(Color::Green), bg: None },
            CharStatus::Current => Style { fg: Some(Color::White), bg: Some(Color::DarkGray) },
            CharStatus::Wrong => {
                if self.character == ' ' {
                    Style { fg: None, bg: Some(Color::Red) }
                } else {
                    Style { fg: Some(Color::Red), bg: None }
                }
            },
            CharStatus::Default => Style { fg: Some(Color::DarkGray), bg: None },
        };
        let mut content = String::new();
        content.push(self.character);
        assert(content@ =~= seq![self.character]);
        Span { content, style }
    }
}

/// A cell that nobody has typed yet.
pub open spec fn fresh_cell(c: char) -> ParagraphChar {
    ParagraphChar { character: c, status: CharStatus::Default }
}

/// The cells of a text that nobody has typed yet: one for each character, in
/// order, all of them `Default`.
pub open spec fn fresh_cells(text: Seq<char>) -> Seq<ParagraphChar> {
    text.map_values(|c: char| fresh_cell(c))
}

/// The characters of a row of cells, whatever their status.
pub open spec fn cell_chars(cells: Seq<ParagraphChar>) -> Seq<char> {
    cells.map_values(|cell: ParagraphChar| cell.character)
}

/// The character is white space, as Unicode lists it.
pub open spec fn is_white_space(c: char) -> bool {
    let code = c as u32;
    ||| 0x09 <= code <= 0x0d
    ||| code == 0x20
    ||| code == 0x85
    ||| code == 0xa0
    ||| code == 0x1680
    ||| 0x2000 <= code <= 0x200a
    ||| code == 0x2028
    ||| code == 0x2029
    ||| code == 0x202f
    ||| code == 0x205f
    ||| code == 0x3000
}

/// A word begins at `i`: the character there is no white space, and it is
/// the first of the text or follows white space.
pub open spec fn word_starts_at(text: Seq<char>, i: int) -> bool {
    !is_white_space(text[i]) && (i == 0 || is_white_space(text[i - 1]))
}

/// How many words begin among the first `n` characters of `text`.
pub open spec fn count_words(text: Seq<char>, n: int) -> int
    decreases n,
{
    if n <= 0 {
        0
    } else {
        count_words(text, n - 1) + if word_starts_at(text, n - 1) {
            1int
        } else {
            0int
        }
    }
}

/// The number of words of a text: the pieces that white space cuts it into.
pub open spec fn word_count(text: Seq<char>) -> int {
    count_words(text, text.len() as int)
}

/// Whether the character is white space.
pub fn white_space(c: char) -> (white: bool)
    ensures
        white == is_white_space(c),
{
    let code = c as u32;
    (0x09 <= code && code <= 0x0d) || code == 0x20 || code == 0x85 || code == 0xa0 || code
        == 0x1680 || (0x2000 <= code && code <= 0x200a) || code == 0x2028 || code == 0x2029
        || code == 0x202f || code == 0x205f || code == 0x3000
}

/// Turns a string into cells that nobody has typed yet.
pub fn convert_string_to_chars(s: String) -> (cells: Vec<ParagraphChar>)
    ensures
        cells@ == fresh_cells(s@),
{
    let text = s.as_str();
    let mut cells: Vec<ParagraphChar> = Vec::new();
    for c in it: text.chars()
        invariant
            it.seq() == text@,
            cells@.len() == it.index(),
            forall|j: int|
                0 <= j < cells@.len() ==> (#[trigger] cells@[j]).character == text@[j]
                    && cells@[j].status == CharStatus::Default,
    {
        cells.push(ParagraphChar::new(c, CharStatus::Default));
    }
    assert(cells@ =~= fresh_cells(s@));
    cells
}

/// What a paragraph holds, as plain text.
pub struct ParagraphView {
    pub content: Seq<char>,
    pub title: Seq<char>,
    pub author: Seq<char>,
    pub date: Seq<char>,
}

/// The paragraph with no text and no credits.
pub open spec fn empty_paragraph() -> ParagraphView {
    ParagraphView {
        content: Seq::empty(),
        title: Seq::empty(),
        author: Seq::empty(),
        date: Seq::empty(),
    }
}

/// A paragraph to type, with the credits shown beside it.
#[derive(Debug)]
pub struct AppParagraph {
    pub content: String,
    pub title: String,
    pub author: String,
    pub date: String,
}

impl View for AppParagraph {
    type V = ParagraphView;

    open spec fn view(&self) -> ParagraphView {
        ParagraphView {
            content: self.content@,
            title: self.title@,
            author: self.author@,
            date: self.date@,
        }
    }
}

impl Clone for AppParagraph {
    fn clone(&self) -> (copy: AppParagraph)
        ensures
            copy@ == self@,
    {
        AppParagraph {
            content: self.content.clone(),
            title: self.title.clone(),
            author: self.author.clone(),
            date: self.date.clone(),
        }
    }
}

impl Default for AppParagraph {
    /// The empty paragraph.
    fn default() -> (paragraph: AppParagraph)
        ensures
            paragraph@ == empty_paragraph(),
    {
        AppParagraph::new()
    }
}

impl AppParagraph {
    /// The empty paragraph.
    pub fn new() -> (paragraph: AppParagraph)
        ensures
            paragraph@ == empty_paragraph(),
    {
        AppParagraph {
            content: String::new(),
            title: String::new(),
            author: String::new(),
            date: String::new(),
        }
    }

    /// The cells of this paragraph's text, none of them typed.
    pub fn get_paragraph_chars(&self) -> (cells: Vec<ParagraphChar>)
        ensures
            cells@ == fresh_cells(self@.content),
    {
        convert_string_to_chars(self.content.clone())
    }

    /// The number of words of the text.
    pub fn get_word_count(&self) -> (words: usize)
        ensures
            words == word_count(self@.content),
    {
        let text = self.content.as_str();
        let n = text.unicode_len();
        let mut words: usize = 0;
        let mut after_space = true;
        for c in it: text.chars()
            invariant
                it.seq() == text@,
                n == text@.len(),
                words == count_words(text@, it.index() as int),
                words <= it.index() <= n,
                after_space == (it.index() == 0 || is_white_space(text@[it.index() - 1])),
        {
            let white = white_space(c);
            if !white && after_space {
                words += 1;
            }
            after_space = white;
        }
        words
    }
}

} // verus!
