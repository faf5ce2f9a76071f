//! Labels: styled references to byte ranges of one source file.
use vstd::prelude::*;
use vstd::std_specs::cmp::PartialOrdSpec;
use std::ops::Range;

verus! {

/// The role of a label within its diagnostic.
#[derive(Copy, Clone, Debug, PartialEq, Eq, Structural)]
pub enum LabelStyle {
    /// Labels that describe the primary cause of a diagnostic.
    Primary,
    /// Labels that provide additional context for a diagnostic.
    Secondary,
}

impl LabelStyle {
    /// How strongly a label of this style speaks for its diagnostic:
    /// `Primary` ranks above `Secondary`.
    pub open spec fn precedence(self) -> nat {
        match self {
            LabelStyle::Primary => 1,
            LabelStyle::Secondary => 0,
        }
    }

    /// Whether this style ranks strictly above `other`.
    pub fn outranks(&self, other: &LabelStyle) -> (r: bool)
        ensures
            r == (self.precedence() > other.precedence()),
    {
        match (self, other) {
            (LabelStyle::Primary, LabelStyle::Secondary) => true,
            _ => false,
        }
    }
}

/// Styles are ordered as they are declared: `Primary` comes before
/// `Secondary`.
impl PartialOrd for LabelStyle {
    fn partial_cmp(&self, other: &LabelStyle) -> (r: Option<core::cmp::Ordering>) {
        match (self, other) {
            (LabelStyle::Primary, LabelStyle::Secondary) => Some(core::cmp::Ordering::Less),
            (LabelStyle::Secondary, LabelStyle::Primary) => Some(core::cmp::Ordering::Greater),
            _ => Some(core::cmp::Ordering::Equal),
        }
    }
}

impl vstd::std_specs::cmp::PartialOrdSpecImpl for LabelStyle {
    open spec fn obeys_partial_cmp_spec() -> bool {
        true
    }

    open spec fn partial_cmp_spec(&self, other: &LabelStyle) -> Option<core::cmp::Ordering> {
        if self == other {
            Some(core::cmp::Ordering::Equal)
        } else if *self == LabelStyle::Primary {
            Some(core::cmp::Ordering::Less)
        } else {
            Some(core::cmp::Ordering::Greater)
        }
    }
}

/// What a label holds: its style, its file, the half-open byte range
/// `[start, end)` and its message.
pub struct LabelView<FileId> {
    pub style: LabelStyle,
    pub file_id: FileId,
    pub start: usize,
    pub end: usize,
    pub message: Seq<char>,
}

impl<FileId> LabelView<FileId> {
    /// A label with an empty message.
    pub open spec fn new(style: LabelStyle, file_id: FileId, start: usize, end: usize) -> Self {
        LabelView { style, file_id, start, end, message: Seq::empty() }
    }

    /// The same label with its message replaced.
    pub open spec fn with_message(self, message: Seq<char>) -> Self {
        LabelView { message, ..self }
    }

    /// The same label, in another file.
    pub open spec fn with_file<NewFileId>(self, file_id: NewFileId) -> LabelView<NewFileId> {
        LabelView {
            style: self.style,
            file_id,
            start: self.start,
            end: self.end,
            message: self.message,
        }
    }
}

/// A label describing an underlined region of code associated with a
/// diagnostic. The range is not checked against the file: it may be empty,
/// inverted or out of bounds.
#[derive(Debug, PartialEq, Eq)]
pub struct Label<FileId> {
    /// The style of the label.
    pub style: LabelStyle,
    /// The file that we are labelling.
    pub file_id: FileId,
    /// The range in bytes we are going to include in the final snippet.
    pub range: Range<usize>,
    /// An optional message to provide some additional information for the
    /// underlined code. These should not include line breaks.
    pub message: String,
}

impl<FileId> View for Label<FileId> {
    type V = LabelView<FileId>;

    open spec fn view(&self) -> LabelView<FileId> {
        LabelView {
            style: self.style,
            file_id: self.file_id,
            start: self.range.start,
            end: self.range.end,
            message: self.message@,
        }
    }
}

impl<FileId: Clone> Clone for Label<FileId> {
    fn clone(&self) -> Label<FileId> {
        Label {
            style: self.style,
            file_id: self.file_id.clone(),
            range: Range { start: self.range.start, end: self.range.end },
            message: self.message.clone(),
        }
    }
}

impl<FileId> Label<FileId> {
    /// Create a new label.
    pub fn new(style: LabelStyle, file_id: FileId, range: Range<usize>) -> (r: Label<FileId>)
        ensures
            r@ == LabelView::new(style, file_id, range.start, range.end),
    {
        Label { style, file_id, range, message: String::new() }
    }

    /// Create a new label with a style of [`LabelStyle::Primary`].
    pub fn primary(file_id: FileId, range: Range<usize>) -> (r: Label<FileId>)
        ensures
            r@ == LabelView::new(LabelStyle::Primary, file_id, range.start, range.end),
    {
        Label::new(LabelStyle::Primary, file_id, range)
    }

    /// Create a new label with a style of [`LabelStyle::Secondary`].
    pub fn secondary(file_id: FileId, range: Range<usize>) -> (r: Label<FileId>)
        ensures
            r@ == LabelView::new(LabelStyle::Secondary, file_id, range.start, range.end),
    {
        Label::new(LabelStyle::Secondary, file_id, range)
    }

    /// Set the message for the label. The old message (if any) is discarded.
    pub fn with_message(self, message: &str) -> (r: Label<FileId>)
        ensures
            r@ == self@.with_message(message@),
    {
        let mut label = self;
        label.message = message.to_string();
        label
    }

    /// Set the file id. The old file id (if any) is discarded.
    pub fn with_file<NewFileId>(self, file_id: NewFileId) -> (r: Label<NewFileId>)
        ensures
            r@ == self@.with_file(file_id),
    {
        Label { style: self.style, file_id, range: self.range, message: self.message }
    }
}

impl Label<()> {
    /// Create a new label without specifying a file id: the placeholder `()`
    /// stands for it until [`Label::with_file`] supplies one.
    pub fn new_anon(style: LabelStyle, range: Range<usize>) -> (r: Label<()>)
        ensures
            r@ == LabelView::new(style, (), range.start, range.end),
    {
        Label { style, file_id: (), range, message: String::new() }
    }

    /// Create a new label with a style of [`LabelStyle::Primary`] and without
    /// specifying a file id.
    pub fn primary_anon(range: Range<usize>) -> (r: Label<()>)
        ensures
            r@ == LabelView::new(LabelStyle::Primary, (), range.start, range.end),
    {
        Label::new_anon(LabelStyle::Primary, range)
    }

    /// Create a new label with a style of [`LabelStyle::Secondary`] and without
    /// specifying a file id.
    pub fn secondary_anon(range: Range<usize>) -> (r: Label<()>)
        ensures
            r@ == LabelView::new(LabelStyle::Secondary, (), range.start, range.end),
    {
        Label::new_anon(LabelStyle::Secondary, range)
    }
}

/// Giving an anonymous label a file is the same as naming the file when the
/// label is made: `primary_anon(r).with_file(f)` equals `primary(f, r)`, and
/// likewise for every style and message.
pub proof fn anonymous_then_file<FileId>(
    style: LabelStyle,
    file_id: FileId,
    start: usize,
    end: usize,
    message: Seq<char>,
)
    ensures
        LabelView::new(style, (), start, end).with_file(file_id) == LabelView::new(
            style,
            file_id,
            start,
            end,
        ),
        LabelView::new(style, (), start, end).with_message(message).with_file(file_id)
            == LabelView::new(style, file_id, start, end).with_message(message),
{
}

/// Setting a label's message twice keeps only the second message.
pub proof fn label_message_replaced<FileId>(l: LabelView<FileId>, a: Seq<char>, b: Seq<char>)
    ensures
        l.with_message(a).with_message(b) == l.with_message(b),
        l.with_message(a).with_message(b).message == b,
{
}

} // verus!
