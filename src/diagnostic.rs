//! Diagnostics: a severity, a code, a message, labels and notes.
use vstd::prelude::*;
pub use crate::label::{Label, LabelStyle, LabelView};
pub use crate::severity::Severity;

verus! {

/// What a diagnostic holds, with strings as character sequences.
pub struct DiagnosticView<FileId> {
    pub severity: Severity,
    pub code: Option<Seq<char>>,
    pub message: Seq<char>,
    pub labels: Seq<LabelView<FileId>>,
    pub notes: Seq<Seq<char>>,
}

/// The views of a sequence of labels.
pub open spec fn label_views<FileId>(labels: Seq<Label<FileId>>) -> Seq<LabelView<FileId>> {
    labels.map_values(|l: Label<FileId>| l@)
}

/// The views of a sequence of strings.
pub open spec fn string_views(notes: Seq<String>) -> Seq<Seq<char>> {
    notes.map_values(|s: String| s@)
}

impl<FileId> DiagnosticView<FileId> {
    /// A diagnostic of the given severity with no code, an empty message, no
    /// labels and no notes.
    pub open spec fn new(severity: Severity) -> Self {
        DiagnosticView {
            severity,
            code: None,
            message: Seq::empty(),
            labels: Seq::empty(),
            notes: Seq::empty(),
        }
    }

    /// The same diagnostic with its code replaced.
    pub open spec fn with_code(self, code: Seq<char>) -> Self {
        DiagnosticView { code: Some(code), ..self }
    }

    /// The same diagnostic with its message replaced.
    pub open spec fn with_message(self, message: Seq<char>) -> Self {
        DiagnosticView { message, ..self }
    }

    /// The same diagnostic with `labels` added after its own.
    pub open spec fn with_labels(self, labels: Seq<LabelView<FileId>>) -> Self {
        DiagnosticView { labels: self.labels + labels, ..self }
    }

    /// The same diagnostic with `notes` added after its own.
    pub open spec fn with_notes(self, notes: Seq<Seq<char>>) -> Self {
        DiagnosticView { notes: self.notes + notes, ..self }
    }

    /// The same diagnostic with every label moved to `file_id`.
    pub open spec fn with_file<NewFileId>(self, file_id: NewFileId) -> DiagnosticView<NewFileId> {
        DiagnosticView {
            severity: self.severity,
            code: self.code,
            message: self.message,
            labels: self.labels.map_values(|l: LabelView<FileId>| l.with_file(file_id)),
            notes: self.notes,
        }
    }

    /// `r` is this diagnostic with each label moved to a clone of `file_id`,
    /// everything else kept.
    pub open spec fn rebound_to<NewFileId: Clone>(
        self,
        r: DiagnosticView<NewFileId>,
        file_id: NewFileId,
    ) -> bool {
        &&& r.severity == self.severity
        &&& r.code == self.code
        &&& r.message == self.message
        &&& r.notes == self.notes
        &&& r.labels.len() == self.labels.len()
        &&& forall|i: int|
            0 <= i < r.labels.len() ==> {
                &&& #[trigger] r.labels[i] == self.labels[i].with_file(r.labels[i].file_id)
                &&& cloned(file_id, r.labels[i].file_id)
            }
    }
}

/// The style whose labels decide a diagnostic's position: `Primary` where
/// any label is primary, `Secondary` otherwise.
pub open spec fn deciding_style<FileId>(labels: Seq<LabelView<FileId>>) -> LabelStyle {
    if exists|i: int| 0 <= i < labels.len() && #[trigger] labels[i].style == LabelStyle::Primary {
        LabelStyle::Primary
    } else {
        LabelStyle::Secondary
    }
}

/// `p` is the position of a diagnostic with these labels: the earliest start
/// among the labels of the highest style present.
pub open spec fn is_position<FileId>(labels: Seq<LabelView<FileId>>, p: usize) -> bool {
    let s = deciding_style(labels);
    &&& exists|i: int| 0 <= i < labels.len() && #[trigger] labels[i].style == s && labels[i].start == p
    &&& forall|j: int| 0 <= j < labels.len() && #[trigger] labels[j].style == s ==> p <= labels[j].start
}

/// Represents a diagnostic message that can provide information like errors
/// and warnings to the user.
///
/// The position of a diagnostic is the start of the earliest label among
/// those of the highest style that occurs in it (see [`Diagnostic::position`]).
#[derive(Clone, Debug, PartialEq, Eq)]
pub struct Diagnostic<FileId> {
    /// The overall severity of the diagnostic
    pub severity: Severity,
    /// An optional code that identifies this diagnostic.
    pub code: Option<String>,
    /// The main message associated with this diagnostic.
    ///
    /// These should not include line breaks, and in order support the 'short'
    /// diagnostic display mod, the message should be specific enough to make
    /// sense on its own, without additional context provided by labels and notes.
    pub message: String,
    /// Source labels that describe the cause of the diagnostic.
    /// The order of the labels inside the vector does not have any meaning.
    /// The labels are always arranged in the order they appear in the source code.
    pub labels: Vec<Label<FileId>>,
    /// Notes that are associated with the primary cause of the diagnostic.
    /// These can include line breaks for improved formatting.
    pub notes: Vec<String>,
}

impl<FileId> View for Diagnostic<FileId> {
    type V = DiagnosticView<FileId>;

    open spec fn view(&self) -> DiagnosticView<FileId> {
        DiagnosticView {
            severity: self.severity,
            code: match self.code {
                Some(c) => Some(c@),
                None => None,
            },
            message: self.message@,
            labels: label_views(self.labels@),
            notes: string_views(self.notes@),
        }
    }
}

impl<FileId> Diagnostic<FileId> {
    /// Create a new diagnostic.
    pub fn new(severity: Severity) -> (r: Diagnostic<FileId>)
        ensures
            r@ == DiagnosticView::<FileId>::new(severity),
    {
        let r = Diagnostic {
            severity,
            code: None,
            message: String::new(),
            labels: Vec::new(),
            notes: Vec::new(),
        };
        assert(r@.labels =~= Seq::empty());
        assert(r@.notes =~= Seq::empty());
        r
    }

    /// Create a new diagnostic with a severity of [`Severity::Bug`].
    pub fn bug() -> (r: Diagnostic<FileId>)
        ensures
            r@ == DiagnosticView::<FileId>::new(Severity::Bug),
    {
        Diagnostic::new(Severity::Bug)
    }

    /// Create a new diagnostic with a severity of [`Severity::Error`].
    pub fn error() -> (r: Diagnostic<FileId>)
        ensures
            r@ == DiagnosticView::<FileId>::new(Severity::Error),
    {
        Diagnostic::new(Severity::Error)
    }

    /// Create a new diagnostic with a severity of [`Severity::Warning`].
    pub fn warning() -> (r: Diagnostic<FileId>)
        ensures
            r@ == DiagnosticView::<FileId>::new(Severity::Warning),
    {
        Diagnostic::new(Severity::Warning)
    }

    /// Create a new diagnostic with a severity of [`Severity::Note`].
    pub fn note() -> (r: Diagnostic<FileId>)
        ensures
            r@ == DiagnosticView::<FileId>::new(Severity::Note),
    {
        Diagnostic::new(Severity::Note)
    }

    /// Create a new diagnostic with a severity of [`Severity::Help`].
    pub fn help() -> (r: Diagnostic<FileId>)
        ensures
            r@ == DiagnosticView::<FileId>::new(Severity::Help),
    {
        Diagnostic::new(Severity::Help)
    }

    /// Set the error code of the diagnostic. The old code (if any) is discarded.
    pub fn with_code(self, code: &str) -> (r: Diagnostic<FileId>)
        ensures
            r@ == self@.with_code(code@),
    {
        let mut d = self;
        d.code = Some(code.to_string());
        d
    }

    /// Set the message of the diagnostic. The old message is discarded.
    pub fn with_message(self, message: &str) -> (r: Diagnostic<FileId>)
        ensures
            r@ == self@.with_message(message@),
    {
        let mut d = self;
        d.message = message.to_string();
        d
    }

    /// Add some labels to the diagnostic, after the ones it has.
    pub fn with_labels(self, labels: Vec<Label<FileId>>) -> (r: Diagnostic<FileId>)
        ensures
            r@ == self@.with_labels(label_views(labels@)),
    {
        let mut d = self;
        let mut labels = labels;
        let ghost before = d.labels@;
        let ghost added = labels@;
        d.labels.append(&mut labels);
        assert(label_views(before + added) =~= label_views(before) + label_views(added));
        d
    }

    /// Add some labels to the diagnostic, one at a time in the order given,
    /// after the ones it has.
    pub fn with_labels_iter(self, labels: Vec<Label<FileId>>) -> (r: Diagnostic<FileId>)
        ensures
            r@ == self@.with_labels(label_views(labels@)),
    {
        let mut d = self;
        let ghost start = d@;
        let ghost all = labels@;
        for label in it: labels.into_iter()
            invariant
                it.seq() == all,
                d@ == start.with_labels(label_views(all.take(it.index()))),
        {
            let ghost done = all.take(it.index());
            let ghost held = d.labels@;
            assert(all.take(it.index() + 1) =~= done.push(label));
            d.labels.push(label);
            assert(label_views(held.push(label)) =~= label_views(held).push(label@));
            assert(label_views(done.push(label)) =~= label_views(done).push(label@));
            assert(start.labels + label_views(done).push(label@) =~= (start.labels + label_views(
                done,
            )).push(label@));
        }
        assert(all.take(all.len() as int) =~= all);
        d
    }

    /// Add some notes to the diagnostic, one at a time in the order given,
    /// after the ones it has.
    pub fn with_notes_iter(self, notes: Vec<String>) -> (r: Diagnostic<FileId>)
        ensures
            r@ == self@.with_notes(string_views(notes@)),
    {
        let mut d = self;
        let ghost start = d@;
        let ghost all = notes@;
        for note in it: notes.into_iter()
            invariant
                it.seq() == all,
                d@ == start.with_notes(string_views(all.take(it.index()))),
        {
            let ghost done = all.take(it.index());
            let ghost held = d.notes@;
            assert(all.take(it.index() + 1) =~= done.push(note));
            d.notes.push(note);
            assert(string_views(held.push(note)) =~= string_views(held).push(note@));
            assert(string_views(done.push(note)) =~= string_views(done).push(note@));
            assert(start.notes + string_views(done).push(note@) =~= (start.notes + string_views(
                done,
            )).push(note@));
        }
        assert(all.take(all.len() as int) =~= all);
        d
    }

    /// Set the file id of every label of this diagnostic to a clone of
    /// `file_id`, by [`Label::with_file`]; everything else is kept.
    pub fn with_file<NewFileId: Clone>(self, file_id: NewFileId) -> (r: Diagnostic<NewFileId>)
        ensures
            self@.rebound_to(r@, file_id),
    {
        let Diagnostic { severity, code, message, labels, notes } = self;
        let ghost all = label_views(labels@);
        let mut rebound: Vec<Label<NewFileId>> = Vec::new();
        for label in it: labels.into_iter()
            invariant
                all == label_views(it.seq()),
                rebound@.len() == it.index(),
                forall|i: int|
                    0 <= i < it.index() ==> {
                        &&& #[trigger] rebound@[i]@ == all[i].with_file(rebound@[i].file_id)
                        &&& cloned(file_id, rebound@[i].file_id)
                    },
        {
            let ghost k = it.index();
            let id = file_id.clone();
            proof {
                assert(vstd::pervasive::strictly_cloned(file_id, id));
            }
            assert(all[k] == label@);
            rebound.push(label.with_file(id));
        }
        let r = Diagnostic { severity, code, message, labels: rebound, notes };
        assert forall|i: int| 0 <= i < r@.labels.len() implies {
            &&& #[trigger] r@.labels[i] == all[i].with_file(r@.labels[i].file_id)
            &&& cloned(file_id, r@.labels[i].file_id)
        } by {
            assert(r@.labels[i] == rebound@[i]@);
        }
        r
    }

    /// The position of the diagnostic: the earliest start among its primary
    /// labels, or among its secondary labels where none is primary; `None`
    /// where it has no labels.
    pub fn position(&self) -> (r: Option<usize>)
        ensures
            r is None <==> self@.labels.len() == 0,
            r matches Some(p) ==> is_position(self@.labels, p),
    {
        let ghost ls = self@.labels;
        let mut primary: Option<usize> = None;
        let mut secondary: Option<usize> = None;
        let mut i: usize = 0;
        while i < self.labels.len()
            invariant
                i <= self.labels.len(),
                ls == label_views(self.labels@),
                primary is None <==> !exists|j: int|
                    0 <= j < i && #[trigger] ls[j].style == LabelStyle::Primary,
                primary matches Some(p) ==> {
                    &&& exists|j: int|
                        0 <= j < i && #[trigger] ls[j].style == LabelStyle::Primary && ls[j].start
                            == p
                    &&& forall|j: int|
                        0 <= j < i && #[trigger] ls[j].style == LabelStyle::Primary ==> p
                            <= ls[j].start
                },
                secondary is None <==> !exists|j: int|
                    0 <= j < i && #[trigger] ls[j].style == LabelStyle::Secondary,
                secondary matches Some(p) ==> {
                    &&& exists|j: int|
                        0 <= j < i && #[trigger] ls[j].style == LabelStyle::Secondary
                            && ls[j].start == p
                    &&& forall|j: int|
                        0 <= j < i && #[trigger] ls[j].style == LabelStyle::Secondary ==> p
                            <= ls[j].start
                },
            decreases self.labels.len() - i,
        {
            let start = self.labels[i].range.start;
            let style = self.labels[i].style;
            assert(ls[i as int].start == start && ls[i as int].style == style);
            match style {
                LabelStyle::Primary => {
                    match primary {
                        Some(p) => {
                            if start < p {
                                primary = Some(start);
                            }
                        },
                        None => {
                            primary = Some(start);
                        },
                    }
                },
                LabelStyle::Secondary => {
                    match secondary {
                        Some(p) => {
                            if start < p {
                                secondary = Some(start);
                            }
                        },
                        None => {
                            secondary = Some(start);
                        },
                    }
                },
            }
            i = i + 1;
        }
        proof {
            if ls.len() > 0 {
                assert(ls[0].style == LabelStyle::Primary || ls[0].style == LabelStyle::Secondary);
            }
        }
        match primary {
            Some(p) => Some(p),
            None => secondary,
        }
    }

    /// Add some notes to the diagnostic, after the ones it has.
    pub fn with_notes(self, notes: Vec<String>) -> (r: Diagnostic<FileId>)
        ensures
            r@ == self@.with_notes(string_views(notes@)),
    {
        let mut d = self;
        let mut notes = notes;
        let ghost before = d.notes@;
        let ghost added = notes@;
        d.notes.append(&mut notes);
        assert(string_views(before + added) =~= string_views(before) + string_views(added));
        d
    }
}


/// Setting a diagnostic's message twice keeps only the second message, and
/// likewise for its code.
pub proof fn message_and_code_replaced<FileId>(
    d: DiagnosticView<FileId>,
    a: Seq<char>,
    b: Seq<char>,
)
    ensures
        d.with_message(a).with_message(b) == d.with_message(b),
        d.with_message(a).with_message(b).message == b,
        d.with_code(a).with_code(b) == d.with_code(b),
        d.with_code(a).with_code(b).code == Some(b),
{
}

/// Labels and notes accumulate: adding `a` and then `b` leaves the earlier
/// ones, then `a`, then `b`, so `error().with_labels([x]).with_labels([y])`
/// has the labels `[x, y]`.
pub proof fn labels_and_notes_appended<FileId>(
    d: DiagnosticView<FileId>,
    a: Seq<LabelView<FileId>>,
    b: Seq<LabelView<FileId>>,
    m: Seq<Seq<char>>,
    n: Seq<Seq<char>>,
    x: LabelView<FileId>,
    y: LabelView<FileId>,
)
    ensures
        d.with_labels(a).with_labels(b) == d.with_labels(a + b),
        d.with_labels(a).with_labels(b).labels == d.labels + a + b,
        d.with_notes(m).with_notes(n) == d.with_notes(m + n),
        d.with_notes(m).with_notes(n).notes == d.notes + m + n,
        DiagnosticView::<FileId>::new(Severity::Error).with_labels(seq![x]).with_labels(
            seq![y],
        ).labels == seq![x, y],
{
    assert(d.labels + a + b =~= d.labels + (a + b));
    assert(d.notes + m + n =~= d.notes + (m + n));
    assert(Seq::<LabelView<FileId>>::empty() + seq![x] + seq![y] =~= seq![x, y]);
}

/// Moving a diagnostic to a file gives every label that file and keeps each
/// label's style, range and message, and the severity, code, message and
/// notes. A diagnostic rebound to clones of the file that equal it is exactly
/// that diagnostic.
pub proof fn with_file_rebinds_every_label<FileId, NewFileId: Clone>(
    d: DiagnosticView<FileId>,
    file_id: NewFileId,
    r: DiagnosticView<NewFileId>,
)
    ensures
        ({
            let e = d.with_file(file_id);
            &&& e.severity == d.severity
            &&& e.code == d.code
            &&& e.message == d.message
            &&& e.notes == d.notes
            &&& e.labels.len() == d.labels.len()
            &&& forall|i: int|
                0 <= i < e.labels.len() ==> {
                    &&& (#[trigger] e.labels[i]).file_id == file_id
                    &&& e.labels[i].style == d.labels[i].style
                    &&& e.labels[i].start == d.labels[i].start
                    &&& e.labels[i].end == d.labels[i].end
                    &&& e.labels[i].message == d.labels[i].message
                }
        }),
        d.rebound_to(r, file_id) && (forall|i: int|
            0 <= i < r.labels.len() ==> (#[trigger] r.labels[i]).file_id == file_id) ==> r
            == d.with_file(file_id),
{
    if d.rebound_to(r, file_id) && (forall|i: int|
        0 <= i < r.labels.len() ==> (#[trigger] r.labels[i]).file_id == file_id) {
        assert(r.labels =~= d.with_file(file_id).labels);
    }
}

/// Primary labels outrank secondary ones in deciding the position: where
/// some label is primary, the position is the start of a primary label and
/// no later than any primary label's start, and adding secondary labels does
/// not change it.
pub proof fn primary_decides_position<FileId>(
    labels: Seq<LabelView<FileId>>,
    extra: Seq<LabelView<FileId>>,
    p: usize,
)
    requires
        exists|i: int| 0 <= i < labels.len() && #[trigger] labels[i].style == LabelStyle::Primary,
        forall|k: int| 0 <= k < extra.len() ==> #[trigger] extra[k].style == LabelStyle::Secondary,
    ensures
        deciding_style(labels) == LabelStyle::Primary,
        is_position(labels, p) ==> exists|i: int|
            0 <= i < labels.len() && #[trigger] labels[i].style == LabelStyle::Primary
                && labels[i].start == p,
        is_position(labels, p) ==> forall|j: int|
            0 <= j < labels.len() && #[trigger] labels[j].style == LabelStyle::Primary ==> p
                <= labels[j].start,
        is_position(labels, p) <==> is_position(labels + extra, p),
{
    let all = labels + extra;
    let i0 = choose|i: int| 0 <= i < labels.len() && #[trigger] labels[i].style == LabelStyle::Primary;
    assert(all[i0] == labels[i0]);
    assert(deciding_style(all) == LabelStyle::Primary);
    if is_position(labels, p) {
        let w = choose|i: int|
            0 <= i < labels.len() && #[trigger] labels[i].style == LabelStyle::Primary
                && labels[i].start == p;
        assert(all[w] == labels[w]);
        assert forall|j: int|
            0 <= j < all.len() && #[trigger] all[j].style == LabelStyle::Primary implies p
                <= all[j].start by {
            if j < labels.len() {
                assert(all[j] == labels[j]);
            } else {
                assert(all[j] == extra[j - labels.len()]);
            }
        }
    }
    if is_position(all, p) {
        let w = choose|i: int|
            0 <= i < all.len() && #[trigger] all[i].style == LabelStyle::Primary && all[i].start
                == p;
        if w >= labels.len() {
            assert(all[w] == extra[w - labels.len()]);
        }
        assert(all[w] == labels[w]);
        assert forall|j: int|
            0 <= j < labels.len() && #[trigger] labels[j].style == LabelStyle::Primary implies p
                <= labels[j].start by {
            assert(all[j] == labels[j]);
        }
    }
}

/// A diagnostic has at most one position: labels that tie on style and start
/// give the same offset, so no tie-break is needed.
pub proof fn position_is_unique<FileId>(labels: Seq<LabelView<FileId>>, p: usize, q: usize)
    requires
        is_position(labels, p),
        is_position(labels, q),
    ensures
        p == q,
{
    let s = deciding_style(labels);
    let i = choose|i: int| 0 <= i < labels.len() && #[trigger] labels[i].style == s && labels[i].start == p;
    let j = choose|j: int| 0 <= j < labels.len() && #[trigger] labels[j].style == s && labels[j].start == q;
}

} // verus!
