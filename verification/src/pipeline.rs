//! The pipeline controller: the data source, the operation log with its
//! redo stack, and the one-shot latch of the numeric detection. Every
//! command changes the pipeline as a whole or not at all.

use crate::commands::{parse_operation, parsed, OperationInput};
use crate::datasource::{optional_source, source_for, DataSource, DataSourceView};
use crate::operations::{log_view, optional_text, Operation, OperationView};
use crate::persistence::{PersistentState, PersistentStateView};
use crate::text::texts;
use vstd::prelude::*;
use vstd::string::StringExecFns;

verus! {

/// How many leading rows a preview shows.
pub const PREVIEW_ROWS: u32 = 200;

/// Whether the text columns of the source were looked at for numbers, and
/// what was found. The detection runs once per load.
#[derive(Debug, Clone, Copy, PartialEq, Eq, Structural)]
pub enum AutoCast {
    /// Not looked at yet.
    NotChecked,
    /// Looked at; no text column holds numbers.
    CheckedNone,
    /// Looked at; the source now names the columns to read as numbers.
    CheckedFound,
}

/// The operation log and the operations undone from its end.
pub struct History {
    pub log: Seq<OperationView>,
    pub redo: Seq<OperationView>,
}

impl History {
    /// Appends an operation; what was undone before cannot be redone any
    /// more.
    pub open spec fn add(self, op: OperationView) -> History {
        History { log: self.log.push(op), redo: Seq::empty() }
    }

    /// Moves the last operation of the log onto the redo stack; nothing
    /// changes where the log is empty.
    pub open spec fn undo(self) -> History {
        if self.log.len() == 0 {
            self
        } else {
            History { log: self.log.drop_last(), redo: self.redo.push(self.log.last()) }
        }
    }

    /// Moves the last undone operation back onto the log; nothing changes
    /// where none is undone.
    pub open spec fn redo(self) -> History {
        if self.redo.len() == 0 {
            self
        } else {
            History { log: self.log.push(self.redo.last()), redo: self.redo.drop_last() }
        }
    }

    /// Takes the operation at `index` out of the log and empties the redo
    /// stack; nothing changes where the log has no such index.
    pub open spec fn remove(self, index: int) -> History {
        if 0 <= index < self.log.len() {
            History { log: self.log.remove(index), redo: Seq::empty() }
        } else {
            self
        }
    }

    /// Empties the log and the redo stack.
    pub open spec fn clear(self) -> History {
        History { log: Seq::empty(), redo: Seq::empty() }
    }
}

/// One pipeline: where the data comes from and what is done to it.
#[derive(Debug)]
pub struct Pipeline {
    pub source: Option<DataSource>,
    pub operations: Vec<Operation>,
    pub redo_stack: Vec<Operation>,
    pub auto_cast: AutoCast,
    pub preview_dirty: bool,
}

pub struct PipelineView {
    pub source: Option<DataSourceView>,
    pub history: History,
    pub auto_cast: AutoCast,
    pub preview_dirty: bool,
}

impl View for Pipeline {
    type V = PipelineView;

    open spec fn view(&self) -> PipelineView {
        PipelineView {
            source: optional_source(self.source),
            history: History { log: log_view(self.operations@), redo: log_view(self.redo_stack@) },
            auto_cast: self.auto_cast,
            preview_dirty: self.preview_dirty,
        }
    }
}

impl PipelineView {
    /// The pipeline with another history, marked for recomputation.
    pub open spec fn rewritten(self, history: History) -> PipelineView {
        PipelineView { history, preview_dirty: true, ..self }
    }

    /// The pipeline right after a load: the given source and log, nothing
    /// to redo, the detection not run, marked for recomputation.
    pub open spec fn loaded(source: Option<DataSourceView>, log: Seq<OperationView>) -> PipelineView {
        PipelineView {
            source,
            history: History { log, redo: Seq::empty() },
            auto_cast: AutoCast::NotChecked,
            preview_dirty: true,
        }
    }

    /// The pipeline after the first preview of a load was looked at: the
    /// columns found are named in the source, and the latch is set.
    pub open spec fn checked(self, found: Seq<Seq<char>>) -> PipelineView {
        if !(self.auto_cast is NotChecked) {
            self
        } else if found.len() == 0 {
            PipelineView { auto_cast: AutoCast::CheckedNone, ..self }
        } else {
            PipelineView {
                source: match self.source {
                    Some(source) => Some(DataSourceView { auto_numeric_cols: found, ..source }),
                    None => None,
                },
                auto_cast: AutoCast::CheckedFound,
                preview_dirty: true,
                ..self
            }
        }
    }
}

/// The description of each operation of a log, in order.
pub open spec fn descriptions(log: Seq<OperationView>) -> Seq<Seq<char>> {
    Seq::new(log.len(), |i: int| log[i].description())
}

/// A command's answer, each message by its characters.
pub open spec fn answer(r: Result<String, String>) -> Result<Seq<char>, Seq<char>> {
    match r {
        Ok(text) => Ok(text@),
        Err(text) => Err(text@),
    }
}

/// A copy of a log with equal operations in the same order.
#[inline]
pub fn clone_log(log: &Vec<Operation>) -> (r: Vec<Operation>)
    ensures
        log_view(r@) == log_view(log@),
{
    let mut out: Vec<Operation> = Vec::new();
    let mut i: usize = 0;
    while i < log.len()
        invariant
            i <= log.len(),
            out.len() == i,
            forall|k: int| 0 <= k < i ==> (#[trigger] out[k])@ == log[k]@,
        decreases log.len() - i,
    {
        out.push(log[i].clone());
        i = i + 1;
    }
    assert(log_view(out@) =~= log_view(log@));
    out
}

impl Pipeline {
    /// A pipeline with no source and an empty log.
    #[inline]
    pub fn new() -> (r: Pipeline)
        ensures
            r@ == (PipelineView { preview_dirty: false, ..PipelineView::loaded(None, Seq::empty()) }),
    {
        let state = Pipeline {
            source: None,
            operations: Vec::new(),
            redo_stack: Vec::new(),
            auto_cast: AutoCast::NotChecked,
            preview_dirty: false,
        };
        assert(state@.history.log =~= Seq::<OperationView>::empty());
        assert(state@.history.redo =~= Seq::<OperationView>::empty());
        state
    }

    /// Opens a file. A path with a known extension replaces the source and
    /// resets everything else; any other path is refused and changes
    /// nothing.
    #[inline]
    pub fn open(&mut self, path: String) -> (r: Result<String, String>)
        ensures
            match source_for(path@) {
                Some(source) => {
                    &&& answer(r) == Ok::<Seq<char>, Seq<char>>("Loaded: "@ + path@)
                    &&& final(self)@ == PipelineView::loaded(Some(source), Seq::empty())
                },
                None => {
                    &&& answer(r) == Err::<Seq<char>, Seq<char>>("Unsupported file: "@ + path@)
                    &&& final(self)@ == old(self)@
                },
            },
    {
        let shown = path.clone();
        match DataSource::from_path(path) {
            Some(source) => {
                self.source = Some(source);
                self.operations = Vec::new();
                self.redo_stack = Vec::new();
                self.auto_cast = AutoCast::NotChecked;
                self.preview_dirty = true;
                assert(self@.history.log =~= Seq::<OperationView>::empty());
                assert(self@.history.redo =~= Seq::<OperationView>::empty());
                let mut message = String::from_str("Loaded: ");
                message.append(shown.as_str());
                Ok(message)
            },
            None => {
                let mut message = String::from_str("Unsupported file: ");
                message.append(shown.as_str());
                Err(message)
            },
        }
    }

    /// Appends an operation to the log, empties the redo stack and marks
    /// the state for recomputation.
    #[inline]
    pub fn add(&mut self, op: Operation)
        ensures
            final(self)@ == old(self)@.rewritten(old(self)@.history.add(op@)),
    {
        self.operations.push(op);
        self.redo_stack = Vec::new();
        self.preview_dirty = true;
        assert(self@.history.log =~= old(self)@.history.log.push(op@));
        assert(self@.history.redo =~= Seq::<OperationView>::empty());
    }

    /// Checks an input and appends the operation it describes. Answers
    /// with the operation's description, or with the reason why the input
    /// describes none, in which case nothing changes.
    #[inline]
    pub fn add_operation(&mut self, input: &OperationInput) -> (r: Result<String, String>)
        ensures
            match parsed(input) {
                Ok(op) => {
                    &&& answer(r) == Ok::<Seq<char>, Seq<char>>(op.description())
                    &&& final(self)@ == old(self)@.rewritten(old(self)@.history.add(op))
                },
                Err(reason) => {
                    &&& answer(r) == Err::<Seq<char>, Seq<char>>(reason)
                    &&& final(self)@ == old(self)@
                },
            },
    {
        match parse_operation(input) {
            Ok(op) => {
                let description = op.description();
                self.add(op);
                Ok(description)
            },
            Err(reason) => Err(reason),
        }
    }

    /// Takes the operation at `index` out of the log, empties the redo
    /// stack and marks the state for recomputation. An index outside the
    /// log is refused and changes nothing.
    #[inline]
    pub fn remove_operation(&mut self, index: usize) -> (r: Result<(), String>)
        ensures
            index < old(self)@.history.log.len() ==> r is Ok && final(self)@ == old(self)@.rewritten(
                old(self)@.history.remove(index as int),
            ),
            index >= old(self)@.history.log.len() ==> final(self)@ == old(self)@ && (r matches Err(
                reason,
            ) && reason@ == "Invalid operation index"@),
    {
        if index < self.operations.len() {
            self.operations.remove(index);
            self.redo_stack = Vec::new();
            self.preview_dirty = true;
            assert(self@.history.log =~= old(self)@.history.log.remove(index as int));
            assert(self@.history.redo =~= Seq::<OperationView>::empty());
            Ok(())
        } else {
            Err(String::from_str("Invalid operation index"))
        }
    }

    /// Undoes the last operation of the log: it moves onto the redo stack,
    /// and the state is marked for recomputation. Answers with the
    /// description of the operation undone; with an empty log nothing
    /// changes and the answer is none.
    #[inline]
    pub fn undo(&mut self) -> (r: Option<String>)
        ensures
            old(self)@.history.log.len() == 0 ==> r is None && final(self)@ == old(self)@,
            old(self)@.history.log.len() > 0 ==> {
                &&& optional_text(r) == Some(old(self)@.history.log.last().description())
                &&& final(self)@ == old(self)@.rewritten(old(self)@.history.undo())
            },
    {
        match self.operations.pop() {
            Some(op) => {
                let description = op.description();
                self.redo_stack.push(op);
                self.preview_dirty = true;
                assert(self@.history.log =~= old(self)@.history.log.drop_last());
                assert(self@.history.redo =~= old(self)@.history.redo.push(op@));
                Some(description)
            },
            None => {
                assert(self@.history.log =~= old(self)@.history.log);
                None
            },
        }
    }

    /// Redoes the last operation undone: it moves back onto the log, and
    /// the state is marked for recomputation. Answers with the description
    /// of the operation redone; with nothing undone nothing changes and
    /// the answer is none.
    #[inline]
    pub fn redo(&mut self) -> (r: Option<String>)
        ensures
            old(self)@.history.redo.len() == 0 ==> r is None && final(self)@ == old(self)@,
            old(self)@.history.redo.len() > 0 ==> {
                &&& optional_text(r) == Some(old(self)@.history.redo.last().description())
                &&& final(self)@ == old(self)@.rewritten(old(self)@.history.redo())
            },
    {
        match self.redo_stack.pop() {
            Some(op) => {
                let description = op.description();
                self.operations.push(op);
                self.preview_dirty = true;
                assert(self@.history.redo =~= old(self)@.history.redo.drop_last());
                assert(self@.history.log =~= old(self)@.history.log.push(op@));
                Some(description)
            },
            None => {
                assert(self@.history.redo =~= old(self)@.history.redo);
                None
            },
        }
    }

    /// Empties the log and the redo stack and marks the state for
    /// recomputation.
    #[inline]
    pub fn clear(&mut self)
        ensures
            final(self)@ == old(self)@.rewritten(old(self)@.history.clear()),
    {
        self.operations = Vec::new();
        self.redo_stack = Vec::new();
        self.preview_dirty = true;
        assert(self@.history.log =~= Seq::<OperationView>::empty());
        assert(self@.history.redo =~= Seq::<OperationView>::empty());
    }

    /// The description of each operation of the log, in order.
    #[inline]
    pub fn list_operations(&self) -> (r: Vec<String>)
        ensures
            texts(r@) == descriptions(self@.history.log),
    {
        let mut out: Vec<String> = Vec::new();
        let mut i: usize = 0;
        while i < self.operations.len()
            invariant
                i <= self.operations.len(),
                out.len() == i,
                forall|k: int| 0 <= k < i ==> (#[trigger] out[k])@ == self.operations[k]@.description(),
            decreases self.operations.len() - i,
        {
            out.push(self.operations[i].description());
            i = i + 1;
        }
        assert(texts(out@) =~= descriptions(self@.history.log));
        out
    }

    /// What is kept between sessions: the source and the log.
    #[inline]
    pub fn snapshot(&self) -> (r: PersistentState)
        ensures
            r@ == (PersistentStateView { source: self@.source, operations: self@.history.log }),
    {
        let source = match &self.source {
            Some(source) => Some(source.clone()),
            None => None,
        };
        PersistentState { source, operations: clone_log(&self.operations) }
    }

    /// Takes over what was kept: the source and the log are replaced, and
    /// everything derived from the state before is reset.
    #[inline]
    pub fn restore(&mut self, kept: PersistentState)
        ensures
            final(self)@ == PipelineView::loaded(kept@.source, kept@.operations),
    {
        self.source = kept.source;
        self.operations = kept.operations;
        self.redo_stack = Vec::new();
        self.auto_cast = AutoCast::NotChecked;
        self.preview_dirty = true;
        assert(self@.history.redo =~= Seq::<OperationView>::empty());
    }

    /// Whether the detection has run for this load.
    #[inline]
    pub fn is_checked(&self) -> (r: bool)
        ensures
            r == !(self@.auto_cast is NotChecked),
    {
        !matches!(self.auto_cast, AutoCast::NotChecked)
    }

    /// Takes note of the text columns that the first preview of a load was
    /// found to hold numbers in. They are named in the source and the latch
    /// is set; the answer says whether the preview has to be collected
    /// again, which is so exactly when there are such columns. Once the
    /// latch is set nothing changes any more.
    #[inline]
    pub fn note_detection(&mut self, found: Vec<String>) -> (rescan: bool)
        ensures
            final(self)@ == old(self)@.checked(texts(found@)),
            rescan == (old(self)@.auto_cast is NotChecked && found.len() > 0),
    {
        match self.auto_cast {
            AutoCast::NotChecked => {
                if found.len() > 0 {
                    let updated = match self.source.take() {
                        Some(source) => Some(
                            DataSource {
                                path: source.path,
                                source_type: source.source_type,
                                auto_numeric_cols: found,
                            },
                        ),
                        None => None,
                    };
                    self.source = updated;
                    self.auto_cast = AutoCast::CheckedFound;
                    self.preview_dirty = true;
                    true
                } else {
                    self.auto_cast = AutoCast::CheckedNone;
                    false
                }
            },
            _ => false,
        }
    }
}

/// Adding an operation and undoing it gives the log back as it was: the
/// same operations, in the same order.
pub proof fn lemma_add_then_undo(history: History, op: OperationView)
    ensures
        history.add(op).undo().log == history.log,
        history.add(op).undo().redo == seq![op],
{
    assert(history.log.push(op).drop_last() =~= history.log);
    assert(Seq::<OperationView>::empty().push(op) =~= seq![op]);
}

/// After an undo, adding any operation leaves nothing to redo: a redo
/// then changes nothing.
pub proof fn lemma_add_invalidates_redo(history: History, op: OperationView)
    ensures
        history.undo().add(op).redo.len() == 0,
        history.undo().add(op).redo() == history.undo().add(op),
{
}

/// Undoing an operation and redoing it gives the history back as it was.
pub proof fn lemma_undo_then_redo(history: History)
    requires
        history.log.len() > 0,
    ensures
        history.undo().redo() == history,
{
    let undone = history.undo();
    assert(history.redo.push(history.log.last()).drop_last() =~= history.redo);
    assert(history.log.drop_last().push(history.log.last()) =~= history.log);
}

} // verus!
