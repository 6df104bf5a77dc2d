//! The state of a session: the pipeline and the tables cached for it. The
//! cached tables are derived from the pipeline and never kept between
//! sessions.

use crate::data_loader::{detect_numeric_string_columns, detected};
use crate::datasource::source_for;
use crate::execution::header_record;
use crate::frame::{frame_height, frame_width};
use crate::persistence::PersistentState;
use crate::pipeline::{answer, Pipeline, PipelineView};
use crate::preview::{
    build_preview_result, is_display_grid, referred, shown_table_stats, stats_source, stats_view,
    type_labels, PreviewResult,
};
use crate::records::grid_view;
use crate::text::texts;
use polars::prelude::DataFrame;
use vstd::prelude::*;

verus! {

/// A pipeline with the preview and the full result last collected for it.
pub struct AppState {
    pub pipeline: Pipeline,
    pub preview_df: Option<DataFrame>,
    pub full_df: Option<DataFrame>,
}

pub struct AppStateView {
    pub pipeline: PipelineView,
    pub preview_df: Option<DataFrame>,
    pub full_df: Option<DataFrame>,
}

impl View for AppState {
    type V = AppStateView;

    open spec fn view(&self) -> AppStateView {
        AppStateView {
            pipeline: self.pipeline@,
            preview_df: self.preview_df,
            full_df: self.full_df,
        }
    }
}

impl AppState {
    /// A state with an empty pipeline and nothing cached.
    #[inline]
    pub fn new() -> (r: AppState)
        ensures
            r@.pipeline == (PipelineView {
                preview_dirty: false,
                ..PipelineView::loaded(None, Seq::empty())
            }),
            r@.preview_df is None,
            r@.full_df is None,
    {
        AppState { pipeline: Pipeline::new(), preview_df: None, full_df: None }
    }

    /// Opens a file. A path with a known extension replaces the source,
    /// resets the pipeline and drops the cached tables; any other path is
    /// refused and changes nothing.
    #[inline]
    pub fn open(&mut self, path: String) -> (r: Result<String, String>)
        ensures
            match source_for(path@) {
                Some(source) => {
                    &&& answer(r) == Ok::<Seq<char>, Seq<char>>("Loaded: "@ + path@)
                    &&& final(self)@ == (AppStateView {
                        pipeline: PipelineView::loaded(Some(source), Seq::empty()),
                        preview_df: None,
                        full_df: None,
                    })
                },
                None => {
                    &&& answer(r) == Err::<Seq<char>, Seq<char>>("Unsupported file: "@ + path@)
                    &&& final(self)@ == old(self)@
                },
            },
    {
        let r = self.pipeline.open(path);
        if r.is_ok() {
            self.preview_df = None;
            self.full_df = None;
        }
        r
    }

    /// Takes over what was kept between sessions: the source and the log
    /// are replaced, the pipeline is reset and the cached tables are
    /// dropped.
    #[inline]
    pub fn restore(&mut self, kept: PersistentState)
        ensures
            final(self)@ == (AppStateView {
                pipeline: PipelineView::loaded(kept@.source, kept@.operations),
                preview_df: None,
                full_df: None,
            }),
    {
        self.pipeline.restore(kept);
        self.preview_df = None;
        self.full_df = None;
    }

    /// The table that plots and histograms read: the full result where one
    /// is cached, else the preview, else none.
    #[inline]
    pub fn table(&self) -> (r: Option<&DataFrame>)
        ensures
            referred(r) == match self.full_df {
                Some(full) => Some(full),
                None => self.preview_df,
            },
    {
        match &self.full_df {
            Some(full) => Some(full),
            None => self.preview_df.as_ref(),
        }
    }

    /// Looks at a freshly collected preview. On the first preview of a
    /// load the text columns that read as numeric are named in the source
    /// and the latch is set; the answer says whether the preview has to be
    /// collected again, which is so exactly when such columns were found.
    /// On any later preview nothing changes.
    #[inline]
    pub fn note_preview(&mut self, preview: &DataFrame) -> (rescan: bool)
        ensures
            final(self)@ == (AppStateView {
                pipeline: old(self)@.pipeline.checked(detected(*preview, frame_width(*preview))),
                ..old(self)@
            }),
            rescan == (old(self)@.pipeline.auto_cast is NotChecked && detected(
                *preview,
                frame_width(*preview),
            ).len() > 0),
    {
        if self.pipeline.is_checked() {
            false
        } else {
            let found = detect_numeric_string_columns(preview);
            self.pipeline.note_detection(found)
        }
    }

    /// Takes over a collected preview and, where the full result could be
    /// collected, that too: both are cached, the pipeline is no longer
    /// marked for recomputation, and the answer is what the preview shows.
    #[inline]
    pub fn accept_preview(&mut self, preview: DataFrame, full: Option<DataFrame>) -> (r:
        PreviewResult)
        ensures
            final(self)@ == (AppStateView {
                pipeline: PipelineView { preview_dirty: false, ..old(self)@.pipeline },
                preview_df: Some(preview),
                full_df: full,
            }),
            texts(r.headers@) == header_record(preview),
            texts(r.dtypes@) == type_labels(preview),
            is_display_grid(preview, grid_view(r.rows@)),
            r.preview_rows == frame_height(preview),
            r.total_rows == frame_height(stats_source(preview, full)),
            stats_view(r.stats@) == shown_table_stats(stats_source(preview, full)),
    {
        let result = build_preview_result(&preview, full.as_ref());
        self.preview_df = Some(preview);
        self.full_df = full;
        self.pipeline.preview_dirty = false;
        result
    }
}

} // verus!
