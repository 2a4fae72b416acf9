//! What validation reports: which field, track or difficulty broke which rule.

use vstd::prelude::*;

verus! {

/// A playlist that breaks a rule.
#[derive(Debug, Clone, PartialEq, Eq)]
pub enum PlaylistError {
    /// A field of the playlist itself holds a value that its rule refuses.
    InvalidField { field: &'static str, value: String },
    /// The cover breaks a rule.
    InvalidCover(PlaylistCoverError),
    /// The track at `idx` breaks a rule.
    InvalidBeatmap { idx: usize, error: BeatmapError },
}

/// A cover that breaks a rule.
#[derive(Debug, Clone, PartialEq, Eq)]
pub enum PlaylistCoverError {
    /// The cover's kind was never determined.
    UnknownCoverType,
    /// The path is no bare file name, or its extension does not fit the kind.
    InvalidCoverPath { ty: &'static str, path: String },
    /// The image bytes do not open with the signature of the kind.
    InvalidCoverData { ty: &'static str },
}

/// A track that breaks a rule.
#[derive(Debug, Clone, PartialEq, Eq)]
pub enum BeatmapError {
    /// The identifier that the track's kind calls for is absent.
    MismatchedType { ty: &'static str, field: &'static str },
    /// An identifier holds a value that its rule refuses.
    InvalidField { field: &'static str, value: String },
    /// The difficulty at `idx` breaks a rule.
    InvalidDifficulty { idx: usize, error: BeatmapDifficultyError },
}

/// A difficulty that breaks a rule.
#[derive(Debug, Clone, PartialEq, Eq)]
pub enum BeatmapDifficultyError {
    /// A field holds a value that its rule refuses.
    InvalidField { field: &'static str, value: String },
}

/// The mathematical content of a [`PlaylistError`].
pub enum PlaylistErrorView {
    InvalidField { field: Seq<char>, value: Seq<char> },
    InvalidCover(PlaylistCoverErrorView),
    InvalidBeatmap { idx: int, error: BeatmapErrorView },
}

/// The mathematical content of a [`PlaylistCoverError`].
pub enum PlaylistCoverErrorView {
    UnknownCoverType,
    InvalidCoverPath { ty: Seq<char>, path: Seq<char> },
    InvalidCoverData { ty: Seq<char> },
}

/// The mathematical content of a [`BeatmapError`].
pub enum BeatmapErrorView {
    MismatchedType { ty: Seq<char>, field: Seq<char> },
    InvalidField { field: Seq<char>, value: Seq<char> },
    InvalidDifficulty { idx: int, error: BeatmapDifficultyErrorView },
}

/// The mathematical content of a [`BeatmapDifficultyError`].
pub enum BeatmapDifficultyErrorView {
    InvalidField { field: Seq<char>, value: Seq<char> },
}

impl View for BeatmapDifficultyError {
    type V = BeatmapDifficultyErrorView;

    open spec fn view(&self) -> BeatmapDifficultyErrorView {
        match self {
            BeatmapDifficultyError::InvalidField { field, value } => {
                BeatmapDifficultyErrorView::InvalidField { field: field@, value: value@ }
            },
        }
    }
}

impl View for BeatmapError {
    type V = BeatmapErrorView;

    open spec fn view(&self) -> BeatmapErrorView {
        match self {
            BeatmapError::MismatchedType { ty, field } => BeatmapErrorView::MismatchedType {
                ty: ty@,
                field: field@,
            },
            BeatmapError::InvalidField { field, value } => BeatmapErrorView::InvalidField {
                field: field@,
                value: value@,
            },
            BeatmapError::InvalidDifficulty { idx, error } => BeatmapErrorView::InvalidDifficulty {
                idx: *idx as int,
                error: error@,
            },
        }
    }
}

impl View for PlaylistCoverError {
    type V = PlaylistCoverErrorView;

    open spec fn view(&self) -> PlaylistCoverErrorView {
        match self {
            PlaylistCoverError::UnknownCoverType => PlaylistCoverErrorView::UnknownCoverType,
            PlaylistCoverError::InvalidCoverPath { ty, path } => {
                PlaylistCoverErrorView::InvalidCoverPath { ty: ty@, path: path@ }
            },
            PlaylistCoverError::InvalidCoverData { ty } => {
                PlaylistCoverErrorView::InvalidCoverData { ty: ty@ }
            },
        }
    }
}

impl View for PlaylistError {
    type V = PlaylistErrorView;

    open spec fn view(&self) -> PlaylistErrorView {
        match self {
            PlaylistError::InvalidField { field, value } => PlaylistErrorView::InvalidField {
                field: field@,
                value: value@,
            },
            PlaylistError::InvalidCover(error) => PlaylistErrorView::InvalidCover(error@),
            PlaylistError::InvalidBeatmap { idx, error } => PlaylistErrorView::InvalidBeatmap {
                idx: *idx as int,
                error: error@,
            },
        }
    }
}

} // verus!
