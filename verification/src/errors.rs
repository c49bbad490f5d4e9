//! The errors of the builder.
use alloy_eips::BlockNumHash;
use alloy_primitives::FixedBytes;
use op_alloy_genesis::SystemConfigUpdateError;
use vstd::prelude::*;

verus! {

/// What can be wrong with the payload attributes of an L2 block.
#[derive(Debug, PartialEq, Eq)]
pub enum BuilderError {
    /// The epoch has the number of the parent's L1 origin, but not its hash. Holds the epoch and
    /// the L1 origin.
    BlockMismatch(BlockNumHash, BlockNumHash),
    /// The epoch is not the child of the parent's L1 origin. Holds the epoch, the L1 origin and
    /// the hash of the epoch's parent.
    BlockMismatchEpochReset(BlockNumHash, BlockNumHash, FixedBytes<32>),
    /// The L2 block would be older than its L1 origin. Holds the parent's L1 origin, the time of
    /// the L2 block, the L1 block and its time.
    BrokenTimeInvariant(BlockNumHash, u64, BlockNumHash, u64),
    /// Any other error, as text.
    Custom(String),
}

/// The deposits of an L1 block could not be decoded. Holds the reason as text.
#[derive(Debug, PartialEq, Eq)]
pub struct PipelineEncodingError(pub String);

/// An error of the pipeline.
#[derive(Debug, PartialEq, Eq)]
pub enum PipelineError {
    /// A provider failed. Holds the text of its error.
    Provider(String),
    /// Data of L1 is missing.
    MissingL1Data,
    /// Data of L1 could not be decoded.
    BadEncoding(PipelineEncodingError),
    /// The system config could not be updated.
    SystemConfigUpdate(SystemConfigUpdateError),
    /// The payload attributes could not be built.
    AttributesBuilder(BuilderError),
}

/// Why the pipeline has to be reset.
#[derive(Debug, PartialEq, Eq)]
pub enum ResetError {
    /// The payload attributes do not fit the chain.
    AttributesBuilder(BuilderError),
}

/// An error of the pipeline, by what it asks for.
#[derive(Debug, PartialEq, Eq)]
pub enum PipelineErrorKind {
    /// The step may be tried again.
    Temporary(PipelineError),
    /// The pipeline cannot go on.
    Critical(PipelineError),
    /// The pipeline has to be reset.
    Reset(ResetError),
}

/// A result of the pipeline.
pub type PipelineResult<T> = Result<T, PipelineErrorKind>;

/// What [`BuilderError`] holds.
#[verifier::ext_equal]
pub enum BuilderErrorView {
    /// The epoch has the number of the parent's L1 origin, but not its hash.
    BlockMismatch(BlockNumHash, BlockNumHash),
    /// The epoch is not the child of the parent's L1 origin.
    BlockMismatchEpochReset(BlockNumHash, BlockNumHash, FixedBytes<32>),
    /// The L2 block would be older than its L1 origin.
    BrokenTimeInvariant(BlockNumHash, int, BlockNumHash, int),
    /// Any other error, as text.
    Custom(Seq<char>),
}

/// What [`PipelineError`] holds.
#[verifier::ext_equal]
pub enum PipelineErrorView {
    /// A provider failed.
    Provider(Seq<char>),
    /// Data of L1 is missing.
    MissingL1Data,
    /// Data of L1 could not be decoded.
    BadEncoding(Seq<char>),
    /// The system config could not be updated.
    SystemConfigUpdate(SystemConfigUpdateError),
    /// The payload attributes could not be built.
    AttributesBuilder(BuilderErrorView),
}

/// What [`PipelineErrorKind`] holds; a reset is always on account of the builder.
#[verifier::ext_equal]
pub enum PipelineErrorKindView {
    /// The step may be tried again.
    Temporary(PipelineErrorView),
    /// The pipeline cannot go on.
    Critical(PipelineErrorView),
    /// The pipeline has to be reset.
    Reset(BuilderErrorView),
}

impl View for BuilderError {
    type V = BuilderErrorView;

    open spec fn view(&self) -> BuilderErrorView {
        match *self {
            BuilderError::BlockMismatch(epoch, l1_origin) => BuilderErrorView::BlockMismatch(
                epoch,
                l1_origin,
            ),
            BuilderError::BlockMismatchEpochReset(epoch, l1_origin, parent_hash) =>
                BuilderErrorView::BlockMismatchEpochReset(epoch, l1_origin, parent_hash),
            BuilderError::BrokenTimeInvariant(l1_origin, time, l1_block, l1_time) =>
                BuilderErrorView::BrokenTimeInvariant(
                l1_origin,
                time as int,
                l1_block,
                l1_time as int,
            ),
            BuilderError::Custom(text) => BuilderErrorView::Custom(text@),
        }
    }
}

impl View for PipelineError {
    type V = PipelineErrorView;

    open spec fn view(&self) -> PipelineErrorView {
        match *self {
            PipelineError::Provider(text) => PipelineErrorView::Provider(text@),
            PipelineError::MissingL1Data => PipelineErrorView::MissingL1Data,
            PipelineError::BadEncoding(error) => PipelineErrorView::BadEncoding(error.0@),
            PipelineError::SystemConfigUpdate(error) => PipelineErrorView::SystemConfigUpdate(
                error,
            ),
            PipelineError::AttributesBuilder(error) => PipelineErrorView::AttributesBuilder(error@),
        }
    }
}

impl View for PipelineErrorKind {
    type V = PipelineErrorKindView;

    open spec fn view(&self) -> PipelineErrorKindView {
        match *self {
            PipelineErrorKind::Temporary(error) => PipelineErrorKindView::Temporary(error@),
            PipelineErrorKind::Critical(error) => PipelineErrorKindView::Critical(error@),
            PipelineErrorKind::Reset(ResetError::AttributesBuilder(error)) =>
                PipelineErrorKindView::Reset(error@),
        }
    }
}

impl PipelineError {
    /// The error as one after which the step may be tried again.
    pub fn temp(self) -> (kind: PipelineErrorKind)
        ensures
            kind == PipelineErrorKind::Temporary(self),
    {
        PipelineErrorKind::Temporary(self)
    }

    /// The error as one after which the pipeline cannot go on.
    pub fn crit(self) -> (kind: PipelineErrorKind)
        ensures
            kind == PipelineErrorKind::Critical(self),
    {
        PipelineErrorKind::Critical(self)
    }
}

impl BuilderError {
    /// The error as one after which the pipeline has to be reset.
    pub fn reset(self) -> (kind: PipelineErrorKind)
        ensures
            kind == PipelineErrorKind::Reset(ResetError::AttributesBuilder(self)),
    {
        PipelineErrorKind::Reset(ResetError::AttributesBuilder(self))
    }
}

} // verus!
