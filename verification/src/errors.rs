//! The errors of the derivation pipeline.

use vstd::prelude::*;

verus! {

/// What went wrong in the derivation pipeline.
///
/// `X` holds the errors that the stages only hand on.
#[derive(Debug, PartialEq, Eq)]
pub enum PipelineError<X> {
    /// The stage has no more data for now.
    Eof,
    /// The data at hand does not suffice for a batch.
    NotEnoughData,
    /// No channel is ready to be read.
    ChannelReaderEmpty,
    /// The pipeline has no L1 origin.
    MissingOrigin,
    /// The L1 data source is exhausted.
    EndOfSource,
    /// Any other error.
    Other(X),
}

/// A pipeline error together with how it is to be handled.
#[derive(Debug, PartialEq, Eq)]
pub enum PipelineErrorKind<X> {
    /// The step may be tried again.
    Temporary(PipelineError<X>),
    /// The derivation cannot go on.
    Critical(PipelineError<X>),
    /// The pipeline must be reset.
    Reset(X),
}

impl<X> PipelineError<X> {
    /// The error as one after which the step may be tried again.
    pub fn temp(self) -> (r: PipelineErrorKind<X>)
        ensures
            r == PipelineErrorKind::Temporary(self),
    {
        PipelineErrorKind::Temporary(self)
    }

    /// The error as one that stops the derivation.
    pub fn crit(self) -> (r: PipelineErrorKind<X>)
        ensures
            r == PipelineErrorKind::Critical(self),
    {
        PipelineErrorKind::Critical(self)
    }
}

/// What stops the driver.
///
/// `E` is the error of the block executor, `F` that of reading the L2 block information out of a
/// block.
#[derive(Debug, PartialEq, Eq)]
pub enum DriverError<X, E, F> {
    /// The pipeline failed.
    Pipeline(PipelineErrorKind<X>),
    /// The executor failed.
    Executor(E),
    /// The block does not hold the L2 block information.
    BlockConversion(F),
    /// A transaction of the payload does not decode.
    Rlp(alloy_rlp::Error),
}

} // verus!
