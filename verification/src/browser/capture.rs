//! The capture of a piece of markup from the opening of a tab to its
//! closing.

use vstd::prelude::*;
use crate::error::Error;
use crate::number::Decimal;
use crate::types::{
    default_viewport, CaptureOptions, CaptureOptionsView, Viewport, ViewportView,
};

verus! {

/// The options of a capture at the default viewport scaled by `scale`.
pub fn hidpi_options(scale: Decimal) -> (options: CaptureOptions)
    ensures
        options@ == (CaptureOptionsView {
            viewport: Some(ViewportView { device_scale_factor: scale@, ..default_viewport() }),
            ..CaptureOptionsView::unset()
        }),
{
    CaptureOptions::new().with_viewport(Viewport::default().with_device_scale_factor(scale))
}

/// Where the capture of a piece of markup stands.
#[derive(Debug, Clone, Copy, PartialEq, Eq, Structural)]
pub enum CaptureJob {
    /// A tab is to be opened.
    Open,
    /// The viewport of the options is to be applied.
    Viewport,
    /// The markup is to be written, and the page to become stable.
    Content,
    /// The selector is to be resolved.
    Find,
    /// The node is to be measured.
    Measure,
    /// The node is to be captured.
    Shoot,
    /// The tab is to be closed.
    Close,
    /// The capture is at hand.
    Done,
    /// The capture has failed.
    Failed { error: Error },
}

/// What is to be done next in the capture of a piece of markup.
#[derive(Debug, Clone, Copy, PartialEq, Eq, Structural)]
pub enum CaptureAction {
    OpenTab,
    SetViewport,
    SetContent,
    FindElement,
    MeasureElement,
    CaptureElement,
    CloseTab,
    /// Nothing: the capture is at hand.
    Finished,
    /// Nothing: the job has failed with `error`.
    GiveUp { error: Error },
}

impl CaptureJob {
    /// What is to be done at this stage.
    pub open spec fn due(self) -> CaptureAction {
        match self {
            CaptureJob::Open => CaptureAction::OpenTab,
            CaptureJob::Viewport => CaptureAction::SetViewport,
            CaptureJob::Content => CaptureAction::SetContent,
            CaptureJob::Find => CaptureAction::FindElement,
            CaptureJob::Measure => CaptureAction::MeasureElement,
            CaptureJob::Shoot => CaptureAction::CaptureElement,
            CaptureJob::Close => CaptureAction::CloseTab,
            CaptureJob::Done => CaptureAction::Finished,
            CaptureJob::Failed { error } => CaptureAction::GiveUp { error },
        }
    }

    /// The stage after what was due has been done, with the outcome given;
    /// `with_viewport` tells whether the options hold a viewport. A failure
    /// ends the job, except the failure to close the tab: once the capture
    /// is at hand, the job succeeds.
    pub open spec fn next(self, outcome: Result<(), Error>, with_viewport: bool) -> CaptureJob {
        match self {
            CaptureJob::Done => self,
            CaptureJob::Failed { error } => self,
            CaptureJob::Close => CaptureJob::Done,
            _ => match outcome {
                Err(error) => CaptureJob::Failed { error },
                Ok(_) => match self {
                    CaptureJob::Open => if with_viewport {
                        CaptureJob::Viewport
                    } else {
                        CaptureJob::Content
                    },
                    CaptureJob::Viewport => CaptureJob::Content,
                    CaptureJob::Content => CaptureJob::Find,
                    CaptureJob::Find => CaptureJob::Measure,
                    CaptureJob::Measure => CaptureJob::Shoot,
                    _ => CaptureJob::Close,
                },
            },
        }
    }

    /// A job at its beginning.
    pub fn new() -> (job: CaptureJob)
        ensures
            job == CaptureJob::Open,
    {
        CaptureJob::Open
    }

    /// Tells what is to be done now.
    pub fn action(&self) -> (action: CaptureAction)
        ensures
            action == self.due(),
    {
        match self {
            CaptureJob::Open => CaptureAction::OpenTab,
            CaptureJob::Viewport => CaptureAction::SetViewport,
            CaptureJob::Content => CaptureAction::SetContent,
            CaptureJob::Find => CaptureAction::FindElement,
            CaptureJob::Measure => CaptureAction::MeasureElement,
            CaptureJob::Shoot => CaptureAction::CaptureElement,
            CaptureJob::Close => CaptureAction::CloseTab,
            CaptureJob::Done => CaptureAction::Finished,
            CaptureJob::Failed { error } => CaptureAction::GiveUp { error: *error },
        }
    }

    /// Takes the outcome of what was due, for a capture with `options`.
    pub fn advance(&mut self, outcome: Result<(), Error>, options: &CaptureOptions)
        ensures
            *final(self) == old(self).next(outcome, options@.viewport is Some),
    {
        let next = match *self {
            CaptureJob::Done => CaptureJob::Done,
            CaptureJob::Failed { error } => CaptureJob::Failed { error },
            CaptureJob::Close => CaptureJob::Done,
            stage => match outcome {
                Err(error) => CaptureJob::Failed { error },
                Ok(_) => match stage {
                    CaptureJob::Open => if options.viewport().is_some() {
                        CaptureJob::Viewport
                    } else {
                        CaptureJob::Content
                    },
                    CaptureJob::Viewport => CaptureJob::Content,
                    CaptureJob::Content => CaptureJob::Find,
                    CaptureJob::Find => CaptureJob::Measure,
                    CaptureJob::Measure => CaptureJob::Shoot,
                    _ => CaptureJob::Close,
                },
            },
        };
        *self = next;
    }
}

/// A capture that is at hand is never lost to its tab: whatever the closing
/// of the tab comes to, the job ends well.
pub proof fn lemma_close_failure_is_swallowed(closed: Result<(), Error>, with_viewport: bool)
    ensures
        CaptureJob::Close.next(closed, with_viewport) == CaptureJob::Done,
        CaptureJob::Shoot.next(Ok(()), with_viewport) == CaptureJob::Close,
{
}

} // verus!
