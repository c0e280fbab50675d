//! Nodes of a page: how a selector is resolved to a node, and how a node is
//! captured.

use vstd::prelude::*;
use vstd::string::*;
use crate::error::Error;
use crate::json::object_text;
use crate::number::Decimal;
use crate::plan::{call, outcome_view, Outcome, Plan, PlannedView, Role, Step, StepView};
use crate::protocol::{
    capture_members, capture_params, describe_params, describe_params_text, no_params,
    no_params_text, one_unsigned_param, one_unsigned_param_text, query_params, query_params_text,
};
use crate::reply::{
    backend_node, backend_node_of, matched_node, matched_node_of, root_node, root_node_of,
};
use crate::tab::{shot_steps, viewport_steps, Tab};
use crate::types::{
    unit_scale, CaptureOptions, CaptureOptionsView, ClipRegion, ClipRegionView, ImageFormat,
};

verus! {

/// A node of a page, known by its backend node id, which outlives changes to
/// the document around the node.
#[derive(Debug, Clone, Copy, PartialEq, Eq, Structural)]
pub struct Element {
    backend_node_id: u64,
}

impl View for Element {
    type V = u64;

    /// The backend node id.
    closed spec fn view(&self) -> u64 {
        self.backend_node_id
    }
}

/// Where the resolution of a selector stands.
#[derive(Debug, Clone, Copy, PartialEq, Eq, Structural)]
pub enum Search {
    /// The document's root is being fetched.
    Document,
    /// The selector is being queried below the root.
    Query { root: u64 },
    /// The node that matched is being described.
    Describe { node: u64 },
    /// The node is resolved.
    Found { backend_node_id: u64 },
    /// The resolution failed.
    Failed { error: Error },
}

impl Search {
    /// The call to issue at this stage, if the search is not over.
    pub open spec fn request(self, selector: Seq<char>) -> Option<StepView> {
        match self {
            Search::Document => Some(
                StepView::Call { method: "DOM.getDocument"@, params: no_params() },
            ),
            Search::Query { root } => Some(
                StepView::Call {
                    method: "DOM.querySelector"@,
                    params: query_params(root, selector),
                },
            ),
            Search::Describe { node } => Some(
                StepView::Call { method: "DOM.describeNode"@, params: describe_params(node) },
            ),
            _ => None,
        }
    }

    /// The stage after the outcome of this stage's call. A failed call fails
    /// the search with the call's error. A reply moves the search on where
    /// it holds what the stage is after: the root's node id, then the
    /// matched node, then its backend node id. Where the query matched
    /// nothing the element is not found; where the root or the description
    /// is not in the reply, the reply is not of the expected shape.
    pub open spec fn after(self, outcome: Result<Seq<char>, Error>) -> Search {
        match self {
            Search::Document => match outcome {
                Ok(reply) => match root_node_of(reply) {
                    Some(root) => Search::Query { root },
                    None => Search::Failed { error: Error::UnexpectedResponseShape },
                },
                Err(error) => Search::Failed { error },
            },
            Search::Query { root } => match outcome {
                Ok(reply) => match matched_node_of(reply) {
                    Some(node) => Search::Describe { node },
                    None => Search::Failed { error: Error::ElementNotFound },
                },
                Err(error) => Search::Failed { error },
            },
            Search::Describe { node } => match outcome {
                Ok(reply) => match backend_node_of(reply) {
                    Some(backend_node_id) => Search::Found { backend_node_id },
                    None => Search::Failed { error: Error::UnexpectedResponseShape },
                },
                Err(error) => Search::Failed { error },
            },
            over => over,
        }
    }
}

/// The resolution of a selector to a node, one call at a time.
#[derive(Debug, PartialEq, Eq)]
pub struct FindElement {
    selector: String,
    stage: Search,
}

impl FindElement {
    /// The selector that is being resolved.
    pub closed spec fn selector(&self) -> Seq<char> {
        self.selector@
    }

    /// Where the resolution stands.
    pub closed spec fn stage(&self) -> Search {
        self.stage
    }

    /// Starts the resolution of `selector`.
    pub fn new(selector: &str) -> (search: FindElement)
        ensures
            search.selector() == selector@,
            search.stage() == Search::Document,
    {
        FindElement { selector: String::from_str(selector), stage: Search::Document }
    }

    /// The call to issue now; `None` once the search is over.
    pub fn request(&self) -> (step: Option<Step>)
        ensures
            step is Some == self.stage().request(self.selector()) is Some,
            step matches Some(s) ==> self.stage().request(self.selector()) == Some(s@),
    {
        match self.stage {
            Search::Document => Some(
                Step::Call { method: String::from_str("DOM.getDocument"), params: no_params_text() },
            ),
            Search::Query { root } => Some(
                Step::Call {
                    method: String::from_str("DOM.querySelector"),
                    params: query_params_text(root, self.selector.as_str()),
                },
            ),
            Search::Describe { node } => Some(
                Step::Call {
                    method: String::from_str("DOM.describeNode"),
                    params: describe_params_text(node),
                },
            ),
            _ => None,
        }
    }

    /// Takes the outcome of the call issued last.
    pub fn advance(&mut self, outcome: Outcome)
        ensures
            final(self).selector() == old(self).selector(),
            final(self).stage() == old(self).stage().after(outcome_view(outcome)),
    {
        let next = match self.stage {
            Search::Document => match outcome {
                Ok(reply) => match root_node(reply.as_str()) {
                    Ok(root) => Search::Query { root },
                    Err(error) => Search::Failed { error },
                },
                Err(error) => Search::Failed { error },
            },
            Search::Query { root: _ } => match outcome {
                Ok(reply) => match matched_node(reply.as_str()) {
                    Ok(node) => Search::Describe { node },
                    Err(error) => Search::Failed { error },
                },
                Err(error) => Search::Failed { error },
            },
            Search::Describe { node: _ } => match outcome {
                Ok(reply) => match backend_node(reply.as_str()) {
                    Ok(backend_node_id) => Search::Found { backend_node_id },
                    Err(error) => Search::Failed { error },
                },
                Err(error) => Search::Failed { error },
            },
            over => over,
        };
        self.stage = next;
    }

    /// How the search ended; `None` while it is going on.
    pub fn found(&self) -> (end: Option<Result<Element, Error>>)
        ensures
            match end {
                Some(Ok(element)) => self.stage() == (Search::Found { backend_node_id: element@ }),
                Some(Err(error)) => self.stage() == (Search::Failed { error }),
                None => self.stage().request(self.selector()) is Some,
            },
    {
        match self.stage {
            Search::Found { backend_node_id } => Some(Ok(Element { backend_node_id })),
            Search::Failed { error } => Some(Err(error)),
            _ => None,
        }
    }
}

/// How long to pause before a selector is looked for again, in
/// milliseconds.
pub const RETRY_PAUSE_MS: u64 = 100;

/// The wait for a node that may not be there yet.
#[derive(Debug, PartialEq, Eq)]
pub struct SelectorWait {
    selector: String,
    timeout_ms: u64,
}

impl SelectorWait {
    /// The selector that is waited for.
    pub closed spec fn selector(&self) -> Seq<char> {
        self.selector@
    }

    /// How long the wait may last, in milliseconds.
    pub closed spec fn timeout_ms(&self) -> u64 {
        self.timeout_ms
    }

    /// The wait for `selector`, for at most `timeout_ms` milliseconds.
    pub fn new(selector: &str, timeout_ms: u64) -> (wait: SelectorWait)
        ensures
            wait.selector() == selector@,
            wait.timeout_ms() == timeout_ms,
    {
        SelectorWait { selector: String::from_str(selector), timeout_ms }
    }

    /// A fresh search for the selector.
    pub fn search(&self) -> (search: FindElement)
        ensures
            search.selector() == self.selector(),
            search.stage() == Search::Document,
    {
        FindElement::new(self.selector.as_str())
    }

    /// Decides what follows a search that failed, `elapsed_ms` milliseconds
    /// after the wait began: another search after a pause of
    /// [`RETRY_PAUSE_MS`] while the time allowed has not passed, else
    /// nothing, and the failure stands.
    pub fn retry_pause(&self, elapsed_ms: u64) -> (pause: Option<u64>)
        ensures
            pause == (if elapsed_ms < self.timeout_ms() {
                Some(RETRY_PAUSE_MS)
            } else {
                None
            }),
    {
        if elapsed_ms < self.timeout_ms {
            Some(RETRY_PAUSE_MS)
        } else {
            None
        }
    }
}

/// The region of a node's border box, captured as it is laid out: at
/// scale 1.
pub open spec fn node_clip(
    x: Seq<char>,
    y: Seq<char>,
    width: Seq<char>,
    height: Seq<char>,
) -> ClipRegionView {
    ClipRegionView { x, y, width, height, scale: unit_scale() }
}

/// The steps that measure a node: the viewport of the options is applied,
/// then the box model of the node is fetched.
pub open spec fn measure_steps(node: u64, options: CaptureOptionsView) -> Seq<PlannedView> {
    viewport_steps(options.viewport).push(
        call("DOM.getBoxModel"@, one_unsigned_param("backendNodeId"@, node), Role::Result),
    )
}

impl Element {
    /// The node with the given backend node id.
    pub fn new(backend_node_id: u64) -> (element: Element)
        ensures
            element@ == backend_node_id,
    {
        Element { backend_node_id }
    }

    /// The backend node id.
    pub fn backend_node_id(&self) -> (id: u64)
        ensures
            id == self@,
    {
        self.backend_node_id
    }

    /// Plans the measuring of the node on `tab`, the first half of a
    /// capture: the viewport of `options` is applied and the node's box
    /// model fetched. The reply to that is the result (see
    /// [`crate::reply::border_box`]).
    pub fn box_model(&self, tab: &Tab, options: &CaptureOptions) -> (plan: Result<Plan, Error>)
        ensures
            plan is Ok == tab@.usable(),
            plan matches Ok(p) ==> p@ == measure_steps(self@, options@),
            plan matches Err(e) ==> e == Error::TabClosed,
    {
        tab.usable()?;
        let mut plan = match &options.viewport() {
            Some(v) => tab.set_viewport(v)?,
            None => Plan::new(),
        };
        plan.call(
            "DOM.getBoxModel",
            one_unsigned_param_text("backendNodeId", self.backend_node_id),
            Role::Result,
        );
        Ok(plan)
    }

    /// Plans the capture of the node on `tab`, the second half: the region
    /// with the given corner and extent is captured at scale 1, as
    /// [`shot_steps`] says. The viewport and the region that `options` may
    /// hold play no part. The reply to the capture is the result (see
    /// [`crate::reply::image_data`]).
    pub fn screenshot_with_options(
        &self,
        tab: &Tab,
        options: &CaptureOptions,
        x: Decimal,
        y: Decimal,
        width: Decimal,
        height: Decimal,
    ) -> (plan: Result<Plan, Error>)
        ensures
            plan is Ok == tab@.usable(),
            plan matches Ok(p) ==> p@ == shot_steps(
                tab@.target_id,
                options@,
                Some(node_clip(x@, y@, width@, height@)),
                0,
            ),
            plan matches Err(e) ==> e == Error::TabClosed,
    {
        tab.usable()?;
        let clip = ClipRegion::new(x, y, width, height);
        let mut plan = Plan::new();
        tab.push_shot(&mut plan, options, Some(&clip));
        assert(plan@ =~= shot_steps(
            tab@.target_id,
            options@,
            Some(node_clip(x@, y@, width@, height@)),
            0,
        ));
        Ok(plan)
    }

    /// Plans the capture of the node as a JPEG of quality 90.
    pub fn screenshot(&self, tab: &Tab, x: Decimal, y: Decimal, width: Decimal, height: Decimal) -> (plan:
        Result<Plan, Error>)
        ensures
            plan is Ok == tab@.usable(),
            plan matches Ok(p) ==> p@ == shot_steps(
                tab@.target_id,
                CaptureOptionsView { quality: Some(90u8), ..CaptureOptionsView::unset() },
                Some(node_clip(x@, y@, width@, height@)),
                0,
            ),
            plan matches Err(e) ==> e == Error::TabClosed,
    {
        let options = CaptureOptions::new().with_quality(90);
        self.screenshot_with_options(tab, &options, x, y, width, height)
    }

    /// Plans the capture of the node as a PNG.
    pub fn raw_screenshot(&self, tab: &Tab, x: Decimal, y: Decimal, width: Decimal, height: Decimal) -> (plan:
        Result<Plan, Error>)
        ensures
            plan is Ok == tab@.usable(),
            plan matches Ok(p) ==> p@ == shot_steps(
                tab@.target_id,
                CaptureOptionsView { format: ImageFormat::Png, ..CaptureOptionsView::unset() },
                Some(node_clip(x@, y@, width@, height@)),
                0,
            ),
            plan matches Err(e) ==> e == Error::TabClosed,
    {
        let options = CaptureOptions::raw_png();
        self.screenshot_with_options(tab, &options, x, y, width, height)
    }
}

/// The scale of the viewport changes nothing in what a capture of a node
/// asks for: the region is the one measured, at scale 1, whatever viewport
/// the options hold. The scale decides how many pixels the browser paints
/// for the region, not which region is painted.
pub proof fn lemma_scale_leaves_the_clip_alone(
    target_id: Seq<char>,
    options: CaptureOptionsView,
    one: Option<crate::types::ViewportView>,
    other: Option<crate::types::ViewportView>,
    x: Seq<char>,
    y: Seq<char>,
    width: Seq<char>,
    height: Seq<char>,
)
    ensures
        ({
            let clip = Some(node_clip(x, y, width, height));
            let with_one = CaptureOptionsView { viewport: one, ..options };
            let with_other = CaptureOptionsView { viewport: other, ..options };
            &&& capture_params(with_one, clip) == capture_params(with_other, clip)
            &&& shot_steps(target_id, with_one, clip, 0) == shot_steps(target_id, with_other, clip, 0)
            &&& capture_params(with_one, clip) == object_text(
                capture_members(
                    options.format,
                    options.effective_quality(),
                    options.full_page,
                    Some(ClipRegionView { x, y, width, height, scale: unit_scale() }),
                ),
            )
        }),
{
}

} // verus!
