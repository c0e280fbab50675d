//! One browser tab: its identity, its life cycle, and the plans of the
//! operations that can be performed on it.

use vstd::prelude::*;
use vstd::string::*;
use crate::element::{FindElement, Search, SelectorWait};
use crate::error::Error;
use crate::plan::{await_event, call, listen, Plan, PlannedView, Role};
use crate::protocol::{
    capture_params, capture_params_text, device_metrics_params, device_metrics_params_text,
    evaluate_params, evaluate_params_text, no_params, no_params_text, one_text_param,
    one_text_param_text, touch_params, touch_params_text, transparent_background_params,
    transparent_background_params_text, write_script, write_script_text,
};
use crate::readiness::{readiness_script, readiness_script_text, Readiness};
use crate::reply::{evaluated_string, evaluated_string_of};
use crate::transport::{
    command_frame, command_text, envelope_frame, inner_id_after, next_id, outer_id_after,
    target_call, IdCounter, TargetCall,
};
use crate::types::{
    viewport_view, CaptureOptions, CaptureOptionsView, ClipRegion, ClipRegionView, Viewport,
    ViewportView,
};

verus! {

/// Where a tab is in its life.
#[derive(Debug, Clone, Copy, PartialEq, Eq, Structural)]
pub enum TabState {
    /// The target exists, but no session is attached to it.
    Created,
    /// A session is attached: commands can be issued.
    Attached,
    /// The target has been closed.
    Closed,
}

/// One browser tab.
#[derive(Debug, PartialEq, Eq)]
pub struct Tab {
    target_id: String,
    session_id: String,
    state: TabState,
}

/// The mathematical value of a [`Tab`].
pub struct TabView {
    pub target_id: Seq<char>,
    /// The session attached to the target; empty before one is attached.
    pub session_id: Seq<char>,
    pub state: TabState,
}

impl TabView {
    /// Whether commands can be issued on the tab: a session is attached and
    /// the tab has not been closed.
    pub open spec fn usable(self) -> bool {
        self.state == TabState::Attached
    }

    /// The tab once it has been closed.
    pub open spec fn closed(self) -> TabView {
        TabView { state: TabState::Closed, ..self }
    }
}

impl View for Tab {
    type V = TabView;

    closed spec fn view(&self) -> TabView {
        TabView { target_id: self.target_id@, session_id: self.session_id@, state: self.state }
    }
}

/// The event that tells that a page has loaded.
pub open spec fn load_event() -> Seq<char> {
    "Page.loadEventFired"@
}

/// The steps that apply a viewport: the metrics, then touch emulation where
/// the viewport asks for it. None where there is no viewport.
pub open spec fn viewport_steps(viewport: Option<ViewportView>) -> Seq<PlannedView> {
    match viewport {
        None => Seq::empty(),
        Some(v) => if v.has_touch {
            seq![
                call(
                    "Emulation.setDeviceMetricsOverride"@,
                    device_metrics_params(v),
                    Role::Plain,
                ),
                call("Emulation.setTouchEmulationEnabled"@, touch_params(), Role::Plain),
            ]
        } else {
            seq![
                call(
                    "Emulation.setDeviceMetricsOverride"@,
                    device_metrics_params(v),
                    Role::Plain,
                ),
            ]
        },
    }
}

/// The steps of one capture, the first of them at index `base` of its plan:
/// the tab is brought to the front, then captured. Where the background is
/// to be transparent, the override is installed first and undone last.
pub open spec fn shot_steps(
    target_id: Seq<char>,
    options: CaptureOptionsView,
    clip: Option<ClipRegionView>,
    base: nat,
) -> Seq<PlannedView> {
    let activate = call("Target.activateTarget"@, one_text_param("targetId"@, target_id), Role::Plain);
    let capture = call("Page.captureScreenshot"@, capture_params(options, clip), Role::Result);
    if options.transparent() {
        seq![
            call(
                "Emulation.setDefaultBackgroundColorOverride"@,
                transparent_background_params(),
                Role::Plain,
            ),
            activate,
            capture,
            call(
                "Emulation.setDefaultBackgroundColorOverride"@,
                no_params(),
                Role::Undo { of: base as usize },
            ),
        ]
    } else {
        seq![activate, capture]
    }
}

/// The steps that load something and wait until it has loaded: the wait is
/// registered before the command that triggers the load is issued.
pub open spec fn loading_steps(method: Seq<char>, params: Seq<char>) -> Seq<PlannedView> {
    seq![
        call("Page.enable"@, no_params(), Role::Plain),
        listen(load_event()),
        call(method, params, Role::Plain),
        await_event(load_event()),
    ]
}

/// The frame that asks the browser for a new blank target, under `id`.
pub open spec fn create_target_frame(id: u64) -> Seq<char> {
    command_frame(id, "Target.createTarget"@, one_text_param("url"@, "about:blank"@))
}

/// The frame that asks the browser to attach a session to `target_id`,
/// under `id`.
pub open spec fn attach_frame(id: u64, target_id: Seq<char>) -> Seq<char> {
    command_frame(id, "Target.attachToTarget"@, one_text_param("targetId"@, target_id))
}

/// A command to the browser itself, framed and ready to send.
#[derive(Debug, PartialEq, Eq)]
pub struct BrowserCall {
    /// The id of the command: the reply arrives under it.
    pub id: u64,
    /// The frame to write to the socket.
    pub frame: String,
}

/// Frames the command `method` with `params` to the browser itself, under
/// the next id.
pub fn browser_call(counter: &mut IdCounter, method: &str, params: &str) -> (call: BrowserCall)
    requires
        old(counter).last_issued() < u64::MAX,
    ensures
        call.id == old(counter).last_issued() + 1,
        final(counter).last_issued() == call.id,
        call.frame@ == command_frame(call.id, method@, params@),
{
    let id = next_id(counter);
    BrowserCall { id, frame: command_text(id, method, params) }
}

/// Frames the request for a new blank target: the first step of opening a
/// tab. The reply is read by [`crate::reply::created_target`].
pub fn create_target(counter: &mut IdCounter) -> (call: BrowserCall)
    requires
        old(counter).last_issued() < u64::MAX,
    ensures
        call.id == old(counter).last_issued() + 1,
        final(counter).last_issued() == call.id,
        call.frame@ == create_target_frame(call.id),
{
    let params = one_text_param_text("url", "about:blank");
    browser_call(counter, "Target.createTarget", params.as_str())
}

/// Frames the request to attach a session to `target_id`: the second step
/// of opening a tab. The reply is read by
/// [`crate::reply::attached_session`].
pub fn attach_to_target(counter: &mut IdCounter, target_id: &str) -> (call: BrowserCall)
    requires
        old(counter).last_issued() < u64::MAX,
    ensures
        call.id == old(counter).last_issued() + 1,
        final(counter).last_issued() == call.id,
        call.frame@ == attach_frame(call.id, target_id@),
{
    let params = one_text_param_text("targetId", target_id);
    browser_call(counter, "Target.attachToTarget", params.as_str())
}

impl Tab {
    /// The tab of the target `target_id`, to which no session is attached
    /// yet.
    pub fn created(target_id: String) -> (tab: Tab)
        ensures
            tab@ == (TabView {
                target_id: target_id@,
                session_id: Seq::empty(),
                state: TabState::Created,
            }),
    {
        Tab { target_id, session_id: String::new(), state: TabState::Created }
    }

    /// Records that the session `session_id` is attached. A closed tab stays
    /// closed.
    pub fn attach(&mut self, session_id: String)
        ensures
            old(self)@.state != TabState::Closed ==> final(self)@ == (TabView {
                session_id: session_id@,
                state: TabState::Attached,
                ..old(self)@
            }),
            old(self)@.state == TabState::Closed ==> final(self)@ == old(self)@,
    {
        if self.state != TabState::Closed {
            self.session_id = session_id;
            self.state = TabState::Attached;
        }
    }

    /// The tab of the target `target_id` with the session `session_id`
    /// attached.
    pub fn new(target_id: String, session_id: String) -> (tab: Tab)
        ensures
            tab@ == (TabView {
                target_id: target_id@,
                session_id: session_id@,
                state: TabState::Attached,
            }),
    {
        Tab { target_id, session_id, state: TabState::Attached }
    }

    /// Frames the call of `method` with `params` on this tab: the command
    /// takes the next id and its envelope the one after.
    pub fn send_cmd(&self, counter: &mut IdCounter, method: &str, params: &str) -> (call: Result<
        TargetCall,
        Error,
    >)
        requires
            old(counter).last_issued() + 2 <= u64::MAX,
        ensures
            call is Ok == self@.usable(),
            call matches Ok(c) ==> {
                &&& c.inner_id == inner_id_after(old(counter).last_issued())
                &&& c.outer_id == outer_id_after(old(counter).last_issued())
                &&& final(counter).last_issued() == c.outer_id
                &&& c.frame@ == envelope_frame(
                    c.outer_id,
                    self@.session_id,
                    command_frame(c.inner_id, method@, params@),
                )
            },
            call matches Err(e) ==> e == Error::TabClosed && final(counter).last_issued() == old(
                counter,
            ).last_issued(),
    {
        self.usable()?;
        Ok(target_call(counter, self.session_id.as_str(), method, params))
    }

    /// Starts the resolution of `selector` to a node of the page.
    pub fn find_element(&self, selector: &str) -> (search: Result<FindElement, Error>)
        ensures
            search is Ok == self@.usable(),
            search matches Ok(s) ==> s.selector() == selector@ && s.stage() == Search::Document,
            search matches Err(e) ==> e == Error::TabClosed,
    {
        self.usable()?;
        Ok(FindElement::new(selector))
    }

    /// Starts the wait for a node that matches `selector`: searches like
    /// that of [`Tab::find_element`], repeated until one succeeds or
    /// `timeout_ms` milliseconds have passed.
    pub fn wait_for_selector(&self, selector: &str, timeout_ms: u64) -> (wait: Result<
        SelectorWait,
        Error,
    >)
        ensures
            wait is Ok == self@.usable(),
            wait matches Ok(w) ==> w.selector() == selector@ && w.timeout_ms() == timeout_ms,
            wait matches Err(e) ==> e == Error::TabClosed,
    {
        self.usable()?;
        Ok(SelectorWait::new(selector, timeout_ms))
    }

    /// The session attached to the tab; empty before one is attached.
    pub fn session_id(&self) -> (id: &str)
        ensures
            id@ == self@.session_id,
    {
        self.session_id.as_str()
    }

    /// The target of the tab.
    pub fn target_id(&self) -> (id: &str)
        ensures
            id@ == self@.target_id,
    {
        self.target_id.as_str()
    }

    /// Where the tab is in its life.
    pub fn state(&self) -> (state: TabState)
        ensures
            state == self@.state,
    {
        self.state
    }

    /// Refuses a tab on which no command can be issued.
    pub(crate) fn usable(&self) -> (r: Result<(), Error>)
        ensures
            r is Ok == self@.usable(),
            r is Err ==> r == Err::<(), Error>(Error::TabClosed),
    {
        if self.state == TabState::Attached {
            Ok(())
        } else {
            Err(Error::TabClosed)
        }
    }

    fn push_viewport(plan: &mut Plan, viewport: &Option<Viewport>)
        ensures
            final(plan)@ == old(plan)@ + viewport_steps(viewport_view(*viewport)),
    {
        match viewport {
            None => {
                assert(plan@ + Seq::<PlannedView>::empty() =~= plan@);
            },
            Some(v) => {
                plan.call(
                    "Emulation.setDeviceMetricsOverride",
                    device_metrics_params_text(v),
                    Role::Plain,
                );
                if v.has_touch {
                    plan.call("Emulation.setTouchEmulationEnabled", touch_params_text(), Role::Plain);
                }
                assert(plan@ =~= old(plan)@ + viewport_steps(Some(v@)));
            },
        }
    }

    /// Appends the steps of one capture: see [`shot_steps`].
    pub(crate) fn push_shot(&self, plan: &mut Plan, options: &CaptureOptions, clip: Option<&ClipRegion>)
        ensures
            final(plan)@ == old(plan)@ + shot_steps(
                self@.target_id,
                options@,
                match clip {
                    Some(c) => Some(c@),
                    None => None,
                },
                old(plan)@.len(),
            ),
    {
        let transparent = options.transparent();
        let base: usize = plan.len();
        if transparent {
            plan.call(
                "Emulation.setDefaultBackgroundColorOverride",
                transparent_background_params_text(),
                Role::Plain,
            );
        }
        plan.call(
            "Target.activateTarget",
            one_text_param_text("targetId", self.target_id.as_str()),
            Role::Plain,
        );
        plan.call("Page.captureScreenshot", capture_params_text(options, clip), Role::Result);
        if transparent {
            plan.call(
                "Emulation.setDefaultBackgroundColorOverride",
                no_params_text(),
                Role::Undo { of: base },
            );
        }
        assert(plan@ =~= old(plan)@ + shot_steps(
            self@.target_id,
            options@,
            match clip {
                Some(c) => Some(c@),
                None => None,
            },
            old(plan)@.len(),
        ));
    }

    /// Plans the override of the device metrics with `viewport`, and of
    /// touch emulation where `viewport` asks for it.
    pub fn set_viewport(&self, viewport: &Viewport) -> (plan: Result<Plan, Error>)
        ensures
            plan is Ok == self@.usable(),
            plan matches Ok(p) ==> p@ == viewport_steps(Some(viewport@)),
            plan matches Err(e) ==> e == Error::TabClosed,
    {
        self.usable()?;
        let mut plan = Plan::new();
        let chosen = Some(viewport.clone());
        Tab::push_viewport(&mut plan, &chosen);
        assert(plan@ =~= viewport_steps(Some(viewport@)));
        Ok(plan)
    }

    /// Plans the end of the override of the device metrics.
    pub fn clear_viewport(&self) -> (plan: Result<Plan, Error>)
        ensures
            plan is Ok == self@.usable(),
            plan matches Ok(p) ==> p@ == seq![
                call("Emulation.clearDeviceMetricsOverride"@, no_params(), Role::Plain),
            ],
            plan matches Err(e) ==> e == Error::TabClosed,
    {
        self.usable()?;
        let mut plan = Plan::new();
        plan.call("Emulation.clearDeviceMetricsOverride", no_params_text(), Role::Plain);
        Ok(plan)
    }

    /// Plans the replacement of the document by `content`: the markup is
    /// written by a script, then the readiness script runs, and its reply is
    /// the result (see [`Tab::content_settled`]).
    pub fn set_content(&self, content: &str, readiness: &Readiness) -> (plan: Result<Plan, Error>)
        ensures
            plan is Ok == self@.usable(),
            plan matches Ok(p) ==> p@ == seq![
                call("Runtime.evaluate"@, evaluate_params(write_script(content@), false), Role::Plain),
                call(
                    "Runtime.evaluate"@,
                    evaluate_params(readiness_script(readiness@), false),
                    Role::Result,
                ),
            ],
            plan matches Err(e) ==> e == Error::TabClosed,
    {
        self.usable()?;
        let mut plan = Plan::new();
        let write = write_script_text(content);
        plan.call("Runtime.evaluate", evaluate_params_text(write.as_str(), false), Role::Plain);
        let wait = readiness_script_text(readiness);
        plan.call("Runtime.evaluate", evaluate_params_text(wait.as_str(), false), Role::Result);
        Ok(plan)
    }

    /// Plans the evaluation of `expression`; its reply is the result (see
    /// [`Tab::evaluated`] and [`Tab::evaluated_string`]).
    pub fn evaluate(&self, expression: &str) -> (plan: Result<Plan, Error>)
        ensures
            plan is Ok == self@.usable(),
            plan matches Ok(p) ==> p@ == seq![
                call("Runtime.evaluate"@, evaluate_params(expression@, true), Role::Result),
            ],
            plan matches Err(e) ==> e == Error::TabClosed,
    {
        self.usable()?;
        let mut plan = Plan::new();
        plan.call("Runtime.evaluate", evaluate_params_text(expression, true), Role::Result);
        Ok(plan)
    }

    /// Plans the evaluation of `expression` for its value as a string: the
    /// plan of [`Tab::evaluate`].
    pub fn evaluate_as_string(&self, expression: &str) -> (plan: Result<Plan, Error>)
        ensures
            plan is Ok == self@.usable(),
            plan matches Ok(p) ==> p@ == seq![
                call("Runtime.evaluate"@, evaluate_params(expression@, true), Role::Result),
            ],
            plan matches Err(e) ==> e == Error::TabClosed,
    {
        self.evaluate(expression)
    }

    /// Plans the reading of the page's address.
    pub fn url(&self) -> (plan: Result<Plan, Error>)
        ensures
            plan is Ok == self@.usable(),
            plan matches Ok(p) ==> p@ == seq![
                call("Runtime.evaluate"@, evaluate_params("window.location.href"@, true), Role::Result),
            ],
            plan matches Err(e) ==> e == Error::TabClosed,
    {
        self.evaluate("window.location.href")
    }

    /// Plans the reading of the page's title.
    pub fn title(&self) -> (plan: Result<Plan, Error>)
        ensures
            plan is Ok == self@.usable(),
            plan matches Ok(p) ==> p@ == seq![
                call("Runtime.evaluate"@, evaluate_params("document.title"@, true), Role::Result),
            ],
            plan matches Err(e) ==> e == Error::TabClosed,
    {
        self.evaluate("document.title")
    }

    /// Plans a capture of the viewport, or of the region that `options`
    /// name: the viewport of `options` is applied first, then the capture is
    /// taken as [`shot_steps`] says. The reply to the capture is the result
    /// (see [`image_data`]).
    pub fn screenshot(&self, options: &CaptureOptions) -> (plan: Result<Plan, Error>)
        ensures
            plan is Ok == self@.usable(),
            plan matches Ok(p) ==> p@ == viewport_steps(options@.viewport) + shot_steps(
                self@.target_id,
                options@,
                options@.clip,
                viewport_steps(options@.viewport).len(),
            ),
            plan matches Err(e) ==> e == Error::TabClosed,
    {
        self.usable()?;
        let mut plan = Plan::new();
        let viewport = options.viewport();
        Tab::push_viewport(&mut plan, &viewport);
        assert(plan@ =~= viewport_steps(options@.viewport));
        let clip = options.clip();
        match &clip {
            Some(c) => self.push_shot(&mut plan, options, Some(c)),
            None => self.push_shot(&mut plan, options, None),
        }
        Ok(plan)
    }

    /// Plans bringing the tab to the front.
    pub fn activate(&self) -> (plan: Result<Plan, Error>)
        ensures
            plan is Ok == self@.usable(),
            plan matches Ok(p) ==> p@ == seq![
                call(
                    "Target.activateTarget"@,
                    one_text_param("targetId"@, self@.target_id),
                    Role::Plain,
                ),
            ],
            plan matches Err(e) ==> e == Error::TabClosed,
    {
        self.usable()?;
        let mut plan = Plan::new();
        plan.call(
            "Target.activateTarget",
            one_text_param_text("targetId", self.target_id.as_str()),
            Role::Plain,
        );
        Ok(plan)
    }

    /// Plans the navigation to `url` and the wait until the page has loaded.
    pub fn goto(&self, url: &str) -> (plan: Result<Plan, Error>)
        ensures
            plan is Ok == self@.usable(),
            plan matches Ok(p) ==> p@ == loading_steps(
                "Page.navigate"@,
                one_text_param("url"@, url@),
            ),
            plan matches Err(e) ==> e == Error::TabClosed,
    {
        self.usable()?;
        Ok(Tab::loading("Page.navigate", one_text_param_text("url", url)))
    }

    /// Plans the navigation to `url`, without a wait.
    pub fn goto_no_wait(&self, url: &str) -> (plan: Result<Plan, Error>)
        ensures
            plan is Ok == self@.usable(),
            plan matches Ok(p) ==> p@ == seq![
                call("Page.navigate"@, one_text_param("url"@, url@), Role::Plain),
            ],
            plan matches Err(e) ==> e == Error::TabClosed,
    {
        self.usable()?;
        let mut plan = Plan::new();
        plan.call("Page.navigate", one_text_param_text("url", url), Role::Plain);
        Ok(plan)
    }

    /// Plans the first half of a wait for the page to load, for use after
    /// [`Tab::goto_no_wait`]: the wait is registered, and only then is the
    /// page asked whether it has loaded already. The reply to that is the
    /// result: [`load_pending`] reads it, and [`Tab::await_load`] follows
    /// where the load is pending.
    pub fn wait_for_load(&self) -> (plan: Result<Plan, Error>)
        ensures
            plan is Ok == self@.usable(),
            plan matches Ok(p) ==> p@ == seq![
                call("Page.enable"@, no_params(), Role::Plain),
                listen(load_event()),
                call("Runtime.evaluate"@, evaluate_params("document.readyState"@, true), Role::Result),
            ],
            plan matches Err(e) ==> e == Error::TabClosed,
    {
        self.usable()?;
        let mut plan = Plan::new();
        plan.call("Page.enable", no_params_text(), Role::Plain);
        plan.listen("Page.loadEventFired");
        plan.call("Runtime.evaluate", evaluate_params_text("document.readyState", true), Role::Result);
        Ok(plan)
    }

    /// Plans the second half of a wait for the page to load: the wait for
    /// the event registered for by [`Tab::wait_for_load`].
    pub fn await_load(&self) -> (plan: Result<Plan, Error>)
        ensures
            plan is Ok == self@.usable(),
            plan matches Ok(p) ==> p@ == seq![await_event(load_event())],
            plan matches Err(e) ==> e == Error::TabClosed,
    {
        self.usable()?;
        let mut plan = Plan::new();
        plan.await_event("Page.loadEventFired");
        Ok(plan)
    }

    /// Plans the reload of the page and the wait until it has loaded.
    pub fn reload(&self) -> (plan: Result<Plan, Error>)
        ensures
            plan is Ok == self@.usable(),
            plan matches Ok(p) ==> p@ == loading_steps("Page.reload"@, no_params()),
            plan matches Err(e) ==> e == Error::TabClosed,
    {
        self.usable()?;
        Ok(Tab::loading("Page.reload", no_params_text()))
    }

    fn loading(method: &str, params: String) -> (plan: Plan)
        ensures
            plan@ == loading_steps(method@, params@),
    {
        let mut plan = Plan::new();
        plan.call("Page.enable", no_params_text(), Role::Plain);
        plan.listen("Page.loadEventFired");
        plan.call(method, params, Role::Plain);
        plan.await_event("Page.loadEventFired");
        plan
    }

    /// Closes the tab: plans the closing of its target and marks the tab
    /// closed. A tab that has no session attached, or is closed already, is
    /// refused.
    pub fn close(&mut self) -> (plan: Result<Plan, Error>)
        ensures
            plan is Ok == old(self)@.usable(),
            plan matches Ok(p) ==> p@ == seq![
                call(
                    "Target.closeTarget"@,
                    one_text_param("targetId"@, old(self)@.target_id),
                    Role::Plain,
                ),
            ] && final(self)@ == old(self)@.closed(),
            plan matches Err(e) ==> e == Error::TabClosed && final(self)@ == old(self)@,
    {
        self.usable()?;
        let mut plan = Plan::new();
        plan.call(
            "Target.closeTarget",
            one_text_param_text("targetId", self.target_id.as_str()),
            Role::Plain,
        );
        self.state = TabState::Closed;
        Ok(plan)
    }
}

/// Closing a tab twice, or closing a tab to which no session was ever
/// attached, is refused: a tab that has been closed takes no further
/// command, its closing included, and neither does a tab without a session.
pub proof fn lemma_closed_tab_refuses(tab: TabView)
    ensures
        !tab.closed().usable(),
        tab.closed().closed() == tab.closed(),
        tab.state == TabState::Created ==> !tab.usable(),
{
}

/// Whether a page that reports its ready state in `reply` has yet to load:
/// the state is anything but `complete`.
pub open spec fn pending(reply: Seq<char>) -> bool {
    evaluated_string_of(reply) != "complete"@
}

/// Reads from the reply to the ready-state query whether the load is still
/// pending, so that the load event is yet to come.
pub fn load_pending(reply: &str) -> (b: bool)
    ensures
        b == pending(reply@),
{
    let state = evaluated_string(reply);
    !(state == String::from_str("complete"))
}

/// The wait for a load is registered before the load is triggered, so that
/// the event cannot come before somebody waits for it; and it is awaited
/// only after the trigger.
pub proof fn lemma_wait_is_registered_first(method: Seq<char>, params: Seq<char>)
    ensures
        loading_steps(method, params).len() == 4,
        loading_steps(method, params)[1] == listen(load_event()),
        loading_steps(method, params)[2] == call(method, params, Role::Plain),
        loading_steps(method, params)[3] == await_event(load_event()),
{
}

/// A transparent background never outlives its capture. The step that
/// installs the override is undone by the last step of the capture, and that
/// step is due after any failure at or after the installation: of the
/// installation itself, of bringing the tab to the front, or of the capture.
/// After a failure before the installation nothing was installed, and
/// nothing is undone.
pub proof fn lemma_override_is_cleared(
    before: Seq<PlannedView>,
    target_id: Seq<char>,
    options: CaptureOptionsView,
    clip: Option<ClipRegionView>,
    failed_at: int,
)
    requires
        options.transparent(),
        before.len() <= usize::MAX - 4,
        0 <= failed_at < before.len() + 3,
    ensures
        ({
            let steps = before + shot_steps(target_id, options, clip, before.len());
            let base = before.len() as int;
            &&& steps.len() == base + 4
            &&& steps[base] == call(
                "Emulation.setDefaultBackgroundColorOverride"@,
                transparent_background_params(),
                Role::Plain,
            )
            &&& steps[base + 3] == call(
                "Emulation.setDefaultBackgroundColorOverride"@,
                no_params(),
                Role::Undo { of: base as usize },
            )
            &&& crate::plan::due(steps, base + 3, Some(failed_at)) == (failed_at >= base)
            &&& crate::plan::due(steps, base + 3, None)
        }),
{
}

/// Without a transparent background a capture installs no override and
/// undoes none.
pub proof fn lemma_no_override_without_transparency(
    target_id: Seq<char>,
    options: CaptureOptionsView,
    clip: Option<ClipRegionView>,
    base: nat,
)
    requires
        !options.transparent(),
    ensures
        shot_steps(target_id, options, clip, base).len() == 2,
        forall|i: int|
            0 <= i < 2 ==> !((#[trigger] shot_steps(target_id, options, clip, base)[i]).role
                is Undo),
{
}

} // verus!
