use cdp_html_shot::json::{field_at, nested_at, render_object, text_at, unsigned_at, Field};
use cdp_html_shot::plan::{Plan, Run, Step};
use cdp_html_shot::readiness::Readiness;
use cdp_html_shot::reply::{
    attached_session, border_box, border_edges, content_settled, created_target,
    evaluated_string, image_data,
};
use cdp_html_shot::tab::{attach_to_target, create_target, load_pending};
use cdp_html_shot::transport::{
    classify, reply_payload, target_call, Effect, IdCounter, Router, Sent, TransportMessage,
};
use cdp_html_shot::{CaptureOptions, Decimal, Element, Error, ImageFormat, Tab, Viewport};
use std::collections::HashMap;

/// A stand-in for the browser: answers each frame as a browser would.
struct Browser {
    sessions: Vec<String>,
    scale: f64,
    size: (u64, u64),
    listening: bool,
    log: Vec<String>,
}

fn object(members: Vec<(&str, Field)>) -> String {
    render_object(&members.into_iter().map(|(k, v)| (k.to_string(), v)).collect())
}

fn nested(text: String) -> Field {
    Field::Nested(text)
}

fn text(s: &str) -> Field {
    Field::Text(s.to_string())
}

impl Browser {
    fn new() -> Self {
        Browser { sessions: Vec::new(), scale: 1.0, size: (800, 600), listening: false, log: Vec::new() }
    }

    fn relay(session: &str, message: String) -> String {
        object(vec![
            ("method", text("Target.receivedMessageFromTarget")),
            ("params", nested(object(vec![("message", Field::Text(message)), ("sessionId", text(session))]))),
        ])
    }

    fn receive(&mut self, frame: &str) -> Vec<String> {
        let id = unsigned_at(frame, "id").unwrap();
        let method = text_at(frame, "method").unwrap();
        let params = nested_at(frame, "params").unwrap();
        let reply = |result: String| object(vec![("id", Field::Unsigned(id)), ("result", nested(result))]);
        match method.as_str() {
            "Target.createTarget" => {
                let target = format!("T{}", self.sessions.len() + 1);
                vec![reply(object(vec![("targetId", text(&target))]))]
            }
            "Target.attachToTarget" => {
                let session = format!("S-{}", text_at(&params, "targetId").unwrap());
                self.sessions.push(session.clone());
                vec![reply(object(vec![("sessionId", text(&session))]))]
            }
            "Target.sendMessageToTarget" => {
                let session = text_at(&params, "sessionId").unwrap();
                let message = text_at(&params, "message").unwrap();
                assert!(self.sessions.contains(&session), "unknown session {}", session);
                let mut frames = vec![reply("{}".to_string())];
                frames.extend(self.perform(&session, &message));
                frames
            }
            other => panic!("unexpected method {}", other),
        }
    }

    fn perform(&mut self, session: &str, message: &str) -> Vec<String> {
        let id = unsigned_at(message, "id").unwrap();
        let method = text_at(message, "method").unwrap();
        let params = nested_at(message, "params").unwrap();
        self.log.push(method.clone());
        let mut events = Vec::new();
        let result = match method.as_str() {
            "Page.enable" => {
                self.listening = true;
                "{}".to_string()
            }
            "Page.navigate" | "Page.reload" => {
                if self.listening {
                    events.push(Browser::relay(
                        session,
                        object(vec![("method", text("Page.loadEventFired")), ("params", nested("{}".to_string()))]),
                    ));
                }
                object(vec![("frameId", text("F"))])
            }
            "Emulation.setDeviceMetricsOverride" => {
                self.scale = match field_at(&params, "deviceScaleFactor").unwrap() {
                    Field::Number(literal) => literal.parse().unwrap(),
                    other => panic!("scale {:?}", other),
                };
                self.size = (unsigned_at(&params, "width").unwrap(), unsigned_at(&params, "height").unwrap());
                "{}".to_string()
            }
            "Runtime.evaluate" => {
                let expression = text_at(&params, "expression").unwrap();
                let value = if expression == "document.readyState" {
                    text("complete")
                } else if expression == "document.title" {
                    text("Title")
                } else {
                    Field::Bool(true)
                };
                object(vec![("result", nested(object(vec![("type", text("x")), ("value", value)])))])
            }
            "DOM.getDocument" => object(vec![("root", nested(object(vec![("nodeId", Field::Unsigned(1))])))]),
            "DOM.querySelector" => {
                let found = if text_at(&params, "selector").unwrap() == "#x" { 5 } else { 0 };
                object(vec![("nodeId", Field::Unsigned(found))])
            }
            "DOM.describeNode" => {
                assert_eq!(unsigned_at(&params, "nodeId"), Some(5));
                object(vec![("node", nested(object(vec![("backendNodeId", Field::Unsigned(50))])))])
            }
            "DOM.getBoxModel" => {
                assert_eq!(unsigned_at(&params, "backendNodeId"), Some(50));
                object(vec![(
                    "model",
                    nested(object(vec![("border", nested("[8,21.4375,108.5,21.4375,108.5,58,8,58]".to_string()))])),
                )])
            }
            "Page.captureScreenshot" => {
                let format = text_at(&params, "format").unwrap();
                let (width, height) = match nested_at(&params, "clip") {
                    Some(clip) => {
                        let side = |key: &str| match field_at(&clip, key).unwrap() {
                            Field::Number(literal) => literal.parse::<f64>().unwrap(),
                            other => panic!("clip {:?}", other),
                        };
                        (side("width"), side("height"))
                    }
                    None => (self.size.0 as f64, self.size.1 as f64),
                };
                let header = if format == "png" { "iVBORw0KGgo" } else { "/9j/4AAQ" };
                object(vec![(
                    "data",
                    text(&format!("{}:{}x{}", header, width * self.scale, height * self.scale)),
                )])
            }
            _ => "{}".to_string(),
        };
        let mut frames =
            vec![Browser::relay(session, object(vec![("id", Field::Unsigned(id)), ("result", nested(result))]))];
        frames.extend(events);
        frames
    }
}

/// The program around the library, without a socket: what is written goes to
/// the stand-in, and what it answers is routed back.
struct Client {
    browser: Browser,
    ids: IdCounter,
    router: Router<u64, u64>,
    replies: HashMap<u64, String>,
    signals: Vec<u64>,
    waiters: u64,
}

impl Client {
    fn new() -> Self {
        Client {
            browser: Browser::new(),
            ids: IdCounter::new(),
            router: Router::new(),
            replies: HashMap::new(),
            signals: Vec::new(),
            waiters: 0,
        }
    }

    fn waiter(&mut self) -> u64 {
        self.waiters += 1;
        self.waiters
    }

    fn write(&mut self, frame: String) -> u64 {
        let waiter = self.waiter();
        let written = match self.router.accept(TransportMessage::Request(frame, waiter), &mut self.ids) {
            Effect::Write { id, frame, waiter } => {
                assert!(matches!(self.router.sent(id, waiter, true), Sent::Pending { displaced: None }));
                frame
            }
            other => panic!("unexpected effect {:?}", other),
        };
        for inbound in self.browser.receive(&written) {
            let kind = classify(&inbound);
            let released = self.router.route(&kind);
            if let (Some(to), Some(payload)) = (released.reply, reply_payload(&inbound, &kind)) {
                assert!(self.replies.insert(to, payload).is_none());
            }
            self.signals.extend(released.events);
        }
        waiter
    }

    fn send(&mut self, frame: String) -> Result<String, Error> {
        let waiter = self.write(frame);
        self.replies.remove(&waiter).ok_or(Error::RequestTimeout)
    }

    fn open_tab(&mut self) -> Tab {
        let create = create_target(&mut self.ids);
        let target = created_target(&self.send(create.frame).unwrap()).unwrap();
        let mut tab = Tab::created(target.clone());
        let attach = attach_to_target(&mut self.ids, &target);
        tab.attach(attached_session(&self.send(attach.frame).unwrap()).unwrap());
        tab
    }

    fn call(&mut self, tab: &Tab, method: &str, params: &str) -> Result<String, Error> {
        let call = target_call(&mut self.ids, tab.session_id(), method, params);
        let listener = self.waiter();
        let listening = TransportMessage::ListenTargetMessage(call.inner_id, listener);
        assert!(matches!(
            self.router.accept(listening, &mut self.ids),
            Effect::Recorded { displaced: None }
        ));
        self.send(call.frame)?;
        let reply = self.replies.remove(&listener).ok_or(Error::RequestTimeout)?;
        assert_eq!(unsigned_at(&reply, "id"), Some(call.inner_id));
        Ok(reply)
    }

    fn perform(&mut self, tab: &Tab, plan: Plan) -> Result<Option<String>, Error> {
        let mut run = Run::begin(plan);
        let mut waits: Vec<(String, u64)> = Vec::new();
        while let Some(step) = run.next_step() {
            let outcome = match step {
                Step::Call { method, params } => self.call(tab, &method, &params),
                Step::Listen { event } => {
                    let signal = self.waiter();
                    let message =
                        TransportMessage::WaitForEvent(tab.session_id().to_string(), event.clone(), signal);
                    self.router.accept(message, &mut self.ids);
                    waits.push((event, signal));
                    Ok(String::new())
                }
                Step::Await { event } => {
                    let signal = match waits.iter().position(|w| w.0 == event) {
                        Some(at) => waits.remove(at).1,
                        None => {
                            let signal = self.waiter();
                            let session = tab.session_id().to_string();
                            let message = TransportMessage::WaitForEvent(session, event, signal);
                            self.router.accept(message, &mut self.ids);
                            signal
                        }
                    };
                    if self.signals.contains(&signal) {
                        Ok(String::new())
                    } else {
                        Err(Error::RequestTimeout)
                    }
                }
            };
            run.record(outcome);
        }
        run.conclude()
    }

    fn find(&mut self, tab: &Tab, selector: &str) -> Result<Element, Error> {
        let mut search = tab.find_element(selector)?;
        while let Some(Step::Call { method, params }) = search.request() {
            let outcome = self.call(tab, &method, &params);
            search.advance(outcome);
        }
        search.found().unwrap()
    }

    fn shoot(&mut self, tab: &Tab, element: Element, options: &CaptureOptions) -> Result<String, Error> {
        let measured = self.perform(tab, element.box_model(tab, options)?)?.unwrap();
        let (left, top, right, bottom) = border_edges(&border_box(&measured))?;
        let edge = |d: &Decimal| d.literal().parse::<f64>().unwrap();
        let number = |x: f64| Decimal::parse(&format!("{}", x)).unwrap();
        let width = number(edge(&right) - edge(&left));
        let height = number(edge(&bottom) - edge(&top));
        let plan = element.screenshot_with_options(tab, options, left, top, width, height)?;
        image_data(&self.perform(tab, plan)?.unwrap())
    }
}

fn decode_base64(data: &str) -> Vec<u8> {
    let alphabet = b"ABCDEFGHIJKLMNOPQRSTUVWXYZabcdefghijklmnopqrstuvwxyz0123456789+/";
    let mut bits: u32 = 0;
    let mut count = 0;
    let mut bytes = Vec::new();
    for c in data.bytes() {
        let Some(value) = alphabet.iter().position(|a| *a == c) else { break };
        bits = (bits << 6) | value as u32;
        count += 6;
        if count >= 8 {
            count -= 8;
            bytes.push((bits >> count) as u8);
            bits &= (1 << count) - 1;
        }
    }
    bytes
}

#[test]
fn content_is_set_found_and_captured_as_a_png() {
    let mut client = Client::new();
    let tab = client.open_tab();
    assert_eq!((tab.target_id(), tab.session_id()), ("T1", "S-T1"));
    let content = tab.set_content("<h1 id=\"x\">hi</h1>", &Readiness::default()).unwrap();
    let settled = client.perform(&tab, content).unwrap().unwrap();
    assert_eq!(content_settled(&settled), Ok(()));
    let element = client.find(&tab, "#x").unwrap();
    assert_eq!(element.backend_node_id(), 50);
    let image = client.shoot(&tab, element, &CaptureOptions::raw_png()).unwrap();
    let header = image.split(':').next().unwrap();
    assert_eq!(&decode_base64(header)[..4], b"\x89PNG");
    assert_eq!(
        client.browser.log,
        vec![
            "Runtime.evaluate",
            "Runtime.evaluate",
            "DOM.getDocument",
            "DOM.querySelector",
            "DOM.describeNode",
            "DOM.getBoxModel",
            "Target.activateTarget",
            "Page.captureScreenshot",
        ]
    );
}

#[test]
fn a_capture_of_a_present_selector_is_not_empty() {
    for format in [ImageFormat::Jpeg, ImageFormat::Png, ImageFormat::WebP] {
        let mut client = Client::new();
        let tab = client.open_tab();
        let element = client.find(&tab, "#x").unwrap();
        let image = client.shoot(&tab, element, &CaptureOptions::new().with_format(format)).unwrap();
        assert!(!image.is_empty());
        assert!(!decode_base64(image.split(':').next().unwrap()).is_empty());
    }
}

#[test]
fn a_selector_that_matches_nothing_is_not_found() {
    let mut client = Client::new();
    let tab = client.open_tab();
    assert_eq!(client.find(&tab, "#missing"), Err(Error::ElementNotFound));
}

#[test]
fn a_full_page_jpeg_at_scale_2_has_twice_the_pixels() {
    let mut client = Client::new();
    let tab = client.open_tab();
    let options = CaptureOptions::new()
        .with_viewport(Viewport::new(800, 600).with_device_scale_factor(Decimal::parse("2.0").unwrap()))
        .with_full_page(true)
        .with_format(ImageFormat::Jpeg)
        .with_quality(80);
    let reply = client.perform(&tab, tab.screenshot(&options).unwrap()).unwrap().unwrap();
    let image = image_data(&reply).unwrap();
    let mut parts = image.split(':');
    assert_eq!(&decode_base64(parts.next().unwrap())[..2], b"\xff\xd8");
    assert_eq!(parts.next(), Some("1600x1200"));
}

#[test]
fn the_scale_changes_the_pixels_and_not_the_region() {
    let mut sizes = Vec::new();
    for scale in ["1.0", "2.0", "3.0"] {
        let mut client = Client::new();
        let tab = client.open_tab();
        let element = client.find(&tab, "#x").unwrap();
        let options = CaptureOptions::raw_png()
            .with_viewport(Viewport::default().with_device_scale_factor(Decimal::parse(scale).unwrap()));
        let image = client.shoot(&tab, element, &options).unwrap();
        sizes.push(image.split(':').nth(1).unwrap().to_string());
    }
    assert_eq!(sizes, vec!["100.5x36.5625", "201x73.125", "301.5x109.6875"]);
}

#[test]
fn navigation_waits_for_the_load_it_registered_for() {
    let mut client = Client::new();
    let tab = client.open_tab();
    assert_eq!(client.perform(&tab, tab.goto("file:///tmp/page.html").unwrap()), Ok(None));
    assert_eq!(client.perform(&tab, tab.reload().unwrap()), Ok(None));
    assert_eq!(client.browser.log, vec!["Page.enable", "Page.navigate", "Page.enable", "Page.reload"]);
}

#[test]
fn a_wait_after_the_page_has_loaded_does_not_hang() {
    let mut client = Client::new();
    let tab = client.open_tab();
    assert_eq!(client.perform(&tab, tab.goto_no_wait("file:///tmp/page.html").unwrap()), Ok(None));
    let state = client.perform(&tab, tab.wait_for_load().unwrap()).unwrap().unwrap();
    assert_eq!(evaluated_string(&state), "complete");
    assert!(!load_pending(&state));
}

#[test]
fn an_event_missed_is_an_event_never_seen() {
    let mut client = Client::new();
    let tab = client.open_tab();
    client.perform(&tab, tab.goto_no_wait("file:///tmp/page.html").unwrap()).unwrap();
    assert_eq!(
        client.perform(&tab, tab.await_load().unwrap()),
        Err(Error::RequestTimeout)
    );
}

#[test]
fn many_tabs_get_their_own_replies() {
    let mut client = Client::new();
    let tabs: Vec<Tab> = (0..8).map(|_| client.open_tab()).collect();
    let sessions: Vec<&str> = tabs.iter().map(|t| t.session_id()).collect();
    for (i, s) in sessions.iter().enumerate() {
        assert!(!sessions[..i].contains(s));
    }
    for round in 0..3 {
        for tab in tabs.iter().rev() {
            let plan = if round % 2 == 0 { tab.title() } else { tab.url() };
            let reply = client.perform(tab, plan.unwrap()).unwrap().unwrap();
            assert!(text_at(&reply, "method").is_none());
            assert!(unsigned_at(&reply, "id").is_some());
        }
    }
    assert!(client.replies.is_empty());
}

#[test]
fn a_tab_closed_twice_sends_one_command() {
    let mut client = Client::new();
    let mut tab = client.open_tab();
    let plan = tab.close().unwrap();
    assert_eq!(client.perform(&tab, plan), Ok(None));
    assert_eq!(tab.close(), Err(Error::TabClosed));
    assert_eq!(client.browser.log, vec!["Target.closeTarget"]);
}
