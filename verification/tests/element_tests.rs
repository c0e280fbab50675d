use cdp_html_shot::element::{FindElement, SelectorWait, RETRY_PAUSE_MS};
use cdp_html_shot::plan::{Role, Step};
use cdp_html_shot::reply::{
    attached_session, backend_node, border_box, border_edges, content_settled, created_target,
    evaluated,
    evaluated_string, first_page_among, image_data, matched_node, page_target, root_node,
};
use cdp_html_shot::json::Field;
use cdp_html_shot::{CaptureOptions, Decimal, Element, Error, ImageFormat, Tab, Viewport};

fn num(text: &str) -> Decimal {
    Decimal::parse(text).unwrap()
}

fn tab() -> Tab {
    Tab::new("TARGET".to_string(), "SESSION".to_string())
}

fn call(method: &str, params: &str) -> Step {
    Step::Call { method: method.to_string(), params: params.to_string() }
}

#[test]
fn reads_the_ids_of_a_new_tab() {
    assert_eq!(created_target(r#"{"id":1,"result":{"targetId":"T-9"}}"#), Ok("T-9".to_string()));
    assert_eq!(attached_session(r#"{"id":2,"result":{"sessionId":"S-9"}}"#), Ok("S-9".to_string()));
    for bad in [r#"{"id":1,"result":{}}"#, r#"{"id":1,"error":{"message":"no"}}"#, "x", r#"{"id":1,"result":{"targetId":5,"sessionId":5}}"#] {
        assert_eq!(created_target(bad), Err(Error::UnexpectedResponseShape));
        assert_eq!(attached_session(bad), Err(Error::UnexpectedResponseShape));
    }
}

#[test]
fn reads_the_nodes_of_a_search() {
    assert_eq!(root_node(r#"{"id":1,"result":{"root":{"nodeId":1,"backendNodeId":2}}}"#), Ok(1));
    assert_eq!(root_node(r#"{"id":1,"result":{"root":{}}}"#), Err(Error::UnexpectedResponseShape));
    assert_eq!(root_node(r#"{"id":1,"result":{}}"#), Err(Error::UnexpectedResponseShape));
    assert_eq!(matched_node(r#"{"id":1,"result":{"nodeId":15}}"#), Ok(15));
    assert_eq!(matched_node(r#"{"id":1,"result":{"nodeId":0}}"#), Err(Error::ElementNotFound));
    assert_eq!(matched_node(r#"{"id":1,"result":{}}"#), Err(Error::ElementNotFound));
    assert_eq!(matched_node(r#"{"id":1,"error":{"message":"bad selector"}}"#), Err(Error::ElementNotFound));
    assert_eq!(backend_node(r#"{"id":1,"result":{"node":{"nodeId":15,"backendNodeId":33}}}"#), Ok(33));
    assert_eq!(backend_node(r#"{"id":1,"result":{"node":{}}}"#), Err(Error::UnexpectedResponseShape));
}

#[test]
fn reads_the_image_of_a_capture() {
    assert_eq!(image_data(r#"{"id":1,"result":{"data":"iVBORw0KGgo="}}"#), Ok("iVBORw0KGgo=".to_string()));
    assert_eq!(image_data(r#"{"id":1,"result":{}}"#), Err(Error::NoImageData));
    assert_eq!(image_data(r#"{"id":1,"result":{"data":null}}"#), Err(Error::NoImageData));
    assert_eq!(image_data(r#"{"id":1,"result":{"data":""}}"#), Err(Error::NoImageData));
    assert_eq!(image_data(r#"{"id":1,"error":{"message":"x"}}"#), Err(Error::NoImageData));
    assert_eq!(image_data(""), Err(Error::NoImageData));
}

#[test]
fn reads_the_value_of_an_evaluation() {
    let text = r#"{"id":1,"result":{"result":{"type":"string","value":"hello"}}}"#;
    assert_eq!(evaluated(text), Field::Text("hello".to_string()));
    assert_eq!(evaluated_string(text), "hello");
    let number = r#"{"id":1,"result":{"result":{"type":"number","value":42}}}"#;
    assert_eq!(evaluated(number), Field::Number("42".to_string()));
    assert_eq!(evaluated_string(number), "42");
    let object = r#"{"id":1,"result":{"result":{"type":"object","value":{"a":[1,2]}}}}"#;
    assert_eq!(evaluated(object), Field::Nested(r#"{"a":[1,2]}"#.to_string()));
    assert_eq!(evaluated_string(object), r#"{"a":[1,2]}"#);
    let boolean = r#"{"id":1,"result":{"result":{"type":"boolean","value":true}}}"#;
    assert_eq!(evaluated_string(boolean), "true");
    let undefined = r#"{"id":1,"result":{"result":{"type":"undefined"}}}"#;
    assert_eq!(evaluated(undefined), Field::Null);
    assert_eq!(evaluated_string(undefined), "null");
    assert_eq!(evaluated("garbage"), Field::Null);
}

#[test]
fn reads_whether_the_page_settled() {
    assert_eq!(content_settled(r#"{"id":1,"result":{"result":{"type":"boolean","value":true}}}"#), Ok(()));
    assert_eq!(
        content_settled(r#"{"id":1,"result":{"result":{"type":"object"},"exceptionDetails":{"text":"Uncaught"}}}"#),
        Err(Error::ContentUnstableTimeout)
    );
    assert_eq!(
        content_settled(r#"{"id":1,"result":{"exceptionDetails":null}}"#),
        Err(Error::ContentUnstableTimeout)
    );
    assert_eq!(content_settled(r#"{"id":1,"result":{}}"#), Ok(()));
    assert_eq!(content_settled(r#"{"id":1,"error":{"message":"x"}}"#), Err(Error::UnexpectedResponseShape));
    assert_eq!(content_settled(r#"{"id":1,"result":5}"#), Err(Error::UnexpectedResponseShape));
    assert_eq!(content_settled("garbage"), Err(Error::UnexpectedResponseShape));
}

#[test]
fn reads_the_border_box_of_a_node() {
    let reply = r#"{"id":1,"result":{"model":{"content":[0,0,1,0,1,1,0,1],"border":[8,21.4375,108.5,21.4375,108.5,58,8,58],"width":100,"height":37}}}"#;
    let border = border_box(reply);
    assert_eq!(border.left, Some(num("8")));
    assert_eq!(border.top, Some(num("21.4375")));
    assert_eq!(border.right, Some(num("108.5")));
    assert_eq!(border.bottom, Some(num("58")));
}

#[test]
fn a_border_box_lacks_what_the_reply_lacks() {
    let short = border_box(r#"{"id":1,"result":{"model":{"border":[1,2,"x"]}}}"#);
    assert_eq!(short.left, Some(num("1")));
    assert_eq!(short.top, Some(num("2")));
    assert_eq!(short.right, None);
    assert_eq!(short.bottom, None);
    let none = border_box(r#"{"id":1,"error":{"message":"no node"}}"#);
    assert_eq!((none.left, none.top, none.right, none.bottom), (None, None, None, None));
}

#[test]
fn a_border_box_without_an_edge_is_refused() {
    let whole = border_box(r#"{"id":1,"result":{"model":{"border":[8,21.5,108,21.5,108,58,8,58]}}}"#);
    assert_eq!(border_edges(&whole), Ok((num("8"), num("21.5"), num("108"), num("58"))));
    for reply in [
        r#"{"id":1,"result":{"model":{"border":[1,2,"x"]}}}"#,
        r#"{"id":1,"result":{"model":{"border":[1,2,3,4,5]}}}"#,
        r#"{"id":1,"result":{"model":{"border":[null,2,3,4,5,6]}}}"#,
        r#"{"id":1,"result":{"model":{"border":[1,true,3,4,5,6]}}}"#,
        r#"{"id":1,"result":{"model":{"border":[1,2,3,4,5,{}]}}}"#,
        r#"{"id":1,"result":{"model":{}}}"#,
        r#"{"id":1,"result":{}}"#,
        r#"{"id":1,"error":{"message":"Could not compute box model."}}"#,
        "garbage",
    ] {
        assert_eq!(border_edges(&border_box(reply)), Err(Error::UnexpectedResponseShape), "{}", reply);
    }
}

#[test]
fn finds_the_first_page_among_the_targets() {
    let reply = r#"{"id":1,"result":{"targetInfos":[{"targetId":"W","type":"service_worker"},{"targetId":"P1","type":"page"},{"targetId":"P2","type":"page"}]}}"#;
    assert_eq!(page_target(reply), Some("P1".to_string()));
    assert_eq!(page_target(r#"{"id":1,"result":{"targetInfos":[]}}"#), None);
    assert_eq!(page_target(r#"{"id":1,"result":{"targetInfos":[{"targetId":"W","type":"worker"}]}}"#), None);
    assert_eq!(page_target(r#"{"id":1,"result":{}}"#), None);
    assert_eq!(page_target("garbage"), None);
}

#[test]
fn the_first_page_decides_even_without_an_id() {
    let infos = vec![
        Field::Unsigned(1),
        Field::Nested(r#"{"type":"page"}"#.to_string()),
        Field::Nested(r#"{"type":"page","targetId":"later"}"#.to_string()),
    ];
    assert_eq!(first_page_among(&infos), None);
    let found = vec![
        Field::Nested(r#"{"type":"iframe","targetId":"F"}"#.to_string()),
        Field::Nested(r#"{"type":"page","targetId":"P"}"#.to_string()),
    ];
    assert_eq!(first_page_among(&found), Some("P".to_string()));
    assert_eq!(first_page_among(&Vec::new()), None);
}

#[test]
fn a_search_goes_from_the_document_to_the_node() {
    let mut search = tab().find_element("#x").unwrap();
    assert_eq!(search, FindElement::new("#x"));
    assert_eq!(search.found(), None);
    assert_eq!(search.request(), Some(call("DOM.getDocument", "{}")));
    search.advance(Ok(r#"{"id":1,"result":{"root":{"nodeId":1}}}"#.to_string()));
    assert_eq!(
        search.request(),
        Some(call("DOM.querySelector", r##"{"nodeId":1,"selector":"#x"}"##))
    );
    search.advance(Ok(r#"{"id":3,"result":{"nodeId":7}}"#.to_string()));
    assert_eq!(search.request(), Some(call("DOM.describeNode", r#"{"depth":100,"nodeId":7}"#)));
    assert_eq!(search.found(), None);
    search.advance(Ok(r#"{"id":5,"result":{"node":{"backendNodeId":70}}}"#.to_string()));
    assert_eq!(search.request(), None);
    assert_eq!(search.found(), Some(Ok(Element::new(70))));
    search.advance(Err(Error::RequestTimeout));
    assert_eq!(search.found(), Some(Ok(Element::new(70))));
}

#[test]
fn a_search_fails_where_a_reply_fails_it() {
    let mut no_root = FindElement::new("p");
    no_root.advance(Ok(r#"{"id":1,"result":{}}"#.to_string()));
    assert_eq!(no_root.found(), Some(Err(Error::UnexpectedResponseShape)));
    assert_eq!(no_root.request(), None);

    let mut no_match = FindElement::new("p");
    no_match.advance(Ok(r#"{"id":1,"result":{"root":{"nodeId":1}}}"#.to_string()));
    no_match.advance(Ok(r#"{"id":2,"result":{"nodeId":0}}"#.to_string()));
    assert_eq!(no_match.found(), Some(Err(Error::ElementNotFound)));

    let mut no_description = FindElement::new("p");
    no_description.advance(Ok(r#"{"id":1,"result":{"root":{"nodeId":1}}}"#.to_string()));
    no_description.advance(Ok(r#"{"id":2,"result":{"nodeId":4}}"#.to_string()));
    no_description.advance(Ok(r#"{"id":3,"error":{"message":"gone"}}"#.to_string()));
    assert_eq!(no_description.found(), Some(Err(Error::UnexpectedResponseShape)));
}

#[test]
fn a_search_fails_with_the_error_of_its_call() {
    let mut search = FindElement::new("p");
    search.advance(Err(Error::RequestTimeout));
    assert_eq!(search.found(), Some(Err(Error::RequestTimeout)));
    let mut later = FindElement::new("p");
    later.advance(Ok(r#"{"id":1,"result":{"root":{"nodeId":1}}}"#.to_string()));
    later.advance(Err(Error::TransportClosed));
    assert_eq!(later.found(), Some(Err(Error::TransportClosed)));
    later.advance(Ok(r#"{"id":2,"result":{"nodeId":4}}"#.to_string()));
    assert_eq!(later.found(), Some(Err(Error::TransportClosed)));
}

#[test]
fn a_wait_for_a_selector_retries_until_its_time_is_up() {
    let wait = tab().wait_for_selector(".late", 1000).unwrap();
    assert_eq!(wait, SelectorWait::new(".late", 1000));
    assert_eq!(wait.search(), FindElement::new(".late"));
    assert_eq!(RETRY_PAUSE_MS, 100);
    assert_eq!(wait.retry_pause(0), Some(100));
    assert_eq!(wait.retry_pause(999), Some(100));
    assert_eq!(wait.retry_pause(1000), None);
    assert_eq!(wait.retry_pause(5000), None);
    assert_eq!(SelectorWait::new("x", 0).retry_pause(0), None);
}

#[test]
fn an_element_keeps_its_backend_node_id() {
    assert_eq!(Element::new(12).backend_node_id(), 12);
}

fn methods(steps: &[cdp_html_shot::plan::Planned]) -> Vec<(String, String, Role)> {
    steps
        .iter()
        .map(|p| match &p.step {
            Step::Call { method, params } => (method.clone(), params.clone(), p.role),
            Step::Listen { event } => ("listen".to_string(), event.clone(), p.role),
            Step::Await { event } => ("await".to_string(), event.clone(), p.role),
        })
        .collect()
}

#[test]
fn measuring_an_element_fetches_its_box_model() {
    let plan = Element::new(70).box_model(&tab(), &CaptureOptions::new()).unwrap();
    assert_eq!(
        methods(&plan.steps),
        vec![("DOM.getBoxModel".to_string(), r#"{"backendNodeId":70}"#.to_string(), Role::Result)]
    );
}

#[test]
fn measuring_applies_the_viewport_first() {
    let options = CaptureOptions::new().with_viewport(Viewport::default().with_touch(true));
    let plan = Element::new(70).box_model(&tab(), &options).unwrap();
    let done = methods(&plan.steps);
    assert_eq!(done.len(), 3);
    assert_eq!(done[0].0, "Emulation.setDeviceMetricsOverride");
    assert_eq!(done[1].0, "Emulation.setTouchEmulationEnabled");
    assert_eq!(done[2].0, "DOM.getBoxModel");
}

#[test]
fn capturing_an_element_clips_to_its_box_at_scale_1() {
    let plan = Element::new(70)
        .screenshot_with_options(
            &tab(),
            &CaptureOptions::raw_png(),
            num("8"),
            num("21.4375"),
            num("100.5"),
            num("36.5625"),
        )
        .unwrap();
    assert_eq!(
        methods(&plan.steps),
        vec![
            ("Target.activateTarget".to_string(), r#"{"targetId":"TARGET"}"#.to_string(), Role::Plain),
            (
                "Page.captureScreenshot".to_string(),
                r#"{"captureBeyondViewport":false,"clip":{"height":36.5625,"scale":1.0,"width":100.5,"x":8,"y":21.4375},"format":"png","fromSurface":true}"#.to_string(),
                Role::Result
            ),
        ]
    );
}

#[test]
fn the_region_of_the_options_plays_no_part_in_an_element_capture() {
    let with_clip = CaptureOptions::new().with_clip(cdp_html_shot::ClipRegion::new(
        num("1"),
        num("1"),
        num("1"),
        num("1"),
    ));
    let one = Element::new(1)
        .screenshot_with_options(&tab(), &with_clip, num("0"), num("0"), num("5"), num("5"))
        .unwrap();
    let other = Element::new(1)
        .screenshot_with_options(&tab(), &CaptureOptions::new(), num("0"), num("0"), num("5"), num("5"))
        .unwrap();
    assert_eq!(one, other);
}

#[test]
fn the_scale_of_the_viewport_leaves_the_clip_alone() {
    let plain = CaptureOptions::new();
    let expected = Element::new(1)
        .screenshot_with_options(&tab(), &plain, num("3"), num("4"), num("50"), num("60"))
        .unwrap();
    for scale in ["1.0", "2.0", "3.0", "0.75"] {
        let scaled = plain
            .clone()
            .with_viewport(Viewport::default().with_device_scale_factor(num(scale)));
        let plan = Element::new(1)
            .screenshot_with_options(&tab(), &scaled, num("3"), num("4"), num("50"), num("60"))
            .unwrap();
        assert_eq!(plan, expected);
    }
}

#[test]
fn a_transparent_element_capture_clears_its_override() {
    let options = CaptureOptions::raw_png().with_omit_background(true);
    let plan = Element::new(1)
        .screenshot_with_options(&tab(), &options, num("0"), num("0"), num("1"), num("1"))
        .unwrap();
    let done = methods(&plan.steps);
    assert_eq!(done.len(), 4);
    assert_eq!(done[0].0, "Emulation.setDefaultBackgroundColorOverride");
    assert_eq!(done[0].2, Role::Plain);
    assert_eq!(done[3], ("Emulation.setDefaultBackgroundColorOverride".to_string(), "{}".to_string(), Role::Undo { of: 0 }));
}

#[test]
fn the_quick_captures_are_a_jpeg_of_quality_90_and_a_png() {
    let jpeg = Element::new(1).screenshot(&tab(), num("0"), num("0"), num("1"), num("1")).unwrap();
    let png = Element::new(1).raw_screenshot(&tab(), num("0"), num("0"), num("1"), num("1")).unwrap();
    assert_eq!(
        jpeg,
        Element::new(1)
            .screenshot_with_options(
                &tab(),
                &CaptureOptions::new().with_format(ImageFormat::Jpeg).with_quality(90),
                num("0"),
                num("0"),
                num("1"),
                num("1")
            )
            .unwrap()
    );
    assert_eq!(
        png,
        Element::new(1)
            .screenshot_with_options(&tab(), &CaptureOptions::raw_png(), num("0"), num("0"), num("1"), num("1"))
            .unwrap()
    );
}

#[test]
fn an_element_of_a_closed_tab_cannot_be_captured() {
    let mut closed = tab();
    closed.close().unwrap();
    let element = Element::new(1);
    assert_eq!(element.box_model(&closed, &CaptureOptions::new()), Err(Error::TabClosed));
    assert_eq!(
        element.screenshot(&closed, num("0"), num("0"), num("1"), num("1")),
        Err(Error::TabClosed)
    );
    assert_eq!(
        element.raw_screenshot(&closed, num("0"), num("0"), num("1"), num("1")),
        Err(Error::TabClosed)
    );
}
