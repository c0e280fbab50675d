use cdp_html_shot::protocol::{
    capture_params_text, clip_params_text, describe_params_text, device_metrics_params_text,
    evaluate_params_text, no_params_text, one_text_param_text, one_unsigned_param_text,
    query_params_text, touch_params_text, transparent_background_params_text, write_script_text,
};
use cdp_html_shot::readiness::{readiness_script_text, Readiness};
use cdp_html_shot::{CaptureOptions, ClipRegion, Decimal, ImageFormat, Viewport};

fn num(text: &str) -> Decimal {
    Decimal::parse(text).unwrap()
}

#[test]
fn writes_the_simple_parameter_objects() {
    assert_eq!(no_params_text(), "{}");
    assert_eq!(one_text_param_text("url", "file:///a b.html"), r#"{"url":"file:///a b.html"}"#);
    assert_eq!(one_unsigned_param_text("backendNodeId", 42), r#"{"backendNodeId":42}"#);
    assert_eq!(touch_params_text(), r#"{"enabled":true,"maxTouchPoints":5}"#);
    assert_eq!(describe_params_text(9), r#"{"depth":100,"nodeId":9}"#);
    assert_eq!(query_params_text(1, "#x"), r##"{"nodeId":1,"selector":"#x"}"##);
    assert_eq!(
        query_params_text(3, "a[href=\"x\"]"),
        r#"{"nodeId":3,"selector":"a[href=\"x\"]"}"#
    );
    assert_eq!(
        transparent_background_params_text(),
        r#"{"color":{"a":0,"b":0,"g":0,"r":0}}"#
    );
}

#[test]
fn writes_the_device_metrics_of_a_viewport() {
    assert_eq!(
        device_metrics_params_text(&Viewport::default()),
        r#"{"deviceScaleFactor":1.0,"height":600,"mobile":false,"screenOrientation":{"angle":0,"type":"portraitPrimary"},"width":800}"#
    );
    let wide = Viewport::new(1280, 720)
        .with_device_scale_factor(num("2.0"))
        .with_mobile(true)
        .with_landscape(true);
    assert_eq!(
        device_metrics_params_text(&wide),
        r#"{"deviceScaleFactor":2.0,"height":720,"mobile":true,"screenOrientation":{"angle":90,"type":"landscapePrimary"},"width":1280}"#
    );
}

#[test]
fn writes_evaluations() {
    assert_eq!(
        evaluate_params_text("document.title", true),
        r#"{"awaitPromise":true,"expression":"document.title","returnByValue":true}"#
    );
    assert_eq!(
        evaluate_params_text("1 + 1", false),
        r#"{"awaitPromise":true,"expression":"1 + 1"}"#
    );
}

#[test]
fn writes_the_script_that_replaces_the_document() {
    assert_eq!(
        write_script_text("<h1 id=\"x\">hi</h1>"),
        r#"document.open(); document.write("<h1 id=\"x\">hi</h1>"); document.close();"#
    );
    assert_eq!(
        write_script_text("a\nb</script>"),
        r#"document.open(); document.write("a\nb</script>"); document.close();"#
    );
}

#[test]
fn writes_a_clip_region() {
    let clip = ClipRegion::new(num("8"), num("16.5"), num("100"), num("50.25"));
    assert_eq!(
        clip_params_text(&clip),
        r#"{"height":50.25,"scale":1.0,"width":100,"x":8,"y":16.5}"#
    );
    assert_eq!(
        clip_params_text(&clip.with_scale(num("2"))),
        r#"{"height":50.25,"scale":2,"width":100,"x":8,"y":16.5}"#
    );
}

#[test]
fn a_default_capture_is_a_jpeg_of_quality_90() {
    assert_eq!(
        capture_params_text(&CaptureOptions::new(), None),
        r#"{"captureBeyondViewport":false,"format":"jpeg","fromSurface":true,"quality":90}"#
    );
}

#[test]
fn a_png_capture_has_no_quality() {
    assert_eq!(
        capture_params_text(&CaptureOptions::raw_png().with_quality(50), None),
        r#"{"captureBeyondViewport":false,"format":"png","fromSurface":true}"#
    );
}

#[test]
fn a_full_page_jpeg_of_quality_80() {
    let options = CaptureOptions::new()
        .with_viewport(Viewport::new(800, 600).with_device_scale_factor(num("2.0")))
        .with_full_page(true)
        .with_format(ImageFormat::Jpeg)
        .with_quality(80);
    assert_eq!(
        capture_params_text(&options, None),
        r#"{"captureBeyondViewport":true,"format":"jpeg","fromSurface":true,"quality":80}"#
    );
}

#[test]
fn a_capture_of_a_region_names_the_region() {
    let clip = ClipRegion::new(num("0"), num("0"), num("10"), num("20"));
    assert_eq!(
        capture_params_text(&CaptureOptions::new().with_format(ImageFormat::WebP), Some(&clip)),
        r#"{"captureBeyondViewport":false,"clip":{"height":20,"scale":1.0,"width":10,"x":0,"y":0},"format":"webp","fromSurface":true,"quality":90}"#
    );
}

#[test]
fn the_viewport_scale_leaves_the_capture_request_alone() {
    let clip = ClipRegion::new(num("5"), num("6"), num("70"), num("80"));
    let plain = CaptureOptions::new().with_format(ImageFormat::Png);
    let mut seen = Vec::new();
    for scale in ["1.0", "2.0", "3.0", "0.5", "7.25"] {
        let scaled = plain
            .clone()
            .with_viewport(Viewport::default().with_device_scale_factor(num(scale)));
        seen.push(capture_params_text(&scaled, Some(&clip)));
    }
    for text in &seen {
        assert_eq!(text, &capture_params_text(&plain, Some(&clip)));
        assert_eq!(
            text,
            r#"{"captureBeyondViewport":false,"clip":{"height":80,"scale":1.0,"width":70,"x":5,"y":6},"format":"png","fromSurface":true}"#
        );
    }
}

#[test]
fn what_the_builders_write_is_json() {
    let clip = ClipRegion::new(num("5"), num("6"), num("70"), num("80"));
    let texts = vec![
        no_params_text(),
        touch_params_text(),
        device_metrics_params_text(&Viewport::default()),
        capture_params_text(&CaptureOptions::new(), Some(&clip)),
        evaluate_params_text(&write_script_text("<p>\"</p>"), false),
        evaluate_params_text(&readiness_script_text(&Readiness::default()), false),
    ];
    for text in texts {
        assert!(cdp_html_shot::json::object_members(&text).is_some(), "{}", text);
    }
}

#[test]
fn the_readiness_script_carries_its_limits() {
    let script = readiness_script_text(&Readiness {
        timeout_ms: 1234,
        warm_up_ms: 56,
        quiet_ms: 78,
        poll_ms: 9,
    });
    assert!(script.starts_with(
        "new Promise((resolve, reject) => { const limit = 1234; const warmUp = 56; const quiet = 78; const pause = 9; "
    ));
    assert!(script.ends_with("awaitLoaded(); })"));
}

#[test]
fn the_readiness_script_goes_through_its_stages() {
    let script = readiness_script_text(&Readiness::default());
    let stages = [
        "setTimeout(fail, limit)",
        "document.readyState === 'complete'",
        "document.fonts.ready",
        "link[rel~=stylesheet]",
        "document.images",
        "new MutationObserver",
        "now - started >= warmUp && now - changed >= quiet",
        "requestAnimationFrame(() => requestAnimationFrame(",
        "resolve(true)",
    ];
    for stage in stages {
        assert!(script.contains(stage), "{}", stage);
    }
    let order: Vec<usize> =
        ["const awaitLoaded", "const awaitFonts", "const awaitResources", "const settle"]
            .iter()
            .map(|s| script.find(s).unwrap())
            .collect();
    assert!(order.windows(2).all(|w| w[0] < w[1]));
    assert!(!script.contains('\n'));
}

#[test]
fn the_default_readiness_gives_up_after_ten_seconds() {
    assert_eq!(
        Readiness::default(),
        Readiness { timeout_ms: 10000, warm_up_ms: 100, quiet_ms: 100, poll_ms: 20 }
    );
}
