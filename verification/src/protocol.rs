//! The commands of the debugging protocol that the library issues: their
//! method names and the text of their parameter objects.
//!
//! Members are written in the alphabetical order of their keys.

use vstd::prelude::*;
use vstd::string::*;
use crate::json::{
    members_view, object_text, quote_string, quoted, render_object, Field, FieldView, Members,
};
use crate::types::{
    CaptureOptions, CaptureOptionsView, ClipRegion, ClipRegionView, ImageFormat, Viewport,
    ViewportView,
};

verus! {

/// The empty parameter object.
pub open spec fn no_params() -> Seq<char> {
    object_text(Seq::empty())
}

/// Writes the empty parameter object.
pub fn no_params_text() -> (text: String)
    ensures
        text@ == no_params(),
{
    let members: Members = Vec::new();
    assert(members_view(members@) =~= Seq::empty());
    render_object(&members)
}

/// The parameter object with the single string member `key`.
pub open spec fn one_text_param(key: Seq<char>, value: Seq<char>) -> Seq<char> {
    object_text(seq![(key, FieldView::Text(value))])
}

/// Writes the parameter object with the single string member `key`.
pub fn one_text_param_text(key: &str, value: &str) -> (text: String)
    ensures
        text@ == one_text_param(key@, value@),
{
    let mut members: Members = Vec::new();
    members.push((String::from_str(key), Field::Text(String::from_str(value))));
    assert(members_view(members@) =~= seq![(key@, FieldView::Text(value@))]);
    render_object(&members)
}

/// The parameter object with the single integer member `key`.
pub open spec fn one_unsigned_param(key: Seq<char>, value: u64) -> Seq<char> {
    object_text(seq![(key, FieldView::Unsigned(value))])
}

/// Writes the parameter object with the single integer member `key`.
pub fn one_unsigned_param_text(key: &str, value: u64) -> (text: String)
    ensures
        text@ == one_unsigned_param(key@, value),
{
    let mut members: Members = Vec::new();
    members.push((String::from_str(key), Field::Unsigned(value)));
    assert(members_view(members@) =~= seq![(key@, FieldView::Unsigned(value))]);
    render_object(&members)
}

/// The orientation that goes with a viewport: landscape at 90 degrees, or
/// portrait at 0.
pub open spec fn orientation(landscape: bool) -> Seq<char> {
    object_text(
        seq![
            (
                "angle"@,
                FieldView::Unsigned(
                    if landscape {
                        90
                    } else {
                        0
                    },
                ),
            ),
            (
                "type"@,
                FieldView::Text(
                    if landscape {
                        "landscapePrimary"@
                    } else {
                        "portraitPrimary"@
                    },
                ),
            ),
        ],
    )
}

/// The parameters that override the device metrics with `viewport`.
pub open spec fn device_metrics_params(viewport: ViewportView) -> Seq<char> {
    object_text(
        seq![
            ("deviceScaleFactor"@, FieldView::Number(viewport.device_scale_factor)),
            ("height"@, FieldView::Unsigned(viewport.height as u64)),
            ("mobile"@, FieldView::Bool(viewport.is_mobile)),
            ("screenOrientation"@, FieldView::Nested(orientation(viewport.is_landscape))),
            ("width"@, FieldView::Unsigned(viewport.width as u64)),
        ],
    )
}

/// Writes the parameters that override the device metrics with `viewport`.
pub fn device_metrics_params_text(viewport: &Viewport) -> (text: String)
    ensures
        text@ == device_metrics_params(viewport@),
{
    let mut turned: Members = Vec::new();
    let angle: u64 = if viewport.is_landscape {
        90
    } else {
        0
    };
    let kind = if viewport.is_landscape {
        "landscapePrimary"
    } else {
        "portraitPrimary"
    };
    turned.push((String::from_str("angle"), Field::Unsigned(angle)));
    turned.push((String::from_str("type"), Field::Text(String::from_str(kind))));
    assert(members_view(turned@) =~= seq![
        ("angle"@, FieldView::Unsigned(angle)),
        ("type"@, FieldView::Text(kind@)),
    ]);
    let screen = render_object(&turned);
    let mut members: Members = Vec::new();
    members.push(
        (
            String::from_str("deviceScaleFactor"),
            Field::Number(String::from_str(viewport.device_scale_factor.literal())),
        ),
    );
    members.push((String::from_str("height"), Field::Unsigned(viewport.height as u64)));
    members.push((String::from_str("mobile"), Field::Bool(viewport.is_mobile)));
    members.push((String::from_str("screenOrientation"), Field::Nested(screen)));
    members.push((String::from_str("width"), Field::Unsigned(viewport.width as u64)));
    assert(members_view(members@) =~= seq![
        ("deviceScaleFactor"@, FieldView::Number(viewport@.device_scale_factor)),
        ("height"@, FieldView::Unsigned(viewport@.height as u64)),
        ("mobile"@, FieldView::Bool(viewport@.is_mobile)),
        ("screenOrientation"@, FieldView::Nested(orientation(viewport@.is_landscape))),
        ("width"@, FieldView::Unsigned(viewport@.width as u64)),
    ]);
    render_object(&members)
}

/// The parameters that switch touch emulation on, with five touch points.
pub open spec fn touch_params() -> Seq<char> {
    object_text(
        seq![("enabled"@, FieldView::Bool(true)), ("maxTouchPoints"@, FieldView::Unsigned(5))],
    )
}

/// Writes the parameters that switch touch emulation on.
pub fn touch_params_text() -> (text: String)
    ensures
        text@ == touch_params(),
{
    let mut members: Members = Vec::new();
    members.push((String::from_str("enabled"), Field::Bool(true)));
    members.push((String::from_str("maxTouchPoints"), Field::Unsigned(5)));
    assert(members_view(members@) =~= seq![
        ("enabled"@, FieldView::Bool(true)),
        ("maxTouchPoints"@, FieldView::Unsigned(5)),
    ]);
    render_object(&members)
}

/// The parameters of an evaluation whose promise is awaited; with
/// `by_value`, the result is returned as a value.
pub open spec fn evaluate_params(expression: Seq<char>, by_value: bool) -> Seq<char> {
    if by_value {
        object_text(
            seq![
                ("awaitPromise"@, FieldView::Bool(true)),
                ("expression"@, FieldView::Text(expression)),
                ("returnByValue"@, FieldView::Bool(true)),
            ],
        )
    } else {
        object_text(
            seq![
                ("awaitPromise"@, FieldView::Bool(true)),
                ("expression"@, FieldView::Text(expression)),
            ],
        )
    }
}

/// Writes the parameters of an evaluation.
pub fn evaluate_params_text(expression: &str, by_value: bool) -> (text: String)
    ensures
        text@ == evaluate_params(expression@, by_value),
{
    let mut members: Members = Vec::new();
    members.push((String::from_str("awaitPromise"), Field::Bool(true)));
    members.push((String::from_str("expression"), Field::Text(String::from_str(expression))));
    if by_value {
        members.push((String::from_str("returnByValue"), Field::Bool(true)));
        assert(members_view(members@) =~= seq![
            ("awaitPromise"@, FieldView::Bool(true)),
            ("expression"@, FieldView::Text(expression@)),
            ("returnByValue"@, FieldView::Bool(true)),
        ]);
    } else {
        assert(members_view(members@) =~= seq![
            ("awaitPromise"@, FieldView::Bool(true)),
            ("expression"@, FieldView::Text(expression@)),
        ]);
    }
    render_object(&members)
}

/// The script that replaces the document with `content`.
pub open spec fn write_script(content: Seq<char>) -> Seq<char> {
    "document.open(); document.write("@ + quoted(content) + "); document.close();"@
}

/// Writes the script that replaces the document with `content`.
pub fn write_script_text(content: &str) -> (script: String)
    ensures
        script@ == write_script(content@),
{
    let mut script = String::from_str("document.open(); document.write(");
    let literal = quote_string(content);
    script.append(literal.as_str());
    script.append("); document.close();");
    script
}

/// The parameters of a selector query below the node `root`.
pub open spec fn query_params(root: u64, selector: Seq<char>) -> Seq<char> {
    object_text(
        seq![("nodeId"@, FieldView::Unsigned(root)), ("selector"@, FieldView::Text(selector))],
    )
}

/// Writes the parameters of a selector query below the node `root`.
pub fn query_params_text(root: u64, selector: &str) -> (text: String)
    ensures
        text@ == query_params(root, selector@),
{
    let mut members: Members = Vec::new();
    members.push((String::from_str("nodeId"), Field::Unsigned(root)));
    members.push((String::from_str("selector"), Field::Text(String::from_str(selector))));
    assert(members_view(members@) =~= seq![
        ("nodeId"@, FieldView::Unsigned(root)),
        ("selector"@, FieldView::Text(selector@)),
    ]);
    render_object(&members)
}

/// The parameters that describe the node `node` to a depth of 100.
pub open spec fn describe_params(node: u64) -> Seq<char> {
    object_text(seq![("depth"@, FieldView::Unsigned(100)), ("nodeId"@, FieldView::Unsigned(node))])
}

/// Writes the parameters that describe the node `node`.
pub fn describe_params_text(node: u64) -> (text: String)
    ensures
        text@ == describe_params(node),
{
    let mut members: Members = Vec::new();
    members.push((String::from_str("depth"), Field::Unsigned(100)));
    members.push((String::from_str("nodeId"), Field::Unsigned(node)));
    assert(members_view(members@) =~= seq![
        ("depth"@, FieldView::Unsigned(100)),
        ("nodeId"@, FieldView::Unsigned(node)),
    ]);
    render_object(&members)
}

/// The parameters that make the page background fully transparent.
pub open spec fn transparent_background_params() -> Seq<char> {
    object_text(
        seq![
            (
                "color"@,
                FieldView::Nested(
                    object_text(
                        seq![
                            ("a"@, FieldView::Unsigned(0)),
                            ("b"@, FieldView::Unsigned(0)),
                            ("g"@, FieldView::Unsigned(0)),
                            ("r"@, FieldView::Unsigned(0)),
                        ],
                    ),
                ),
            ),
        ],
    )
}

/// Writes the parameters that make the page background fully transparent.
pub fn transparent_background_params_text() -> (text: String)
    ensures
        text@ == transparent_background_params(),
{
    let mut color: Members = Vec::new();
    color.push((String::from_str("a"), Field::Unsigned(0)));
    color.push((String::from_str("b"), Field::Unsigned(0)));
    color.push((String::from_str("g"), Field::Unsigned(0)));
    color.push((String::from_str("r"), Field::Unsigned(0)));
    assert(members_view(color@) =~= seq![
        ("a"@, FieldView::Unsigned(0)),
        ("b"@, FieldView::Unsigned(0)),
        ("g"@, FieldView::Unsigned(0)),
        ("r"@, FieldView::Unsigned(0)),
    ]);
    let inner = render_object(&color);
    let mut members: Members = Vec::new();
    members.push((String::from_str("color"), Field::Nested(inner)));
    assert(members_view(members@) =~= seq![("color"@, FieldView::Nested(inner@))]);
    render_object(&members)
}

/// The text of a clip region.
pub open spec fn clip_params(clip: ClipRegionView) -> Seq<char> {
    object_text(
        seq![
            ("height"@, FieldView::Number(clip.height)),
            ("scale"@, FieldView::Number(clip.scale)),
            ("width"@, FieldView::Number(clip.width)),
            ("x"@, FieldView::Number(clip.x)),
            ("y"@, FieldView::Number(clip.y)),
        ],
    )
}

/// Writes a clip region.
pub fn clip_params_text(clip: &ClipRegion) -> (text: String)
    ensures
        text@ == clip_params(clip@),
{
    let mut members: Members = Vec::new();
    members.push((String::from_str("height"), Field::Number(String::from_str(clip.height.literal()))));
    members.push((String::from_str("scale"), Field::Number(String::from_str(clip.scale.literal()))));
    members.push((String::from_str("width"), Field::Number(String::from_str(clip.width.literal()))));
    members.push((String::from_str("x"), Field::Number(String::from_str(clip.x.literal()))));
    members.push((String::from_str("y"), Field::Number(String::from_str(clip.y.literal()))));
    assert(members_view(members@) =~= seq![
        ("height"@, FieldView::Number(clip@.height)),
        ("scale"@, FieldView::Number(clip@.scale)),
        ("width"@, FieldView::Number(clip@.width)),
        ("x"@, FieldView::Number(clip@.x)),
        ("y"@, FieldView::Number(clip@.y)),
    ]);
    render_object(&members)
}

/// The members of a capture request: whether the capture reaches beyond the
/// viewport, the region if there is one, the format, that the capture is
/// taken from the surface, and the quality where the format takes one.
pub open spec fn capture_members(
    format: ImageFormat,
    quality: u8,
    full_page: bool,
    clip: Option<ClipRegionView>,
) -> Seq<(Seq<char>, FieldView)> {
    let head = seq![("captureBeyondViewport"@, FieldView::Bool(full_page))];
    let region = match clip {
        Some(c) => seq![("clip"@, FieldView::Nested(clip_params(c)))],
        None => Seq::empty(),
    };
    let kind = seq![
        ("format"@, FieldView::Text(format.name())),
        ("fromSurface"@, FieldView::Bool(true)),
    ];
    let grade = if format.lossy() {
        seq![("quality"@, FieldView::Unsigned(quality as u64))]
    } else {
        Seq::empty()
    };
    head + region + kind + grade
}

/// The parameters of a capture with `options` of the region `clip`, or of
/// the viewport where there is none.
pub open spec fn capture_params(options: CaptureOptionsView, clip: Option<ClipRegionView>) -> Seq<
    char,
> {
    object_text(
        capture_members(options.format, options.effective_quality(), options.full_page, clip),
    )
}

/// Writes the parameters of a capture with `options` of the region `clip`,
/// or of the viewport where there is none. What `options` say of a region
/// or a viewport plays no part.
pub fn capture_params_text(options: &CaptureOptions, clip: Option<&ClipRegion>) -> (text: String)
    ensures
        text@ == capture_params(
            options@,
            match clip {
                Some(c) => Some(c@),
                None => None,
            },
        ),
{
    let format = options.format();
    let ghost region = match clip {
        Some(c) => Some(c@),
        None => None,
    };
    let ghost wanted = capture_members(
        format,
        options@.effective_quality(),
        options@.full_page,
        region,
    );
    let mut members: Members = Vec::new();
    members.push((String::from_str("captureBeyondViewport"), Field::Bool(options.full_page())));
    match clip {
        Some(c) => {
            members.push((String::from_str("clip"), Field::Nested(clip_params_text(c))));
        },
        None => {},
    }
    members.push((String::from_str("format"), Field::Text(String::from_str(format.as_str()))));
    members.push((String::from_str("fromSurface"), Field::Bool(true)));
    if format.is_lossy() {
        members.push(
            (String::from_str("quality"), Field::Unsigned(options.effective_quality() as u64)),
        );
    }
    assert(members_view(members@) =~= wanted);
    render_object(&members)
}

} // verus!
