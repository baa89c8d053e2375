//! Charts, diagrams and the SVG document builder.

use vstd::prelude::*;
use std::collections::HashMap;
use crate::error::OpenMediaError;
use crate::text::{
    ascii_lowercase, decimal, is_ascii_text, lowercase, push_decimal, push_str, str_eq,
    to_lowercase,
};

verus! {

/// The chart kinds a chart configuration can name.
#[derive(Debug, Clone, Copy, PartialEq, Eq, Structural)]
pub enum ChartType {
    Bar,
    Line,
    Pie,
    Scatter,
    Radar,
    Heatmap,
    Treemap,
    Gauge,
}

/// Where a chart legend is placed.
#[derive(Debug, Clone, Copy, PartialEq, Eq, Structural)]
pub enum LegendPosition {
    Top,
    Bottom,
    Left,
    Right,
}

/// Whether and where a chart shows its legend.
#[derive(Debug, Clone, Copy, PartialEq, Eq, Structural)]
pub struct LegendConfig {
    pub show: bool,
    pub position: LegendPosition,
}

/// Diagram types for technical diagrams.
#[derive(Debug, Clone, Copy, PartialEq, Eq, Structural)]
pub enum DiagramType {
    Flowchart,
    Sequence,
    Architecture,
    ErDiagram,
    Tree,
    MindMap,
    Gantt,
    Timeline,
    Network,
}

/// One primitive of an SVG filter: its element name and attributes.
#[derive(Debug, Clone)]
pub struct FilterPrimitive {
    pub name: String,
    pub attrs: HashMap<String, String>,
}

/// The name of a chart type as its `Debug` form writes it.
pub open spec fn chart_type_name(t: ChartType) -> Seq<char> {
    match t {
        ChartType::Bar => "Bar"@,
        ChartType::Line => "Line"@,
        ChartType::Pie => "Pie"@,
        ChartType::Scatter => "Scatter"@,
        ChartType::Radar => "Radar"@,
        ChartType::Heatmap => "Heatmap"@,
        ChartType::Treemap => "Treemap"@,
        ChartType::Gauge => "Gauge"@,
    }
}

fn chart_type_text(t: ChartType) -> (r: &'static str)
    ensures
        r@ == chart_type_name(t),
{
    match t {
        ChartType::Bar => "Bar",
        ChartType::Line => "Line",
        ChartType::Pie => "Pie",
        ChartType::Scatter => "Scatter",
        ChartType::Radar => "Radar",
        ChartType::Heatmap => "Heatmap",
        ChartType::Treemap => "Treemap",
        ChartType::Gauge => "Gauge",
    }
}

/// The placeholder chart picture: an SVG of the requested size labelled
/// with the chart type.
pub open spec fn chart_placeholder(t: ChartType, width: nat, height: nat) -> Seq<char> {
    "<svg width=\""@ + decimal(width) + "\" height=\""@ + decimal(height)
        + "\"><text y=\"20\">Chart: "@ + chart_type_name(t) + "</text></svg>"@
}

/// Generates a chart of the given type and size as SVG.
pub fn generate_chart(chart_type: ChartType, width: u32, height: u32) -> (r: Result<String, OpenMediaError>)
    ensures
        r matches Ok(s) && s@ == chart_placeholder(chart_type, width as nat, height as nat),
{
    let mut s = String::from_str("<svg width=\"");
    push_decimal(&mut s, width as u64);
    push_str(&mut s, "\" height=\"");
    push_decimal(&mut s, height as u64);
    push_str(&mut s, "\"><text y=\"20\">Chart: ");
    push_str(&mut s, chart_type_text(chart_type));
    push_str(&mut s, "</text></svg>");
    Ok(s)
}

/// Builds an SVG document.
pub struct SvgBuilder {
    pub width: u32,
    pub height: u32,
    pub viewbox: Option<String>,
    pub styles: Vec<String>,
}

/// The text of the document every builder produces.
pub open spec fn built_svg() -> Seq<char> {
    "<svg></svg>"@
}

impl SvgBuilder {
    /// A builder for a document of the given size, with no view box and
    /// no styles.
    pub fn new(width: u32, height: u32) -> (r: SvgBuilder)
        ensures
            r.width == width,
            r.height == height,
            r.viewbox is None,
            r.styles@.len() == 0,
    {
        SvgBuilder { width, height, viewbox: None, styles: Vec::new() }
    }

    /// Sets a custom view box.
    pub fn viewbox(self, viewbox: &str) -> (r: SvgBuilder)
        ensures
            r.width == self.width,
            r.height == self.height,
            r.viewbox matches Some(v) && v@ == viewbox@,
            r.styles@ == self.styles@,
    {
        let mut b = self;
        b.viewbox = Some(String::from_str(viewbox));
        b
    }

    /// Adds inline CSS styles.
    pub fn style(self, css: &str) -> (r: SvgBuilder)
        ensures
            r.width == self.width,
            r.height == self.height,
            r.viewbox == self.viewbox,
            r.styles@.len() == self.styles@.len() + 1,
            forall|i: int| 0 <= i < self.styles@.len() ==> r.styles@[i] == self.styles@[i],
            r.styles@.last()@ == css@,
    {
        let mut b = self;
        b.styles.push(String::from_str(css));
        b
    }

    /// The final SVG text: an empty `<svg></svg>` document.
    pub fn build(self) -> (r: String)
        ensures
            r@ == built_svg(),
    {
        String::from_str("<svg></svg>")
    }
}

/// The chart kinds `create_chart` draws.
#[derive(Debug, Clone, Copy, PartialEq, Eq, Structural)]
pub enum ChartKind {
    Bar,
    Line,
    Pie,
}

/// The chart kind a lowercased chart type name selects, if any.
pub open spec fn chart_kind_named(l: Seq<char>) -> Option<ChartKind> {
    if l == "bar"@ {
        Some(ChartKind::Bar)
    } else if l == "line"@ {
        Some(ChartKind::Line)
    } else if l == "pie"@ {
        Some(ChartKind::Pie)
    } else {
        None
    }
}

/// Each chart type name and the chart kind it names.
pub open spec fn chart_kind_table() -> Seq<(Seq<char>, Option<ChartKind>)> {
    seq![
        ("bar"@, Some(ChartKind::Bar)),
        ("line"@, Some(ChartKind::Line)),
        ("pie"@, Some(ChartKind::Pie)),
    ]
}

/// Every chart type name of the table selects the chart kind it names.
pub proof fn lemma_chart_name_selects_kind(k: int)
    requires
        0 <= k < chart_kind_table().len(),
    ensures
        chart_kind_named(chart_kind_table()[k].0) == chart_kind_table()[k].1,
{
    reveal_strlit("bar");
    reveal_strlit("line");
    reveal_strlit("pie");
    assert("bar"@.len() == 3 && "bar"@[0] == 'b' && "bar"@[1] == 'a' && "bar"@[2] == 'r');
    assert("line"@.len() == 4 && "line"@[0] == 'l' && "line"@[1] == 'i' && "line"@[2] == 'n' && "line"@[3] == 'e');
    assert("pie"@.len() == 3 && "pie"@[0] == 'p' && "pie"@[1] == 'i' && "pie"@[2] == 'e');
    if k == 0 {
        assert(chart_kind_table()[k] == ("bar"@, Some(ChartKind::Bar)));
        assert(chart_kind_named("bar"@) == Some(ChartKind::Bar));
    } else if k == 1 {
        assert(chart_kind_table()[k] == ("line"@, Some(ChartKind::Line)));
        assert(chart_kind_named("line"@) == Some(ChartKind::Line));
    } else if k == 2 {
        assert(chart_kind_table()[k] == ("pie"@, Some(ChartKind::Pie)));
        assert(chart_kind_named("pie"@) == Some(ChartKind::Pie));
    }
}

/// The chart kind named by `chart_type`, compared without regard to case.
pub fn parse_chart_kind(chart_type: &str) -> (r: Option<ChartKind>)
    ensures
        r == chart_kind_named(lowercase(chart_type@)),
        is_ascii_text(chart_type@) ==> r == chart_kind_named(ascii_lowercase(chart_type@)),
{
    let l = to_lowercase(chart_type);
    chart_kind_from_lowercase(l.as_str())
}

/// The chart kind named by an already lowercased name.
pub fn chart_kind_from_lowercase(l: &str) -> (r: Option<ChartKind>)
    ensures
        r == chart_kind_named(l@),
{
    if str_eq(l, "bar") {
        Some(ChartKind::Bar)
    } else if str_eq(l, "line") {
        Some(ChartKind::Line)
    } else if str_eq(l, "pie") {
        Some(ChartKind::Pie)
    } else {
        None
    }
}

/// Creates a bar, line or pie chart of `point_count` data points as SVG.
/// Refuses an empty data set (`data`) and an unknown chart type
/// (`chart_type`, compared without regard to case); otherwise the chart
/// document is what the builder produces.
pub fn create_chart(
    chart_type: &str,
    title: Option<&str>,
    point_count: usize,
    width: u32,
    height: u32,
) -> (r: Result<String, OpenMediaError>)
    ensures
        point_count == 0 ==> (r matches Err(OpenMediaError::InvalidParameter { param, reason })
            && param@ == "data"@ && reason@ == "Chart data cannot be empty"@),
        point_count > 0 && chart_kind_named(lowercase(chart_type@)) is Some ==> (r matches Ok(s)
            && s@ == built_svg()),
        point_count > 0 && chart_kind_named(lowercase(chart_type@)) is None ==> (r matches Err(
            OpenMediaError::InvalidParameter { param, reason },
        ) && param@ == "chart_type"@ && reason@ == "Unsupported chart type: "@ + lowercase(
            chart_type@,
        )),
{
    if point_count == 0 {
        return Err(
            OpenMediaError::InvalidParameter {
                param: String::from_str("data"),
                reason: String::from_str("Chart data cannot be empty"),
            },
        );
    }
    let builder = SvgBuilder::new(width, height);
    let l = to_lowercase(chart_type);
    match chart_kind_from_lowercase(l.as_str()) {
        Some(_) => Ok(builder.build()),
        None => {
            let mut reason = String::from_str("Unsupported chart type: ");
            push_str(&mut reason, l.as_str());
            Err(OpenMediaError::InvalidParameter { param: String::from_str("chart_type"), reason })
        },
    }
}

/// The chart type drawn for a scene's chart element named `name`: line
/// and pie charts by name, a bar chart for any other name.
pub open spec fn scene_chart_type_named(l: Seq<char>) -> ChartType {
    match chart_kind_named(l) {
        Some(ChartKind::Line) => ChartType::Line,
        Some(ChartKind::Pie) => ChartType::Pie,
        _ => ChartType::Bar,
    }
}

/// The chart type of a scene's chart element, its name compared without
/// regard to case.
pub fn scene_chart_type(name: &str) -> (r: ChartType)
    ensures
        r == scene_chart_type_named(lowercase(name@)),
{
    match parse_chart_kind(name) {
        Some(ChartKind::Line) => ChartType::Line,
        Some(ChartKind::Pie) => ChartType::Pie,
        _ => ChartType::Bar,
    }
}

} // verus!
