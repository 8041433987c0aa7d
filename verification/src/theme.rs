//! The sci-fi HUD look: one style sheet, parsed once, and named accessors
//! for every element the interface draws.

use vstd::prelude::*;
use ratatui_style::{ComputedStyle, CssError, OwnedNode, Stylesheet};

verus! {

/// Neon palette and element rules. Borders carry their color in the
/// shorthand (`border: double var(--cyan)`) so that frames are painted neon.
pub const SCIFI_CSS: &'static str = r#"
:root {
    --cyan:    #56f0ff;
    --magenta: #ff4fd8;
    --green:   #5dffb0;
    --amber:   #ffb454;
    --red:     #ff5c6e;
    --bg:      #04111a;
    --panel:   #07222e;
    --dim:     #2a6a7a;
    --track:   #0a1a24;
    --selbg:   #2a0f24;
    --text:    #b8f2ff;
}

/* Full-screen space background. */
Root          { background: var(--bg); }

/* Header band + live status. */
Header        { color: var(--cyan); background: var(--panel); font-weight: bold; }
Subtitle      { color: var(--dim); }
Status        { color: var(--green); font-weight: bold; }
Status.warn   { color: var(--amber); }
Status.alert  { color: var(--magenta); }

/* Framed panels: main = cyan double-line, default = dim double-line. */
Panel         { color: var(--cyan); border: double var(--dim); }
Panel.main    { color: var(--cyan); border: double var(--cyan); }

/* Telemetry label / value pairs. */
Label         { color: var(--dim); }
Value         { color: var(--text); }
Value.ok      { color: var(--green); }
Value.warn    { color: var(--amber); }
Value.alert   { color: var(--magenta); }

/* Block-bar + gauge fill (background = dark track). */
Bar           { color: var(--green);  background: var(--track); }
Bar.warn      { color: var(--amber); }
Bar.alert     { color: var(--magenta); }
BarEmpty      { color: var(--dim); }

/* Process table. */
ThCell        { color: var(--cyan); font-weight: bold; }
Row           { color: var(--text); }
Row.selected  { color: var(--magenta); background: var(--selbg); font-weight: bold; }

/* Footer / help / dialogs. */
Key           { color: var(--cyan); font-weight: bold; }
Hint          { color: var(--dim); }
Footer        { color: var(--dim); border: rounded var(--dim); }
Confirm       { color: var(--amber); font-weight: bold; }
Msg           { color: var(--text); background: var(--panel); border: double var(--cyan); }
"#;

/// Memory pressure, shown through the `ok` / `warn` / `alert` classes.
#[derive(Clone, Copy, PartialEq, Eq, Structural, Debug)]
pub enum LoadLevel {
    Normal,
    Warn,
    Alert,
}

/// The class name that marks a pressure level.
pub open spec fn level_class(level: LoadLevel) -> Seq<char> {
    match level {
        LoadLevel::Normal => "ok"@,
        LoadLevel::Warn => "warn"@,
        LoadLevel::Alert => "alert"@,
    }
}

impl LoadLevel {
    /// The class name that marks this level.
    pub fn class(self) -> (r: &'static str)
        ensures
            r@ == level_class(self),
    {
        match self {
            LoadLevel::Normal => "ok",
            LoadLevel::Warn => "warn",
            LoadLevel::Alert => "alert",
        }
    }
}

/// Makes `ratatui_style::Stylesheet` known to the verifier, as an opaque value.
#[verifier::external_type_specification]
#[verifier::external_body]
pub struct ExStylesheet(Stylesheet);

/// Makes `ratatui_style::ComputedStyle` known to the verifier, as an opaque value.
#[verifier::external_type_specification]
#[verifier::external_body]
pub struct ExComputedStyle(ComputedStyle);

/// Makes `ratatui_style::CssError` known to the verifier, as an opaque value.
#[verifier::external_type_specification]
#[verifier::external_body]
pub struct ExCssError(CssError);

/// Whether `Stylesheet::parse` accepts the CSS text `css`.
pub uninterp spec fn css_parses(css: Seq<char>) -> bool;

/// The error `Stylesheet::parse` reports for the CSS text `css`, when it
/// does not accept it.
pub uninterp spec fn css_error(css: Seq<char>) -> CssError;

/// The style that a sheet parsed from the CSS text `css` computes for an
/// element of type `element` carrying the class `class` (if any), with no
/// parent to inherit from.
pub uninterp spec fn css_style(
    css: Seq<char>,
    element: Seq<char>,
    class: Option<Seq<char>>,
) -> ComputedStyle;

/// What `Stylesheet::compute` gives on the sheet `sheet` for an element of
/// type `element` carrying the class `class` (if any), with no parent.
pub uninterp spec fn computed_style(
    sheet: Stylesheet,
    element: Seq<char>,
    class: Option<Seq<char>>,
) -> ComputedStyle;

/// Calls `Stylesheet::parse` on the sci-fi sheet (other texts are not
/// admitted: some malformed colours make the parser panic). Claimed: the
/// outcome depends on the text alone; on success the sheet computes, for
/// every element and class, the style named `css_style` for that text, and
/// on failure the error is the one named `css_error`. The parsed sheet
/// itself is not claimed equal to anything: it holds a randomly seeded
/// token table.
#[verifier::external_body]
fn parse_stylesheet(css: &str) -> (r: Result<Stylesheet, CssError>)
    requires
        css@ == SCIFI_CSS@,
    ensures
        r is Ok <==> css_parses(css@),
        r matches Ok(sheet) ==> forall|element: Seq<char>, class: Option<Seq<char>>|
            #[trigger] computed_style(sheet, element, class) == css_style(css@, element, class),
        r matches Err(e) ==> e == css_error(css@),
{
    Stylesheet::parse(css)
}

/// The view of an optional class name.
pub open spec fn class_view(class: Option<&str>) -> Option<Seq<char>> {
    match class {
        Some(c) => Some(c@),
        None => None,
    }
}

/// Calls `Stylesheet::compute` on an `OwnedNode` of type `element` with
/// the one class `class` (or none), without a parent. Claimed: the computed
/// style depends on the sheet, the element type and the class alone, and
/// is named `computed_style`; nothing is said of the style's contents.
#[verifier::external_body]
fn compute_style(sheet: &Stylesheet, element: &str, class: Option<&str>) -> (r: ComputedStyle)
    ensures
        r == computed_style(*sheet, element@, class_view(class)),
{
    sheet.compute(&OwnedNode::new(element).with_classes(class), None)
}

/// Why the theme could not be built.
#[derive(Debug)]
pub enum ThemeError {
    /// The style sheet did not parse.
    Css(CssError),
}

/// The style the sci-fi sheet gives an element of type `element` with
/// class `class`.
pub open spec fn scifi_style(element: Seq<char>, class: Option<Seq<char>>) -> ComputedStyle {
    css_style(SCIFI_CSS@, element, class)
}

/// The parsed sci-fi style sheet behind the named accessors.
pub struct Theme {
    sheet: Stylesheet,
}

impl Theme {
    /// The sheet computes the sci-fi styles.
    #[verifier::type_invariant]
    spec fn holds_scifi_sheet(self) -> bool {
        forall|element: Seq<char>, class: Option<Seq<char>>|
            #[trigger] computed_style(self.sheet, element, class) == scifi_style(element, class)
    }

    /// The style this theme's sheet computes for an element of type
    /// `element` with class `class`.
    pub closed spec fn styled(&self, element: Seq<char>, class: Option<Seq<char>>) -> ComputedStyle {
        computed_style(self.sheet, element, class)
    }

    /// Parses the sci-fi style sheet.
    pub fn new() -> (r: Result<Theme, ThemeError>)
        ensures
            r is Ok <==> css_parses(SCIFI_CSS@),
            r matches Ok(t) ==> forall|element: Seq<char>, class: Option<Seq<char>>|
                #[trigger] t.styled(element, class) == scifi_style(element, class),
            r matches Err(ThemeError::Css(e)) ==> e == css_error(SCIFI_CSS@),
    {
        match parse_stylesheet(SCIFI_CSS) {
            Ok(sheet) => {
                let t = Theme { sheet };
                assert forall|element: Seq<char>, class: Option<Seq<char>>|
                    #[trigger] t.styled(element, class) == scifi_style(element, class) by {
                    assert(computed_style(t.sheet, element, class) == css_style(SCIFI_CSS@, element, class));
                }
                Ok(t)
            },
            Err(e) => Err(ThemeError::Css(e)),
        }
    }

    fn compute(&self, element: &str, class: Option<&str>) -> (r: ComputedStyle)
        ensures
            r == scifi_style(element@, class_view(class)),
    {
        proof {
            use_type_invariant(self);
        }
        compute_style(&self.sheet, element, class)
    }

    /// Full-screen background.
    pub fn root(&self) -> (r: ComputedStyle)
        ensures
            r == scifi_style("Root"@, None),
    {
        self.compute("Root", None)
    }

    /// Header band.
    pub fn header(&self) -> (r: ComputedStyle)
        ensures
            r == scifi_style("Header"@, None),
    {
        self.compute("Header", None)
    }

    pub fn subtitle(&self) -> (r: ComputedStyle)
        ensures
            r == scifi_style("Subtitle"@, None),
    {
        self.compute("Subtitle", None)
    }

    /// Live status line: plain when normal, `warn` / `alert` otherwise.
    pub fn status(&self, level: LoadLevel) -> (r: ComputedStyle)
        ensures
            r == scifi_style(
                "Status"@,
                match level {
                    LoadLevel::Normal => None,
                    LoadLevel::Warn => Some("warn"@),
                    LoadLevel::Alert => Some("alert"@),
                },
            ),
    {
        let cls = match level {
            LoadLevel::Normal => None,
            LoadLevel::Warn => Some("warn"),
            LoadLevel::Alert => Some("alert"),
        };
        self.compute("Status", cls)
    }

    /// Framed panel: the main one (class `main`) or a secondary one.
    pub fn panel(&self, main: bool) -> (r: ComputedStyle)
        ensures
            r == scifi_style(
                "Panel"@,
                if main {
                    Some("main"@)
                } else {
                    None
                },
            ),
    {
        let cls = if main {
            Some("main")
        } else {
            None
        };
        self.compute("Panel", cls)
    }

    pub fn label(&self) -> (r: ComputedStyle)
        ensures
            r == scifi_style("Label"@, None),
    {
        self.compute("Label", None)
    }

    pub fn value_plain(&self) -> (r: ComputedStyle)
        ensures
            r == scifi_style("Value"@, None),
    {
        self.compute("Value", None)
    }

    /// A telemetry value coloured by pressure level.
    pub fn value(&self, level: LoadLevel) -> (r: ComputedStyle)
        ensures
            r == scifi_style("Value"@, Some(level_class(level))),
    {
        self.compute("Value", Some(level.class()))
    }

    /// The filled part of a gauge bar, coloured by pressure level.
    pub fn bar(&self, level: LoadLevel) -> (r: ComputedStyle)
        ensures
            r == scifi_style("Bar"@, Some(level_class(level))),
    {
        self.compute("Bar", Some(level.class()))
    }

    pub fn bar_empty(&self) -> (r: ComputedStyle)
        ensures
            r == scifi_style("BarEmpty"@, None),
    {
        self.compute("BarEmpty", None)
    }

    /// Process table header cell.
    pub fn th_cell(&self) -> (r: ComputedStyle)
        ensures
            r == scifi_style("ThCell"@, None),
    {
        self.compute("ThCell", None)
    }

    /// Process table row, highlighted (class `selected`) when selected.
    pub fn row(&self, selected: bool) -> (r: ComputedStyle)
        ensures
            r == scifi_style(
                "Row"@,
                if selected {
                    Some("selected"@)
                } else {
                    None
                },
            ),
    {
        let cls = if selected {
            Some("selected")
        } else {
            None
        };
        self.compute("Row", cls)
    }

    pub fn key(&self) -> (r: ComputedStyle)
        ensures
            r == scifi_style("Key"@, None),
    {
        self.compute("Key", None)
    }

    pub fn hint(&self) -> (r: ComputedStyle)
        ensures
            r == scifi_style("Hint"@, None),
    {
        self.compute("Hint", None)
    }

    pub fn footer(&self) -> (r: ComputedStyle)
        ensures
            r == scifi_style("Footer"@, None),
    {
        self.compute("Footer", None)
    }

    pub fn confirm(&self) -> (r: ComputedStyle)
        ensures
            r == scifi_style("Confirm"@, None),
    {
        self.compute("Confirm", None)
    }

    pub fn msg(&self) -> (r: ComputedStyle)
        ensures
            r == scifi_style("Msg"@, None),
    {
        self.compute("Msg", None)
    }
}

} // verus!
