//! The vocabulary of Jupyter kernel messages: MIME types of rich output
//! and the contents of the messages exchanged with a kernel.
use std::collections::HashMap;
use vstd::hash_map::StringHashMap;
use vstd::prelude::*;

verus! {

/// The kind of data in a rich output bundle.
#[derive(Clone, Copy, Debug, PartialEq, Eq, Structural, Hash)]
pub enum MimeType {
    /// Plain text.
    Plain,
    /// HTML.
    Html,
    /// LaTeX.
    Latex,
    /// Raw JavaScript code.
    Javascript,
    /// Markdown text.
    Markdown,
    /// SVG image text.
    Svg,
    /// PNG image data.
    Png,
    /// JPEG image data.
    Jpeg,
    /// GIF image data.
    Gif,
    /// A raw JSON object.
    Json,
    /// GeoJSON data.
    GeoJson,
    /// A data table in JSON, with `data` and `schema`.
    DataTable,
    /// A Plotly JSON chart.
    Plotly,
    /// A Jupyter widget view.
    WidgetView,
    /// A Jupyter widget state.
    WidgetState,
    /// Vega-Lite 2 data.
    VegaLiteV2,
    /// Vega-Lite 3 data.
    VegaLiteV3,
    /// Vega-Lite 4 data.
    VegaLiteV4,
    /// Vega-Lite 5 data.
    VegaLiteV5,
    /// Vega-Lite 6 data.
    VegaLiteV6,
    /// Vega 3 data.
    VegaV3,
    /// Vega 4 data.
    VegaV4,
    /// Vega 5 data.
    VegaV5,
    /// Virtual DOM (nteract/vdom) data.
    Vdom,
    /// Any other kind.
    Other,
}

/// The MIME type that the name `s` denotes; unknown names give `Other`.
pub open spec fn spec_mime_type(s: Seq<char>) -> MimeType {
    if s == "text/plain"@ {
        MimeType::Plain
    } else if s == "text/html"@ {
        MimeType::Html
    } else if s == "text/latex"@ {
        MimeType::Latex
    } else if s == "application/javascript"@ {
        MimeType::Javascript
    } else if s == "text/markdown"@ {
        MimeType::Markdown
    } else if s == "image/svg+xml"@ {
        MimeType::Svg
    } else if s == "image/png"@ {
        MimeType::Png
    } else if s == "image/jpeg"@ {
        MimeType::Jpeg
    } else if s == "image/gif"@ {
        MimeType::Gif
    } else if s == "application/json"@ {
        MimeType::Json
    } else if s == "application/geo+json"@ {
        MimeType::GeoJson
    } else if s == "application/vnd.dataresource+json"@ {
        MimeType::DataTable
    } else if s == "application/vnd.plotly.v1+json"@ {
        MimeType::Plotly
    } else if s == "application/vnd.jupyter.widget-view+json"@ {
        MimeType::WidgetView
    } else if s == "application/vnd.jupyter.widget-state+json"@ {
        MimeType::WidgetState
    } else if s == "application/vnd.vegalite.v2+json"@ {
        MimeType::VegaLiteV2
    } else if s == "application/vnd.vegalite.v3+json"@ {
        MimeType::VegaLiteV3
    } else if s == "application/vnd.vegalite.v4+json"@ {
        MimeType::VegaLiteV4
    } else if s == "application/vnd.vegalite.v5+json"@ {
        MimeType::VegaLiteV5
    } else if s == "application/vnd.vegalite.v6+json"@ {
        MimeType::VegaLiteV6
    } else if s == "application/vnd.vega.v3+json"@ {
        MimeType::VegaV3
    } else if s == "application/vnd.vega.v4+json"@ {
        MimeType::VegaV4
    } else if s == "application/vnd.vega.v5+json"@ {
        MimeType::VegaV5
    } else if s == "application/vdom.v1+json"@ {
        MimeType::Vdom
    } else {
        MimeType::Other
    }
}

/// The name under which a MIME type is written in kernel messages.
pub open spec fn spec_mime_name(m: MimeType) -> Seq<char> {
    match m {
        MimeType::Plain => "text/plain"@,
        MimeType::Html => "text/html"@,
        MimeType::Latex => "text/latex"@,
        MimeType::Javascript => "application/javascript"@,
        MimeType::Markdown => "text/markdown"@,
        MimeType::Svg => "image/svg+xml"@,
        MimeType::Png => "image/png"@,
        MimeType::Jpeg => "image/jpeg"@,
        MimeType::Gif => "image/gif"@,
        MimeType::Json => "application/json"@,
        MimeType::GeoJson => "application/geo+json"@,
        MimeType::DataTable => "application/vnd.dataresource+json"@,
        MimeType::Plotly => "application/vnd.plotly.v1+json"@,
        MimeType::WidgetView => "application/vnd.jupyter.widget-view+json"@,
        MimeType::WidgetState => "application/vnd.jupyter.widget-state+json"@,
        MimeType::VegaLiteV2 => "application/vnd.vegalite.v2+json"@,
        MimeType::VegaLiteV3 => "application/vnd.vegalite.v3+json"@,
        MimeType::VegaLiteV4 => "application/vnd.vegalite.v4+json"@,
        MimeType::VegaLiteV5 => "application/vnd.vegalite.v5+json"@,
        MimeType::VegaLiteV6 => "application/vnd.vegalite.v6+json"@,
        MimeType::VegaV3 => "application/vnd.vega.v3+json"@,
        MimeType::VegaV4 => "application/vnd.vega.v4+json"@,
        MimeType::VegaV5 => "application/vnd.vega.v5+json"@,
        MimeType::Vdom => "application/vdom.v1+json"@,
        MimeType::Other => "application/vnd.runtimelib.unknown"@,
    }
}

impl MimeType {
    /// The MIME type that the name `s` denotes; unknown names give `Other`.
    pub fn from_name(s: &String) -> (m: MimeType)
        ensures
            m == spec_mime_type(s@),
    {
        if *s == String::from_str("text/plain") {
            MimeType::Plain
        } else if *s == String::from_str("text/html") {
            MimeType::Html
        } else if *s == String::from_str("text/latex") {
            MimeType::Latex
        } else if *s == String::from_str("application/javascript") {
            MimeType::Javascript
        } else if *s == String::from_str("text/markdown") {
            MimeType::Markdown
        } else if *s == String::from_str("image/svg+xml") {
            MimeType::Svg
        } else if *s == String::from_str("image/png") {
            MimeType::Png
        } else if *s == String::from_str("image/jpeg") {
            MimeType::Jpeg
        } else if *s == String::from_str("image/gif") {
            MimeType::Gif
        } else if *s == String::from_str("application/json") {
            MimeType::Json
        } else if *s == String::from_str("application/geo+json") {
            MimeType::GeoJson
        } else if *s == String::from_str("application/vnd.dataresource+json") {
            MimeType::DataTable
        } else if *s == String::from_str("application/vnd.plotly.v1+json") {
            MimeType::Plotly
        } else if *s == String::from_str("application/vnd.jupyter.widget-view+json") {
            MimeType::WidgetView
        } else if *s == String::from_str("application/vnd.jupyter.widget-state+json") {
            MimeType::WidgetState
        } else if *s == String::from_str("application/vnd.vegalite.v2+json") {
            MimeType::VegaLiteV2
        } else if *s == String::from_str("application/vnd.vegalite.v3+json") {
            MimeType::VegaLiteV3
        } else if *s == String::from_str("application/vnd.vegalite.v4+json") {
            MimeType::VegaLiteV4
        } else if *s == String::from_str("application/vnd.vegalite.v5+json") {
            MimeType::VegaLiteV5
        } else if *s == String::from_str("application/vnd.vegalite.v6+json") {
            MimeType::VegaLiteV6
        } else if *s == String::from_str("application/vnd.vega.v3+json") {
            MimeType::VegaV3
        } else if *s == String::from_str("application/vnd.vega.v4+json") {
            MimeType::VegaV4
        } else if *s == String::from_str("application/vnd.vega.v5+json") {
            MimeType::VegaV5
        } else if *s == String::from_str("application/vdom.v1+json") {
            MimeType::Vdom
        } else {
            MimeType::Other
        }
    }

    /// The name under which this MIME type is written in kernel messages.
    pub fn name(&self) -> (s: &'static str)
        ensures
            s@ == spec_mime_name(*self),
    {
        match self {
            MimeType::Plain => "text/plain",
            MimeType::Html => "text/html",
            MimeType::Latex => "text/latex",
            MimeType::Javascript => "application/javascript",
            MimeType::Markdown => "text/markdown",
            MimeType::Svg => "image/svg+xml",
            MimeType::Png => "image/png",
            MimeType::Jpeg => "image/jpeg",
            MimeType::Gif => "image/gif",
            MimeType::Json => "application/json",
            MimeType::GeoJson => "application/geo+json",
            MimeType::DataTable => "application/vnd.dataresource+json",
            MimeType::Plotly => "application/vnd.plotly.v1+json",
            MimeType::WidgetView => "application/vnd.jupyter.widget-view+json",
            MimeType::WidgetState => "application/vnd.jupyter.widget-state+json",
            MimeType::VegaLiteV2 => "application/vnd.vegalite.v2+json",
            MimeType::VegaLiteV3 => "application/vnd.vegalite.v3+json",
            MimeType::VegaLiteV4 => "application/vnd.vegalite.v4+json",
            MimeType::VegaLiteV5 => "application/vnd.vegalite.v5+json",
            MimeType::VegaLiteV6 => "application/vnd.vegalite.v6+json",
            MimeType::VegaV3 => "application/vnd.vega.v3+json",
            MimeType::VegaV4 => "application/vnd.vega.v4+json",
            MimeType::VegaV5 => "application/vnd.vega.v5+json",
            MimeType::Vdom => "application/vdom.v1+json",
            MimeType::Other => "application/vnd.runtimelib.unknown",
        }
    }
}

/// Each MIME type is written under its registered media type name, and
/// reading that name back gives the same type: `image/png` is PNG data,
/// `image/jpeg` JPEG data, `text/plain` plain text, and so on.
pub proof fn lemma_registered_mime_names()
    ensures
        spec_mime_name(MimeType::Plain) == "text/plain"@,
        spec_mime_type("text/plain"@) == MimeType::Plain,
        spec_mime_name(MimeType::Html) == "text/html"@,
        spec_mime_type("text/html"@) == MimeType::Html,
        spec_mime_name(MimeType::Latex) == "text/latex"@,
        spec_mime_type("text/latex"@) == MimeType::Latex,
        spec_mime_name(MimeType::Javascript) == "application/javascript"@,
        spec_mime_type("application/javascript"@) == MimeType::Javascript,
        spec_mime_name(MimeType::Markdown) == "text/markdown"@,
        spec_mime_type("text/markdown"@) == MimeType::Markdown,
        spec_mime_name(MimeType::Svg) == "image/svg+xml"@,
        spec_mime_type("image/svg+xml"@) == MimeType::Svg,
        spec_mime_name(MimeType::Png) == "image/png"@,
        spec_mime_type("image/png"@) == MimeType::Png,
        spec_mime_name(MimeType::Jpeg) == "image/jpeg"@,
        spec_mime_type("image/jpeg"@) == MimeType::Jpeg,
        spec_mime_name(MimeType::Gif) == "image/gif"@,
        spec_mime_type("image/gif"@) == MimeType::Gif,
        spec_mime_name(MimeType::Json) == "application/json"@,
        spec_mime_type("application/json"@) == MimeType::Json,
        spec_mime_name(MimeType::GeoJson) == "application/geo+json"@,
        spec_mime_type("application/geo+json"@) == MimeType::GeoJson,
        spec_mime_name(MimeType::DataTable) == "application/vnd.dataresource+json"@,
        spec_mime_type("application/vnd.dataresource+json"@) == MimeType::DataTable,
        spec_mime_name(MimeType::Plotly) == "application/vnd.plotly.v1+json"@,
        spec_mime_type("application/vnd.plotly.v1+json"@) == MimeType::Plotly,
        spec_mime_name(MimeType::WidgetView) == "application/vnd.jupyter.widget-view+json"@,
        spec_mime_type("application/vnd.jupyter.widget-view+json"@) == MimeType::WidgetView,
        spec_mime_name(MimeType::WidgetState) == "application/vnd.jupyter.widget-state+json"@,
        spec_mime_type("application/vnd.jupyter.widget-state+json"@) == MimeType::WidgetState,
        spec_mime_name(MimeType::VegaLiteV2) == "application/vnd.vegalite.v2+json"@,
        spec_mime_type("application/vnd.vegalite.v2+json"@) == MimeType::VegaLiteV2,
        spec_mime_name(MimeType::VegaLiteV3) == "application/vnd.vegalite.v3+json"@,
        spec_mime_type("application/vnd.vegalite.v3+json"@) == MimeType::VegaLiteV3,
        spec_mime_name(MimeType::VegaLiteV4) == "application/vnd.vegalite.v4+json"@,
        spec_mime_type("application/vnd.vegalite.v4+json"@) == MimeType::VegaLiteV4,
        spec_mime_name(MimeType::VegaLiteV5) == "application/vnd.vegalite.v5+json"@,
        spec_mime_type("application/vnd.vegalite.v5+json"@) == MimeType::VegaLiteV5,
        spec_mime_name(MimeType::VegaLiteV6) == "application/vnd.vegalite.v6+json"@,
        spec_mime_type("application/vnd.vegalite.v6+json"@) == MimeType::VegaLiteV6,
        spec_mime_name(MimeType::VegaV3) == "application/vnd.vega.v3+json"@,
        spec_mime_type("application/vnd.vega.v3+json"@) == MimeType::VegaV3,
        spec_mime_name(MimeType::VegaV4) == "application/vnd.vega.v4+json"@,
        spec_mime_type("application/vnd.vega.v4+json"@) == MimeType::VegaV4,
        spec_mime_name(MimeType::VegaV5) == "application/vnd.vega.v5+json"@,
        spec_mime_type("application/vnd.vega.v5+json"@) == MimeType::VegaV5,
        spec_mime_name(MimeType::Vdom) == "application/vdom.v1+json"@,
        spec_mime_type("application/vdom.v1+json"@) == MimeType::Vdom,
{
    lemma_mime_name_round_trip(MimeType::Plain);
    lemma_mime_name_round_trip(MimeType::Html);
    lemma_mime_name_round_trip(MimeType::Latex);
    lemma_mime_name_round_trip(MimeType::Javascript);
    lemma_mime_name_round_trip(MimeType::Markdown);
    lemma_mime_name_round_trip(MimeType::Svg);
    lemma_mime_name_round_trip(MimeType::Png);
    lemma_mime_name_round_trip(MimeType::Jpeg);
    lemma_mime_name_round_trip(MimeType::Gif);
    lemma_mime_name_round_trip(MimeType::Json);
    lemma_mime_name_round_trip(MimeType::GeoJson);
    lemma_mime_name_round_trip(MimeType::DataTable);
    lemma_mime_name_round_trip(MimeType::Plotly);
    lemma_mime_name_round_trip(MimeType::WidgetView);
    lemma_mime_name_round_trip(MimeType::WidgetState);
    lemma_mime_name_round_trip(MimeType::VegaLiteV2);
    lemma_mime_name_round_trip(MimeType::VegaLiteV3);
    lemma_mime_name_round_trip(MimeType::VegaLiteV4);
    lemma_mime_name_round_trip(MimeType::VegaLiteV5);
    lemma_mime_name_round_trip(MimeType::VegaLiteV6);
    lemma_mime_name_round_trip(MimeType::VegaV3);
    lemma_mime_name_round_trip(MimeType::VegaV4);
    lemma_mime_name_round_trip(MimeType::VegaV5);
    lemma_mime_name_round_trip(MimeType::Vdom);
}

/// Reading back the name of a MIME type gives that MIME type.
#[verifier::spinoff_prover]
#[verifier::rlimit(60)]
pub proof fn lemma_mime_name_round_trip(m: MimeType)
    ensures
        spec_mime_type(spec_mime_name(m)) == m,
{
    reveal_strlit("text/plain");
    reveal_strlit("text/html");
    reveal_strlit("text/latex");
    reveal_strlit("application/javascript");
    reveal_strlit("text/markdown");
    reveal_strlit("image/svg+xml");
    reveal_strlit("image/png");
    reveal_strlit("image/jpeg");
    reveal_strlit("image/gif");
    reveal_strlit("application/json");
    reveal_strlit("application/geo+json");
    reveal_strlit("application/vnd.dataresource+json");
    reveal_strlit("application/vnd.plotly.v1+json");
    reveal_strlit("application/vnd.jupyter.widget-view+json");
    reveal_strlit("application/vnd.jupyter.widget-state+json");
    reveal_strlit("application/vnd.vegalite.v2+json");
    reveal_strlit("application/vnd.vegalite.v3+json");
    reveal_strlit("application/vnd.vegalite.v4+json");
    reveal_strlit("application/vnd.vegalite.v5+json");
    reveal_strlit("application/vnd.vegalite.v6+json");
    reveal_strlit("application/vnd.vega.v3+json");
    reveal_strlit("application/vnd.vega.v4+json");
    reveal_strlit("application/vnd.vega.v5+json");
    reveal_strlit("application/vdom.v1+json");
    reveal_strlit("application/vnd.runtimelib.unknown");
    assert("text/plain"@.len() == 10);
    assert("text/html"@.len() == 9);
    assert("text/latex"@.len() == 10);
    assert("application/javascript"@.len() == 22);
    assert("text/markdown"@.len() == 13);
    assert("image/svg+xml"@.len() == 13);
    assert("image/png"@.len() == 9);
    assert("image/jpeg"@.len() == 10);
    assert("image/gif"@.len() == 9);
    assert("application/json"@.len() == 16);
    assert("application/geo+json"@.len() == 20);
    assert("application/vnd.dataresource+json"@.len() == 33);
    assert("application/vnd.plotly.v1+json"@.len() == 30);
    assert("application/vnd.jupyter.widget-view+json"@.len() == 40);
    assert("application/vnd.jupyter.widget-state+json"@.len() == 41);
    assert("application/vnd.vegalite.v2+json"@.len() == 32);
    assert("application/vnd.vegalite.v3+json"@.len() == 32);
    assert("application/vnd.vegalite.v4+json"@.len() == 32);
    assert("application/vnd.vegalite.v5+json"@.len() == 32);
    assert("application/vnd.vegalite.v6+json"@.len() == 32);
    assert("application/vnd.vega.v3+json"@.len() == 28);
    assert("application/vnd.vega.v4+json"@.len() == 28);
    assert("application/vnd.vega.v5+json"@.len() == 28);
    assert("application/vdom.v1+json"@.len() == 24);
    assert("application/vnd.runtimelib.unknown"@.len() == 34);
    match m {
        MimeType::Plain => {
            assert(spec_mime_type(spec_mime_name(m)) == MimeType::Plain);
        },
        MimeType::Html => {
            assert("text/html"@ != "text/plain"@);
            assert(spec_mime_type(spec_mime_name(m)) == MimeType::Html);
        },
        MimeType::Latex => {
            assert("text/latex"@[5] != "text/plain"@[5]);
            assert("text/latex"@ != "text/plain"@);
            assert("text/latex"@ != "text/html"@);
            assert(spec_mime_type(spec_mime_name(m)) == MimeType::Latex);
        },
        MimeType::Javascript => {
            assert("application/javascript"@ != "text/plain"@);
            assert("application/javascript"@ != "text/html"@);
            assert("application/javascript"@ != "text/latex"@);
            assert(spec_mime_type(spec_mime_name(m)) == MimeType::Javascript);
        },
        MimeType::Markdown => {
            assert("text/markdown"@ != "text/plain"@);
            assert("text/markdown"@ != "text/html"@);
            assert("text/markdown"@ != "text/latex"@);
            assert("text/markdown"@ != "application/javascript"@);
            assert(spec_mime_type(spec_mime_name(m)) == MimeType::Markdown);
        },
        MimeType::Svg => {
            assert("image/svg+xml"@ != "text/plain"@);
            assert("image/svg+xml"@ != "text/html"@);
            assert("image/svg+xml"@ != "text/latex"@);
            assert("image/svg+xml"@ != "application/javascript"@);
            assert("image/svg+xml"@[0] != "text/markdown"@[0]);
            assert("image/svg+xml"@ != "text/markdown"@);
            assert(spec_mime_type(spec_mime_name(m)) == MimeType::Svg);
        },
        MimeType::Png => {
            assert("image/png"@ != "text/plain"@);
            assert("image/png"@[0] != "text/html"@[0]);
            assert("image/png"@ != "text/html"@);
            assert("image/png"@ != "text/latex"@);
            assert("image/png"@ != "application/javascript"@);
            assert("image/png"@ != "text/markdown"@);
            assert("image/png"@ != "image/svg+xml"@);
            assert(spec_mime_type(spec_mime_name(m)) == MimeType::Png);
        },
        MimeType::Jpeg => {
            assert("image/jpeg"@[0] != "text/plain"@[0]);
            assert("image/jpeg"@ != "text/plain"@);
            assert("image/jpeg"@ != "text/html"@);
            assert("image/jpeg"@[0] != "text/latex"@[0]);
            assert("image/jpeg"@ != "text/latex"@);
            assert("image/jpeg"@ != "application/javascript"@);
            assert("image/jpeg"@ != "text/markdown"@);
            assert("image/jpeg"@ != "image/svg+xml"@);
            assert("image/jpeg"@ != "image/png"@);
            assert(spec_mime_type(spec_mime_name(m)) == MimeType::Jpeg);
        },
        MimeType::Gif => {
            assert("image/gif"@ != "text/plain"@);
            assert("image/gif"@[0] != "text/html"@[0]);
            assert("image/gif"@ != "text/html"@);
            assert("image/gif"@ != "text/latex"@);
            assert("image/gif"@ != "application/javascript"@);
            assert("image/gif"@ != "text/markdown"@);
            assert("image/gif"@ != "image/svg+xml"@);
            assert("image/gif"@[6] != "image/png"@[6]);
            assert("image/gif"@ != "image/png"@);
            assert("image/gif"@ != "image/jpeg"@);
            assert(spec_mime_type(spec_mime_name(m)) == MimeType::Gif);
        },
        MimeType::Json => {
            assert("application/json"@ != "text/plain"@);
            assert("application/json"@ != "text/html"@);
            assert("application/json"@ != "text/latex"@);
            assert("application/json"@ != "application/javascript"@);
            assert("application/json"@ != "text/markdown"@);
            assert("application/json"@ != "image/svg+xml"@);
            assert("application/json"@ != "image/png"@);
            assert("application/json"@ != "image/jpeg"@);
            assert("application/json"@ != "image/gif"@);
            assert(spec_mime_type(spec_mime_name(m)) == MimeType::Json);
        },
        MimeType::GeoJson => {
            assert("application/geo+json"@ != "text/plain"@);
            assert("application/geo+json"@ != "text/html"@);
            assert("application/geo+json"@ != "text/latex"@);
            assert("application/geo+json"@ != "application/javascript"@);
            assert("application/geo+json"@ != "text/markdown"@);
            assert("application/geo+json"@ != "image/svg+xml"@);
            assert("application/geo+json"@ != "image/png"@);
            assert("application/geo+json"@ != "image/jpeg"@);
            assert("application/geo+json"@ != "image/gif"@);
            assert("application/geo+json"@ != "application/json"@);
            assert(spec_mime_type(spec_mime_name(m)) == MimeType::GeoJson);
        },
        MimeType::DataTable => {
            assert("application/vnd.dataresource+json"@ != "text/plain"@);
            assert("application/vnd.dataresource+json"@ != "text/html"@);
            assert("application/vnd.dataresource+json"@ != "text/latex"@);
            assert("application/vnd.dataresource+json"@ != "application/javascript"@);
            assert("application/vnd.dataresource+json"@ != "text/markdown"@);
            assert("application/vnd.dataresource+json"@ != "image/svg+xml"@);
            assert("application/vnd.dataresource+json"@ != "image/png"@);
            assert("application/vnd.dataresource+json"@ != "image/jpeg"@);
            assert("application/vnd.dataresource+json"@ != "image/gif"@);
            assert("application/vnd.dataresource+json"@ != "application/json"@);
            assert("application/vnd.dataresource+json"@ != "application/geo+json"@);
            assert(spec_mime_type(spec_mime_name(m)) == MimeType::DataTable);
        },
        MimeType::Plotly => {
            assert("application/vnd.plotly.v1+json"@ != "text/plain"@);
            assert("application/vnd.plotly.v1+json"@ != "text/html"@);
            assert("application/vnd.plotly.v1+json"@ != "text/latex"@);
            assert("application/vnd.plotly.v1+json"@ != "application/javascript"@);
            assert("application/vnd.plotly.v1+json"@ != "text/markdown"@);
            assert("application/vnd.plotly.v1+json"@ != "image/svg+xml"@);
            assert("application/vnd.plotly.v1+json"@ != "image/png"@);
            assert("application/vnd.plotly.v1+json"@ != "image/jpeg"@);
            assert("application/vnd.plotly.v1+json"@ != "image/gif"@);
            assert("application/vnd.plotly.v1+json"@ != "application/json"@);
            assert("application/vnd.plotly.v1+json"@ != "application/geo+json"@);
            assert("application/vnd.plotly.v1+json"@ != "application/vnd.dataresource+json"@);
            assert(spec_mime_type(spec_mime_name(m)) == MimeType::Plotly);
        },
        MimeType::WidgetView => {
            assert("application/vnd.jupyter.widget-view+json"@ != "text/plain"@);
            assert("application/vnd.jupyter.widget-view+json"@ != "text/html"@);
            assert("application/vnd.jupyter.widget-view+json"@ != "text/latex"@);
            assert("application/vnd.jupyter.widget-view+json"@ != "application/javascript"@);
            assert("application/vnd.jupyter.widget-view+json"@ != "text/markdown"@);
            assert("application/vnd.jupyter.widget-view+json"@ != "image/svg+xml"@);
            assert("application/vnd.jupyter.widget-view+json"@ != "image/png"@);
            assert("application/vnd.jupyter.widget-view+json"@ != "image/jpeg"@);
            assert("application/vnd.jupyter.widget-view+json"@ != "image/gif"@);
            assert("application/vnd.jupyter.widget-view+json"@ != "application/json"@);
            assert("application/vnd.jupyter.widget-view+json"@ != "application/geo+json"@);
            assert("application/vnd.jupyter.widget-view+json"@ != "application/vnd.dataresource+json"@);
            assert("application/vnd.jupyter.widget-view+json"@ != "application/vnd.plotly.v1+json"@);
            assert(spec_mime_type(spec_mime_name(m)) == MimeType::WidgetView);
        },
        MimeType::WidgetState => {
            assert("application/vnd.jupyter.widget-state+json"@ != "text/plain"@);
            assert("application/vnd.jupyter.widget-state+json"@ != "text/html"@);
            assert("application/vnd.jupyter.widget-state+json"@ != "text/latex"@);
            assert("application/vnd.jupyter.widget-state+json"@ != "application/javascript"@);
            assert("application/vnd.jupyter.widget-state+json"@ != "text/markdown"@);
            assert("application/vnd.jupyter.widget-state+json"@ != "image/svg+xml"@);
            assert("application/vnd.jupyter.widget-state+json"@ != "image/png"@);
            assert("application/vnd.jupyter.widget-state+json"@ != "image/jpeg"@);
            assert("application/vnd.jupyter.widget-state+json"@ != "image/gif"@);
            assert("application/vnd.jupyter.widget-state+json"@ != "application/json"@);
            assert("application/vnd.jupyter.widget-state+json"@ != "application/geo+json"@);
            assert("application/vnd.jupyter.widget-state+json"@ != "application/vnd.dataresource+json"@);
            assert("application/vnd.jupyter.widget-state+json"@ != "application/vnd.plotly.v1+json"@);
            assert("application/vnd.jupyter.widget-state+json"@ != "application/vnd.jupyter.widget-view+json"@);
            assert(spec_mime_type(spec_mime_name(m)) == MimeType::WidgetState);
        },
        MimeType::VegaLiteV2 => {
            assert("application/vnd.vegalite.v2+json"@ != "text/plain"@);
            assert("application/vnd.vegalite.v2+json"@ != "text/html"@);
            assert("application/vnd.vegalite.v2+json"@ != "text/latex"@);
            assert("application/vnd.vegalite.v2+json"@ != "application/javascript"@);
            assert("application/vnd.vegalite.v2+json"@ != "text/markdown"@);
            assert("application/vnd.vegalite.v2+json"@ != "image/svg+xml"@);
            assert("application/vnd.vegalite.v2+json"@ != "image/png"@);
            assert("application/vnd.vegalite.v2+json"@ != "image/jpeg"@);
            assert("application/vnd.vegalite.v2+json"@ != "image/gif"@);
            assert("application/vnd.vegalite.v2+json"@ != "application/json"@);
            assert("application/vnd.vegalite.v2+json"@ != "application/geo+json"@);
            assert("application/vnd.vegalite.v2+json"@ != "application/vnd.dataresource+json"@);
            assert("application/vnd.vegalite.v2+json"@ != "application/vnd.plotly.v1+json"@);
            assert("application/vnd.vegalite.v2+json"@ != "application/vnd.jupyter.widget-view+json"@);
            assert("application/vnd.vegalite.v2+json"@ != "application/vnd.jupyter.widget-state+json"@);
            assert(spec_mime_type(spec_mime_name(m)) == MimeType::VegaLiteV2);
        },
        MimeType::VegaLiteV3 => {
            assert("application/vnd.vegalite.v3+json"@ != "text/plain"@);
            assert("application/vnd.vegalite.v3+json"@ != "text/html"@);
            assert("application/vnd.vegalite.v3+json"@ != "text/latex"@);
            assert("application/vnd.vegalite.v3+json"@ != "application/javascript"@);
            assert("application/vnd.vegalite.v3+json"@ != "text/markdown"@);
            assert("application/vnd.vegalite.v3+json"@ != "image/svg+xml"@);
            assert("application/vnd.vegalite.v3+json"@ != "image/png"@);
            assert("application/vnd.vegalite.v3+json"@ != "image/jpeg"@);
            assert("application/vnd.vegalite.v3+json"@ != "image/gif"@);
            assert("application/vnd.vegalite.v3+json"@ != "application/json"@);
            assert("application/vnd.vegalite.v3+json"@ != "application/geo+json"@);
            assert("application/vnd.vegalite.v3+json"@ != "application/vnd.dataresource+json"@);
            assert("application/vnd.vegalite.v3+json"@ != "application/vnd.plotly.v1+json"@);
            assert("application/vnd.vegalite.v3+json"@ != "application/vnd.jupyter.widget-view+json"@);
            assert("application/vnd.vegalite.v3+json"@ != "application/vnd.jupyter.widget-state+json"@);
            assert("application/vnd.vegalite.v3+json"@[26] != "application/vnd.vegalite.v2+json"@[26]);
            assert("application/vnd.vegalite.v3+json"@ != "application/vnd.vegalite.v2+json"@);
            assert(spec_mime_type(spec_mime_name(m)) == MimeType::VegaLiteV3);
        },
        MimeType::VegaLiteV4 => {
            assert("application/vnd.vegalite.v4+json"@ != "text/plain"@);
            assert("application/vnd.vegalite.v4+json"@ != "text/html"@);
            assert("application/vnd.vegalite.v4+json"@ != "text/latex"@);
            assert("application/vnd.vegalite.v4+json"@ != "application/javascript"@);
            assert("application/vnd.vegalite.v4+json"@ != "text/markdown"@);
            assert("application/vnd.vegalite.v4+json"@ != "image/svg+xml"@);
            assert("application/vnd.vegalite.v4+json"@ != "image/png"@);
            assert("application/vnd.vegalite.v4+json"@ != "image/jpeg"@);
            assert("application/vnd.vegalite.v4+json"@ != "image/gif"@);
            assert("application/vnd.vegalite.v4+json"@ != "application/json"@);
            assert("application/vnd.vegalite.v4+json"@ != "application/geo+json"@);
            assert("application/vnd.vegalite.v4+json"@ != "application/vnd.dataresource+json"@);
            assert("application/vnd.vegalite.v4+json"@ != "application/vnd.plotly.v1+json"@);
            assert("application/vnd.vegalite.v4+json"@ != "application/vnd.jupyter.widget-view+json"@);
            assert("application/vnd.vegalite.v4+json"@ != "application/vnd.jupyter.widget-state+json"@);
            assert("application/vnd.vegalite.v4+json"@[26] != "application/vnd.vegalite.v2+json"@[26]);
            assert("application/vnd.vegalite.v4+json"@ != "application/vnd.vegalite.v2+json"@);
            assert("application/vnd.vegalite.v4+json"@[26] != "application/vnd.vegalite.v3+json"@[26]);
            assert("application/vnd.vegalite.v4+json"@ != "application/vnd.vegalite.v3+json"@);
            assert(spec_mime_type(spec_mime_name(m)) == MimeType::VegaLiteV4);
        },
        MimeType::VegaLiteV5 => {
            assert("application/vnd.vegalite.v5+json"@ != "text/plain"@);
            assert("application/vnd.vegalite.v5+json"@ != "text/html"@);
            assert("application/vnd.vegalite.v5+json"@ != "text/latex"@);
            assert("application/vnd.vegalite.v5+json"@ != "application/javascript"@);
            assert("application/vnd.vegalite.v5+json"@ != "text/markdown"@);
            assert("application/vnd.vegalite.v5+json"@ != "image/svg+xml"@);
            assert("application/vnd.vegalite.v5+json"@ != "image/png"@);
            assert("application/vnd.vegalite.v5+json"@ != "image/jpeg"@);
            assert("application/vnd.vegalite.v5+json"@ != "image/gif"@);
            assert("application/vnd.vegalite.v5+json"@ != "application/json"@);
            assert("application/vnd.vegalite.v5+json"@ != "application/geo+json"@);
            assert("application/vnd.vegalite.v5+json"@ != "application/vnd.dataresource+json"@);
            assert("application/vnd.vegalite.v5+json"@ != "application/vnd.plotly.v1+json"@);
            assert("application/vnd.vegalite.v5+json"@ != "application/vnd.jupyter.widget-view+json"@);
            assert("application/vnd.vegalite.v5+json"@ != "application/vnd.jupyter.widget-state+json"@);
            assert("application/vnd.vegalite.v5+json"@[26] != "application/vnd.vegalite.v2+json"@[26]);
            assert("application/vnd.vegalite.v5+json"@ != "application/vnd.vegalite.v2+json"@);
            assert("application/vnd.vegalite.v5+json"@[26] != "application/vnd.vegalite.v3+json"@[26]);
            assert("application/vnd.vegalite.v5+json"@ != "application/vnd.vegalite.v3+json"@);
            assert("application/vnd.vegalite.v5+json"@[26] != "application/vnd.vegalite.v4+json"@[26]);
            assert("application/vnd.vegalite.v5+json"@ != "application/vnd.vegalite.v4+json"@);
            assert(spec_mime_type(spec_mime_name(m)) == MimeType::VegaLiteV5);
        },
        MimeType::VegaLiteV6 => {
            assert("application/vnd.vegalite.v6+json"@ != "text/plain"@);
            assert("application/vnd.vegalite.v6+json"@ != "text/html"@);
            assert("application/vnd.vegalite.v6+json"@ != "text/latex"@);
            assert("application/vnd.vegalite.v6+json"@ != "application/javascript"@);
            assert("application/vnd.vegalite.v6+json"@ != "text/markdown"@);
            assert("application/vnd.vegalite.v6+json"@ != "image/svg+xml"@);
            assert("application/vnd.vegalite.v6+json"@ != "image/png"@);
            assert("application/vnd.vegalite.v6+json"@ != "image/jpeg"@);
            assert("application/vnd.vegalite.v6+json"@ != "image/gif"@);
            assert("application/vnd.vegalite.v6+json"@ != "application/json"@);
            assert("application/vnd.vegalite.v6+json"@ != "application/geo+json"@);
            assert("application/vnd.vegalite.v6+json"@ != "application/vnd.dataresource+json"@);
            assert("application/vnd.vegalite.v6+json"@ != "application/vnd.plotly.v1+json"@);
            assert("application/vnd.vegalite.v6+json"@ != "application/vnd.jupyter.widget-view+json"@);
            assert("application/vnd.vegalite.v6+json"@ != "application/vnd.jupyter.widget-state+json"@);
            assert("application/vnd.vegalite.v6+json"@[26] != "application/vnd.vegalite.v2+json"@[26]);
            assert("application/vnd.vegalite.v6+json"@ != "application/vnd.vegalite.v2+json"@);
            assert("application/vnd.vegalite.v6+json"@[26] != "application/vnd.vegalite.v3+json"@[26]);
            assert("application/vnd.vegalite.v6+json"@ != "application/vnd.vegalite.v3+json"@);
            assert("application/vnd.vegalite.v6+json"@[26] != "application/vnd.vegalite.v4+json"@[26]);
            assert("application/vnd.vegalite.v6+json"@ != "application/vnd.vegalite.v4+json"@);
            assert("application/vnd.vegalite.v6+json"@[26] != "application/vnd.vegalite.v5+json"@[26]);
            assert("application/vnd.vegalite.v6+json"@ != "application/vnd.vegalite.v5+json"@);
            assert(spec_mime_type(spec_mime_name(m)) == MimeType::VegaLiteV6);
        },
        MimeType::VegaV3 => {
            assert("application/vnd.vega.v3+json"@ != "text/plain"@);
            assert("application/vnd.vega.v3+json"@ != "text/html"@);
            assert("application/vnd.vega.v3+json"@ != "text/latex"@);
            assert("application/vnd.vega.v3+json"@ != "application/javascript"@);
            assert("application/vnd.vega.v3+json"@ != "text/markdown"@);
            assert("application/vnd.vega.v3+json"@ != "image/svg+xml"@);
            assert("application/vnd.vega.v3+json"@ != "image/png"@);
            assert("application/vnd.vega.v3+json"@ != "image/jpeg"@);
            assert("application/vnd.vega.v3+json"@ != "image/gif"@);
            assert("application/vnd.vega.v3+json"@ != "application/json"@);
            assert("application/vnd.vega.v3+json"@ != "application/geo+json"@);
            assert("application/vnd.vega.v3+json"@ != "application/vnd.dataresource+json"@);
            assert("application/vnd.vega.v3+json"@ != "application/vnd.plotly.v1+json"@);
            assert("application/vnd.vega.v3+json"@ != "application/vnd.jupyter.widget-view+json"@);
            assert("application/vnd.vega.v3+json"@ != "application/vnd.jupyter.widget-state+json"@);
            assert("application/vnd.vega.v3+json"@ != "application/vnd.vegalite.v2+json"@);
            assert("application/vnd.vega.v3+json"@ != "application/vnd.vegalite.v3+json"@);
            assert("application/vnd.vega.v3+json"@ != "application/vnd.vegalite.v4+json"@);
            assert("application/vnd.vega.v3+json"@ != "application/vnd.vegalite.v5+json"@);
            assert("application/vnd.vega.v3+json"@ != "application/vnd.vegalite.v6+json"@);
            assert(spec_mime_type(spec_mime_name(m)) == MimeType::VegaV3);
        },
        MimeType::VegaV4 => {
            assert("application/vnd.vega.v4+json"@ != "text/plain"@);
            assert("application/vnd.vega.v4+json"@ != "text/html"@);
            assert("application/vnd.vega.v4+json"@ != "text/latex"@);
            assert("application/vnd.vega.v4+json"@ != "application/javascript"@);
            assert("application/vnd.vega.v4+json"@ != "text/markdown"@);
            assert("application/vnd.vega.v4+json"@ != "image/svg+xml"@);
            assert("application/vnd.vega.v4+json"@ != "image/png"@);
            assert("application/vnd.vega.v4+json"@ != "image/jpeg"@);
            assert("application/vnd.vega.v4+json"@ != "image/gif"@);
            assert("application/vnd.vega.v4+json"@ != "application/json"@);
            assert("application/vnd.vega.v4+json"@ != "application/geo+json"@);
            assert("application/vnd.vega.v4+json"@ != "application/vnd.dataresource+json"@);
            assert("application/vnd.vega.v4+json"@ != "application/vnd.plotly.v1+json"@);
            assert("application/vnd.vega.v4+json"@ != "application/vnd.jupyter.widget-view+json"@);
            assert("application/vnd.vega.v4+json"@ != "application/vnd.jupyter.widget-state+json"@);
            assert("application/vnd.vega.v4+json"@ != "application/vnd.vegalite.v2+json"@);
            assert("application/vnd.vega.v4+json"@ != "application/vnd.vegalite.v3+json"@);
            assert("application/vnd.vega.v4+json"@ != "application/vnd.vegalite.v4+json"@);
            assert("application/vnd.vega.v4+json"@ != "application/vnd.vegalite.v5+json"@);
            assert("application/vnd.vega.v4+json"@ != "application/vnd.vegalite.v6+json"@);
            assert("application/vnd.vega.v4+json"@[22] != "application/vnd.vega.v3+json"@[22]);
            assert("application/vnd.vega.v4+json"@ != "application/vnd.vega.v3+json"@);
            assert(spec_mime_type(spec_mime_name(m)) == MimeType::VegaV4);
        },
        MimeType::VegaV5 => {
            assert("application/vnd.vega.v5+json"@ != "text/plain"@);
            assert("application/vnd.vega.v5+json"@ != "text/html"@);
            assert("application/vnd.vega.v5+json"@ != "text/latex"@);
            assert("application/vnd.vega.v5+json"@ != "application/javascript"@);
            assert("application/vnd.vega.v5+json"@ != "text/markdown"@);
            assert("application/vnd.vega.v5+json"@ != "image/svg+xml"@);
            assert("application/vnd.vega.v5+json"@ != "image/png"@);
            assert("application/vnd.vega.v5+json"@ != "image/jpeg"@);
            assert("application/vnd.vega.v5+json"@ != "image/gif"@);
            assert("application/vnd.vega.v5+json"@ != "application/json"@);
            assert("application/vnd.vega.v5+json"@ != "application/geo+json"@);
            assert("application/vnd.vega.v5+json"@ != "application/vnd.dataresource+json"@);
            assert("application/vnd.vega.v5+json"@ != "application/vnd.plotly.v1+json"@);
            assert("application/vnd.vega.v5+json"@ != "application/vnd.jupyter.widget-view+json"@);
            assert("application/vnd.vega.v5+json"@ != "application/vnd.jupyter.widget-state+json"@);
            assert("application/vnd.vega.v5+json"@ != "application/vnd.vegalite.v2+json"@);
            assert("application/vnd.vega.v5+json"@ != "application/vnd.vegalite.v3+json"@);
            assert("application/vnd.vega.v5+json"@ != "application/vnd.vegalite.v4+json"@);
            assert("application/vnd.vega.v5+json"@ != "application/vnd.vegalite.v5+json"@);
            assert("application/vnd.vega.v5+json"@ != "application/vnd.vegalite.v6+json"@);
            assert("application/vnd.vega.v5+json"@[22] != "application/vnd.vega.v3+json"@[22]);
            assert("application/vnd.vega.v5+json"@ != "application/vnd.vega.v3+json"@);
            assert("application/vnd.vega.v5+json"@[22] != "application/vnd.vega.v4+json"@[22]);
            assert("application/vnd.vega.v5+json"@ != "application/vnd.vega.v4+json"@);
            assert(spec_mime_type(spec_mime_name(m)) == MimeType::VegaV5);
        },
        MimeType::Vdom => {
            assert("application/vdom.v1+json"@ != "text/plain"@);
            assert("application/vdom.v1+json"@ != "text/html"@);
            assert("application/vdom.v1+json"@ != "text/latex"@);
            assert("application/vdom.v1+json"@ != "application/javascript"@);
            assert("application/vdom.v1+json"@ != "text/markdown"@);
            assert("application/vdom.v1+json"@ != "image/svg+xml"@);
            assert("application/vdom.v1+json"@ != "image/png"@);
            assert("application/vdom.v1+json"@ != "image/jpeg"@);
            assert("application/vdom.v1+json"@ != "image/gif"@);
            assert("application/vdom.v1+json"@ != "application/json"@);
            assert("application/vdom.v1+json"@ != "application/geo+json"@);
            assert("application/vdom.v1+json"@ != "application/vnd.dataresource+json"@);
            assert("application/vdom.v1+json"@ != "application/vnd.plotly.v1+json"@);
            assert("application/vdom.v1+json"@ != "application/vnd.jupyter.widget-view+json"@);
            assert("application/vdom.v1+json"@ != "application/vnd.jupyter.widget-state+json"@);
            assert("application/vdom.v1+json"@ != "application/vnd.vegalite.v2+json"@);
            assert("application/vdom.v1+json"@ != "application/vnd.vegalite.v3+json"@);
            assert("application/vdom.v1+json"@ != "application/vnd.vegalite.v4+json"@);
            assert("application/vdom.v1+json"@ != "application/vnd.vegalite.v5+json"@);
            assert("application/vdom.v1+json"@ != "application/vnd.vegalite.v6+json"@);
            assert("application/vdom.v1+json"@ != "application/vnd.vega.v3+json"@);
            assert("application/vdom.v1+json"@ != "application/vnd.vega.v4+json"@);
            assert("application/vdom.v1+json"@ != "application/vnd.vega.v5+json"@);
            assert(spec_mime_type(spec_mime_name(m)) == MimeType::Vdom);
        },
        MimeType::Other => {
            assert("application/vnd.runtimelib.unknown"@ != "text/plain"@);
            assert("application/vnd.runtimelib.unknown"@ != "text/html"@);
            assert("application/vnd.runtimelib.unknown"@ != "text/latex"@);
            assert("application/vnd.runtimelib.unknown"@ != "application/javascript"@);
            assert("application/vnd.runtimelib.unknown"@ != "text/markdown"@);
            assert("application/vnd.runtimelib.unknown"@ != "image/svg+xml"@);
            assert("application/vnd.runtimelib.unknown"@ != "image/png"@);
            assert("application/vnd.runtimelib.unknown"@ != "image/jpeg"@);
            assert("application/vnd.runtimelib.unknown"@ != "image/gif"@);
            assert("application/vnd.runtimelib.unknown"@ != "application/json"@);
            assert("application/vnd.runtimelib.unknown"@ != "application/geo+json"@);
            assert("application/vnd.runtimelib.unknown"@ != "application/vnd.dataresource+json"@);
            assert("application/vnd.runtimelib.unknown"@ != "application/vnd.plotly.v1+json"@);
            assert("application/vnd.runtimelib.unknown"@ != "application/vnd.jupyter.widget-view+json"@);
            assert("application/vnd.runtimelib.unknown"@ != "application/vnd.jupyter.widget-state+json"@);
            assert("application/vnd.runtimelib.unknown"@ != "application/vnd.vegalite.v2+json"@);
            assert("application/vnd.runtimelib.unknown"@ != "application/vnd.vegalite.v3+json"@);
            assert("application/vnd.runtimelib.unknown"@ != "application/vnd.vegalite.v4+json"@);
            assert("application/vnd.runtimelib.unknown"@ != "application/vnd.vegalite.v5+json"@);
            assert("application/vnd.runtimelib.unknown"@ != "application/vnd.vegalite.v6+json"@);
            assert("application/vnd.runtimelib.unknown"@ != "application/vnd.vega.v3+json"@);
            assert("application/vnd.runtimelib.unknown"@ != "application/vnd.vega.v4+json"@);
            assert("application/vnd.runtimelib.unknown"@ != "application/vnd.vega.v5+json"@);
            assert("application/vnd.runtimelib.unknown"@ != "application/vdom.v1+json"@);
            assert(spec_mime_type(spec_mime_name(m)) == MimeType::Other);
        },
    }
}

impl From<String> for MimeType {
    fn from(s: String) -> (m: MimeType) {
        MimeType::from_name(&s)
    }
}

impl vstd::std_specs::convert::FromSpecImpl<String> for MimeType {
    open spec fn obeys_from_spec() -> bool {
        true
    }

    open spec fn from_spec(v: String) -> MimeType {
        spec_mime_type(v@)
    }
}

/// A request to run code.
pub struct ExecuteRequest {
    pub code: String,
    pub silent: bool,
    pub store_history: bool,
    pub user_expressions: HashMap<String, String>,
    pub allow_stdin: bool,
}

/// The reply to an `ExecuteRequest`.
pub struct ExecuteReply {
    pub status: String,
    pub execution_count: i64,
}

/// A request for information about the kernel.
pub struct KernelInfoRequest {}

/// A link to documentation.
pub struct HelpLink {
    pub text: String,
    pub url: String,
}

/// Text written to a stream such as stdout.
pub struct StreamContent {
    pub name: String,
    pub text: String,
}

/// The code that is about to run.
pub struct ExecuteInput {
    pub code: String,
    pub execution_count: i64,
}

/// The result of running code.
pub struct ExecuteResult {
    pub execution_count: i64,
    pub data: HashMap<String, String>,
    pub metadata: HashMap<String, String>,
}

/// An error raised while running code.
pub struct ErrorReply {
    pub ename: String,
    pub evalue: String,
    pub traceback: Vec<String>,
}

/// Opens a comm channel.
pub struct CommOpen {
    pub comm_id: String,
    pub target_name: String,
    pub data: HashMap<String, String>,
    pub target_module: String,
}

/// A message on a comm channel.
pub struct CommMsg {
    pub comm_id: String,
    pub data: HashMap<String, String>,
}

/// Closes a comm channel.
pub struct CommClose {
    pub comm_id: String,
    pub data: HashMap<String, String>,
}

/// Asks the kernel to shut down, or to restart.
pub struct ShutdownRequest {
    pub restart: bool,
}

/// The reply to a `ShutdownRequest`.
pub struct ShutdownReply {
    pub restart: bool,
    pub status: String,
}

/// The kernel asks for input.
pub struct InputRequest {
    pub prompt: String,
    pub password: bool,
}

/// The input given to an `InputRequest`.
pub struct InputReply {
    pub value: String,
}

/// A request for completions at a cursor position.
pub struct CompleteRequest {
    pub code: String,
    pub cursor_pos: i64,
}

/// The completions for a `CompleteRequest`.
pub struct CompleteReply {
    pub matches: Vec<String>,
    pub cursor_start: i64,
    pub cursor_end: i64,
    pub metadata: HashMap<String, String>,
}

/// Whether code is complete.
pub struct IsCompleteReply {
    pub status: String,
    pub indent: String,
}

/// A request for the execution history.
pub struct HistoryRequest {
    pub output: bool,
    pub raw: bool,
    pub hist_access_type: String,
    pub session: i64,
    pub start: i64,
    pub stop: i64,
    pub n: i64,
    pub pattern: String,
    pub unique: bool,
}

/// The execution history.
pub struct HistoryReply {
    pub history: Vec<String>,
}

/// Asks whether code is complete.
pub struct IsCompleteRequest {
    pub code: String,
}

/// The kernel's execution state.
pub struct Status {
    pub execution_state: String,
}

/// A name that denotes a known MIME type is that type's name.
pub proof fn lemma_mime_type_name(s: Seq<char>)
    requires
        spec_mime_type(s) != MimeType::Other,
    ensures
        spec_mime_name(spec_mime_type(s)) == s,
{
}

/// Rich output: the same content in several MIME types, each under its
/// type's name; content under names that are no known MIME type is kept
/// apart, by name.
#[verifier::reject_recursive_types(V)]
pub struct MimeBundle<V> {
    pub content: StringHashMap<V>,
    pub unknown_content: StringHashMap<V>,
}

/// Whether `i` is the position in `order` of the first MIME type that
/// `content` holds.
pub open spec fn is_richest<V>(content: Map<Seq<char>, V>, order: Seq<MimeType>, i: int) -> bool {
    &&& 0 <= i < order.len()
    &&& content.contains_key(spec_mime_name(order[i]))
    &&& forall|j: int| 0 <= j < i ==> !content.contains_key(#[trigger] spec_mime_name(order[j]))
}

impl<V> MimeBundle<V> {
    /// A bundle with no content.
    pub fn new() -> (b: Self)
        ensures
            b.content@ == Map::<Seq<char>, V>::empty(),
            b.unknown_content@ == Map::<Seq<char>, V>::empty(),
    {
        MimeBundle { content: StringHashMap::new(), unknown_content: StringHashMap::new() }
    }

    /// Puts `content` under the MIME type `mime_type`.
    pub fn insert(&mut self, mime_type: MimeType, content: V)
        ensures
            final(self).content@ == old(self).content@.insert(spec_mime_name(mime_type), content),
            final(self).unknown_content@ == old(self).unknown_content@,
    {
        let name = String::from_str(mime_type.name());
        self.content.insert(name, content);
    }

    /// Puts `content` under the name `name`: under its MIME type where it
    /// names a known one, else apart.
    pub fn insert_named(&mut self, name: String, content: V)
        ensures
            spec_mime_type(name@) != MimeType::Other ==> {
                &&& final(self).content@ == old(self).content@.insert(name@, content)
                &&& final(self).unknown_content@ == old(self).unknown_content@
            },
            spec_mime_type(name@) == MimeType::Other ==> {
                &&& final(self).content@ == old(self).content@
                &&& final(self).unknown_content@ == old(self).unknown_content@.insert(name@, content)
            },
    {
        let mime_type = MimeType::from_name(&name);
        match mime_type {
            MimeType::Other => self.unknown_content.insert(name, content),
            _ => {
                proof {
                    lemma_mime_type_name(name@);
                }
                self.content.insert(name, content)
            },
        }
    }

    /// The content under the MIME type `mime_type`, if any.
    pub fn get(&self, mime_type: MimeType) -> (v: Option<&V>)
        ensures
            match v {
                Some(v) => self.content@.contains_key(spec_mime_name(mime_type)) && *v
                    == self.content@[spec_mime_name(mime_type)],
                None => !self.content@.contains_key(spec_mime_name(mime_type)),
            },
    {
        self.content.get(mime_type.name())
    }

    /// The content under the unknown name `name`, if any.
    pub fn get_unknown(&self, name: &str) -> (v: Option<&V>)
        ensures
            match v {
                Some(v) => self.unknown_content@.contains_key(name@) && *v
                    == self.unknown_content@[name@],
                None => !self.unknown_content@.contains_key(name@),
            },
    {
        self.unknown_content.get(name)
    }
}

impl<V: Clone> MimeBundle<V> {
    /// The richest content: that of the first MIME type in
    /// `priority_order` that the bundle holds, with that type; `None` where
    /// it holds none of them.
    pub fn richest(&self, priority_order: &[MimeType]) -> (r: Option<(MimeType, V)>)
        ensures
            match r {
                Some((m, v)) => exists|i: int|
                    is_richest(self.content@, priority_order@, i) && m == priority_order@[i]
                        && cloned(self.content@[spec_mime_name(m)], v),
                None => forall|i: int|
                    0 <= i < priority_order@.len() ==> !self.content@.contains_key(
                        #[trigger] spec_mime_name(priority_order@[i]),
                    ),
            },
    {
        let mut i: usize = 0;
        while i < priority_order.len()
            invariant
                i <= priority_order@.len(),
                forall|j: int|
                    0 <= j < i ==> !self.content@.contains_key(
                        #[trigger] spec_mime_name(priority_order@[j]),
                    ),
            decreases priority_order.len() - i,
        {
            let mime_type = priority_order[i];
            match self.content.get(mime_type.name()) {
                Some(content) => {
                    let v = content.clone();
                    assert(is_richest(self.content@, priority_order@, i as int));
                    return Some((mime_type, v));
                },
                None => {},
            }
            i += 1;
        }
        None
    }
}

/// The kind of a kernel message, as its header's `msg_type` names it.
#[derive(Clone, Copy, Debug, PartialEq, Eq, Structural)]
pub enum MessageKind {
    ExecuteRequest,
    ExecuteReply,
    KernelInfoRequest,
    KernelInfoReply,
    StreamContent,
    DisplayData,
    UpdateDisplayData,
    ExecuteInput,
    ExecuteResult,
    ErrorReply,
    CommOpen,
    CommMsg,
    CommClose,
    ShutdownRequest,
    ShutdownReply,
    InputRequest,
    InputReply,
    CompleteRequest,
    CompleteReply,
    HistoryRequest,
    HistoryReply,
    IsCompleteRequest,
    IsCompleteReply,
    Status,
}

/// The name of a message kind.
pub open spec fn spec_message_type(k: MessageKind) -> Seq<char> {
    match k {
        MessageKind::ExecuteRequest => "execute_request"@,
        MessageKind::ExecuteReply => "execute_reply"@,
        MessageKind::KernelInfoRequest => "kernel_info_request"@,
        MessageKind::KernelInfoReply => "kernel_info_reply"@,
        MessageKind::StreamContent => "stream"@,
        MessageKind::DisplayData => "display_data"@,
        MessageKind::UpdateDisplayData => "update_display_data"@,
        MessageKind::ExecuteInput => "execute_input"@,
        MessageKind::ExecuteResult => "execute_result"@,
        MessageKind::ErrorReply => "error"@,
        MessageKind::CommOpen => "comm_open"@,
        MessageKind::CommMsg => "comm_msg"@,
        MessageKind::CommClose => "comm_close"@,
        MessageKind::ShutdownRequest => "shutdown_request"@,
        MessageKind::ShutdownReply => "shutdown_reply"@,
        MessageKind::InputRequest => "input_request"@,
        MessageKind::InputReply => "input_reply"@,
        MessageKind::CompleteRequest => "complete_request"@,
        MessageKind::CompleteReply => "complete_reply"@,
        MessageKind::HistoryRequest => "history_request"@,
        MessageKind::HistoryReply => "history_reply"@,
        MessageKind::IsCompleteRequest => "is_complete_request"@,
        MessageKind::IsCompleteReply => "is_complete_reply"@,
        MessageKind::Status => "status"@,
    }
}

/// The message kind that `s` names, if any.
pub open spec fn spec_message_kind(s: Seq<char>) -> Option<MessageKind> {
    if s == "execute_request"@ {
        Some(MessageKind::ExecuteRequest)
    } else if s == "execute_reply"@ {
        Some(MessageKind::ExecuteReply)
    } else if s == "kernel_info_request"@ {
        Some(MessageKind::KernelInfoRequest)
    } else if s == "kernel_info_reply"@ {
        Some(MessageKind::KernelInfoReply)
    } else if s == "stream"@ {
        Some(MessageKind::StreamContent)
    } else if s == "display_data"@ {
        Some(MessageKind::DisplayData)
    } else if s == "update_display_data"@ {
        Some(MessageKind::UpdateDisplayData)
    } else if s == "execute_input"@ {
        Some(MessageKind::ExecuteInput)
    } else if s == "execute_result"@ {
        Some(MessageKind::ExecuteResult)
    } else if s == "error"@ {
        Some(MessageKind::ErrorReply)
    } else if s == "comm_open"@ {
        Some(MessageKind::CommOpen)
    } else if s == "comm_msg"@ {
        Some(MessageKind::CommMsg)
    } else if s == "comm_close"@ {
        Some(MessageKind::CommClose)
    } else if s == "shutdown_request"@ {
        Some(MessageKind::ShutdownRequest)
    } else if s == "shutdown_reply"@ {
        Some(MessageKind::ShutdownReply)
    } else if s == "input_request"@ {
        Some(MessageKind::InputRequest)
    } else if s == "input_reply"@ {
        Some(MessageKind::InputReply)
    } else if s == "complete_request"@ {
        Some(MessageKind::CompleteRequest)
    } else if s == "complete_reply"@ {
        Some(MessageKind::CompleteReply)
    } else if s == "history_request"@ {
        Some(MessageKind::HistoryRequest)
    } else if s == "history_reply"@ {
        Some(MessageKind::HistoryReply)
    } else if s == "is_complete_request"@ {
        Some(MessageKind::IsCompleteRequest)
    } else if s == "is_complete_reply"@ {
        Some(MessageKind::IsCompleteReply)
    } else if s == "status"@ {
        Some(MessageKind::Status)
    } else {
        None
    }
}

impl MessageKind {
    /// The kind of message that `msg_type` names; `None` for a type that is
    /// not supported.
    pub fn from_type(msg_type: &str) -> (k: Option<MessageKind>)
        ensures
            k == spec_message_kind(msg_type@),
    {
        let t = String::from_str(msg_type);
        if t == String::from_str("execute_request") {
            Some(MessageKind::ExecuteRequest)
        } else if t == String::from_str("execute_reply") {
            Some(MessageKind::ExecuteReply)
        } else if t == String::from_str("kernel_info_request") {
            Some(MessageKind::KernelInfoRequest)
        } else if t == String::from_str("kernel_info_reply") {
            Some(MessageKind::KernelInfoReply)
        } else if t == String::from_str("stream") {
            Some(MessageKind::StreamContent)
        } else if t == String::from_str("display_data") {
            Some(MessageKind::DisplayData)
        } else if t == String::from_str("update_display_data") {
            Some(MessageKind::UpdateDisplayData)
        } else if t == String::from_str("execute_input") {
            Some(MessageKind::ExecuteInput)
        } else if t == String::from_str("execute_result") {
            Some(MessageKind::ExecuteResult)
        } else if t == String::from_str("error") {
            Some(MessageKind::ErrorReply)
        } else if t == String::from_str("comm_open") {
            Some(MessageKind::CommOpen)
        } else if t == String::from_str("comm_msg") {
            Some(MessageKind::CommMsg)
        } else if t == String::from_str("comm_close") {
            Some(MessageKind::CommClose)
        } else if t == String::from_str("shutdown_request") {
            Some(MessageKind::ShutdownRequest)
        } else if t == String::from_str("shutdown_reply") {
            Some(MessageKind::ShutdownReply)
        } else if t == String::from_str("input_request") {
            Some(MessageKind::InputRequest)
        } else if t == String::from_str("input_reply") {
            Some(MessageKind::InputReply)
        } else if t == String::from_str("complete_request") {
            Some(MessageKind::CompleteRequest)
        } else if t == String::from_str("complete_reply") {
            Some(MessageKind::CompleteReply)
        } else if t == String::from_str("history_request") {
            Some(MessageKind::HistoryRequest)
        } else if t == String::from_str("history_reply") {
            Some(MessageKind::HistoryReply)
        } else if t == String::from_str("is_complete_request") {
            Some(MessageKind::IsCompleteRequest)
        } else if t == String::from_str("is_complete_reply") {
            Some(MessageKind::IsCompleteReply)
        } else if t == String::from_str("status") {
            Some(MessageKind::Status)
        } else {
            None
        }
    }

    /// The name under which this kind is sent.
    pub fn message_type(&self) -> (s: &'static str)
        ensures
            s@ == spec_message_type(*self),
    {
        match self {
            MessageKind::ExecuteRequest => "execute_request",
            MessageKind::ExecuteReply => "execute_reply",
            MessageKind::KernelInfoRequest => "kernel_info_request",
            MessageKind::KernelInfoReply => "kernel_info_reply",
            MessageKind::StreamContent => "stream",
            MessageKind::DisplayData => "display_data",
            MessageKind::UpdateDisplayData => "update_display_data",
            MessageKind::ExecuteInput => "execute_input",
            MessageKind::ExecuteResult => "execute_result",
            MessageKind::ErrorReply => "error",
            MessageKind::CommOpen => "comm_open",
            MessageKind::CommMsg => "comm_msg",
            MessageKind::CommClose => "comm_close",
            MessageKind::ShutdownRequest => "shutdown_request",
            MessageKind::ShutdownReply => "shutdown_reply",
            MessageKind::InputRequest => "input_request",
            MessageKind::InputReply => "input_reply",
            MessageKind::CompleteRequest => "complete_request",
            MessageKind::CompleteReply => "complete_reply",
            MessageKind::HistoryRequest => "history_request",
            MessageKind::HistoryReply => "history_reply",
            MessageKind::IsCompleteRequest => "is_complete_request",
            MessageKind::IsCompleteReply => "is_complete_reply",
            MessageKind::Status => "status",
        }
    }
}

/// The kind named by a message kind's name is that kind.
#[verifier::spinoff_prover]
#[verifier::rlimit(60)]
pub proof fn lemma_message_type_round_trip(k: MessageKind)
    ensures
        spec_message_kind(spec_message_type(k)) == Some(k),
{
    reveal_strlit("execute_request");
    reveal_strlit("execute_reply");
    reveal_strlit("kernel_info_request");
    reveal_strlit("kernel_info_reply");
    reveal_strlit("stream");
    reveal_strlit("display_data");
    reveal_strlit("update_display_data");
    reveal_strlit("execute_input");
    reveal_strlit("execute_result");
    reveal_strlit("error");
    reveal_strlit("comm_open");
    reveal_strlit("comm_msg");
    reveal_strlit("comm_close");
    reveal_strlit("shutdown_request");
    reveal_strlit("shutdown_reply");
    reveal_strlit("input_request");
    reveal_strlit("input_reply");
    reveal_strlit("complete_request");
    reveal_strlit("complete_reply");
    reveal_strlit("history_request");
    reveal_strlit("history_reply");
    reveal_strlit("is_complete_request");
    reveal_strlit("is_complete_reply");
    reveal_strlit("status");
    assert("execute_request"@.len() == 15);
    assert("execute_reply"@.len() == 13);
    assert("kernel_info_request"@.len() == 19);
    assert("kernel_info_reply"@.len() == 17);
    assert("stream"@.len() == 6);
    assert("display_data"@.len() == 12);
    assert("update_display_data"@.len() == 19);
    assert("execute_input"@.len() == 13);
    assert("execute_result"@.len() == 14);
    assert("error"@.len() == 5);
    assert("comm_open"@.len() == 9);
    assert("comm_msg"@.len() == 8);
    assert("comm_close"@.len() == 10);
    assert("shutdown_request"@.len() == 16);
    assert("shutdown_reply"@.len() == 14);
    assert("input_request"@.len() == 13);
    assert("input_reply"@.len() == 11);
    assert("complete_request"@.len() == 16);
    assert("complete_reply"@.len() == 14);
    assert("history_request"@.len() == 15);
    assert("history_reply"@.len() == 13);
    assert("is_complete_request"@.len() == 19);
    assert("is_complete_reply"@.len() == 17);
    assert("status"@.len() == 6);
    match k {
        MessageKind::ExecuteRequest => {
        },
        MessageKind::ExecuteReply => {
            assert("execute_reply"@ != "execute_request"@);
        },
        MessageKind::KernelInfoRequest => {
            assert("kernel_info_request"@ != "execute_request"@);
            assert("kernel_info_request"@ != "execute_reply"@);
        },
        MessageKind::KernelInfoReply => {
            assert("kernel_info_reply"@ != "execute_request"@);
            assert("kernel_info_reply"@ != "execute_reply"@);
            assert("kernel_info_reply"@ != "kernel_info_request"@);
        },
        MessageKind::StreamContent => {
            assert("stream"@ != "execute_request"@);
            assert("stream"@ != "execute_reply"@);
            assert("stream"@ != "kernel_info_request"@);
            assert("stream"@ != "kernel_info_reply"@);
        },
        MessageKind::DisplayData => {
            assert("display_data"@ != "execute_request"@);
            assert("display_data"@ != "execute_reply"@);
            assert("display_data"@ != "kernel_info_request"@);
            assert("display_data"@ != "kernel_info_reply"@);
            assert("display_data"@ != "stream"@);
        },
        MessageKind::UpdateDisplayData => {
            assert("update_display_data"@ != "execute_request"@);
            assert("update_display_data"@ != "execute_reply"@);
            assert("update_display_data"@[0] != "kernel_info_request"@[0]);
            assert("update_display_data"@ != "kernel_info_request"@);
            assert("update_display_data"@ != "kernel_info_reply"@);
            assert("update_display_data"@ != "stream"@);
            assert("update_display_data"@ != "display_data"@);
        },
        MessageKind::ExecuteInput => {
            assert("execute_input"@ != "execute_request"@);
            assert("execute_input"@[8] != "execute_reply"@[8]);
            assert("execute_input"@ != "execute_reply"@);
            assert("execute_input"@ != "kernel_info_request"@);
            assert("execute_input"@ != "kernel_info_reply"@);
            assert("execute_input"@ != "stream"@);
            assert("execute_input"@ != "display_data"@);
            assert("execute_input"@ != "update_display_data"@);
        },
        MessageKind::ExecuteResult => {
            assert("execute_result"@ != "execute_request"@);
            assert("execute_result"@ != "execute_reply"@);
            assert("execute_result"@ != "kernel_info_request"@);
            assert("execute_result"@ != "kernel_info_reply"@);
            assert("execute_result"@ != "stream"@);
            assert("execute_result"@ != "display_data"@);
            assert("execute_result"@ != "update_display_data"@);
            assert("execute_result"@ != "execute_input"@);
        },
        MessageKind::ErrorReply => {
            assert("error"@ != "execute_request"@);
            assert("error"@ != "execute_reply"@);
            assert("error"@ != "kernel_info_request"@);
            assert("error"@ != "kernel_info_reply"@);
            assert("error"@ != "stream"@);
            assert("error"@ != "display_data"@);
            assert("error"@ != "update_display_data"@);
            assert("error"@ != "execute_input"@);
            assert("error"@ != "execute_result"@);
        },
        MessageKind::CommOpen => {
            assert("comm_open"@ != "execute_request"@);
            assert("comm_open"@ != "execute_reply"@);
            assert("comm_open"@ != "kernel_info_request"@);
            assert("comm_open"@ != "kernel_info_reply"@);
            assert("comm_open"@ != "stream"@);
            assert("comm_open"@ != "display_data"@);
            assert("comm_open"@ != "update_display_data"@);
            assert("comm_open"@ != "execute_input"@);
            assert("comm_open"@ != "execute_result"@);
            assert("comm_open"@ != "error"@);
        },
        MessageKind::CommMsg => {
            assert("comm_msg"@ != "execute_request"@);
            assert("comm_msg"@ != "execute_reply"@);
            assert("comm_msg"@ != "kernel_info_request"@);
            assert("comm_msg"@ != "kernel_info_reply"@);
            assert("comm_msg"@ != "stream"@);
            assert("comm_msg"@ != "display_data"@);
            assert("comm_msg"@ != "update_display_data"@);
            assert("comm_msg"@ != "execute_input"@);
            assert("comm_msg"@ != "execute_result"@);
            assert("comm_msg"@ != "error"@);
            assert("comm_msg"@ != "comm_open"@);
        },
        MessageKind::CommClose => {
            assert("comm_close"@ != "execute_request"@);
            assert("comm_close"@ != "execute_reply"@);
            assert("comm_close"@ != "kernel_info_request"@);
            assert("comm_close"@ != "kernel_info_reply"@);
            assert("comm_close"@ != "stream"@);
            assert("comm_close"@ != "display_data"@);
            assert("comm_close"@ != "update_display_data"@);
            assert("comm_close"@ != "execute_input"@);
            assert("comm_close"@ != "execute_result"@);
            assert("comm_close"@ != "error"@);
            assert("comm_close"@ != "comm_open"@);
            assert("comm_close"@ != "comm_msg"@);
        },
        MessageKind::ShutdownRequest => {
            assert("shutdown_request"@ != "execute_request"@);
            assert("shutdown_request"@ != "execute_reply"@);
            assert("shutdown_request"@ != "kernel_info_request"@);
            assert("shutdown_request"@ != "kernel_info_reply"@);
            assert("shutdown_request"@ != "stream"@);
            assert("shutdown_request"@ != "display_data"@);
            assert("shutdown_request"@ != "update_display_data"@);
            assert("shutdown_request"@ != "execute_input"@);
            assert("shutdown_request"@ != "execute_result"@);
            assert("shutdown_request"@ != "error"@);
            assert("shutdown_request"@ != "comm_open"@);
            assert("shutdown_request"@ != "comm_msg"@);
            assert("shutdown_request"@ != "comm_close"@);
        },
        MessageKind::ShutdownReply => {
            assert("shutdown_reply"@ != "execute_request"@);
            assert("shutdown_reply"@ != "execute_reply"@);
            assert("shutdown_reply"@ != "kernel_info_request"@);
            assert("shutdown_reply"@ != "kernel_info_reply"@);
            assert("shutdown_reply"@ != "stream"@);
            assert("shutdown_reply"@ != "display_data"@);
            assert("shutdown_reply"@ != "update_display_data"@);
            assert("shutdown_reply"@ != "execute_input"@);
            assert("shutdown_reply"@[0] != "execute_result"@[0]);
            assert("shutdown_reply"@ != "execute_result"@);
            assert("shutdown_reply"@ != "error"@);
            assert("shutdown_reply"@ != "comm_open"@);
            assert("shutdown_reply"@ != "comm_msg"@);
            assert("shutdown_reply"@ != "comm_close"@);
            assert("shutdown_reply"@ != "shutdown_request"@);
        },
        MessageKind::InputRequest => {
            assert("input_request"@ != "execute_request"@);
            assert("input_request"@[0] != "execute_reply"@[0]);
            assert("input_request"@ != "execute_reply"@);
            assert("input_request"@ != "kernel_info_request"@);
            assert("input_request"@ != "kernel_info_reply"@);
            assert("input_request"@ != "stream"@);
            assert("input_request"@ != "display_data"@);
            assert("input_request"@ != "update_display_data"@);
            assert("input_request"@[0] != "execute_input"@[0]);
            assert("input_request"@ != "execute_input"@);
            assert("input_request"@ != "execute_result"@);
            assert("input_request"@ != "error"@);
            assert("input_request"@ != "comm_open"@);
            assert("input_request"@ != "comm_msg"@);
            assert("input_request"@ != "comm_close"@);
            assert("input_request"@ != "shutdown_request"@);
            assert("input_request"@ != "shutdown_reply"@);
        },
        MessageKind::InputReply => {
            assert("input_reply"@ != "execute_request"@);
            assert("input_reply"@ != "execute_reply"@);
            assert("input_reply"@ != "kernel_info_request"@);
            assert("input_reply"@ != "kernel_info_reply"@);
            assert("input_reply"@ != "stream"@);
            assert("input_reply"@ != "display_data"@);
            assert("input_reply"@ != "update_display_data"@);
            assert("input_reply"@ != "execute_input"@);
            assert("input_reply"@ != "execute_result"@);
            assert("input_reply"@ != "error"@);
            assert("input_reply"@ != "comm_open"@);
            assert("input_reply"@ != "comm_msg"@);
            assert("input_reply"@ != "comm_close"@);
            assert("input_reply"@ != "shutdown_request"@);
            assert("input_reply"@ != "shutdown_reply"@);
            assert("input_reply"@ != "input_request"@);
        },
        MessageKind::CompleteRequest => {
            assert("complete_request"@ != "execute_request"@);
            assert("complete_request"@ != "execute_reply"@);
            assert("complete_request"@ != "kernel_info_request"@);
            assert("complete_request"@ != "kernel_info_reply"@);
            assert("complete_request"@ != "stream"@);
            assert("complete_request"@ != "display_data"@);
            assert("complete_request"@ != "update_display_data"@);
            assert("complete_request"@ != "execute_input"@);
            assert("complete_request"@ != "execute_result"@);
            assert("complete_request"@ != "error"@);
            assert("complete_request"@ != "comm_open"@);
            assert("complete_request"@ != "comm_msg"@);
            assert("complete_request"@ != "comm_close"@);
            assert("complete_request"@[0] != "shutdown_request"@[0]);
            assert("complete_request"@ != "shutdown_request"@);
            assert("complete_request"@ != "shutdown_reply"@);
            assert("complete_request"@ != "input_request"@);
            assert("complete_request"@ != "input_reply"@);
        },
        MessageKind::CompleteReply => {
            assert("complete_reply"@ != "execute_request"@);
            assert("complete_reply"@ != "execute_reply"@);
            assert("complete_reply"@ != "kernel_info_request"@);
            assert("complete_reply"@ != "kernel_info_reply"@);
            assert("complete_reply"@ != "stream"@);
            assert("complete_reply"@ != "display_data"@);
            assert("complete_reply"@ != "update_display_data"@);
            assert("complete_reply"@ != "execute_input"@);
            assert("complete_reply"@[0] != "execute_result"@[0]);
            assert("complete_reply"@ != "execute_result"@);
            assert("complete_reply"@ != "error"@);
            assert("complete_reply"@ != "comm_open"@);
            assert("complete_reply"@ != "comm_msg"@);
            assert("complete_reply"@ != "comm_close"@);
            assert("complete_reply"@ != "shutdown_request"@);
            assert("complete_reply"@[0] != "shutdown_reply"@[0]);
            assert("complete_reply"@ != "shutdown_reply"@);
            assert("complete_reply"@ != "input_request"@);
            assert("complete_reply"@ != "input_reply"@);
            assert("complete_reply"@ != "complete_request"@);
        },
        MessageKind::HistoryRequest => {
            assert("history_request"@[0] != "execute_request"@[0]);
            assert("history_request"@ != "execute_request"@);
            assert("history_request"@ != "execute_reply"@);
            assert("history_request"@ != "kernel_info_request"@);
            assert("history_request"@ != "kernel_info_reply"@);
            assert("history_request"@ != "stream"@);
            assert("history_request"@ != "display_data"@);
            assert("history_request"@ != "update_display_data"@);
            assert("history_request"@ != "execute_input"@);
            assert("history_request"@ != "execute_result"@);
            assert("history_request"@ != "error"@);
            assert("history_request"@ != "comm_open"@);
            assert("history_request"@ != "comm_msg"@);
            assert("history_request"@ != "comm_close"@);
            assert("history_request"@ != "shutdown_request"@);
            assert("history_request"@ != "shutdown_reply"@);
            assert("history_request"@ != "input_request"@);
            assert("history_request"@ != "input_reply"@);
            assert("history_request"@ != "complete_request"@);
            assert("history_request"@ != "complete_reply"@);
        },
        MessageKind::HistoryReply => {
            assert("history_reply"@ != "execute_request"@);
            assert("history_reply"@[0] != "execute_reply"@[0]);
            assert("history_reply"@ != "execute_reply"@);
            assert("history_reply"@ != "kernel_info_request"@);
            assert("history_reply"@ != "kernel_info_reply"@);
            assert("history_reply"@ != "stream"@);
            assert("history_reply"@ != "display_data"@);
            assert("history_reply"@ != "update_display_data"@);
            assert("history_reply"@[0] != "execute_input"@[0]);
            assert("history_reply"@ != "execute_input"@);
            assert("history_reply"@ != "execute_result"@);
            assert("history_reply"@ != "error"@);
            assert("history_reply"@ != "comm_open"@);
            assert("history_reply"@ != "comm_msg"@);
            assert("history_reply"@ != "comm_close"@);
            assert("history_reply"@ != "shutdown_request"@);
            assert("history_reply"@ != "shutdown_reply"@);
            assert("history_reply"@[0] != "input_request"@[0]);
            assert("history_reply"@ != "input_request"@);
            assert("history_reply"@ != "input_reply"@);
            assert("history_reply"@ != "complete_request"@);
            assert("history_reply"@ != "complete_reply"@);
            assert("history_reply"@ != "history_request"@);
        },
        MessageKind::IsCompleteRequest => {
            assert("is_complete_request"@ != "execute_request"@);
            assert("is_complete_request"@ != "execute_reply"@);
            assert("is_complete_request"@[0] != "kernel_info_request"@[0]);
            assert("is_complete_request"@ != "kernel_info_request"@);
            assert("is_complete_request"@ != "kernel_info_reply"@);
            assert("is_complete_request"@ != "stream"@);
            assert("is_complete_request"@ != "display_data"@);
            assert("is_complete_request"@[0] != "update_display_data"@[0]);
            assert("is_complete_request"@ != "update_display_data"@);
            assert("is_complete_request"@ != "execute_input"@);
            assert("is_complete_request"@ != "execute_result"@);
            assert("is_complete_request"@ != "error"@);
            assert("is_complete_request"@ != "comm_open"@);
            assert("is_complete_request"@ != "comm_msg"@);
            assert("is_complete_request"@ != "comm_close"@);
            assert("is_complete_request"@ != "shutdown_request"@);
            assert("is_complete_request"@ != "shutdown_reply"@);
            assert("is_complete_request"@ != "input_request"@);
            assert("is_complete_request"@ != "input_reply"@);
            assert("is_complete_request"@ != "complete_request"@);
            assert("is_complete_request"@ != "complete_reply"@);
            assert("is_complete_request"@ != "history_request"@);
            assert("is_complete_request"@ != "history_reply"@);
        },
        MessageKind::IsCompleteReply => {
            assert("is_complete_reply"@ != "execute_request"@);
            assert("is_complete_reply"@ != "execute_reply"@);
            assert("is_complete_reply"@ != "kernel_info_request"@);
            assert("is_complete_reply"@[0] != "kernel_info_reply"@[0]);
            assert("is_complete_reply"@ != "kernel_info_reply"@);
            assert("is_complete_reply"@ != "stream"@);
            assert("is_complete_reply"@ != "display_data"@);
            assert("is_complete_reply"@ != "update_display_data"@);
            assert("is_complete_reply"@ != "execute_input"@);
            assert("is_complete_reply"@ != "execute_result"@);
            assert("is_complete_reply"@ != "error"@);
            assert("is_complete_reply"@ != "comm_open"@);
            assert("is_complete_reply"@ != "comm_msg"@);
            assert("is_complete_reply"@ != "comm_close"@);
            assert("is_complete_reply"@ != "shutdown_request"@);
            assert("is_complete_reply"@ != "shutdown_reply"@);
            assert("is_complete_reply"@ != "input_request"@);
            assert("is_complete_reply"@ != "input_reply"@);
            assert("is_complete_reply"@ != "complete_request"@);
            assert("is_complete_reply"@ != "complete_reply"@);
            assert("is_complete_reply"@ != "history_request"@);
            assert("is_complete_reply"@ != "history_reply"@);
            assert("is_complete_reply"@ != "is_complete_request"@);
        },
        MessageKind::Status => {
            assert("status"@ != "execute_request"@);
            assert("status"@ != "execute_reply"@);
            assert("status"@ != "kernel_info_request"@);
            assert("status"@ != "kernel_info_reply"@);
            assert("status"@[2] != "stream"@[2]);
            assert("status"@ != "stream"@);
            assert("status"@ != "display_data"@);
            assert("status"@ != "update_display_data"@);
            assert("status"@ != "execute_input"@);
            assert("status"@ != "execute_result"@);
            assert("status"@ != "error"@);
            assert("status"@ != "comm_open"@);
            assert("status"@ != "comm_msg"@);
            assert("status"@ != "comm_close"@);
            assert("status"@ != "shutdown_request"@);
            assert("status"@ != "shutdown_reply"@);
            assert("status"@ != "input_request"@);
            assert("status"@ != "input_reply"@);
            assert("status"@ != "complete_request"@);
            assert("status"@ != "complete_reply"@);
            assert("status"@ != "history_request"@);
            assert("status"@ != "history_reply"@);
            assert("status"@ != "is_complete_request"@);
            assert("status"@ != "is_complete_reply"@);
        },
    }
}


} // verus!
