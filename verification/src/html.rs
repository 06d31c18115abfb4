//! The markup of the embedded control surface.
//!
//! The surface is a web-rendered document: a fixed page that mounts the
//! bundled script into a container element and shows a graceful-degradation
//! message to legacy browser engines.  The script bundle itself is an
//! external artifact; the caller hands its text in and receives the complete
//! document back.

use vstd::prelude::*;
use vstd::string::StringExecFns;

verus! {

/// A script element holding exactly the given script text.
pub open spec fn script_markup(s: Seq<char>) -> Seq<char> {
    "<script type=\"text/javascript\">"@ + s + "</script>"@
}

/// The part of the surface document that precedes the inlined bundle.
pub open spec fn document_head() -> Seq<char> {
    r#"
        <!doctype html>
        <html>
            <head>
                <meta charset="utf-8">
                <meta name="viewport" content="width=device-width, initial-scale=1.0">
                <link rel="stylesheet" href="https://unpkg.com/element-ui/lib/theme-chalk/index.css">
                <script src="https://unpkg.com/element-ui/lib/index.js"></script>
                <style>
                    @import url('https://fonts.googleapis.com/css2?family=Baloo+Tammudu+2:wght@500&display=swap');
                </style>
            </head>
            <body>
                <div id="app"></div>
                <!--[if lt IE 9]>
                <div class="ie-upgrade-container">
                    <p class="ie-upgrade-message">Please, upgrade Internet Explorer to continue using this software.</p>
                    <a class="ie-upgrade-link" target="_blank" href="https://www.microsoft.com/en-us/download/internet-explorer.aspx">Upgrade</a>
                </div>
                <![endif]-->
                <!--[if gte IE 9 | !IE ]> <!-->
                "#@
}

/// The part of the surface document that follows the inlined bundle.
pub open spec fn document_tail() -> Seq<char> {
    r#"
                <![endif]-->
            </body>
        </html>
        "#@
}

/// The complete surface document around a given script bundle.
pub open spec fn surface_document(bundle: Seq<char>) -> Seq<char> {
    document_head() + script_markup(bundle) + document_tail()
}

/// Wraps a script text in a script element.
pub fn inline_script(s: &str) -> (r: String)
    ensures
        r@ == script_markup(s@),
{
    let mut out = String::from_str("<script type=\"text/javascript\">");
    out.append(s);
    out.append("</script>");
    out
}

/// The surface document with the given script bundle inlined.
pub fn get_html(bundle: &str) -> (r: String)
    ensures
        r@ == surface_document(bundle@),
{
    let mut out = String::from_str(
        r#"
        <!doctype html>
        <html>
            <head>
                <meta charset="utf-8">
                <meta name="viewport" content="width=device-width, initial-scale=1.0">
                <link rel="stylesheet" href="https://unpkg.com/element-ui/lib/theme-chalk/index.css">
                <script src="https://unpkg.com/element-ui/lib/index.js"></script>
                <style>
                    @import url('https://fonts.googleapis.com/css2?family=Baloo+Tammudu+2:wght@500&display=swap');
                </style>
            </head>
            <body>
                <div id="app"></div>
                <!--[if lt IE 9]>
                <div class="ie-upgrade-container">
                    <p class="ie-upgrade-message">Please, upgrade Internet Explorer to continue using this software.</p>
                    <a class="ie-upgrade-link" target="_blank" href="https://www.microsoft.com/en-us/download/internet-explorer.aspx">Upgrade</a>
                </div>
                <![endif]-->
                <!--[if gte IE 9 | !IE ]> <!-->
                "#,
    );
    let script = inline_script(bundle);
    out.append(script.as_str());
    out.append(
        r#"
                <![endif]-->
            </body>
        </html>
        "#,
    );
    out
}

} // verus!
