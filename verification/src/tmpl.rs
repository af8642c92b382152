//! A ready-made alert: a red box with a title and a line of text.
//!
//! The alert is a Handlebars template with two parameters. Handlebars
//! writes the template as it stands and puts each parameter in its place,
//! with the characters that HTML reads as markup replaced by references.

use vstd::prelude::*;
use crate::errors::PolyRestError;

verus! {

/// The alert up to its title.
pub const ALERT_HEAD: &'static str = r#"
<head>
    <style>
        body{background-color:black}
        .container{position:absolute;left:50%;top:50%;margin:-80px 0 0 -140px;}
        .box{background: #ff0909;border-radius: 0px 0px 0px 0px;width: 280px;max-height: 150px;word-wrap: break-word;overflow: hidden;border: 1px solid #808080;margin: 0px auto;}
        .box bold{font-weight:bold;font-family : geneva, helvetica;color : #FFFFFF; font-size : medium;}
        .box p{ font-family : geneva, helvetica;color : #FFFFFF; font-size : small;margin:10px 10px 25px 10px;}
    </style>
</head>
<body>
    <div class="container">
        <div class="box">
            <p>
                <bold>"#;

/// The alert between its title and its text.
pub const ALERT_MIDDLE: &'static str = "</bold><br>\n                ";

/// The alert after its text.
pub const ALERT_TAIL: &'static str = r#"<br>
            </p>
        </div>
    </div>
</body>
"#;

/// The alert as a Handlebars template with the parameters `title` and
/// `body`.
pub open spec fn alert_template() -> Seq<char> {
    ALERT_HEAD@ + "{{title}}"@ + ALERT_MIDDLE@ + "{{body}}"@ + ALERT_TAIL@
}

/// How Handlebars writes a character of a parameter: the seven that HTML
/// could read as markup by a reference, every other as itself.
pub open spec fn html_char(c: char) -> Seq<char> {
    if c == '<' {
        "&lt;"@
    } else if c == '>' {
        "&gt;"@
    } else if c == '"' {
        "&quot;"@
    } else if c == '&' {
        "&amp;"@
    } else if c == '\'' {
        "&#x27;"@
    } else if c == '`' {
        "&#x60;"@
    } else if c == '=' {
        "&#x3D;"@
    } else {
        seq![c]
    }
}

/// The characters of `text`, each as [`html_char`] has it.
pub open spec fn html_escaped(text: Seq<char>) -> Seq<char>
    decreases text.len(),
{
    if text.len() == 0 {
        Seq::empty()
    } else {
        html_char(text[0]) + html_escaped(text.skip(1))
    }
}

/// The alert with `title` and `body` filled in.
pub open spec fn alert_text(title: Seq<char>, body: Seq<char>) -> Seq<char> {
    ALERT_HEAD@ + html_escaped(title) + ALERT_MIDDLE@ + html_escaped(body) + ALERT_TAIL@
}

#[verifier::external_type_specification]
#[verifier::external_body]
pub struct ExRenderError(handlebars::RenderError);

/// Calls [`handlebars::Handlebars::render_template`] on a fresh registry,
/// with a map that holds `title` and `body` under these names. It is only
/// ever handed the alert's template: a template may include itself
/// without end, and on such a one the call does not return. Claimed of it,
/// for that template: it succeeds, and it writes the template's three
/// fixed parts with the two parameters between them, each escaped as
/// [`html_char`] says.
#[verifier::external_body]
fn render(template: &str, title: &str, body: &str) -> (text: Result<
    String,
    handlebars::RenderError,
>)
    requires
        template@ == alert_template(),
    ensures
        text is Ok,
        text->Ok_0@ == alert_text(title@, body@),
{
    let data = std::collections::HashMap::from([("title", title), ("body", body)]);
    handlebars::Handlebars::new().render_template(template, &data)
}

/// Writes the alert's template.
pub fn alert_tmpl() -> (template: String)
    ensures
        template@ == alert_template(),
{
    let mut template = String::from_str(ALERT_HEAD);
    template.append("{{title}}");
    template.append(ALERT_MIDDLE);
    template.append("{{body}}");
    template.append(ALERT_TAIL);
    template
}

/// Fills in the alert with `header` as its title and `body` as its
/// text: the result is [`alert_text`], whatever the two hold.
pub fn render_alert_template(header: String, body: String) -> (alert: Result<
    String,
    PolyRestError,
>)
    ensures
        alert is Ok,
        alert->Ok_0@ == alert_text(header@, body@),
{
    let template = alert_tmpl();
    match render(template.as_str(), header.as_str(), body.as_str()) {
        Ok(text) => Ok(text),
        Err(_) => Err(PolyRestError::TemplateError),
    }
}

} // verus!
