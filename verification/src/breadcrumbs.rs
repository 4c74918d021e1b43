//! The trail of pages that leads to the page shown.

use vstd::prelude::*;
use vstd::string::StringExecFns;
use crate::storage::option_string_view;

verus! {

/// One step of the trail: the name of a page, and its address unless it is
/// the page shown.
#[derive(Debug, PartialEq, Eq)]
pub struct Breadcrumb {
    pub page_name: String,
    pub page_url: Option<String>,
}

/// What a character becomes in HTML text: `&`, `<` and `>` become entities.
pub open spec fn text_entity(c: char) -> Seq<char> {
    if c == '&' {
        "&amp;"@
    } else if c == '<' {
        "&lt;"@
    } else if c == '>' {
        "&gt;"@
    } else {
        seq![c]
    }
}

/// What a character becomes in a quoted attribute: `&`, `<`, `>` and both
/// quotes become entities.
pub open spec fn attribute_entity(c: char) -> Seq<char> {
    if c == '"' {
        "&quot;"@
    } else if c == '\'' {
        "&#x27;"@
    } else {
        text_entity(c)
    }
}

/// `text` as HTML text: each character replaced by what [`text_entity`]
/// makes of it.
pub open spec fn escaped_text(text: Seq<char>) -> Seq<char>
    decreases text.len(),
{
    if text.len() == 0 {
        Seq::empty()
    } else {
        escaped_text(text.drop_last()) + text_entity(text.last())
    }
}

/// `text` as the value of a quoted attribute: each character replaced by
/// what [`attribute_entity`] makes of it.
pub open spec fn escaped_attribute(text: Seq<char>) -> Seq<char>
    decreases text.len(),
{
    if text.len() == 0 {
        Seq::empty()
    } else {
        escaped_attribute(text.drop_last()) + attribute_entity(text.last())
    }
}

/// Calls `html_escape::encode_text`, which replaces `&`, `<` and `>` by
/// their entities and keeps every other character.
#[verifier::external_body]
fn encode_text(text: &str) -> (encoded: String)
    ensures
        encoded@ == escaped_text(text@),
{
    html_escape::encode_text(text).into_owned()
}

/// Calls `html_escape::encode_quoted_attribute`, which replaces `&`, `<`,
/// `>`, `"` and `'` by their entities and keeps every other character.
#[verifier::external_body]
fn encode_quoted_attribute(text: &str) -> (encoded: String)
    ensures
        encoded@ == escaped_attribute(text@),
{
    html_escape::encode_quoted_attribute(text).into_owned()
}

/// The HTML of a step of the trail: a link where the step has an address,
/// the bare name where it has none.
pub open spec fn rendered(page_name: Seq<char>, page_url: Option<Seq<char>>) -> Seq<char> {
    match page_url {
        Some(url) => "<a href=\""@ + escaped_attribute(url) + "\">"@ + escaped_text(page_name)
            + "</a>"@,
        None => escaped_text(page_name),
    }
}

impl Breadcrumb {
    /// A step that links to `page_url`.
    pub fn new_with_url(page_name: String, page_url: String) -> (breadcrumb: Self)
        ensures
            breadcrumb.page_name == page_name,
            breadcrumb.page_url == Some(page_url),
    {
        Self { page_name, page_url: Some(page_url) }
    }

    /// A step without a link.
    pub fn new_without_url(page_name: String) -> (breadcrumb: Self)
        ensures
            breadcrumb.page_name == page_name,
            breadcrumb.page_url.is_none(),
    {
        Self { page_name, page_url: None }
    }

    /// The HTML of the step.
    pub fn render(&self) -> (html: String)
        ensures
            html@ == rendered(self.page_name@, option_string_view(self.page_url)),
    {
        match &self.page_url {
            Some(page_url) => {
                let mut html = String::from_str("<a href=\"");
                let url = encode_quoted_attribute(page_url.as_str());
                html.append(url.as_str());
                html.append("\">");
                let name = encode_text(self.page_name.as_str());
                html.append(name.as_str());
                html.append("</a>");
                html
            },
            None => encode_text(self.page_name.as_str()),
        }
    }
}

impl Clone for Breadcrumb {
    fn clone(&self) -> (copy: Self)
        ensures
            copy == *self,
    {
        Breadcrumb {
            page_name: self.page_name.clone(),
            page_url: crate::storage::clone_option_string(&self.page_url),
        }
    }
}

} // verus!
