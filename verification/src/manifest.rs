//! Parsing of a packaged application's install manifest for its logo path.
//!
//! The manifest is XML text. The logo path is taken from the
//! `Square44x44Logo` attribute of the first `<uap:VisualElements>` element,
//! else from that element's `Logo` attribute, else from the `Logo`
//! attribute of the first `<uap:Application>` element; when none of these
//! is present there is no logo path.

use vstd::prelude::*;
use vstd::string::*;

use crate::text::find_from;
use crate::text::find_from_spec;
use crate::text::lemma_find_from_spec;
use crate::text::occurs_at;

verus! {

/// The value of attribute `attr` inside the element text `tag`. `attr` is
/// the attribute name together with `="`, so the value runs from the end of
/// the first occurrence of `attr` up to the next double quote.
pub open spec fn attr_value_spec(tag: Seq<char>, attr: Seq<char>) -> Option<Seq<char>> {
    match find_from_spec(tag, attr, 0) {
        None => None,
        Some(a) => {
            let vstart = a + attr.len();
            match find_from_spec(tag, "\""@, vstart) {
                None => None,
                Some(vend) => Some(tag.subrange(vstart, vend)),
            }
        },
    }
}

/// The text of the first element of `xml` that begins with `opening` (for
/// instance `<uap:VisualElements`): everything from that opening through
/// the next `>`.
pub open spec fn element_tag_spec(xml: Seq<char>, opening: Seq<char>) -> Option<Seq<char>> {
    match find_from_spec(xml, opening, 0) {
        None => None,
        Some(s) => match find_from_spec(xml, ">"@, s) {
            None => None,
            Some(e) => Some(xml.subrange(s, e + 1)),
        },
    }
}

/// The logo path the manifest names: the `Square44x44Logo` attribute of the
/// `<uap:VisualElements>` element, else that element's `Logo` attribute,
/// else the `Logo` attribute of the `<uap:Application>` element.
pub open spec fn manifest_icon_path_spec(xml: Seq<char>) -> Option<Seq<char>> {
    let from_visual = match element_tag_spec(xml, "<uap:VisualElements"@) {
        None => None,
        Some(tag) => match attr_value_spec(tag, "Square44x44Logo=\""@) {
            Some(v) => Some(v),
            None => attr_value_spec(tag, "Logo=\""@),
        },
    };
    match from_visual {
        Some(v) => Some(v),
        None => match element_tag_spec(xml, "<uap:Application"@) {
            None => None,
            Some(tag) => attr_value_spec(tag, "Logo=\""@),
        },
    }
}

/// The value of attribute `attr` (attribute name plus `="`) inside the
/// element text `tag`, if both the attribute and its closing quote are
/// there.
fn attr_value<'a>(tag: &'a str, attr: &str) -> (r: Option<&'a str>)
    ensures
        r matches Some(v) ==> attr_value_spec(tag@, attr@) == Some(v@),
        r is None ==> attr_value_spec(tag@, attr@) is None,
{
    // The measured length pins tag@.len() within usize for the
    // position arithmetic below.
    let _tag_len = tag.unicode_len();
    match find_from(tag, attr, 0) {
        None => None,
        Some(a) => {
            proof {
                lemma_find_from_spec(tag@, attr@, 0);
            }
            let alen = attr.unicode_len();
            let vstart = a + alen;
            match find_from(tag, "\"", vstart) {
                None => None,
                Some(vend) => {
                    proof {
                        lemma_find_from_spec(tag@, "\""@, vstart as int);
                    }
                    Some(tag.substring_char(vstart, vend))
                },
            }
        },
    }
}

/// The text of the first element of `xml` that begins with `opening`,
/// through the next `>`.
fn element_tag<'a>(xml: &'a str, opening: &str) -> (r: Option<&'a str>)
    ensures
        r matches Some(t) ==> element_tag_spec(xml@, opening@) == Some(t@),
        r is None ==> element_tag_spec(xml@, opening@) is None,
{
    // The measured length pins xml@.len() within usize for the
    // position arithmetic below.
    let _xml_len = xml.unicode_len();
    match find_from(xml, opening, 0) {
        None => None,
        Some(s) => match find_from(xml, ">", s) {
            None => None,
            Some(e) => {
                proof {
                    lemma_find_from_spec(xml@, ">"@, s as int);
                    reveal_strlit(">");
                }
                Some(xml.substring_char(s, e + 1))
            },
        },
    }
}

/// Parses manifest text for the packaged application's logo path: the
/// `Square44x44Logo` attribute of the `<uap:VisualElements>` element, else
/// that element's `Logo` attribute, else the `Logo` attribute of the
/// `<uap:Application>` element; `None` when none of these is present.
pub fn parse_manifest_for_icon_path(xml_content: &str) -> (r: Option<String>)
    ensures
        r matches Some(p) ==> manifest_icon_path_spec(xml_content@) == Some(p@),
        r is None ==> manifest_icon_path_spec(xml_content@) is None,
{
    let from_visual = match element_tag(xml_content, "<uap:VisualElements") {
        None => None,
        Some(tag) => match attr_value(tag, "Square44x44Logo=\"") {
            Some(v) => Some(v),
            None => attr_value(tag, "Logo=\""),
        },
    };
    match from_visual {
        Some(v) => Some(v.to_owned()),
        None => match element_tag(xml_content, "<uap:Application") {
            None => None,
            Some(tag) => match attr_value(tag, "Logo=\"") {
                None => None,
                Some(v) => Some(v.to_owned()),
            },
        },
    }
}

} // verus!
