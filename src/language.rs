//! Language tags, parsed by the `language_tags` crate.

use vstd::prelude::*;
use crate::model::opt_text;

verus! {

/// What `language_tags` reads from a tag's text, when the text is a
/// well-formed tag: its serialization with the case of each subtag
/// normalized, its primary language
/// subtag, its script subtag and its region subtag.
pub uninterp spec fn parsed_tag(text: Seq<char>) -> Option<
    (Seq<char>, Seq<char>, Option<Seq<char>>, Option<Seq<char>>),
>;

/// Relies on `language_tags::LanguageTag::parse` and on the accessors `as_str`,
/// `primary_language`, `script` and `region` of the tag that it returns: which
/// parts it reads, if any, depends on the text alone.
#[verifier::external_body]
fn parse_parts(text: &str) -> (r: Option<(String, String, Option<String>, Option<String>)>)
    ensures
        r is None <==> parsed_tag(text@) is None,
        r matches Some(p) ==> parsed_tag(text@) == Some(
            (p.0@, p.1@, opt_text(p.2), opt_text(p.3)),
        ),
{
    match language_tags::LanguageTag::parse(text) {
        Ok(tag) => Some((
            tag.as_str().to_string(),
            tag.primary_language().to_string(),
            tag.script().map(|s| s.to_string()),
            tag.region().map(|s| s.to_string()),
        )),
        Err(_) => None,
    }
}

/// The text parses as a language tag.
pub open spec fn is_tag_text(text: Seq<char>) -> bool {
    parsed_tag(text) is Some
}

/// The primary language subtag of a tag's text.
pub open spec fn tag_primary(text: Seq<char>) -> Seq<char> {
    parsed_tag(text).unwrap().1
}

/// The script subtag of a tag's text.
pub open spec fn tag_script(text: Seq<char>) -> Option<Seq<char>> {
    parsed_tag(text).unwrap().2
}

/// The region subtag of a tag's text.
pub open spec fn tag_region(text: Seq<char>) -> Option<Seq<char>> {
    parsed_tag(text).unwrap().3
}

/// A language tag such as `en-US` or `zh-Hans`.
///
/// It keeps the text it was parsed from, which is what crosses the boundary,
/// and the parts read from that text.
#[derive(Debug)]
pub struct LanguageTag {
    text: String,
    canonical: String,
    primary: String,
    script: Option<String>,
    region: Option<String>,
}

impl View for LanguageTag {
    type V = Seq<char>;

    closed spec fn view(&self) -> Seq<char> {
        self.text@
    }
}

impl LanguageTag {
    #[verifier::type_invariant]
    spec fn parts_match(&self) -> bool {
        parsed_tag(self.text@) == Some(
            (self.canonical@, self.primary@, opt_text(self.script), opt_text(self.region)),
        )
    }

    /// Parses a tag from its text.
    pub fn parse(text: &str) -> (r: Result<LanguageTag, String>)
        ensures
            r is Ok <==> is_tag_text(text@),
            r matches Ok(t) ==> t@ == text@,
    {
        match parse_parts(text) {
            Some((canonical, primary, script, region)) => Ok(
                LanguageTag { text: text.to_string(), canonical, primary, script, region },
            ),
            None => {
                let mut msg = String::from_str("invalid language tag: ");
                msg.append(text);
                Err(msg)
            },
        }
    }

    /// The text of every tag parses.
    pub fn text(&self) -> (r: &String)
        ensures
            r@ == self@,
            is_tag_text(self@),
    {
        proof {
            use_type_invariant(self);
        }
        &self.text
    }

    /// The serialization of the tag, with the case of each subtag normalized
    /// (`en-us` gives `en-US`).
    pub fn as_str(&self) -> (r: &str)
        ensures
            r@ == parsed_tag(self@).unwrap().0,
    {
        proof {
            use_type_invariant(self);
        }
        self.canonical.as_str()
    }

    /// The message that refuses this tag.
    pub fn unsupported_message(&self) -> (r: String)
        ensures
            r@ == "Unsupported language tag: "@ + parsed_tag(self@).unwrap().0,
    {
        proof {
            use_type_invariant(self);
        }
        let mut msg = String::from_str("Unsupported language tag: ");
        msg.append(self.canonical.as_str());
        msg
    }

    /// The primary language subtag, such as `zh` in `zh-Hans-CN`.
    pub fn primary_language(&self) -> (r: &str)
        ensures
            r@ == tag_primary(self@),
    {
        proof {
            use_type_invariant(self);
        }
        self.primary.as_str()
    }

    /// The script subtag, such as `Hans` in `zh-Hans-CN`.
    pub fn script(&self) -> (r: Option<&String>)
        ensures
            match r {
                Some(s) => tag_script(self@) == Some(s@),
                None => tag_script(self@) is None,
            },
    {
        proof {
            use_type_invariant(self);
        }
        self.script.as_ref()
    }

    /// The region subtag, such as `CN` in `zh-Hans-CN`.
    pub fn region(&self) -> (r: Option<&String>)
        ensures
            match r {
                Some(s) => tag_region(self@) == Some(s@),
                None => tag_region(self@) is None,
            },
    {
        proof {
            use_type_invariant(self);
        }
        self.region.as_ref()
    }
}

} // verus!
