//! The configuration model: one `Site` per watched endpoint, plus the
//! notifier's credentials. Loading and layering of configuration files is the
//! surrounding binary's concern; the library only requires the final merged
//! values and states which fields the declared parser variant needs.

use vstd::prelude::*;

verus! {

/// Which extraction strategy a site uses.
#[derive(Debug, Clone, Copy, PartialEq, Eq, Structural)]
pub enum ParserType {
    Html,
    Json,
}

/// One configured watch target. Immutable after load; the variant-specific
/// optional fields must be populated for whichever `parser_type` is declared
/// (see `html_site_wf` and `json_site_wf`).
#[derive(Debug, Clone)]
pub struct Site {
    pub name: String,
    pub parser_type: ParserType,
    pub endpoint: String,
    pub interval_seconds: u64,

    // html settings
    pub selector: Option<String>,
    pub ignored_texts: Option<Vec<String>>,

    // json settings
    pub preflight_request: Option<String>,
    pub csrf_token_selector: Option<String>,
    pub csrf_token_header: Option<String>,
    pub max_allowed_price_uah: Option<u64>,
}

/// The mathematical image of a `Site`: every string a sequence of characters.
#[verifier::ext_equal]
pub ghost struct SiteView {
    pub name: Seq<char>,
    pub parser_type: ParserType,
    pub endpoint: Seq<char>,
    pub interval_seconds: u64,
    pub selector: Option<Seq<char>>,
    pub ignored_texts: Option<Seq<Seq<char>>>,
    pub preflight_request: Option<Seq<char>>,
    pub csrf_token_selector: Option<Seq<char>>,
    pub csrf_token_header: Option<Seq<char>>,
    pub max_allowed_price_uah: Option<u64>,
}

impl View for Site {
    type V = SiteView;

    open spec fn view(&self) -> SiteView {
        SiteView {
            name: self.name@,
            parser_type: self.parser_type,
            endpoint: self.endpoint@,
            interval_seconds: self.interval_seconds,
            selector: self.selector.deep_view(),
            ignored_texts: self.ignored_texts.deep_view(),
            preflight_request: self.preflight_request.deep_view(),
            csrf_token_selector: self.csrf_token_selector.deep_view(),
            csrf_token_header: self.csrf_token_header.deep_view(),
            max_allowed_price_uah: self.max_allowed_price_uah,
        }
    }
}

/// An HTML site carries a selector and an ordered list of ignored substrings.
pub open spec fn html_site_wf(s: SiteView) -> bool {
    &&& s.parser_type == ParserType::Html
    &&& s.selector is Some
    &&& s.ignored_texts is Some
}

/// A JSON site carries a price threshold; if a preflight request is
/// configured, the token selector and the token header must be too.
pub open spec fn json_site_wf(s: SiteView) -> bool {
    &&& s.parser_type == ParserType::Json
    &&& s.max_allowed_price_uah is Some
    &&& (s.preflight_request is Some ==> s.csrf_token_selector is Some
        && s.csrf_token_header is Some)
}

/// An owned copy of a list of strings, equal entry by entry.
fn clone_string_vec(v: &Vec<String>) -> (r: Vec<String>)
    ensures
        r@ == v@,
{
    let mut r: Vec<String> = Vec::new();
    let mut i: usize = 0;
    while i < v.len()
        invariant
            i <= v@.len(),
            r@ == v@.subrange(0, i as int),
        decreases v@.len() - i,
    {
        r.push(v[i].clone());
        i = i + 1;
        proof {
            assert(r@ =~= v@.subrange(0, i as int));
        }
    }
    proof {
        assert(r@ =~= v@);
    }
    r
}

/// An owned copy of an optional string.
fn clone_opt_string(o: &Option<String>) -> (r: Option<String>)
    ensures
        r == *o,
{
    match o {
        Some(s) => Some(s.clone()),
        None => None,
    }
}

impl Site {
    /// An owned copy of the configuration, with the same mathematical image.
    pub fn duplicate(&self) -> (r: Site)
        ensures
            r@ == self@,
    {
        let r = Site {
            name: self.name.clone(),
            parser_type: self.parser_type,
            endpoint: self.endpoint.clone(),
            interval_seconds: self.interval_seconds,
            selector: clone_opt_string(&self.selector),
            ignored_texts: match &self.ignored_texts {
                Some(v) => Some(clone_string_vec(v)),
                None => None,
            },
            preflight_request: clone_opt_string(&self.preflight_request),
            csrf_token_selector: clone_opt_string(&self.csrf_token_selector),
            csrf_token_header: clone_opt_string(&self.csrf_token_header),
            max_allowed_price_uah: self.max_allowed_price_uah,
        };
        proof {
            assert(r@ =~~= self@);
        }
        r
    }
}

/// The notifier's credentials.
#[derive(Debug, Clone)]
pub struct TelegramSettings {
    pub token: String,
    pub chat_id: String,
}

/// The final merged configuration: the list of watch targets and the
/// notifier's credentials. The surrounding binary assembles it.
#[derive(Debug)]
pub struct Settings {
    pub telegram: TelegramSettings,
    pub sites: Vec<Site>,
}

} // verus!
