//! The JSON extraction strategy: an optional preflight that scrapes a
//! security token out of an HTML response, then the primary fetch whose body
//! is handed to the source-specific record filter.

use vstd::prelude::*;
use vstd::string::StringExecFns;
use crate::ConfigError;
use crate::NotifyData;
use crate::PollError;
use crate::hotline_parser::HotlineParser;
use crate::hotline_parser::feed_ok;
use crate::hotline_parser::feed_records;
use crate::hotline_parser::hotline_message_spec;
use crate::hotline_parser::price_matches;
use crate::markup::check_selector;
use crate::markup::select_attr_values;
use crate::markup::selected_attrs;
use crate::markup::selector_ok;
use crate::settings::ParserType;
use crate::settings::Site;
use crate::settings::SiteView;
use crate::settings::json_site_wf;
use crate::text::chars_to_string;
use crate::text::str_to_chars;
use crate::text::trim_char;
use crate::text::trim_char_spec;

verus! {

/// A matched preflight element the token scan passes over: it carries the
/// attribute, but the value trims down to nothing.
pub open spec fn token_skippable(a: Option<Seq<char>>) -> bool {
    a is Some && trim_char_spec(a->Some_0, '"').len() == 0
}

/// The JSON extraction strategy for one site.
pub struct JsonParser {
    site: Site,
}

impl JsonParser {
    /// The captured configuration.
    pub closed spec fn site_view(&self) -> SiteView {
        self.site@
    }

    /// The captured configuration is a fully populated JSON site whose token
    /// selector, if any, parses.
    pub open spec fn wf(&self) -> bool {
        &&& json_site_wf(self.site_view())
        &&& (self.site_view().preflight_request is Some ==> selector_ok(
            self.site_view().csrf_token_selector->Some_0,
        ))
    }

    /// Capture the configuration, checking that every field the JSON
    /// strategy needs is present and that the token selector, if one is
    /// configured, parses: each is a fatal configuration error, found here
    /// rather than per poll.
    pub fn new(site: &Site) -> (r: Result<JsonParser, ConfigError>)
        ensures
            r is Ok <==> json_site_wf(site@) && (site@.preflight_request is Some ==> selector_ok(
                site@.csrf_token_selector->Some_0,
            )),
            r matches Ok(p) ==> p.site_view() == site@ && p.wf(),
            site@.parser_type != ParserType::Json ==> r == Err::<JsonParser, ConfigError>(
                ConfigError::WrongParserType,
            ),
    {
        if !matches!(site.parser_type, ParserType::Json) {
            return Err(ConfigError::WrongParserType);
        }
        if site.max_allowed_price_uah.is_none() {
            return Err(ConfigError::MissingMaxAllowedPrice);
        }
        if site.preflight_request.is_some() {
            if site.csrf_token_selector.is_none() {
                return Err(ConfigError::MissingTokenSelector);
            }
            if site.csrf_token_header.is_none() {
                return Err(ConfigError::MissingTokenHeader);
            }
            if !check_selector(site.csrf_token_selector.as_ref().unwrap().as_str()) {
                return Err(ConfigError::InvalidSelector);
            }
        }
        Ok(JsonParser { site: site.duplicate() })
    }

    /// The configured preflight request, if any. The caller fetches it and
    /// hands the response body to `get_csrftoken`.
    pub fn preflight_url(&self) -> (r: &Option<String>)
        ensures
            r.deep_view() == self.site_view().preflight_request,
    {
        &self.site.preflight_request
    }

    /// The configured name of the header that carries the token, if any.
    pub fn token_header(&self) -> (r: &Option<String>)
        ensures
            r.deep_view() == self.site_view().csrf_token_header,
    {
        &self.site.csrf_token_header
    }

    /// The header the primary fetch carries: the configured header name with
    /// the token's value, present exactly when a token was found.
    pub fn auth_header(&self, token: &Option<String>) -> (r: Option<(String, String)>)
        requires
            self.wf(),
            token is Some ==> self.site_view().csrf_token_header is Some,
        ensures
            match *token {
                Some(t) => r matches Some(h) && h.0@ == self.site_view().csrf_token_header->Some_0
                    && h.1@ == t@,
                None => r is None,
            },
    {
        match token {
            Some(t) => {
                let name = self.site.csrf_token_header.as_ref().unwrap();
                Some((name.clone(), t.clone()))
            },
            None => None,
        }
    }

    /// The token scraped out of a fetched preflight response: the `content`
    /// attribute of the first matching element, stray quote characters
    /// trimmed, elements whose value trims to nothing passed over. A matching
    /// element that lacks the attribute is a hard error for this poll; a
    /// selector that matches nothing is a quiet `None`, and the primary fetch
    /// then proceeds unauthenticated.
    pub fn get_csrftoken(&self, preflight_body: &str) -> (r: Result<Option<String>, PollError>)
        requires
            self.wf(),
            self.site_view().preflight_request is Some,
        ensures
            ({
                let tsel = self.site_view().csrf_token_selector->Some_0;
                let attrs = selected_attrs(preflight_body@, tsel, "content"@);
                &&& ((r == Err::<Option<String>, PollError>(PollError::MissingTokenAttribute))
                    <==> (exists|i: int|
                    0 <= i < attrs.len() && attrs[i] is None && (forall|j: int|
                        0 <= j < i ==> token_skippable(#[trigger] attrs[j]))))
                &&& (r is Err ==> r == Err::<Option<String>, PollError>(
                    PollError::MissingTokenAttribute,
                ))
                &&& ((r == Ok::<Option<String>, PollError>(None)) <==> (forall|i: int|
                    0 <= i < attrs.len() ==> token_skippable(#[trigger] attrs[i])))
                &&& (r matches Ok(Some(t)) ==> exists|i: int|
                    0 <= i < attrs.len() && attrs[i] is Some && t@ == trim_char_spec(
                        attrs[i]->Some_0,
                        '"',
                    ) && t@.len() > 0 && (forall|j: int|
                        0 <= j < i ==> token_skippable(#[trigger] attrs[j])))
            }),
    {
        let tsel = self.site.csrf_token_selector.as_ref().unwrap();
        let attrs = match select_attr_values(preflight_body, tsel.as_str(), "content") {
            Ok(a) => a,
            Err(_) => {
                proof {
                    assert(false);
                }
                return Err(PollError::InvalidSelector);
            },
        };
        let ghost adv = attrs.deep_view();
        let mut i: usize = 0;
        while i < attrs.len()
            invariant
                i <= attrs@.len(),
                adv == attrs.deep_view(),
                adv == selected_attrs(
                    preflight_body@,
                    self.site_view().csrf_token_selector->Some_0,
                    "content"@,
                ),
                forall|j: int| 0 <= j < i ==> token_skippable(#[trigger] adv[j]),
            decreases attrs@.len() - i,
        {
            proof {
                assert(adv[i as int] == attrs@[i as int].deep_view());
            }
            match &attrs[i] {
                None => {
                    return Err(PollError::MissingTokenAttribute);
                },
                Some(a) => {
                    let chars = str_to_chars(a.as_str());
                    let trimmed = trim_char(&chars, '"');
                    if trimmed.len() > 0 {
                        let token = chars_to_string(&trimmed);
                        proof {
                            assert(adv[i as int] is Some && token@ == trim_char_spec(
                                adv[i as int]->Some_0,
                                '"',
                            ));
                        }
                        return Ok(Some(token));
                    }
                },
            }
            i = i + 1;
        }
        Ok(None)
    }

    /// One poll attempt against an already fetched primary response. The
    /// record filter is keyed off the site's declared source name; a JSON
    /// site with any other name yields `None` unconditionally, the point of
    /// extension for further vendor-specific filters. For the implemented
    /// source the poll decides exactly as the record filter does: it succeeds
    /// exactly on feed-shaped bodies, fires exactly when a record satisfies
    /// the price policy, and reports the earliest such record.
    pub fn parse_response(&self, response: String) -> (r: Result<Option<NotifyData>, PollError>)
        requires
            self.wf(),
        ensures
            self.site_view().name != "Hotline"@ ==> r == Ok::<Option<NotifyData>, PollError>(None),
            self.site_view().name == "Hotline"@ ==> {
                let recs = feed_records(response@);
                let max = self.site_view().max_allowed_price_uah->Some_0;
                &&& (r is Ok <==> feed_ok(response@))
                &&& (!feed_ok(response@) ==> r == Err::<Option<NotifyData>, PollError>(
                    PollError::FeedDecode,
                ))
                &&& ((r matches Ok(Some(d))) <==> (feed_ok(response@) && exists|j: int|
                    0 <= j < recs.len() && price_matches(#[trigger] recs[j], max)))
                &&& ((r == Ok::<Option<NotifyData>, PollError>(None)) <==> (feed_ok(response@)
                    && forall|j: int|
                    0 <= j < recs.len() ==> !price_matches(#[trigger] recs[j], max)))
                &&& (r matches Ok(Some(d)) ==> d.site_name@ == self.site_view().name && (exists|
                    i: int,
                |
                    0 <= i < recs.len() && price_matches(#[trigger] recs[i], max) && (forall|j: int|
                        0 <= j < i ==> !price_matches(#[trigger] recs[j], max)) && d.message@
                        == hotline_message_spec(recs[i])))
            },
    {
        let hotline: String = String::from_str("Hotline");
        if !(self.site.name == hotline) {
            return Ok(None);
        }
        let parser = HotlineParser {  };
        parser.parse_json(response, &self.site)
    }
}

} // verus!
