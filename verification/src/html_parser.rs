//! The HTML extraction strategy: evaluate the configured selector against a
//! fetched page, apply the strip pass to each match, and report the first
//! match, in document order, whose cleaned content is non-empty.

use vstd::prelude::*;
use vstd::string::StringExecFns;
use crate::ConfigError;
use crate::NotifyData;
use crate::PollError;
use crate::markup::check_selector;
use crate::markup::select_inner_html;
use crate::markup::selected_inner;
use crate::markup::selector_ok;
use crate::settings::ParserType;
use crate::settings::Site;
use crate::settings::SiteView;
use crate::settings::html_site_wf;
use crate::text::chars_to_string;
use crate::text::clean_content;
use crate::text::clean_spec;
use crate::text::str_to_chars;

verus! {

/// Whether some matched element's cleaned content is non-empty: the poll
/// fires.
pub open spec fn html_fires(elems: Seq<Seq<char>>, ignored: Seq<Seq<char>>) -> bool {
    exists|i: int| 0 <= i < elems.len() && clean_spec(#[trigger] elems[i], ignored).len() > 0
}

///`i` is the first matched element, in document order, whose cleaned content
/// is non-empty.
pub open spec fn first_fired(elems: Seq<Seq<char>>, ignored: Seq<Seq<char>>, i: int) -> bool {
    &&& 0 <= i < elems.len()
    &&& clean_spec(elems[i], ignored).len() > 0
    &&& forall|j: int| 0 <= j < i ==> clean_spec(#[trigger] elems[j], ignored).len() == 0
}

/// The message a fired HTML poll produces: the endpoint and the cleaned
/// content.
pub open spec fn html_message_spec(endpoint: Seq<char>, content: Seq<char>) -> Seq<char> {
    endpoint + " has different message: "@ + content + "."@
}

/// At most one element is the first fired one: the poll decision and its
/// message are a function of the configuration and the response body alone,
/// so two polls of byte-identical bodies yield the same decision.
pub proof fn lemma_first_fired_unique(
    elems: Seq<Seq<char>>,
    ignored: Seq<Seq<char>>,
    i1: int,
    i2: int,
)
    requires
        first_fired(elems, ignored, i1),
        first_fired(elems, ignored, i2),
    ensures
        i1 == i2,
{
    if i1 < i2 {
        assert(clean_spec(elems[i1], ignored).len() == 0);
    } else if i2 < i1 {
        assert(clean_spec(elems[i2], ignored).len() == 0);
    }
}

/// Each configured ignored substring, as characters.
fn strings_to_char_vecs(l: &Vec<String>) -> (r: Vec<Vec<char>>)
    ensures
        r.deep_view() == l.deep_view(),
{
    let mut r: Vec<Vec<char>> = Vec::new();
    let mut i: usize = 0;
    while i < l.len()
        invariant
            i <= l@.len(),
            r@.len() == i,
            forall|k: int| 0 <= k < i ==> (#[trigger] r@[k])@ == l@[k]@,
        decreases l@.len() - i,
    {
        r.push(str_to_chars(l[i].as_str()));
        i = i + 1;
    }
    proof {
        assert forall|k: int| 0 <= k < l@.len() implies r.deep_view()[k] == l.deep_view()[k] by {
            assert(r.deep_view()[k] =~= r@[k]@);
        }
        assert(r.deep_view() =~~= l.deep_view());
    }
    r
}

/// The HTML extraction strategy for one site.
pub struct HtmlParser {
    site: Site,
}

impl HtmlParser {
    /// The captured configuration.
    pub closed spec fn site_view(&self) -> SiteView {
        self.site@
    }

    /// The captured configuration is a fully populated HTML site whose
    /// selector parses.
    pub open spec fn wf(&self) -> bool {
        html_site_wf(self.site_view()) && selector_ok(self.site_view().selector->Some_0)
    }

    /// Capture the configuration, checking that every field the HTML
    /// strategy needs is present and that the selector parses: each is a
    /// fatal configuration error, found here rather than per poll.
    pub fn new(site: &Site) -> (r: Result<HtmlParser, ConfigError>)
        ensures
            r is Ok <==> html_site_wf(site@) && selector_ok(site@.selector->Some_0),
            r matches Ok(p) ==> p.site_view() == site@ && p.wf(),
            site@.parser_type != ParserType::Html ==> r == Err::<HtmlParser, ConfigError>(
                ConfigError::WrongParserType,
            ),
    {
        if !matches!(site.parser_type, ParserType::Html) {
            return Err(ConfigError::WrongParserType);
        }
        if site.selector.is_none() {
            return Err(ConfigError::MissingSelector);
        }
        if site.ignored_texts.is_none() {
            return Err(ConfigError::MissingIgnoredTexts);
        }
        if !check_selector(site.selector.as_ref().unwrap().as_str()) {
            return Err(ConfigError::InvalidSelector);
        }
        Ok(HtmlParser { site: site.duplicate() })
    }

    /// One poll attempt against an already fetched response body. A selector
    /// that matches nothing, or whose every match cleans to empty, is a quiet
    /// `None`, never an error; otherwise the first match, in document order,
    /// with non-empty cleaned content fires.
    pub fn parse_response(&self, response: &str) -> (r: Result<Option<NotifyData>, PollError>)
        requires
            self.wf(),
        ensures
            ({
                let sel = self.site_view().selector->Some_0;
                let ignored = self.site_view().ignored_texts->Some_0;
                let elems = selected_inner(response@, sel);
                &&& r is Ok
                &&& ((r->Ok_0 is Some) <==> html_fires(elems, ignored))
                &&& (elems.len() == 0 ==> r == Ok::<Option<NotifyData>, PollError>(None))
                &&& (r matches Ok(Some(d)) ==> d.site_name@ == self.site_view().name
                    && (exists|i: int|
                    first_fired(elems, ignored, i) && d.message@ == html_message_spec(
                        self.site_view().endpoint,
                        clean_spec(elems[i], ignored),
                    )))
            }),
    {
        let selector = self.site.selector.as_ref().unwrap();
        let ignored = self.site.ignored_texts.as_ref().unwrap();
        let elems = match select_inner_html(response, selector.as_str()) {
            Ok(e) => e,
            Err(_) => {
                proof {
                    assert(false);
                }
                return Err(PollError::InvalidSelector);
            },
        };
        let ghost edv = elems.deep_view();
        let ghost igdv = ignored.deep_view();
        let ign_chars = strings_to_char_vecs(ignored);
        let mut i: usize = 0;
        while i < elems.len()
            invariant
                self.wf(),
                i <= elems@.len(),
                edv == elems.deep_view(),
                selector_ok(self.site_view().selector->Some_0),
                edv == selected_inner(response@, self.site_view().selector->Some_0),
                igdv == self.site_view().ignored_texts->Some_0,
                ign_chars.deep_view() == igdv,
                forall|j: int| 0 <= j < i ==> clean_spec(#[trigger] edv[j], igdv).len() == 0,
            decreases elems@.len() - i,
        {
            proof {
                assert(edv[i as int] == elems@[i as int]@);
            }
            let html_chars = str_to_chars(elems[i].as_str());
            let cleaned = clean_content(&html_chars, &ign_chars);
            if cleaned.len() > 0 {
                let mut message = self.site.endpoint.clone();
                message.append(" has different message: ");
                let cleaned_s = chars_to_string(&cleaned);
                message.append(cleaned_s.as_str());
                message.append(".");
                let data = NotifyData { site_name: self.site.name.clone(), message };
                proof {
                    assert(first_fired(edv, igdv, i as int));
                    assert(data.message@ =~= html_message_spec(
                        self.site_view().endpoint,
                        clean_spec(edv[i as int], igdv),
                    ));
                    assert(exists|k: int|
                        first_fired(edv, igdv, k) && data.message@ == html_message_spec(
                            self.site_view().endpoint,
                            clean_spec(edv[k], igdv),
                        ));
                    assert(html_fires(edv, igdv));
                }
                return Ok(Some(data));
            }
            i = i + 1;
        }
        proof {
            assert(!html_fires(edv, igdv));
        }
        Ok(None)
    }
}

} // verus!
