//! The vendor-specific record filter for the price feed: decode the feed,
//! scan the records in feed order, and report the first one at or under the
//! configured price threshold that is in stock.

use vstd::prelude::*;
use vstd::string::StringExecFns;
use crate::NotifyData;
use crate::PollError;
use crate::settings::Site;
use crate::text::chars_to_string;
use crate::text::dec_spec;
use crate::text::format_u64;

verus! {

/// One decoded feed record: the fields the filter reads. The feed carries
/// many further fields; they play no part in matching and are not kept.
#[derive(Debug, Clone)]
pub struct Price {
    pub price_uah_real_raw: u64,
    pub stock_type_id: String,
    pub firm_title: String,
    pub stock_type: String,
}

/// The mathematical image of a `Price`.
#[verifier::ext_equal]
pub ghost struct PriceView {
    pub price_uah_real_raw: u64,
    pub stock_type_id: Seq<char>,
    pub firm_title: Seq<char>,
    pub stock_type: Seq<char>,
}

impl View for Price {
    type V = PriceView;

    open spec fn view(&self) -> PriceView {
        PriceView {
            price_uah_real_raw: self.price_uah_real_raw,
            stock_type_id: self.stock_type_id@,
            firm_title: self.firm_title@,
            stock_type: self.stock_type@,
        }
    }
}

/// The decoded shape of the whole feed.
#[derive(Debug, Clone)]
pub struct RootObject {
    pub prices: Vec<Price>,
}

/// The images of a list of records.
pub open spec fn prices_view(s: Seq<Price>) -> Seq<PriceView> {
    s.map_values(|p: Price| p@)
}

/// Whether serde_json decodes the text as the feed shape: a JSON object with
/// a `prices` array whose entries carry the four fields the filter reads.
pub uninterp spec fn feed_ok(s: Seq<char>) -> bool;

/// The records of a feed-shaped text, in feed order.
pub uninterp spec fn feed_records(s: Seq<char>) -> Seq<PriceView>;

/// Relies on serde_json (`from_str::<Value>`, `Value::get`, `as_array`,
/// `as_u64`, `as_str`): decodes the feed shape. Whether the text decodes, and
/// which records it carries, are functions of the text alone, which `feed_ok`
/// and `feed_records` name.
#[verifier::external_body]
fn decode_feed(body: &str) -> (r: Option<RootObject>)
    ensures
        r is Some <==> feed_ok(body@),
        r is Some ==> prices_view(r->Some_0.prices@) == feed_records(body@),
{
    let root: serde_json::Value = serde_json::from_str(body).ok()?;
    let mut prices: Vec<Price> = Vec::new();
    for item in root.get("prices")?.as_array()? {
        prices.push(Price {
            price_uah_real_raw: item.get("price_uah_real_raw")?.as_u64()?,
            stock_type_id: item.get("stock_type_id")?.as_str()?.to_owned(),
            firm_title: item.get("firm_title")?.as_str()?.to_owned(),
            stock_type: item.get("stock_type")?.as_str()?.to_owned(),
        });
    }
    Some(RootObject { prices })
}

/// A record fires when its price is at or under the threshold and its stock
/// tag is the in-stock sentinel.
pub open spec fn price_matches(p: PriceView, max_price: u64) -> bool {
    p.price_uah_real_raw <= max_price && p.stock_type_id == "1"@
}

/// The message a fired record produces: seller, matched price, stock label.
pub open spec fn hotline_message_spec(p: PriceView) -> Seq<char> {
    p.firm_title + " has a price of "@ + dec_spec(p.price_uah_real_raw as int)
        + " and stock type: "@ + p.stock_type
}

/// The index of the first record, in feed order, that satisfies both the
/// price and the stock predicates; `None` when no record does.
pub fn find_first_match(prices: &Vec<Price>, max_price: u64) -> (r: Option<usize>)
    ensures
        match r {
            Some(i) => i < prices@.len() && price_matches(prices@[i as int]@, max_price)
                && (forall|j: int| 0 <= j < i ==> !price_matches(#[trigger] prices@[j]@, max_price)),
            None => forall|j: int|
                0 <= j < prices@.len() ==> !price_matches(#[trigger] prices@[j]@, max_price),
        },
{
    let in_stock: String = String::from_str("1");
    let mut i: usize = 0;
    while i < prices.len()
        invariant
            i <= prices@.len(),
            in_stock@ == "1"@,
            forall|j: int| 0 <= j < i ==> !price_matches(#[trigger] prices@[j]@, max_price),
        decreases prices@.len() - i,
    {
        if prices[i].price_uah_real_raw <= max_price && prices[i].stock_type_id == in_stock {
            return Some(i);
        }
        i = i + 1;
    }
    None
}

/// The notification a fired record produces, tagged with the site's name.
pub fn hotline_notify_data(price: &Price, site_name: &String) -> (r: NotifyData)
    ensures
        r.site_name@ == site_name@,
        r.message@ == hotline_message_spec(price@),
{
    let mut message = price.firm_title.clone();
    message.append(" has a price of ");
    let digits = format_u64(price.price_uah_real_raw);
    let digits_s = chars_to_string(&digits);
    message.append(digits_s.as_str());
    message.append(" and stock type: ");
    message.append(price.stock_type.as_str());
    NotifyData { site_name: site_name.clone(), message }
}

/// The price-feed filter itself.
pub struct HotlineParser {}

impl HotlineParser {
    /// Decode the response as the price feed and report the first record, in
    /// feed order, that satisfies the price policy. A response that does not
    /// decode as the feed shape is a per-poll error; a feed with no
    /// qualifying record is a quiet `None`.
    pub fn parse_json(&self, response: String, site: &Site) -> (r: Result<
        Option<NotifyData>,
        PollError,
    >)
        requires
            site@.max_allowed_price_uah is Some,
        ensures
            r is Ok <==> feed_ok(response@),
            !feed_ok(response@) ==> r == Err::<Option<NotifyData>, PollError>(
                PollError::FeedDecode,
            ),
            ({
                let recs = feed_records(response@);
                let max = site@.max_allowed_price_uah->Some_0;
                &&& ((r matches Ok(Some(d))) <==> (feed_ok(response@) && exists|j: int|
                    0 <= j < recs.len() && price_matches(#[trigger] recs[j], max)))
                &&& ((r == Ok::<Option<NotifyData>, PollError>(None)) <==> (feed_ok(response@)
                    && forall|j: int|
                    0 <= j < recs.len() ==> !price_matches(#[trigger] recs[j], max)))
                &&& (r matches Ok(Some(d)) ==> d.site_name@ == site@.name && (exists|i: int|
                    0 <= i < recs.len() && price_matches(#[trigger] recs[i], max) && (forall|j: int|
                        0 <= j < i ==> !price_matches(#[trigger] recs[j], max)) && d.message@
                        == hotline_message_spec(recs[i])))
            }),
    {
        let root = match decode_feed(response.as_str()) {
            Some(root) => root,
            None => {
                return Err(PollError::FeedDecode);
            },
        };
        let ghost recs = feed_records(response@);
        proof {
            assert(recs =~= prices_view(root.prices@));
            assert(forall|j: int|
                0 <= j < recs.len() ==> #[trigger] recs[j] == root.prices@[j]@);
        }
        let max_price = match site.max_allowed_price_uah {
            Some(m) => m,
            None => {
                return Err(PollError::FeedDecode);
            },
        };
        match find_first_match(&root.prices, max_price) {
            Some(i) => {
                let data = hotline_notify_data(&root.prices[i], &site.name);
                proof {
                    assert(price_matches(recs[i as int], max_price) && data.message@
                        == hotline_message_spec(recs[i as int]));
                }
                Ok(Some(data))
            },
            None => Ok(None),
        }
    }
}

} // verus!
