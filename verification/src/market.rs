//! The market listing: what can be asked of it, and how a request is written
//! as the query part of a URI.
//!
//! A query is the mandatory `vs_currency=<currency>` followed by one
//! `&<name>=<value>` segment for each filter that is present, always in the
//! order in which [`MarketRequest`] declares its fields. A filter that is
//! absent leaves no trace in the query. This holds for the page number too:
//! when no page is asked for, no `page` segment is written, and which page
//! comes back is left to the service.
//!
//! Values are written as they are. The currency, the coin ids and the category
//! are free text and are not percent-encoded; every other value is a fixed
//! token, a decimal numeral or a boolean, none of which needs escaping.

use vstd::prelude::*;
use vstd::string::StringExecFns;
use crate::text::{
    boolean, boolean_str, decimal, decimal_string, free_of, lemma_decimal_digits,
    lemma_occurrences_concat, lemma_occurrences_free, occurrences,
};

verus! {

/// The order in which the service sorts a market listing.
#[derive(Clone, Copy, Debug, PartialEq, Eq, Structural)]
pub enum Order {
    GeckoDesc,
    GeckoAsc,
    MarketCapAsc,
    MarketCapDesc,
    VolumeAsc,
    VolumeDesc,
    IdAsc,
    IdDesc,
}

impl Order {
    /// The token that the service expects for this order.
    pub open spec fn wire(self) -> Seq<char> {
        match self {
            Order::GeckoDesc => "gecko_desc"@,
            Order::GeckoAsc => "gecko_asc"@,
            Order::MarketCapAsc => "market_cap_asc"@,
            Order::MarketCapDesc => "market_cap_desc"@,
            Order::VolumeAsc => "volume_asc"@,
            Order::VolumeDesc => "volume_desc"@,
            Order::IdAsc => "id_asc"@,
            Order::IdDesc => "id_desc"@,
        }
    }

    /// The wire token of this order.
    pub fn as_str(&self) -> (s: &'static str)
        ensures
            s@ == self.wire(),
    {
        match self {
            Order::GeckoDesc => "gecko_desc",
            Order::GeckoAsc => "gecko_asc",
            Order::MarketCapAsc => "market_cap_asc",
            Order::MarketCapDesc => "market_cap_desc",
            Order::VolumeAsc => "volume_asc",
            Order::VolumeDesc => "volume_desc",
            Order::IdAsc => "id_asc",
            Order::IdDesc => "id_desc",
        }
    }

    /// The wire token of this order, as an owned string.
    pub fn to_string(&self) -> (s: String)
        ensures
            s@ == self.wire(),
    {
        String::from_str(self.as_str())
    }
}

/// The window over which the service reports a price change in percent.
#[derive(Clone, Copy, Debug, PartialEq, Eq, Structural)]
pub enum PriceChangePercentage {
    OneHour,
    TentyFourHours,
    SevenDays,
    FourteenDays,
    ThirtyDays,
    TwoHundredDays,
    OneYear,
}

impl PriceChangePercentage {
    /// The token that the service expects for this window.
    pub open spec fn wire(self) -> Seq<char> {
        match self {
            PriceChangePercentage::OneHour => "1h"@,
            PriceChangePercentage::TentyFourHours => "24h"@,
            PriceChangePercentage::SevenDays => "7d"@,
            PriceChangePercentage::FourteenDays => "14d"@,
            PriceChangePercentage::ThirtyDays => "30d"@,
            PriceChangePercentage::TwoHundredDays => "200d"@,
            PriceChangePercentage::OneYear => "1y"@,
        }
    }

    /// The wire token of this window.
    pub fn as_str(&self) -> (s: &'static str)
        ensures
            s@ == self.wire(),
    {
        match self {
            PriceChangePercentage::OneHour => "1h",
            PriceChangePercentage::TentyFourHours => "24h",
            PriceChangePercentage::SevenDays => "7d",
            PriceChangePercentage::FourteenDays => "14d",
            PriceChangePercentage::ThirtyDays => "30d",
            PriceChangePercentage::TwoHundredDays => "200d",
            PriceChangePercentage::OneYear => "1y",
        }
    }

    /// The wire token of this window, as an owned string.
    pub fn to_string(&self) -> (s: String)
        ensures
            s@ == self.wire(),
    {
        String::from_str(self.as_str())
    }
}

/// What is asked of the market listing: the currency in which prices are
/// quoted, and the filters that narrow or shape the listing.
#[derive(Debug)]
pub struct MarketRequest {
    /// The target currency of the prices. Mandatory.
    pub vs_currency: String,
    /// Ids of the coins to list, comma-separated.
    pub ids: Option<String>,
    /// The category to which the listing is limited.
    pub category: Option<String>,
    /// The order of the listing.
    pub order: Option<Order>,
    /// The number of entries on a page. The service takes 1 to 250.
    pub per_page: Option<u32>,
    /// The page of the listing.
    pub page: Option<u32>,
    /// Whether the last seven days of prices come with each entry.
    pub sparkline: Option<bool>,
    /// The window of the price change that comes with each entry.
    pub price_change_percentage: Option<PriceChangePercentage>,
}

/// A market request as plain mathematical values: texts as sequences of
/// characters, numbers as naturals.
pub struct MarketQuery {
    pub vs_currency: Seq<char>,
    pub ids: Option<Seq<char>>,
    pub category: Option<Seq<char>>,
    pub order: Option<Order>,
    pub per_page: Option<nat>,
    pub page: Option<nat>,
    pub sparkline: Option<bool>,
    pub price_change_percentage: Option<PriceChangePercentage>,
}

/// The characters of an optional text.
pub open spec fn text_of(s: Option<String>) -> Option<Seq<char>> {
    match s {
        Some(s) => Some(s@),
        None => None,
    }
}

/// An optional machine number as a natural number.
pub open spec fn number_of(n: Option<u32>) -> Option<nat> {
    match n {
        Some(n) => Some(n as nat),
        None => None,
    }
}

impl View for MarketRequest {
    type V = MarketQuery;

    open spec fn view(&self) -> MarketQuery {
        MarketQuery {
            vs_currency: self.vs_currency@,
            ids: text_of(self.ids),
            category: text_of(self.category),
            order: self.order,
            per_page: number_of(self.per_page),
            page: number_of(self.page),
            sparkline: self.sparkline,
            price_change_percentage: self.price_change_percentage,
        }
    }
}

/// One if `b` holds, zero if not.
pub open spec fn one_if(b: bool) -> nat {
    if b {
        1
    } else {
        0
    }
}

/// The part of a query that one filter contributes: `&name=value` where the
/// filter is present, nothing where it is absent.
pub open spec fn segment(name: Seq<char>, value: Option<Seq<char>>) -> Seq<char> {
    match value {
        Some(v) => seq!['&'] + name + seq!['='] + v,
        None => Seq::empty(),
    }
}

impl MarketQuery {
    /// The mandatory field, with which every query begins.
    pub open spec fn head(self) -> Seq<char> {
        "vs_currency"@ + seq!['='] + self.vs_currency
    }

    /// The order as it is written: its wire token.
    pub open spec fn order_text(self) -> Option<Seq<char>> {
        match self.order {
            Some(o) => Some(o.wire()),
            None => None,
        }
    }

    /// The page size as it is written: in decimal.
    pub open spec fn per_page_text(self) -> Option<Seq<char>> {
        match self.per_page {
            Some(n) => Some(decimal(n)),
            None => None,
        }
    }

    /// The page number as it is written: in decimal.
    pub open spec fn page_text(self) -> Option<Seq<char>> {
        match self.page {
            Some(n) => Some(decimal(n)),
            None => None,
        }
    }

    /// The sparkline flag as it is written: `true` or `false`.
    pub open spec fn sparkline_text(self) -> Option<Seq<char>> {
        match self.sparkline {
            Some(b) => Some(boolean(b)),
            None => None,
        }
    }

    /// The price-change window as it is written: its wire token.
    pub open spec fn window_text(self) -> Option<Seq<char>> {
        match self.price_change_percentage {
            Some(w) => Some(w.wire()),
            None => None,
        }
    }

    /// The query: the head, then the segment of each filter in the order of
    /// the fields.
    pub open spec fn encode(self) -> Seq<char> {
        self.head()
            + segment("ids"@, self.ids)
            + segment("category"@, self.category)
            + segment("order"@, self.order_text())
            + segment("per_page"@, self.per_page_text())
            + segment("page"@, self.page_text())
            + segment("sparkline"@, self.sparkline_text())
            + segment("price_change_percentage"@, self.window_text())
    }

    /// How many of the seven filters are present.
    pub open spec fn present(self) -> nat {
        one_if(self.ids is Some) + one_if(self.category is Some) + one_if(self.order is Some)
            + one_if(self.per_page is Some) + one_if(self.page is Some) + one_if(
            self.sparkline is Some,
        ) + one_if(self.price_change_percentage is Some)
    }
}

impl Default for MarketRequest {
    /// The request with an empty currency and no filter.
    fn default() -> (request: Self)
        ensures
            request@ == (MarketQuery {
                vs_currency: Seq::empty(),
                ids: None,
                category: None,
                order: None,
                per_page: None,
                page: None,
                sparkline: None,
                price_change_percentage: None,
            }),
    {
        MarketRequest {
            vs_currency: String::new(),
            ids: None,
            category: None,
            order: None,
            per_page: None,
            page: None,
            sparkline: None,
            price_change_percentage: None,
        }
    }
}

impl Clone for MarketRequest {
    /// A copy that is field for field the same request.
    fn clone(&self) -> (request: Self)
        ensures
            request == *self,
    {
        MarketRequest {
            vs_currency: self.vs_currency.clone(),
            ids: clone_text(&self.ids),
            category: clone_text(&self.category),
            order: self.order,
            per_page: self.per_page,
            page: self.page,
            sparkline: self.sparkline,
            price_change_percentage: self.price_change_percentage,
        }
    }
}

/// Copies an optional text.
fn clone_text(text: &Option<String>) -> (copy: Option<String>)
    ensures
        copy == *text,
{
    match text {
        Some(t) => Some(t.clone()),
        None => None,
    }
}

/// The characters of an optional string slice.
pub open spec fn slice_of(s: Option<&str>) -> Option<Seq<char>> {
    match s {
        Some(s) => Some(s@),
        None => None,
    }
}

/// Borrows an optional text as an optional slice.
fn as_slice(text: &Option<String>) -> (slice: Option<&str>)
    ensures
        slice_of(slice) == text_of(*text),
{
    match text {
        Some(t) => Some(t.as_str()),
        None => None,
    }
}

/// Appends the segment of one filter to a query under construction.
fn push_filter(query: &mut String, name: &str, value: Option<&str>)
    ensures
        final(query)@ == old(query)@ + segment(name@, slice_of(value)),
{
    match value {
        Some(v) => {
            proof {
                reveal_strlit("&");
                reveal_strlit("=");
            }
            query.append("&");
            query.append(name);
            query.append("=");
            query.append(v);
            assert(query@ =~= old(query)@ + segment(name@, slice_of(value)));
        },
        None => {
            assert(query@ =~= old(query)@ + segment(name@, slice_of(value)));
        },
    }
}

impl MarketRequest {
    /// A request with exactly the given currency and filters.
    pub fn new(
        vs_currency: String,
        ids: Option<String>,
        category: Option<String>,
        order: Option<Order>,
        per_page: Option<u32>,
        page: Option<u32>,
        sparkline: Option<bool>,
        price_change_percentage: Option<PriceChangePercentage>,
    ) -> (request: Self)
        ensures
            request == (MarketRequest {
                vs_currency,
                ids,
                category,
                order,
                per_page,
                page,
                sparkline,
                price_change_percentage,
            }),
    {
        MarketRequest {
            ids,
            vs_currency,
            category,
            order,
            per_page,
            page,
            sparkline,
            price_change_percentage,
        }
    }

    /// Writes the request as the query part of a URI, without the leading
    /// `?`: the currency first, then one segment for each filter that is
    /// present, in the order of the fields. An absent filter, the page
    /// number included, is left out altogether.
    pub fn query(&self) -> (query: String)
        ensures
            query@ == self@.encode(),
    {
        proof {
            reveal_strlit("=");
        }
        let mut query = String::from_str("vs_currency");
        query.append("=");
        query.append(self.vs_currency.as_str());
        assert(query@ =~= self@.head());
        push_filter(&mut query, "ids", as_slice(&self.ids));
        push_filter(&mut query, "category", as_slice(&self.category));
        let order = match &self.order {
            Some(order) => Some(order.as_str()),
            None => None,
        };
        push_filter(&mut query, "order", order);
        let per_page = match self.per_page {
            Some(n) => Some(decimal_string(n)),
            None => None,
        };
        push_filter(&mut query, "per_page", as_slice(&per_page));
        let page = match self.page {
            Some(n) => Some(decimal_string(n)),
            None => None,
        };
        push_filter(&mut query, "page", as_slice(&page));
        let sparkline = match self.sparkline {
            Some(b) => Some(boolean_str(b)),
            None => None,
        };
        push_filter(&mut query, "sparkline", sparkline);
        let window = match &self.price_change_percentage {
            Some(window) => Some(window.as_str()),
            None => None,
        };
        push_filter(&mut query, "price_change_percentage", window);
        query
    }
}

/// A character that may stand in a wire token: a lower-case letter, a digit
/// or an underscore.
pub open spec fn is_token_char(c: char) -> bool {
    ||| 'a' <= c <= 'z'
    ||| '0' <= c <= '9'
    ||| c == '_'
}

/// A text made of token characters only.
pub open spec fn is_token(s: Seq<char>) -> bool {
    s.len() > 0 && forall|i: int| 0 <= i < s.len() ==> is_token_char(#[trigger] s[i])
}

/// The wire token of an order is exactly the entry of the table below, and
/// is made of token characters only.
pub proof fn lemma_order_wire_table(o: Order)
    ensures
        o == Order::GeckoDesc ==> o.wire() == seq![
            'g', 'e', 'c', 'k', 'o', '_', 'd', 'e', 's', 'c',
        ],
        o == Order::GeckoAsc ==> o.wire() == seq!['g', 'e', 'c', 'k', 'o', '_', 'a', 's', 'c'],
        o == Order::MarketCapAsc ==> o.wire() == seq![
            'm', 'a', 'r', 'k', 'e', 't', '_', 'c', 'a', 'p', '_', 'a', 's', 'c',
        ],
        o == Order::MarketCapDesc ==> o.wire() == seq![
            'm', 'a', 'r', 'k', 'e', 't', '_', 'c', 'a', 'p', '_', 'd', 'e', 's', 'c',
        ],
        o == Order::VolumeAsc ==> o.wire() == seq![
            'v', 'o', 'l', 'u', 'm', 'e', '_', 'a', 's', 'c',
        ],
        o == Order::VolumeDesc ==> o.wire() == seq![
            'v', 'o', 'l', 'u', 'm', 'e', '_', 'd', 'e', 's', 'c',
        ],
        o == Order::IdAsc ==> o.wire() == seq!['i', 'd', '_', 'a', 's', 'c'],
        o == Order::IdDesc ==> o.wire() == seq!['i', 'd', '_', 'd', 'e', 's', 'c'],
        is_token(o.wire()),
{
    reveal_strlit("gecko_desc");
    reveal_strlit("gecko_asc");
    reveal_strlit("market_cap_asc");
    reveal_strlit("market_cap_desc");
    reveal_strlit("volume_asc");
    reveal_strlit("volume_desc");
    reveal_strlit("id_asc");
    reveal_strlit("id_desc");
}

/// Every order has a wire token of its own: two orders with the same token
/// are the same order.
pub proof fn lemma_order_wire_injective(a: Order, b: Order)
    ensures
        a.wire() == b.wire() <==> a == b,
{
    lemma_order_wire_table(a);
    lemma_order_wire_table(b);
    if a != b && a.wire().len() == b.wire().len() {
        assert(a.wire()[0] != b.wire()[0]);
    }
}

/// The wire token of a window is exactly the entry of the table below, and
/// is made of token characters only.
pub proof fn lemma_window_wire_table(w: PriceChangePercentage)
    ensures
        w == PriceChangePercentage::OneHour ==> w.wire() == seq!['1', 'h'],
        w == PriceChangePercentage::TentyFourHours ==> w.wire() == seq!['2', '4', 'h'],
        w == PriceChangePercentage::SevenDays ==> w.wire() == seq!['7', 'd'],
        w == PriceChangePercentage::FourteenDays ==> w.wire() == seq!['1', '4', 'd'],
        w == PriceChangePercentage::ThirtyDays ==> w.wire() == seq!['3', '0', 'd'],
        w == PriceChangePercentage::TwoHundredDays ==> w.wire() == seq!['2', '0', '0', 'd'],
        w == PriceChangePercentage::OneYear ==> w.wire() == seq!['1', 'y'],
        is_token(w.wire()),
{
    reveal_strlit("1h");
    reveal_strlit("24h");
    reveal_strlit("7d");
    reveal_strlit("14d");
    reveal_strlit("30d");
    reveal_strlit("200d");
    reveal_strlit("1y");
}

/// Every window has a wire token of its own: two windows with the same
/// token are the same window.
pub proof fn lemma_window_wire_injective(a: PriceChangePercentage, b: PriceChangePercentage)
    ensures
        a.wire() == b.wire() <==> a == b,
{
    lemma_window_wire_table(a);
    lemma_window_wire_table(b);
    if a != b && a.wire().len() == b.wire().len() {
        assert(a.wire()[0] != b.wire()[0] || a.wire()[1] != b.wire()[1]);
    }
}

/// A token holds neither `&` nor `=`, the two characters that give a query
/// its structure.
pub proof fn lemma_token_is_plain(s: Seq<char>)
    requires
        is_token(s),
    ensures
        free_of(s, '&'),
        free_of(s, '='),
{
    assert forall|i: int| 0 <= i < s.len() implies s[i] != '&' && s[i] != '=' by {
        assert(is_token_char(s[i]));
    }
}

/// The names under which the query carries its fields are tokens.
proof fn lemma_names_are_tokens()
    ensures
        is_token("vs_currency"@),
        is_token("ids"@),
        is_token("category"@),
        is_token("order"@),
        is_token("per_page"@),
        is_token("page"@),
        is_token("sparkline"@),
        is_token("price_change_percentage"@),
{
    reveal_strlit("vs_currency");
    reveal_strlit("ids");
    reveal_strlit("category");
    reveal_strlit("order");
    reveal_strlit("per_page");
    reveal_strlit("page");
    reveal_strlit("sparkline");
    reveal_strlit("price_change_percentage");
}

/// The text of every value that is not free text is a token: the wire
/// tokens, the numerals and the booleans.
pub proof fn lemma_fixed_values_are_tokens(q: MarketQuery)
    ensures
        q.order_text() matches Some(t) ==> is_token(t),
        q.per_page_text() matches Some(t) ==> is_token(t),
        q.page_text() matches Some(t) ==> is_token(t),
        q.sparkline_text() matches Some(t) ==> is_token(t),
        q.window_text() matches Some(t) ==> is_token(t),
{
    if let Some(o) = q.order {
        lemma_order_wire_table(o);
    }
    if let Some(n) = q.per_page {
        lemma_decimal_digits(n);
    }
    if let Some(n) = q.page {
        lemma_decimal_digits(n);
    }
    if q.sparkline is Some {
        reveal_strlit("true");
        reveal_strlit("false");
    }
    if let Some(w) = q.price_change_percentage {
        lemma_window_wire_table(w);
    }
}

/// A segment whose name and value hold no `&` holds exactly one, at its
/// start, if the filter is present, and none if it is absent.
pub proof fn lemma_segment_ampersands(name: Seq<char>, value: Option<Seq<char>>)
    requires
        free_of(name, '&'),
        value matches Some(v) ==> free_of(v, '&'),
    ensures
        occurrences(segment(name, value), '&') == if value is Some {
            1nat
        } else {
            0nat
        },
        value is Some ==> segment(name, value)[0] == '&',
        value is None ==> segment(name, value).len() == 0,
{
    match value {
        Some(v) => {
            let amp = seq!['&'];
            let eq = seq!['='];
            lemma_occurrences_concat(amp + name + eq, v, '&');
            lemma_occurrences_concat(amp + name, eq, '&');
            lemma_occurrences_concat(amp, name, '&');
            lemma_occurrences_free(name, '&');
            lemma_occurrences_free(v, '&');
            lemma_occurrences_free(eq, '&');
            assert(amp.drop_last() =~= Seq::<char>::empty());
            assert(occurrences(amp, '&') == 1) by {
                reveal_with_fuel(occurrences, 2);
            }
        },
        None => {},
    }
}

/// Every query begins with the mandatory field: `vs_currency=` and the
/// currency.
pub proof fn lemma_query_begins_with_currency(q: MarketQuery)
    ensures
        q.head().is_prefix_of(q.encode()),
        q.head() == "vs_currency="@ + q.vs_currency,
{
    reveal_strlit("vs_currency");
    reveal_strlit("vs_currency=");
    assert("vs_currency"@ + seq!['='] =~= "vs_currency="@);
}

/// With every filter absent the query is the mandatory field alone.
pub proof fn lemma_query_without_filters(q: MarketQuery)
    requires
        q.present() == 0,
    ensures
        q.encode() == q.head(),
{
    assert(q.encode() =~= q.head());
}

/// A query holds one segment for each filter that is present and none for
/// one that is absent: where the free texts (currency, coin ids and
/// category) hold no `&` themselves, the `&` that opens a segment occurs in
/// the query exactly as often as there are filters present.
pub proof fn lemma_query_one_segment_per_filter(q: MarketQuery)
    requires
        free_of(q.vs_currency, '&'),
        q.ids matches Some(t) ==> free_of(t, '&'),
        q.category matches Some(t) ==> free_of(t, '&'),
    ensures
        occurrences(q.encode(), '&') == q.present(),
{
    lemma_names_are_tokens();
    lemma_fixed_values_are_tokens(q);
    lemma_token_is_plain("vs_currency"@);
    lemma_token_is_plain("ids"@);
    lemma_token_is_plain("category"@);
    lemma_token_is_plain("order"@);
    lemma_token_is_plain("per_page"@);
    lemma_token_is_plain("page"@);
    lemma_token_is_plain("sparkline"@);
    lemma_token_is_plain("price_change_percentage"@);
    if let Some(t) = q.order_text() {
        lemma_token_is_plain(t);
    }
    if let Some(t) = q.per_page_text() {
        lemma_token_is_plain(t);
    }
    if let Some(t) = q.page_text() {
        lemma_token_is_plain(t);
    }
    if let Some(t) = q.sparkline_text() {
        lemma_token_is_plain(t);
    }
    if let Some(t) = q.window_text() {
        lemma_token_is_plain(t);
    }
    let s1 = segment("ids"@, q.ids);
    let s2 = segment("category"@, q.category);
    let s3 = segment("order"@, q.order_text());
    let s4 = segment("per_page"@, q.per_page_text());
    let s5 = segment("page"@, q.page_text());
    let s6 = segment("sparkline"@, q.sparkline_text());
    let s7 = segment("price_change_percentage"@, q.window_text());
    lemma_segment_ampersands("ids"@, q.ids);
    lemma_segment_ampersands("category"@, q.category);
    lemma_segment_ampersands("order"@, q.order_text());
    lemma_segment_ampersands("per_page"@, q.per_page_text());
    lemma_segment_ampersands("page"@, q.page_text());
    lemma_segment_ampersands("sparkline"@, q.sparkline_text());
    lemma_segment_ampersands("price_change_percentage"@, q.window_text());
    let h = q.head();
    assert(occurrences(h, '&') == 0) by {
        let eq = seq!['='];
        lemma_occurrences_concat("vs_currency"@ + eq, q.vs_currency, '&');
        lemma_occurrences_concat("vs_currency"@, eq, '&');
        lemma_occurrences_free("vs_currency"@, '&');
        lemma_occurrences_free(eq, '&');
        lemma_occurrences_free(q.vs_currency, '&');
    }
    lemma_occurrences_concat(h, s1, '&');
    lemma_occurrences_concat(h + s1, s2, '&');
    lemma_occurrences_concat(h + s1 + s2, s3, '&');
    lemma_occurrences_concat(h + s1 + s2 + s3, s4, '&');
    lemma_occurrences_concat(h + s1 + s2 + s3 + s4, s5, '&');
    lemma_occurrences_concat(h + s1 + s2 + s3 + s4 + s5, s6, '&');
    lemma_occurrences_concat(h + s1 + s2 + s3 + s4 + s5 + s6, s7, '&');
}

} // verus!
