use vstd::prelude::*;
use vstd::string::*;

verus! {

/// Candle width of a kline feed.
#[derive(Debug, Clone, Copy, Hash, PartialEq, Eq, Structural)]
pub enum KlineIntervalTopic {
    Min1,
    Min5,
    Min15,
    Min30,
    Min60,
    Hour4,
    Hour8,
    Day1,
    Week1,
    Month1,
}

impl KlineIntervalTopic {
    /// The wire token of the interval.
    pub open spec fn token(self) -> Seq<char> {
        match self {
            KlineIntervalTopic::Min1 => "Min1"@,
            KlineIntervalTopic::Min5 => "Min5"@,
            KlineIntervalTopic::Min15 => "Min15"@,
            KlineIntervalTopic::Min30 => "Min30"@,
            KlineIntervalTopic::Min60 => "Min60"@,
            KlineIntervalTopic::Hour4 => "Hour4"@,
            KlineIntervalTopic::Hour8 => "Hour8"@,
            KlineIntervalTopic::Day1 => "Day1"@,
            KlineIntervalTopic::Week1 => "Week1"@,
            KlineIntervalTopic::Month1 => "Month1"@,
        }
    }

    pub fn as_str(&self) -> (r: &'static str)
        ensures
            r@ == self.token(),
    {
        match self {
            KlineIntervalTopic::Min1 => "Min1",
            KlineIntervalTopic::Min5 => "Min5",
            KlineIntervalTopic::Min15 => "Min15",
            KlineIntervalTopic::Min30 => "Min30",
            KlineIntervalTopic::Min60 => "Min60",
            KlineIntervalTopic::Hour4 => "Hour4",
            KlineIntervalTopic::Hour8 => "Hour8",
            KlineIntervalTopic::Day1 => "Day1",
            KlineIntervalTopic::Week1 => "Week1",
            KlineIntervalTopic::Month1 => "Month1",
        }
    }
}

/// A subscribable feed.
#[derive(Debug, Clone, Hash, PartialEq, Eq)]
pub enum Topic {
    AccountDeals,
    AccountOrders,
    AccountUpdate,
    Deals(DealsTopic),
    Kline(KlineTopic),
    Depth(DepthTopic),
    BookTicker(String),
    BookTickerBatch(String),
}

/// Whether a feed is scoped to the authenticated account.
pub open spec fn topic_requires_auth(t: Topic) -> bool {
    t is AccountDeals || t is AccountOrders || t is AccountUpdate
}

/// The subscription string of a feed.
pub open spec fn subscription_of(t: Topic) -> Seq<char> {
    match t {
        Topic::AccountDeals => "spot@private.deals.v3.api.pb"@,
        Topic::AccountOrders => "spot@private.orders.v3.api.pb"@,
        Topic::AccountUpdate => "spot@private.account.v3.api.pb"@,
        Topic::Deals(d) => "spot@public.aggre.deals.v3.api.pb@10ms@"@ + d.symbol@,
        Topic::Kline(k) => "spot@public.kline.v3.api.pb@"@ + k.symbol@ + "@"@ + k.interval.token(),
        Topic::Depth(d) => "spot@public.aggre.depth.v3.api.pb@10@"@ + d.symbol@,
        Topic::BookTicker(s) => "spot@public.aggre.bookTicker.v3.api.pb@10ms@"@ + s@,
        Topic::BookTickerBatch(s) => "spot@public.bookTicker.batch.v3.api.pb@"@ + s@,
    }
}

/// The symbol a feed is keyed by; account feeds have none.
pub open spec fn symbol_of(t: Topic) -> Option<String> {
    match t {
        Topic::Deals(d) => Some(d.symbol),
        Topic::Kline(k) => Some(k.symbol),
        Topic::Depth(d) => Some(d.symbol),
        Topic::BookTicker(s) => Some(s),
        Topic::BookTickerBatch(s) => Some(s),
        _ => None,
    }
}

/// The same feed keyed by another symbol; account feeds stay as they are.
pub open spec fn with_symbol(t: Topic, s: String) -> Topic {
    match t {
        Topic::Deals(_) => Topic::Deals(DealsTopic { symbol: s }),
        Topic::Kline(k) => Topic::Kline(KlineTopic { symbol: s, interval: k.interval }),
        Topic::Depth(_) => Topic::Depth(DepthTopic { symbol: s }),
        Topic::BookTicker(_) => Topic::BookTicker(s),
        Topic::BookTickerBatch(_) => Topic::BookTickerBatch(s),
        _ => t,
    }
}

/// The text of a subscription string before the symbol segment.
pub open spec fn segment_before_symbol(t: Topic) -> Seq<char> {
    match t {
        Topic::Deals(_) => "spot@public.aggre.deals.v3.api.pb@10ms@"@,
        Topic::Kline(_) => "spot@public.kline.v3.api.pb@"@,
        Topic::Depth(_) => "spot@public.aggre.depth.v3.api.pb@10@"@,
        Topic::BookTicker(_) => "spot@public.aggre.bookTicker.v3.api.pb@10ms@"@,
        Topic::BookTickerBatch(_) => "spot@public.bookTicker.batch.v3.api.pb@"@,
        _ => subscription_of(t),
    }
}

/// The text of a subscription string after the symbol segment.
pub open spec fn segment_after_symbol(t: Topic) -> Seq<char> {
    match t {
        Topic::Kline(k) => "@"@ + k.interval.token(),
        _ => Seq::empty(),
    }
}

/// Changing the symbol of a feed changes only the symbol segment of its
/// subscription string: the text before and after the symbol stays the same,
/// and account feeds, which have no symbol, keep their string.
pub proof fn lemma_symbol_segment(t: Topic, a: String, b: String)
    ensures
        symbol_of(t) is Some ==> subscription_of(with_symbol(t, a)) == segment_before_symbol(t) + a@
            + segment_after_symbol(t),
        symbol_of(t) is Some ==> subscription_of(with_symbol(t, b)) == segment_before_symbol(t) + b@
            + segment_after_symbol(t),
        symbol_of(t) is None ==> subscription_of(with_symbol(t, a)) == subscription_of(t),
{
    match t {
        Topic::Kline(k) => {
            assert(subscription_of(with_symbol(t, a)) =~= segment_before_symbol(t) + a@
                + segment_after_symbol(t));
            assert(subscription_of(with_symbol(t, b)) =~= segment_before_symbol(t) + b@
                + segment_after_symbol(t));
        },
        _ => {
            assert(subscription_of(with_symbol(t, a)) =~= segment_before_symbol(t) + a@
                + segment_after_symbol(t) || symbol_of(t) is None);
            assert(subscription_of(with_symbol(t, b)) =~= segment_before_symbol(t) + b@
                + segment_after_symbol(t) || symbol_of(t) is None);
        },
    }
}

/// Which of the eight feed kinds a topic is.
pub open spec fn kind_of(t: Topic) -> int {
    match t {
        Topic::AccountDeals => 0,
        Topic::AccountOrders => 1,
        Topic::AccountUpdate => 2,
        Topic::Deals(_) => 3,
        Topic::Kline(_) => 4,
        Topic::Depth(_) => 5,
        Topic::BookTicker(_) => 6,
        Topic::BookTickerBatch(_) => 7,
    }
}

/// Characters at fixed places of a subscription string, which tell the feed
/// kinds apart.
pub open spec fn signature(s: Seq<char>) -> (char, char, char, char, char) {
    (s[6], s[12], s[13], s[18], s[20])
}

proof fn lemma_signature_of_kind(t: Topic)
    ensures
        subscription_of(t).len() > 20,
        signature(subscription_of(t)) == match t {
            Topic::AccountDeals => ('r', '.', 'd', '.', '3'),
            Topic::AccountOrders => ('r', '.', 'o', 's', 'v'),
            Topic::AccountUpdate => ('r', '.', 'a', 'n', '.'),
            Topic::Deals(_) => ('u', 'a', 'g', 'd', 'a'),
            Topic::Kline(_) => ('u', 'k', 'l', 'v', '.'),
            Topic::Depth(_) => ('u', 'a', 'g', 'd', 'p'),
            Topic::BookTicker(_) => ('u', 'a', 'g', 'b', 'o'),
            Topic::BookTickerBatch(_) => ('u', 'b', 'o', 'c', 'e'),
        },
{
    reveal_strlit("spot@private.deals.v3.api.pb");
    reveal_strlit("spot@private.orders.v3.api.pb");
    reveal_strlit("spot@private.account.v3.api.pb");
    reveal_strlit("spot@public.aggre.deals.v3.api.pb@10ms@");
    reveal_strlit("spot@public.kline.v3.api.pb@");
    reveal_strlit("spot@public.aggre.depth.v3.api.pb@10@");
    reveal_strlit("spot@public.aggre.bookTicker.v3.api.pb@10ms@");
    reveal_strlit("spot@public.bookTicker.batch.v3.api.pb@");
}

/// No two feed kinds render to the same subscription string.
pub proof fn lemma_kinds_render_apart(t1: Topic, t2: Topic)
    requires
        kind_of(t1) != kind_of(t2),
    ensures
        subscription_of(t1) != subscription_of(t2),
{
    lemma_signature_of_kind(t1);
    lemma_signature_of_kind(t2);
}

proof fn lemma_token_facts(i: KlineIntervalTopic)
    ensures
        4 <= i.token().len() <= 6,
        forall|j: int| 0 <= j < i.token().len() ==> i.token()[j] != '@',
        forall|k: KlineIntervalTopic| #[trigger] k.token() == i.token() ==> k == i,
{
    reveal_strlit("Min1");
    reveal_strlit("Min5");
    reveal_strlit("Min15");
    reveal_strlit("Min30");
    reveal_strlit("Min60");
    reveal_strlit("Hour4");
    reveal_strlit("Hour8");
    reveal_strlit("Day1");
    reveal_strlit("Week1");
    reveal_strlit("Month1");
    assert forall|k: KlineIntervalTopic| #[trigger] k.token() == i.token() implies k == i by {
        if k != i {
            assert(k.token().len() != i.token().len() || k.token()[0] != i.token()[0] || k.token()[3]
                != i.token()[3] || k.token()[4] != i.token()[4]);
        }
    }
}

/// What a subscription string determines: the feed kind, the symbol's text
/// and the kline interval.
pub open spec fn topic_key(t: Topic) -> (int, Seq<char>, Option<KlineIntervalTopic>) {
    match t {
        Topic::Kline(k) => (kind_of(t), k.symbol@, Some(k.interval)),
        _ => (
            kind_of(t),
            match symbol_of(t) {
                Some(s) => s@,
                None => Seq::empty(),
            },
            None,
        ),
    }
}

/// Rendering is injective: equal subscription strings come from topics of the
/// same kind, with the same symbol text and the same interval.
pub proof fn lemma_subscription_injective(t1: Topic, t2: Topic)
    requires
        subscription_of(t1) == subscription_of(t2),
    ensures
        topic_key(t1) == topic_key(t2),
{
    if kind_of(t1) != kind_of(t2) {
        lemma_kinds_render_apart(t1, t2);
    } else {
        let p = segment_before_symbol(t1);
        let a = subscription_of(t1);
        match (t1, t2) {
            (Topic::Kline(k1), Topic::Kline(k2)) => {
                let x = k1.interval.token();
                let y = k2.interval.token();
                lemma_token_facts(k1.interval);
                lemma_token_facts(k2.interval);
                let n = a.len() as int;
                assert(a == p + k1.symbol@ + "@"@ + x);
                assert(a == p + k2.symbol@ + "@"@ + y);
                reveal_strlit("@");
                if x.len() < y.len() {
                    assert(a[n - x.len() - 1] == '@');
                    assert(a[n - x.len() - 1] == y[y.len() - x.len() - 1]);
                } else if y.len() < x.len() {
                    assert(a[n - y.len() - 1] == '@');
                    assert(a[n - y.len() - 1] == x[x.len() - y.len() - 1]);
                } else {
                    assert(x =~= a.subrange(n - x.len(), n));
                    assert(y =~= a.subrange(n - y.len(), n));
                    assert(k1.symbol@ =~= a.subrange(p.len() as int, n - x.len() - 1));
                    assert(k2.symbol@ =~= a.subrange(p.len() as int, n - y.len() - 1));
                }
            },
            _ => {
                if symbol_of(t1) is Some {
                    let s1 = symbol_of(t1)->0;
                    let s2 = symbol_of(t2)->0;
                    assert(a == p + s1@);
                    assert(a == p + s2@);
                    assert(s1@ =~= a.subrange(p.len() as int, a.len() as int));
                    assert(s2@ =~= a.subrange(p.len() as int, a.len() as int));
                }
            },
        }
    }
}

impl Topic {
    pub fn requires_auth(&self) -> (r: bool)
        ensures
            r == topic_requires_auth(*self),
    {
        match self {
            Topic::AccountDeals => true,
            Topic::AccountOrders => true,
            Topic::AccountUpdate => true,
            Topic::Deals(_) => false,
            Topic::Kline(_) => false,
            Topic::Depth(_) => false,
            Topic::BookTicker(_) => false,
            Topic::BookTickerBatch(_) => false,
        }
    }

    pub fn to_topic_subscription_string(&self) -> (r: String)
        ensures
            r@ == subscription_of(*self),
    {
        match self {
            Topic::AccountDeals => String::from_str("spot@private.deals.v3.api.pb"),
            Topic::AccountOrders => String::from_str("spot@private.orders.v3.api.pb"),
            Topic::AccountUpdate => String::from_str("spot@private.account.v3.api.pb"),
            Topic::Deals(d) => String::from_str("spot@public.aggre.deals.v3.api.pb@10ms@").concat(
                d.symbol.as_str(),
            ),
            Topic::Kline(k) => String::from_str("spot@public.kline.v3.api.pb@").concat(
                k.symbol.as_str(),
            ).concat("@").concat(k.interval.as_str()),
            Topic::Depth(d) => String::from_str("spot@public.aggre.depth.v3.api.pb@10@").concat(
                d.symbol.as_str(),
            ),
            Topic::BookTicker(s) => String::from_str(
                "spot@public.aggre.bookTicker.v3.api.pb@10ms@",
            ).concat(s.as_str()),
            Topic::BookTickerBatch(s) => String::from_str(
                "spot@public.bookTicker.batch.v3.api.pb@",
            ).concat(s.as_str()),
        }
    }
}

#[derive(Debug, Clone, Hash, PartialEq, Eq)]
pub struct DealsTopic {
    pub symbol: String,
}

impl DealsTopic {
    pub fn new(symbol: String) -> (r: Self)
        ensures
            r.symbol == symbol,
    {
        Self { symbol }
    }
}

#[derive(Debug, Clone, Hash, PartialEq, Eq)]
pub struct KlineTopic {
    pub symbol: String,
    pub interval: KlineIntervalTopic,
}

impl KlineTopic {
    pub fn new(symbol: String, interval: KlineIntervalTopic) -> (r: Self)
        ensures
            r.symbol == symbol,
            r.interval == interval,
    {
        Self { symbol, interval }
    }
}

#[derive(Debug, Clone, Hash, PartialEq, Eq)]
pub struct DepthTopic {
    pub symbol: String,
}

impl DepthTopic {
    pub fn new(symbol: String) -> (r: Self)
        ensures
            r.symbol == symbol,
    {
        Self { symbol }
    }
}

} // verus!
