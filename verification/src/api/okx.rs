//! The connector of the OKX exchange: its two streaming clients, its order
//! gateway, and the builder that configures them.
pub mod parser;
pub mod rest;
pub mod sign;
pub mod value;
pub mod ws;

use crate::api::okx::parser::{inst_to_str, wire_encode};
use crate::api::okx::ws::{
    arg_views, PrivateClient, PublicClient, WsChannel, WsChannelArg, WsChannelArgView,
};
use crate::common::defs::{DataType, Inst, InstType};
use vstd::prelude::*;
use vstd::string::StringExecFns;

verus! {

/// The connector: the public client and, where credentials were given, the
/// private client.
#[derive(Debug)]
pub struct OkxApi {
    pub public_client: PublicClient,
    pub private_client: Option<PrivateClient>,
}

impl OkxApi {
    /// A builder with nothing configured.
    pub fn builder() -> (r: WsClientBuilder)
        ensures
            r.is_empty(),
    {
        WsClientBuilder::new()
    }

    /// The name of the connector.
    pub fn name(&self) -> (r: &'static str)
        ensures
            r@ == "OkxApi"@,
    {
        "OkxApi"
    }
}

/// Collects credentials and subscriptions for a connector.
#[derive(Debug)]
pub struct WsClientBuilder {
    pub apikey: String,
    pub secretkey: String,
    pub passphrase: String,
    pub channels: Vec<WsChannelArg>,
    /// The families of the instruments that were subscribed to.
    pub families: Families,
}

/// A family of instrument types, by which the exchange tells the account
/// data of instruments apart.
#[derive(Debug, Copy, Clone, PartialEq, Eq, Structural)]
pub enum InstFamily {
    Spot,
    Margin,
    Swap,
    Futures,
    Option,
}

impl InstFamily {
    /// The exchange's name of the family.
    pub open spec fn name(self) -> Seq<char> {
        match self {
            InstFamily::Spot => "SPOT"@,
            InstFamily::Margin => "MARGIN"@,
            InstFamily::Swap => "SWAP"@,
            InstFamily::Futures => "FUTURES"@,
            InstFamily::Option => "OPTION"@,
        }
    }

    /// The family of an instrument type.
    pub open spec fn of(inst_type: InstType) -> InstFamily {
        match inst_type {
            InstType::Spot => InstFamily::Spot,
            InstType::Margin => InstFamily::Margin,
            InstType::Swap => InstFamily::Swap,
            InstType::Futures(_) => InstFamily::Futures,
            InstType::Options(_, _, _) => InstFamily::Option,
        }
    }

    /// The exchange's name of the family.
    pub fn to_str(&self) -> (r: &'static str)
        ensures
            r@ == self.name(),
    {
        match self {
            InstFamily::Spot => "SPOT",
            InstFamily::Margin => "MARGIN",
            InstFamily::Swap => "SWAP",
            InstFamily::Futures => "FUTURES",
            InstFamily::Option => "OPTION",
        }
    }

    /// The family of an instrument type.
    pub fn from_type(inst_type: &InstType) -> (r: InstFamily)
        ensures
            r == InstFamily::of(*inst_type),
    {
        match inst_type {
            InstType::Spot => InstFamily::Spot,
            InstType::Margin => InstFamily::Margin,
            InstType::Swap => InstFamily::Swap,
            InstType::Futures(_) => InstFamily::Futures,
            InstType::Options(_, _, _) => InstFamily::Option,
        }
    }

    /// No two families have the same name.
    pub proof fn lemma_names_differ(self, other: InstFamily)
        ensures
            self.name() == other.name() ==> self == other,
    {
        reveal_strlit("SPOT");
        reveal_strlit("MARGIN");
        reveal_strlit("SWAP");
        reveal_strlit("FUTURES");
        reveal_strlit("OPTION");
        assert("SPOT"@ =~= seq!['S', 'P', 'O', 'T']);
        assert("MARGIN"@ =~= seq!['M', 'A', 'R', 'G', 'I', 'N']);
        assert("SWAP"@ =~= seq!['S', 'W', 'A', 'P']);
        assert("FUTURES"@ =~= seq!['F', 'U', 'T', 'U', 'R', 'E', 'S']);
        assert("OPTION"@ =~= seq!['O', 'P', 'T', 'I', 'O', 'N']);
    }
}

/// A set of families of instrument types.
#[derive(Debug, Copy, Clone, PartialEq, Eq, Structural)]
pub struct Families {
    pub spot: bool,
    pub margin: bool,
    pub swap: bool,
    pub futures: bool,
    pub option: bool,
}

impl Families {
    /// Whether the family `family` is in the set.
    pub open spec fn has(self, family: InstFamily) -> bool {
        match family {
            InstFamily::Spot => self.spot,
            InstFamily::Margin => self.margin,
            InstFamily::Swap => self.swap,
            InstFamily::Futures => self.futures,
            InstFamily::Option => self.option,
        }
    }

    /// The set with no family in it.
    pub fn none() -> (r: Families)
        ensures
            r@ == Set::<InstFamily>::empty(),
    {
        let r = Families { spot: false, margin: false, swap: false, futures: false, option: false };
        assert(r@ =~= Set::<InstFamily>::empty());
        r
    }

    /// Whether the family `family` is in the set.
    pub fn contains(&self, family: InstFamily) -> (r: bool)
        ensures
            r == self@.contains(family),
    {
        match family {
            InstFamily::Spot => self.spot,
            InstFamily::Margin => self.margin,
            InstFamily::Swap => self.swap,
            InstFamily::Futures => self.futures,
            InstFamily::Option => self.option,
        }
    }

    /// The set with the family `family` added.
    pub fn with(self, family: InstFamily) -> (r: Families)
        ensures
            r@ == self@.insert(family),
    {
        let mut r = self;
        match family {
            InstFamily::Spot => { r.spot = true; },
            InstFamily::Margin => { r.margin = true; },
            InstFamily::Swap => { r.swap = true; },
            InstFamily::Futures => { r.futures = true; },
            InstFamily::Option => { r.option = true; },
        }
        assert(r@ =~= self@.insert(family));
        r
    }
}

impl View for Families {
    type V = Set<InstFamily>;

    open spec fn view(&self) -> Set<InstFamily> {
        Set::new(|family: InstFamily| self.has(family))
    }
}

impl Default for WsClientBuilder {
    /// A builder with nothing configured.
    fn default() -> (r: WsClientBuilder)
        ensures
            r.is_empty(),
    {
        WsClientBuilder::new()
    }
}

/// The channel that carries a kind of market data.
pub open spec fn data_channel(data_type: DataType) -> WsChannel {
    match data_type {
        DataType::Depth => WsChannel::Books5,
        DataType::Trade => WsChannel::Trade,
        DataType::Ticker => WsChannel::Tickers,
        DataType::OpenInterest => WsChannel::OpenInterest,
        DataType::FundingRate => WsChannel::FundingRate,
    }
}

/// The subscription to one kind of market data of one instrument: its
/// channel, and the exchange's id of the instrument.
pub open spec fn subscription(sub: (Inst, DataType)) -> WsChannelArgView {
    WsChannelArgView {
        channel: data_channel(sub.1),
        inst_id: Some(wire_encode(sub.0)),
        inst_type: None,
        inst_family: None,
    }
}

/// The subscriptions to a list of instruments and kinds of market data: one
/// for each entry, in the order of the list.
pub open spec fn subscriptions(subs: Seq<(Inst, DataType)>) -> Seq<WsChannelArgView> {
    Seq::new(subs.len(), |i: int| subscription(subs[i]))
}

/// The families of the instruments of a subscription list: each family that
/// an entry of the list belongs to, whatever its place and however often.
pub open spec fn families_of(subs: Seq<(Inst, DataType)>) -> Set<InstFamily> {
    Set::new(
        |family: InstFamily|
            exists|i: int| 0 <= i < subs.len() && subscribed_family(subs, i) == family,
    )
}

/// The family of the instrument of the entry `i` of a subscription list.
pub open spec fn subscribed_family(subs: Seq<(Inst, DataType)>, i: int) -> InstFamily {
    InstFamily::of(subs[i].0.inst_type)
}

/// The topic of balances and positions, which every account subscribes to.
pub open spec fn balance_topic() -> WsChannelArgView {
    WsChannelArgView {
        channel: WsChannel::BalanceAndPosition,
        inst_id: None,
        inst_type: None,
        inst_family: None,
    }
}

/// The account topic of a family: the orders of its instruments.
pub open spec fn account_topic(family: InstFamily) -> WsChannelArgView {
    WsChannelArgView {
        channel: WsChannel::Orders,
        inst_id: None,
        inst_type: Some(family.name()),
        inst_family: None,
    }
}

/// The account topic of `family` where it is among `families`, else none.
pub open spec fn family_topics(families: Set<InstFamily>, family: InstFamily) -> Seq<
    WsChannelArgView,
> {
    if families.contains(family) {
        seq![account_topic(family)]
    } else {
        Seq::empty()
    }
}

/// The account channels of a private client whose subscriptions are to
/// instruments of `families`: the topic of balances and positions, then
/// the account topic of each of the families, each once, in the order
/// spot, margin, swap, futures, option.
pub open spec fn account_channels(families: Set<InstFamily>) -> Seq<WsChannelArgView> {
    seq![balance_topic()] + family_topics(families, InstFamily::Spot) + family_topics(
        families,
        InstFamily::Margin,
    ) + family_topics(families, InstFamily::Swap) + family_topics(families, InstFamily::Futures)
        + family_topics(families, InstFamily::Option)
}

/// A subscription list with one more entry has the families of the list
/// and the family of that entry.
pub proof fn lemma_families_push(subs: Seq<(Inst, DataType)>, sub: (Inst, DataType))
    ensures
        families_of(subs.push(sub)) == families_of(subs).insert(InstFamily::of(sub.0.inst_type)),
{
    let more = subs.push(sub);
    let family = InstFamily::of(sub.0.inst_type);
    assert forall|f: InstFamily| families_of(more).contains(f) == families_of(subs).insert(
        family,
    ).contains(f) by {
        if families_of(more).contains(f) {
            let i = choose|i: int| 0 <= i < more.len() && subscribed_family(more, i) == f;
            if i < subs.len() {
                assert(subscribed_family(subs, i) == f);
            }
        }
        if families_of(subs).contains(f) {
            let i = choose|i: int| 0 <= i < subs.len() && subscribed_family(subs, i) == f;
            assert(subscribed_family(more, i) == f);
        }
        if f == family {
            assert(subscribed_family(more, subs.len() as int) == f);
        }
    }
    assert(families_of(more) =~= families_of(subs).insert(family));
}

/// Subscription lists that hold the same entries, in whatever order and
/// however often, have the same families, and so the same account channels.
pub proof fn lemma_families_reordered(a: Seq<(Inst, DataType)>, b: Seq<(Inst, DataType)>)
    requires
        forall|x: (Inst, DataType)| a.contains(x) == b.contains(x),
    ensures
        families_of(a) == families_of(b),
        account_channels(families_of(a)) == account_channels(families_of(b)),
{
    assert forall|f: InstFamily| families_of(a).contains(f) == families_of(b).contains(f) by {
        if families_of(a).contains(f) {
            let i = choose|i: int| 0 <= i < a.len() && subscribed_family(a, i) == f;
            assert(a.contains(a[i]));
            let j = choose|j: int| 0 <= j < b.len() && b[j] == a[i];
            assert(subscribed_family(b, j) == f);
        }
        if families_of(b).contains(f) {
            let i = choose|i: int| 0 <= i < b.len() && subscribed_family(b, i) == f;
            assert(b.contains(b[i]));
            let j = choose|j: int| 0 <= j < a.len() && a[j] == b[i];
            assert(subscribed_family(a, j) == f);
        }
    }
    assert(families_of(a) =~= families_of(b));
}

/// Appending the account topic of a family to topics that do not hold it
/// adds that topic where the family is among `families`, and nothing else,
/// and keeps every topic there once.
proof fn lemma_append_topic(
    c: Seq<WsChannelArgView>,
    families: Set<InstFamily>,
    family: InstFamily,
)
    requires
        c.no_duplicates(),
        !c.contains(account_topic(family)),
    ensures
        (c + family_topics(families, family)).no_duplicates(),
        forall|x: WsChannelArgView|
            (c + family_topics(families, family)).contains(x) == (c.contains(x) || (
            families.contains(family) && x == account_topic(family))),
{
    let t = family_topics(families, family);
    let d = c + t;
    assert forall|x: WsChannelArgView| d.contains(x) == (c.contains(x) || (families.contains(
        family,
    ) && x == account_topic(family))) by {
        if d.contains(x) {
            let k = choose|k: int| 0 <= k < d.len() && d[k] == x;
            if k < c.len() {
                assert(c[k] == x);
            } else {
                assert(t[k - c.len()] == x);
            }
        }
        if c.contains(x) {
            let k = choose|k: int| 0 <= k < c.len() && c[k] == x;
            assert(d[k] == x);
        }
        if families.contains(family) && x == account_topic(family) {
            assert(d[c.len() as int] == x);
        }
    }
    assert forall|i: int, j: int| 0 <= i < d.len() && 0 <= j < d.len() && i != j implies d[i]
        != d[j] by {
        if i < c.len() && j < c.len() {
            assert(d[i] == c[i] && d[j] == c[j]);
        } else if i < c.len() {
            assert(c.contains(c[i]));
        } else if j < c.len() {
            assert(c.contains(c[j]));
        }
    }
}

/// The account channels hold the topic of balances and positions first,
/// the account topic of a family exactly where the family is among
/// `families`, and no topic twice.
pub proof fn lemma_account_channels(families: Set<InstFamily>)
    ensures
        account_channels(families)[0] == balance_topic(),
        forall|family: InstFamily|
            account_channels(families).contains(#[trigger] account_topic(family))
                == families.contains(family),
        account_channels(families).no_duplicates(),
{
    assert forall|x: InstFamily, y: InstFamily| account_topic(x) == account_topic(y) implies x
        == y by {
        x.lemma_names_differ(y);
    }
    let c0 = seq![balance_topic()];
    let c1 = c0 + family_topics(families, InstFamily::Spot);
    let c2 = c1 + family_topics(families, InstFamily::Margin);
    let c3 = c2 + family_topics(families, InstFamily::Swap);
    let c4 = c3 + family_topics(families, InstFamily::Futures);
    let c5 = c4 + family_topics(families, InstFamily::Option);
    assert forall|x: WsChannelArgView| c0.contains(x) == (x == balance_topic()) by {
        if c0.contains(x) {
            let k = choose|k: int| 0 <= k < c0.len() && c0[k] == x;
        }
        if x == balance_topic() {
            assert(c0[0] == x);
        }
    }
    lemma_append_topic(c0, families, InstFamily::Spot);
    lemma_append_topic(c1, families, InstFamily::Margin);
    lemma_append_topic(c2, families, InstFamily::Swap);
    lemma_append_topic(c3, families, InstFamily::Futures);
    lemma_append_topic(c4, families, InstFamily::Option);
    assert(account_channels(families) == c5);
    assert(c5[0] == balance_topic());
    assert forall|family: InstFamily| c5.contains(#[trigger] account_topic(family))
        == families.contains(family) by {
        family.lemma_names_differ(InstFamily::Spot);
        family.lemma_names_differ(InstFamily::Margin);
        family.lemma_names_differ(InstFamily::Swap);
        family.lemma_names_differ(InstFamily::Futures);
        family.lemma_names_differ(InstFamily::Option);
        let t = account_topic(family);
        assert(c0.contains(t) == (t == balance_topic()));
        assert(c1.contains(t) == (c0.contains(t) || (families.contains(InstFamily::Spot) && t
            == account_topic(InstFamily::Spot))));
        assert(c2.contains(t) == (c1.contains(t) || (families.contains(InstFamily::Margin) && t
            == account_topic(InstFamily::Margin))));
        assert(c3.contains(t) == (c2.contains(t) || (families.contains(InstFamily::Swap) && t
            == account_topic(InstFamily::Swap))));
        assert(c4.contains(t) == (c3.contains(t) || (families.contains(InstFamily::Futures) && t
            == account_topic(InstFamily::Futures))));
        assert(c5.contains(t) == (c4.contains(t) || (families.contains(InstFamily::Option) && t
            == account_topic(InstFamily::Option))));
    }
}

/// Exchanging two entries of a subscription list exchanges their
/// subscriptions and changes no other: each subscription depends on its
/// entry alone.
pub proof fn lemma_subscriptions_reordered(subs: Seq<(Inst, DataType)>, i: int, j: int)
    requires
        0 <= i < subs.len(),
        0 <= j < subs.len(),
    ensures
        subscriptions(subs.update(i, subs[j]).update(j, subs[i])) == subscriptions(subs).update(
            i,
            subscriptions(subs)[j],
        ).update(j, subscriptions(subs)[i]),
{
}

/// Subscription lists that hold the same entries, in whatever order, give
/// the same subscriptions, each as often as its entry occurs.
pub proof fn lemma_subscriptions_permuted(a: Seq<(Inst, DataType)>, b: Seq<(Inst, DataType)>)
    requires
        a.to_multiset() == b.to_multiset(),
    ensures
        subscriptions(a).to_multiset() == subscriptions(b).to_multiset(),
    decreases a.len(),
{
    a.to_multiset_ensures();
    b.to_multiset_ensures();
    if a.len() == 0 {
        assert(subscriptions(a) =~= subscriptions(b));
    } else {
        let x = a.last();
        let shorter = a.drop_last();
        assert(a.to_multiset().count(x) > 0);
        let j = choose|j: int| 0 <= j < b.len() && b[j] == x;
        let rest = b.remove(j);
        assert(shorter =~= a.remove(a.len() - 1));
        lemma_subscriptions_permuted(shorter, rest);
        let sa = subscriptions(a);
        let sb = subscriptions(b);
        assert(sa =~= subscriptions(shorter).push(subscription(x)));
        assert(subscriptions(rest) =~= sb.remove(j));
        subscriptions(shorter).to_multiset_ensures();
        sb.to_multiset_ensures();
    }
}

/// A list that is made of two gives the subscriptions of the first followed
/// by those of the second.
pub proof fn lemma_subscriptions_concat(a: Seq<(Inst, DataType)>, b: Seq<(Inst, DataType)>)
    ensures
        subscriptions(a + b) == subscriptions(a) + subscriptions(b),
{
}

/// The channel that carries a kind of market data.
pub fn channel_of(data_type: DataType) -> (r: WsChannel)
    ensures
        r == data_channel(data_type),
{
    match data_type {
        DataType::Depth => WsChannel::Books5,
        DataType::Trade => WsChannel::Trade,
        DataType::Ticker => WsChannel::Tickers,
        DataType::OpenInterest => WsChannel::OpenInterest,
        DataType::FundingRate => WsChannel::FundingRate,
    }
}

/// The subscription to one kind of market data of one instrument.
pub fn subscribe_arg(inst: &Inst, data_type: DataType) -> (r: WsChannelArg)
    ensures
        r@ == subscription((*inst, data_type)),
{
    WsChannelArg {
        channel: channel_of(data_type),
        inst_id: Some(inst_to_str(inst)),
        inst_type: None,
        inst_family: None,
    }
}

/// The entry that two texts name: an instrument in its dotted form, and a
/// kind of market data.
pub open spec fn named_entry(inst: Seq<char>, data_type: Seq<char>) -> Option<(Inst, DataType)> {
    match Inst::decode(inst) {
        Err(_) => None,
        Ok(inst) => match DataType::named(data_type) {
            None => None,
            Some(data_type) => Some((inst, data_type)),
        },
    }
}

/// The entries that a list of pairs of texts names, in order; a pair that
/// names none is passed over.
pub open spec fn named_entries(names: Seq<(&str, &str)>) -> Seq<(Inst, DataType)>
    decreases names.len(),
{
    if names.len() == 0 {
        Seq::empty()
    } else {
        named_entries(names.drop_last()) + match named_entry(names.last().0@, names.last().1@) {
            Some(entry) => seq![entry],
            None => Seq::empty(),
        }
    }
}

/// The subscription to the orders of a family of instruments.
pub fn account_arg(family: InstFamily) -> (r: WsChannelArg)
    ensures
        r@ == account_topic(family),
{
    WsChannelArg {
        channel: WsChannel::Orders,
        inst_id: None,
        inst_type: Some(String::from_str(family.to_str())),
        inst_family: None,
    }
}

/// The account channels of a private client whose subscriptions are to
/// instruments of `families`.
pub fn account_args(families: &Families) -> (r: Vec<WsChannelArg>)
    ensures
        arg_views(r@) == account_channels(families@),
{
    let mut args: Vec<WsChannelArg> = Vec::new();
    args.push(
        WsChannelArg {
            channel: WsChannel::BalanceAndPosition,
            inst_id: None,
            inst_type: None,
            inst_family: None,
        },
    );
    assert(arg_views(args@) =~= seq![balance_topic()]);
    push_account_arg(families, InstFamily::Spot, &mut args);
    push_account_arg(families, InstFamily::Margin, &mut args);
    push_account_arg(families, InstFamily::Swap, &mut args);
    push_account_arg(families, InstFamily::Futures, &mut args);
    push_account_arg(families, InstFamily::Option, &mut args);
    args
}

/// Appends the account topic of `family` where it is among `families`.
fn push_account_arg(families: &Families, family: InstFamily, args: &mut Vec<WsChannelArg>)
    ensures
        arg_views(final(args)@) == arg_views(old(args)@) + family_topics(families@, family),
{
    if families.contains(family) {
        args.push(account_arg(family));
    }
    assert(arg_views(final(args)@) =~= arg_views(old(args)@) + family_topics(families@, family));
}

impl WsClientBuilder {
    /// Whether nothing is configured: no credentials and no subscriptions.
    pub open spec fn is_empty(&self) -> bool {
        &&& self.apikey@.len() == 0
        &&& self.secretkey@.len() == 0
        &&& self.passphrase@.len() == 0
        &&& self.channels@.len() == 0
        &&& self.families@ == Set::<InstFamily>::empty()
    }

    /// Whether the credentials are complete: none of them is empty.
    pub open spec fn has_credentials(&self) -> bool {
        &&& self.apikey@.len() > 0
        &&& self.secretkey@.len() > 0
        &&& self.passphrase@.len() > 0
    }

    /// A builder with nothing configured.
    pub fn new() -> (r: WsClientBuilder)
        ensures
            r.is_empty(),
    {
        WsClientBuilder {
            apikey: String::new(),
            secretkey: String::new(),
            passphrase: String::new(),
            channels: Vec::new(),
            families: Families::none(),
        }
    }

    /// Builds the connector. The public client subscribes to what was
    /// configured. With complete credentials there is a private client,
    /// with those credentials; it subscribes to balances and positions and
    /// to the account topic of each family of instruments that was
    /// subscribed to. Without complete credentials there is none.
    pub fn build(self) -> (r: OkxApi)
        ensures
            r.public_client.channels@ == self.channels@,
            r.private_client is Some == self.has_credentials(),
            r.private_client matches Some(client) ==> {
                &&& client.apikey@ == self.apikey@
                &&& client.secretkey@ == self.secretkey@
                &&& client.passphrase@ == self.passphrase@
                &&& arg_views(client.channels@) == account_channels(self.families@)
            },
    {
        if self.apikey.as_str().is_empty() || self.secretkey.as_str().is_empty()
            || self.passphrase.as_str().is_empty() {
            OkxApi { public_client: PublicClient { channels: self.channels }, private_client: None }
        } else {
            let private_channels = account_args(&self.families);
            OkxApi {
                public_client: PublicClient { channels: self.channels },
                private_client: Some(
                    PrivateClient {
                        apikey: self.apikey,
                        secretkey: self.secretkey,
                        passphrase: self.passphrase,
                        channels: private_channels,
                    },
                ),
            }
        }
    }

    /// Sets the credentials of the account.
    pub fn credential(self, apikey: String, secretkey: String, passphrase: String) -> (r:
        WsClientBuilder)
        ensures
            r.apikey == apikey,
            r.secretkey == secretkey,
            r.passphrase == passphrase,
            r.channels == self.channels,
            r.families == self.families,
    {
        let mut builder = self;
        builder.apikey = apikey;
        builder.secretkey = secretkey;
        builder.passphrase = passphrase;
        builder
    }

    /// Adds the subscriptions to a list of instruments and kinds of market
    /// data, after those that are there.
    pub fn subscribe(self, subs: Vec<(Inst, DataType)>) -> (r: WsClientBuilder)
        ensures
            r.apikey == self.apikey,
            r.secretkey == self.secretkey,
            r.passphrase == self.passphrase,
            arg_views(r.channels@) == arg_views(self.channels@) + subscriptions(subs@),
            r.families@ == self.families@.union(families_of(subs@)),
    {
        let mut builder = self;
        let mut i: usize = 0;
        assert(self.families@.union(families_of(subs@.take(0))) =~= self.families@);
        while i < subs.len()
            invariant
                i <= subs@.len(),
                builder.apikey == self.apikey,
                builder.secretkey == self.secretkey,
                builder.passphrase == self.passphrase,
                arg_views(builder.channels@) == arg_views(self.channels@) + subscriptions(
                    subs@.take(i as int),
                ),
                builder.families@ == self.families@.union(families_of(subs@.take(i as int))),
            decreases subs@.len() - i,
        {
            let ghost before = arg_views(builder.channels@);
            let arg = subscribe_arg(&subs[i].0, subs[i].1);
            builder.channels.push(arg);
            builder.families = builder.families.with(InstFamily::from_type(&subs[i].0.inst_type));
            proof {
                assert(arg_views(builder.channels@) =~= before + seq![
                    subscription(subs@[i as int]),
                ]);
                assert(subs@.take(i + 1) =~= subs@.take(i as int).push(subs@[i as int]));
                lemma_families_push(subs@.take(i as int), subs@[i as int]);
                assert(builder.families@ =~= self.families@.union(
                    families_of(subs@.take(i + 1)),
                ));
            }
            i = i + 1;
        }
        assert(subs@.take(subs@.len() as int) =~= subs@);
        builder
    }

    /// Adds the subscriptions that a list of pairs of texts names: each
    /// pair holds an instrument in its dotted form and a kind of market
    /// data. A pair that names no instrument or no kind is passed over.
    pub fn subscribe_names(self, names: Vec<(&str, &str)>) -> (r: WsClientBuilder)
        ensures
            r.apikey == self.apikey,
            r.secretkey == self.secretkey,
            r.passphrase == self.passphrase,
            arg_views(r.channels@) == arg_views(self.channels@) + subscriptions(
                named_entries(names@),
            ),
            r.families@ == self.families@.union(families_of(named_entries(names@))),
    {
        let mut subs: Vec<(Inst, DataType)> = Vec::new();
        let mut i: usize = 0;
        while i < names.len()
            invariant
                i <= names@.len(),
                subs@ == named_entries(names@.take(i as int)),
            decreases names@.len() - i,
        {
            let ghost next = names@.take(i + 1);
            assert(next.drop_last() =~= names@.take(i as int));
            match Inst::try_from(names[i].0) {
                Ok(inst) => match DataType::from_str(names[i].1) {
                    Some(data_type) => {
                        subs.push((inst, data_type));
                    },
                    None => {},
                },
                Err(_) => {},
            }
            i = i + 1;
        }
        assert(names@.take(names@.len() as int) =~= names@);
        self.subscribe(subs)
    }
}

} // verus!
