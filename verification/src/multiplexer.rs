//! The subscription multiplexer's rules: what a filter asks of the feed, how
//! filters add up on one live stream, and what a message of the feed says
//! about a probe.

use crate::base58::{base58_text, encode_base58};
use crate::cycle::ConfirmationEvent;
use vstd::prelude::*;

verus! {

/// An interest in transactions, to be added to the live stream.
#[derive(Clone, Debug, PartialEq, Eq)]
pub enum SubscriptionFilter {
    /// All activity that involves this address.
    Account(String),
    /// The transaction with exactly this signature.
    Signature(String),
}

/// [`SubscriptionFilter`] as contracts see it, with every text as its characters.
pub enum SubscriptionFilterView {
    Account(Seq<char>),
    Signature(Seq<char>),
}

impl View for SubscriptionFilter {
    type V = SubscriptionFilterView;

    open spec fn view(&self) -> SubscriptionFilterView {
        match *self {
            SubscriptionFilter::Account(a) => SubscriptionFilterView::Account(a@),
            SubscriptionFilter::Signature(s) => SubscriptionFilterView::Signature(s@),
        }
    }
}

/// The texts of a list of strings.
pub open spec fn texts(v: Seq<String>) -> Seq<Seq<char>> {
    Seq::new(v.len(), |i: int| v[i]@)
}

/// What the feed is asked for, field by field as the feed's protocol has it.
#[derive(Clone, Debug, PartialEq, Eq)]
pub struct TransactionsFilter {
    pub vote: Option<bool>,
    pub failed: Option<bool>,
    pub signature: Option<String>,
    pub account_include: Vec<String>,
    pub account_exclude: Vec<String>,
    pub account_required: Vec<String>,
}

/// [`TransactionsFilter`] as contracts see it, with every text as its characters.
pub struct TransactionsFilterView {
    pub vote: Option<bool>,
    pub failed: Option<bool>,
    pub signature: Option<Seq<char>>,
    pub account_include: Seq<Seq<char>>,
    pub account_exclude: Seq<Seq<char>>,
    pub account_required: Seq<Seq<char>>,
}

impl View for TransactionsFilter {
    type V = TransactionsFilterView;

    open spec fn view(&self) -> TransactionsFilterView {
        TransactionsFilterView {
            vote: self.vote,
            failed: self.failed,
            signature: match self.signature {
                Some(s) => Some(s@),
                None => None,
            },
            account_include: texts(self.account_include@),
            account_exclude: texts(self.account_exclude@),
            account_required: texts(self.account_required@),
        }
    }
}

/// The request that stands for a filter. Votes and failed transactions are
/// left out. An address is both included and required; a signature is asked
/// for by itself.
pub open spec fn request_of(filter: SubscriptionFilterView) -> TransactionsFilterView {
    match filter {
        SubscriptionFilterView::Account(address) => TransactionsFilterView {
            vote: Some(false),
            failed: Some(false),
            signature: None,
            account_include: seq![address],
            account_exclude: seq![],
            account_required: seq![address],
        },
        SubscriptionFilterView::Signature(signature) => TransactionsFilterView {
            vote: Some(false),
            failed: Some(false),
            signature: Some(signature),
            account_include: seq![],
            account_exclude: seq![],
            account_required: seq![],
        },
    }
}

/// The name under which a filter is registered with the feed: one fixed
/// name for the wallet's address, and the signature itself for a signature.
pub open spec fn name_of(filter: SubscriptionFilterView) -> Seq<char> {
    match filter {
        SubscriptionFilterView::Account(_) => "wallet_transactions"@,
        SubscriptionFilterView::Signature(signature) => signature,
    }
}

impl SubscriptionFilter {
    /// Whether two filters ask for the same thing.
    pub fn same_as(&self, other: &SubscriptionFilter) -> (same: bool)
        ensures
            same == (self@ == other@),
    {
        match (self, other) {
            (SubscriptionFilter::Account(a), SubscriptionFilter::Account(b)) => *a == *b,
            (SubscriptionFilter::Signature(a), SubscriptionFilter::Signature(b)) => *a == *b,
            _ => false,
        }
    }

    /// Builds [`request_of`] this filter.
    pub fn request(&self) -> (request: TransactionsFilter)
        ensures
            request@ == request_of(self@),
    {
        match self {
            SubscriptionFilter::Account(address) => {
                let mut account_include: Vec<String> = Vec::new();
                account_include.push(address.clone());
                let mut account_required: Vec<String> = Vec::new();
                account_required.push(address.clone());
                let request = TransactionsFilter {
                    vote: Some(false),
                    failed: Some(false),
                    signature: None,
                    account_include,
                    account_exclude: Vec::new(),
                    account_required,
                };
                assert(request@.account_include =~= seq![address@]);
                assert(request@.account_required =~= seq![address@]);
                assert(request@.account_exclude =~= seq![]);
                request
            },
            SubscriptionFilter::Signature(signature) => {
                let request = TransactionsFilter {
                    vote: Some(false),
                    failed: Some(false),
                    signature: Some(signature.clone()),
                    account_include: Vec::new(),
                    account_exclude: Vec::new(),
                    account_required: Vec::new(),
                };
                assert(request@.account_include =~= seq![]);
                assert(request@.account_required =~= seq![]);
                assert(request@.account_exclude =~= seq![]);
                request
            },
        }
    }

    /// Builds the [`name_of`] this filter.
    pub fn name(&self) -> (name: String)
        ensures
            name@ == name_of(self@),
    {
        match self {
            SubscriptionFilter::Account(_) => "wallet_transactions".to_owned(),
            SubscriptionFilter::Signature(signature) => signature.clone(),
        }
    }
}

/// The views of a list of filters.
pub open spec fn filter_views(v: Seq<SubscriptionFilter>) -> Seq<SubscriptionFilterView> {
    Seq::new(v.len(), |i: int| v[i]@)
}

/// The filters that are registered on the live stream, in the order in
/// which they were added. The feed replaces its filters with each request,
/// so the whole set is sent whenever one is added.
#[derive(Clone, Debug)]
pub struct FilterSet {
    filters: Vec<SubscriptionFilter>,
}

impl View for FilterSet {
    type V = Seq<SubscriptionFilterView>;

    closed spec fn view(&self) -> Seq<SubscriptionFilterView> {
        filter_views(self.filters@)
    }
}

impl FilterSet {
    /// No filter.
    pub fn new() -> (set: Self)
        ensures
            set@ == Seq::<SubscriptionFilterView>::empty(),
    {
        let set = FilterSet { filters: Vec::new() };
        assert(set@ =~= Seq::<SubscriptionFilterView>::empty());
        set
    }

    /// The number of filters.
    pub fn len(&self) -> (n: usize)
        ensures
            n == self@.len(),
    {
        self.filters.len()
    }

    /// Whether `filter` is registered.
    pub fn contains(&self, filter: &SubscriptionFilter) -> (found: bool)
        ensures
            found == self@.contains(filter@),
    {
        let mut i: usize = 0;
        while i < self.filters.len()
            invariant
                i <= self.filters@.len(),
                forall|k: int| 0 <= k < i ==> self@[k] != filter@,
            decreases self.filters@.len() - i,
        {
            if self.filters[i].same_as(filter) {
                assert(self@[i as int] == filter@);
                return true;
            }
            i += 1;
        }
        false
    }

    /// Adds `filter` behind the filters that are registered, unless it is
    /// among them. Every filter registered before stays registered, at its
    /// place. Returns whether the set has grown.
    pub fn register(&mut self, filter: SubscriptionFilter) -> (added: bool)
        ensures
            added == !old(self)@.contains(filter@),
            final(self)@ == if added {
                old(self)@.push(filter@)
            } else {
                old(self)@
            },
            old(self)@.is_prefix_of(final(self)@),
            final(self)@.contains(filter@),
    {
        if self.contains(&filter) {
            false
        } else {
            let ghost before = self@;
            let ghost view = filter@;
            self.filters.push(filter);
            assert(self@ =~= before.push(view));
            assert(self@[before.len() as int] == view);
            true
        }
    }

    /// The name and the request of the filter at place `i`.
    pub fn request_at(&self, i: usize) -> (entry: (String, TransactionsFilter))
        requires
            i < self@.len(),
        ensures
            entry.0@ == name_of(self@[i as int]),
            entry.1@ == request_of(self@[i as int]),
    {
        (self.filters[i].name(), self.filters[i].request())
    }
}

/// What the feed reports of a transaction's outcome.
#[derive(Clone, Copy, Debug, PartialEq, Eq)]
pub struct TransactionMeta {
    /// Whether the outcome carries an error.
    pub failed: bool,
}

/// What the feed reports of a transaction.
#[derive(Clone, Debug, PartialEq, Eq)]
pub struct TransactionInfo {
    /// The first signature of the transaction, as bytes.
    pub signature: Vec<u8>,
    /// The outcome, where the feed sent one.
    pub meta: Option<TransactionMeta>,
}

/// A message of the feed.
#[derive(Clone, Debug, PartialEq, Eq)]
pub enum StreamUpdate {
    /// A transaction landed in `slot`.
    Transaction { slot: u64, transaction: Option<TransactionInfo> },
    /// Any other message.
    Other,
}

/// Whether an outcome counts as success: it is there and carries no error.
pub open spec fn succeeded(meta: Option<TransactionMeta>) -> bool {
    meta matches Some(m) && !m.failed
}

/// The confirmation of the probe `probe_id` that landed in `slot_landed`
/// with the outcome `meta`.
pub fn confirmation_event(probe_id: String, slot_landed: u64, meta: Option<TransactionMeta>) -> (event:
    ConfirmationEvent)
    ensures
        event.probe_id == probe_id,
        event.slot_landed == slot_landed,
        event.success == succeeded(meta),
{
    let success = match meta {
        Some(m) => !m.failed,
        None => false,
    };
    ConfirmationEvent { probe_id, slot_landed, success }
}

/// Reads a message of the feed. A transaction update that carries the
/// transaction gives a confirmation: its id is the Base58 text of the
/// signature, its slot that of the update. Every other message gives none.
pub fn decode_update(update: &StreamUpdate) -> (event: Option<ConfirmationEvent>)
    ensures
        match *update {
            StreamUpdate::Transaction { slot, transaction: Some(info) } => {
                &&& event matches Some(e)
                &&& e.probe_id@ == base58_text(info.signature@)
                &&& e.slot_landed == slot
                &&& e.success == succeeded(info.meta)
            },
            _ => event is None,
        },
{
    match update {
        StreamUpdate::Transaction { slot, transaction: Some(info) } => {
            let probe_id = encode_base58(&info.signature);
            Some(confirmation_event(probe_id, *slot, info.meta))
        },
        _ => None,
    }
}

} // verus!
