//! The registry of change subscriptions: which clients follow which records and which
//! tables, what a change does to it, and when the database's change hook is needed.
use vstd::prelude::*;

use crate::keyed::{
    keep_keyed, keyed_map, keys_unique, lemma_keep_keyed, lemma_keyed_empty, lemma_keyed_map,
    lemma_keyed_push, lemma_keyed_remove, lemma_total_prefix, lemma_total_remove, total,
};
use crate::records::RecordAction;
use crate::text::str_eq;

verus! {

/// The subscribers of one record: the table, the record's row id, and each subscriber's id
/// with what its owner keeps for it.
#[derive(Debug)]
pub struct RowSubscribers<T> {
    pub table_name: String,
    pub row_id: i64,
    pub subscribers: Vec<(i64, T)>,
}

/// The subscribers of a whole table.
#[derive(Debug)]
pub struct TableSubscribers<T> {
    pub table_name: String,
    pub subscribers: Vec<(i64, T)>,
}

/// Identifies a subscription: to a record when `row_id` is set, else to the table.
#[derive(Clone, Debug, Default, PartialEq, Eq)]
pub struct SubscriptionId {
    pub table_name: String,
    pub row_id: Option<i64>,
    pub sub_id: i64,
}

/// The lists behind `Subscriptions`: record subscribers by table and row id, table
/// subscribers by table.
#[derive(Debug)]
struct SubscriptionLists<T> {
    records: Vec<RowSubscribers<T>>,
    tables: Vec<TableSubscribers<T>>,
}

/// Record subscriptions, keyed by table and row id, and table subscriptions, keyed by
/// table; each key at most once, and no list is ever kept empty.
#[derive(Debug)]
pub struct Subscriptions<T> {
    lists: SubscriptionLists<T>,
}

/// The abstract registry: subscriber lists by record and by table.
pub ghost struct SubscriptionsView<T> {
    pub records: Map<(Seq<char>, i64), Seq<(i64, T)>>,
    pub tables: Map<Seq<char>, Seq<(i64, T)>>,
}

pub open spec fn row_key<T>() -> spec_fn(RowSubscribers<T>) -> (Seq<char>, i64) {
    |e: RowSubscribers<T>| (e.table_name@, e.row_id)
}

pub open spec fn row_val<T>() -> spec_fn(RowSubscribers<T>) -> Seq<(i64, T)> {
    |e: RowSubscribers<T>| e.subscribers@
}

pub open spec fn table_key<T>() -> spec_fn(TableSubscribers<T>) -> Seq<char> {
    |e: TableSubscribers<T>| e.table_name@
}

pub open spec fn table_val<T>() -> spec_fn(TableSubscribers<T>) -> Seq<(i64, T)> {
    |e: TableSubscribers<T>| e.subscribers@
}

/// A map with a key is not empty.
proof fn lemma_not_empty<K, V>(m: Map<K, V>, k: K)
    requires
        m.contains_key(k),
    ensures
        !m.dom().is_empty(),
{
    assert(m.dom().contains(k));
    assert(!Set::<K>::empty().contains(k));
}

pub open spec fn row_size<T>() -> spec_fn(RowSubscribers<T>) -> nat {
    |e: RowSubscribers<T>| e.subscribers@.len()
}

pub open spec fn table_size<T>() -> spec_fn(TableSubscribers<T>) -> nat {
    |e: TableSubscribers<T>| e.subscribers@.len()
}

/// Whether nobody is subscribed to anything.
pub open spec fn nothing_subscribed<T>(v: SubscriptionsView<T>) -> bool {
    v.records.dom().is_empty() && v.tables.dom().is_empty()
}

/// Whether every record and table present has at least one subscriber.
pub open spec fn no_empty_lists<T>(v: SubscriptionsView<T>) -> bool {
    &&& forall|k: (Seq<char>, i64)| #[trigger] v.records.contains_key(k) ==> v.records[k].len() > 0
    &&& forall|t: Seq<char>| #[trigger] v.tables.contains_key(t) ==> v.tables[t].len() > 0
}

/// The change hook is needed exactly while something is subscribed. Starting from a hook
/// installed exactly then, installing it when `install` and removing it when `uninstall`
/// keeps it so.
pub open spec fn hook_follows<T>(
    before: SubscriptionsView<T>,
    after: SubscriptionsView<T>,
    install: bool,
    uninstall: bool,
) -> bool {
    &&& install ==> !nothing_subscribed(after)
    &&& uninstall ==> nothing_subscribed(after)
    &&& (!install && !uninstall) ==> nothing_subscribed(before) == nothing_subscribed(after)
}

/// A list with one more subscriber appended.
pub open spec fn with_subscriber<K, T>(m: Map<K, Seq<(i64, T)>>, k: K, sub: (i64, T)) -> Map<K, Seq<(i64, T)>> {
    m.insert(
        k,
        if m.contains_key(k) {
            m[k].push(sub)
        } else {
            seq![sub]
        },
    )
}

/// The subscribers other than those with id `id`, in order.
pub open spec fn without_id<T>(s: Seq<(i64, T)>, id: i64) -> Seq<(i64, T)>
    decreases s.len(),
{
    if s.len() == 0 {
        s
    } else if s.last().0 == id {
        without_id(s.drop_last(), id)
    } else {
        without_id(s.drop_last(), id).push(s.last())
    }
}

/// The list under `k` replaced by `rest`, or dropped when `rest` is empty.
pub open spec fn replace_or_drop<K, T>(m: Map<K, Seq<(i64, T)>>, k: K, rest: Seq<(i64, T)>) -> Map<K, Seq<(i64, T)>> {
    if rest.len() == 0 {
        m.remove(k)
    } else {
        m.insert(k, rest)
    }
}

/// The subscriber `id` removed from the list under `k`.
pub open spec fn without_subscriber<K, T>(m: Map<K, Seq<(i64, T)>>, k: K, id: i64) -> Map<K, Seq<(i64, T)>> {
    if m.contains_key(k) {
        replace_or_drop(m, k, without_id(m[k], id))
    } else {
        m
    }
}

/// `Vec::swap_remove` at `i`: the last element moves into place `i`.
pub open spec fn swap_removed<A>(s: Seq<A>, i: int) -> Seq<A> {
    s.update(i, s.last()).drop_last()
}

/// The list after `swap_remove` at each index of `dead`, the last index first.
pub open spec fn pruned<A>(s: Seq<A>, dead: Seq<usize>) -> Seq<A>
    decreases dead.len(),
{
    if dead.len() == 0 {
        s
    } else {
        pruned(swap_removed(s, dead.last() as int), dead.drop_last())
    }
}

/// Whether `dead` lists positions of a list of length `len`, strictly increasing.
pub open spec fn dead_valid(dead: Seq<usize>, len: nat) -> bool {
    &&& forall|i: int, j: int| 0 <= i < j < dead.len() ==> dead[i] < dead[j]
    &&& forall|i: int| 0 <= i < dead.len() ==> dead[i] < len
}

/// The list under `k` after its dead subscribers were dropped, or dropped when none is
/// left.
pub open spec fn after_pruning<K, T>(m: Map<K, Seq<(i64, T)>>, k: K, dead: Seq<usize>) -> Map<K, Seq<(i64, T)>> {
    if m.contains_key(k) {
        replace_or_drop(m, k, pruned(m[k], dead))
    } else {
        m
    }
}

/// Record subscriptions after a change to record `k` was brokered: a deleted record loses
/// all its subscribers, otherwise the dead ones are dropped.
pub open spec fn after_record_change<T>(
    m: Map<(Seq<char>, i64), Seq<(i64, T)>>,
    k: (Seq<char>, i64),
    dead: Seq<usize>,
    action: RecordAction,
) -> Map<(Seq<char>, i64), Seq<(i64, T)>> {
    if action is Delete {
        m.remove(k)
    } else {
        after_pruning(m, k, dead)
    }
}

/// Whether a record key belongs to a table other than `table`.
pub open spec fn of_other_table(table: Seq<char>) -> spec_fn((Seq<char>, i64)) -> bool {
    |k: (Seq<char>, i64)| k.0 != table
}

/// The record subscriptions of tables other than `table`.
pub open spec fn other_tables<T>(m: Map<(Seq<char>, i64), Seq<(i64, T)>>, table: Seq<char>) -> Map<
    (Seq<char>, i64),
    Seq<(i64, T)>,
> {
    m.restrict(Set::new(of_other_table(table)))
}

/// How a subscriber fared when a change was sent to it.
#[derive(Clone, Copy, Debug, PartialEq, Eq)]
pub enum Delivery {
    /// Its record API is no longer configured.
    ApiMissing,
    /// Its user may no longer read the record.
    AccessDenied,
    Sent,
    /// Its channel was full: the change is dropped for it.
    ChannelFull,
    /// Its client is gone.
    ChannelClosed,
}

/// Whether a subscriber is dropped after the delivery: record subscribers lose access for
/// good, table subscribers only miss the record they may not read.
pub open spec fn delivery_dead(d: Delivery, record_subscriptions: bool) -> bool {
    match d {
        Delivery::ApiMissing => true,
        Delivery::AccessDenied => record_subscriptions,
        Delivery::Sent => false,
        Delivery::ChannelFull => false,
        Delivery::ChannelClosed => true,
    }
}

/// The positions of the dropped subscribers, in order.
pub open spec fn dead_indices(ds: Seq<Delivery>, record_subscriptions: bool) -> Seq<usize>
    decreases ds.len(),
{
    if ds.len() == 0 {
        Seq::empty()
    } else if delivery_dead(ds.last(), record_subscriptions) {
        dead_indices(ds.drop_last(), record_subscriptions).push((ds.len() - 1) as usize)
    } else {
        dead_indices(ds.drop_last(), record_subscriptions)
    }
}

proof fn lemma_dead_indices(ds: Seq<Delivery>, rec: bool)
    requires
        ds.len() <= usize::MAX,
    ensures
        dead_valid(dead_indices(ds, rec), ds.len()),
    decreases ds.len(),
{
    if ds.len() > 0 {
        lemma_dead_indices(ds.drop_last(), rec);
    }
}

/// The positions of the subscribers to drop after a change was brokered to them.
pub fn dead_subscriptions(deliveries: &Vec<Delivery>, record_subscriptions: bool) -> (r: Vec<usize>)
    ensures
        r@ == dead_indices(deliveries@, record_subscriptions),
        dead_valid(r@, deliveries@.len()),
{
    let mut r: Vec<usize> = Vec::new();
    let mut i: usize = 0;
    while i < deliveries.len()
        invariant
            i <= deliveries.len(),
            r@ == dead_indices(deliveries@.take(i as int), record_subscriptions),
        decreases deliveries.len() - i,
    {
        proof {
            let t = deliveries@.take(i + 1);
            assert(t.drop_last() =~= deliveries@.take(i as int));
            assert(t.last() == deliveries@[i as int]);
        }
        let dead = match deliveries[i] {
            Delivery::ApiMissing => true,
            Delivery::AccessDenied => record_subscriptions,
            Delivery::Sent => false,
            Delivery::ChannelFull => false,
            Delivery::ChannelClosed => true,
        };
        if dead {
            r.push(i);
        }
        i += 1;
    }
    proof {
        assert(deliveries@.take(i as int) =~= deliveries@);
        lemma_dead_indices(deliveries@, record_subscriptions);
    }
    r
}

proof fn lemma_dead_gap(dead: Seq<usize>, len: nat, i: int)
    requires
        dead_valid(dead, len),
        0 <= i < dead.len(),
    ensures
        dead[i] + (dead.len() - 1 - i) < len,
    decreases dead.len() - i,
{
    if i < dead.len() - 1 {
        lemma_dead_gap(dead, len, i + 1);
    }
}

/// Drops the subscribers at the dead positions, as the broker does: `swap_remove` from
/// the last position down.
fn remove_dead<T>(subs: &mut Vec<(i64, T)>, dead: &Vec<usize>)
    requires
        dead_valid(dead@, old(subs)@.len()),
    ensures
        final(subs)@ == pruned(old(subs)@, dead@),
{
    let ghost orig = subs@;
    let mut k: usize = dead.len();
    proof {
        assert(dead@.take(k as int) =~= dead@);
    }
    while k > 0
        invariant
            k <= dead@.len(),
            dead_valid(dead@, orig.len()),
            subs@.len() == orig.len() - (dead@.len() - k),
            pruned(subs@, dead@.take(k as int)) == pruned(orig, dead@),
        decreases k,
    {
        proof {
            lemma_dead_gap(dead@, orig.len(), k - 1);
            let t = dead@.take(k as int);
            assert(t.drop_last() =~= dead@.take(k - 1));
            assert(t.last() == dead@[k - 1]);
        }
        k -= 1;
        subs.swap_remove(dead[k]);
    }
}

proof fn lemma_without_id_step<T>(s: Seq<(i64, T)>, j: int, id: i64)
    requires
        0 <= j < s.len(),
    ensures
        without_id(s.take(j + 1), id) == if s[j].0 == id {
            without_id(s.take(j), id)
        } else {
            without_id(s.take(j), id).push(s[j])
        },
{
    let t = s.take(j + 1);
    assert(t.drop_last() =~= s.take(j));
    assert(t.last() == s[j]);
}

/// Drops the subscribers with id `id`, keeping the others in order.
fn retain_others<T>(subs: &mut Vec<(i64, T)>, id: i64)
    ensures
        final(subs)@ == without_id(old(subs)@, id),
{
    let ghost orig = subs@;
    let ghost mut j: int = 0;
    let mut i: usize = 0;
    proof {
        assert(orig.take(0) =~= Seq::<(i64, T)>::empty());
        assert(subs@.take(0) =~= Seq::<(i64, T)>::empty());
        assert(orig.skip(0) =~= orig);
    }
    while i < subs.len()
        invariant
            0 <= i <= subs@.len(),
            0 <= j <= orig.len(),
            subs@.take(i as int) == without_id(orig.take(j), id),
            subs@.skip(i as int) == orig.skip(j),
        decreases subs@.len() - i,
    {
        proof {
            assert(subs@.skip(i as int).len() > 0);
            assert(orig.skip(j).len() > 0);
            assert(subs@[i as int] == subs@.skip(i as int)[0]);
            assert(orig[j] == orig.skip(j)[0]);
            lemma_without_id_step(orig, j, id);
        }
        if subs[i].0 == id {
            let ghost before = subs@;
            subs.remove(i);
            proof {
                assert(subs@.take(i as int) =~= before.take(i as int));
                assert(subs@.skip(i as int) =~= before.skip(i + 1));
                assert(orig.skip(j + 1) =~= orig.skip(j).skip(1));
                assert(before.skip(i + 1) =~= before.skip(i as int).skip(1));
                j = j + 1;
            }
        } else {
            proof {
                assert(subs@.take(i + 1) =~= subs@.take(i as int).push(subs@[i as int]));
                assert(subs@.skip(i + 1) =~= subs@.skip(i as int).skip(1));
                assert(orig.skip(j + 1) =~= orig.skip(j).skip(1));
                j = j + 1;
            }
            i += 1;
        }
    }
    proof {
        assert(orig.skip(j).len() == 0);
        assert(j == orig.len());
        assert(orig.take(j) =~= orig);
        assert(subs@.take(i as int) =~= subs@);
    }
}

proof fn lemma_without_absent_id<T>(s: Seq<(i64, T)>, id: i64)
    requires
        forall|j: int| 0 <= j < s.len() ==> (#[trigger] s[j]).0 != id,
    ensures
        without_id(s, id) == s,
    decreases s.len(),
{
    if s.len() > 0 {
        let init = s.drop_last();
        assert forall|j: int| 0 <= j < init.len() implies (#[trigger] init[j]).0 != id by {
            assert(init[j] == s[j]);
        }
        lemma_without_absent_id(init, id);
        assert(init.push(s.last()) =~= s);
    }
}

/// Removing a subscription undoes adding it: adding subscriber `id` under `k`, where no
/// subscriber has that id yet, then removing subscriber `id` there gives back the lists as
/// they were.
pub proof fn lemma_remove_undoes_add<K, T>(m: Map<K, Seq<(i64, T)>>, k: K, id: i64, handle: T)
    requires
        m.contains_key(k) ==> m[k].len() > 0,
        m.contains_key(k) ==> forall|j: int| 0 <= j < m[k].len() ==> (#[trigger] m[k][j]).0 != id,
    ensures
        without_subscriber(with_subscriber(m, k, (id, handle)), k, id) == m,
{
    let added = with_subscriber(m, k, (id, handle));
    if m.contains_key(k) {
        let s = m[k].push((id, handle));
        assert(s.drop_last() =~= m[k]);
        lemma_without_absent_id(m[k], id);
        assert(without_id(s, id) == m[k]);
        assert(added.insert(k, m[k]) =~= m);
    } else {
        let s: Seq<(i64, T)> = seq![(id, handle)];
        assert(s.drop_last() =~= Seq::<(i64, T)>::empty());
        assert(without_id(s.drop_last(), id).len() == 0);
        assert(without_id(s, id).len() == 0);
        assert(added.remove(k) =~= m);
    }
}

/// Once a table is dropped, none of its records has subscribers left, and the records of
/// other tables keep theirs.
pub proof fn lemma_dropped_table_has_no_subscribers<T>(
    m: Map<(Seq<char>, i64), Seq<(i64, T)>>,
    table: Seq<char>,
    k: (Seq<char>, i64),
)
    ensures
        k.0 == table ==> !other_tables(m, table).contains_key(k),
        k.0 != table ==> other_tables(m, table).contains_key(k) == m.contains_key(k),
        k.0 != table && m.contains_key(k) ==> other_tables(m, table)[k] == m[k],
{
}

impl<T> View for SubscriptionLists<T> {
    type V = SubscriptionsView<T>;

    closed spec fn view(&self) -> SubscriptionsView<T> {
        SubscriptionsView {
            records: keyed_map(self.records@, row_key(), row_val()),
            tables: keyed_map(self.tables@, table_key(), table_val()),
        }
    }
}

impl<T> SubscriptionLists<T> {
    /// Well-formedness: each record and each table at most once, and no empty list.
    pub closed spec fn wf(&self) -> bool {
        &&& keys_unique(self.records@, row_key())
        &&& keys_unique(self.tables@, table_key())
        &&& forall|i: int| 0 <= i < self.records@.len() ==> (#[trigger] self.records@[i]).subscribers@.len() > 0
        &&& forall|i: int| 0 <= i < self.tables@.len() ==> (#[trigger] self.tables@[i]).subscribers@.len() > 0
    }

    /// The number of record subscribers.
    pub closed spec fn record_count(&self) -> nat {
        total(self.records@, row_size())
    }

    /// The number of table subscribers.
    pub closed spec fn table_count(&self) -> nat {
        total(self.tables@, table_size())
    }

    proof fn lemma_no_empty_lists(&self)
        requires
            self.wf(),
        ensures
            no_empty_lists(self@),
    {
        lemma_keyed_map(self.records@, row_key(), row_val());
        lemma_keyed_map(self.tables@, table_key(), table_val());
        assert forall|k: (Seq<char>, i64)| #[trigger] self@.records.contains_key(k) implies self@.records[k].len()
            > 0 by {
            let i = choose|i: int| 0 <= i < self.records@.len() && row_key()(#[trigger] self.records@[i]) == k;
            assert(self@.records[row_key()(self.records@[i])] == row_val()(self.records@[i]));
        }
        assert forall|t: Seq<char>| #[trigger] self@.tables.contains_key(t) implies self@.tables[t].len() > 0 by {
            let i = choose|i: int| 0 <= i < self.tables@.len() && table_key()(#[trigger] self.tables@[i]) == t;
            assert(self@.tables[table_key()(self.tables@[i])] == table_val()(self.tables@[i]));
        }
    }

    /// The empty registry.
    fn new() -> (r: SubscriptionLists<T>)
        ensures
            r.wf(),
            nothing_subscribed(r@),
            r.record_count() == 0,
            r.table_count() == 0,
    {
        let r = SubscriptionLists { records: Vec::new(), tables: Vec::new() };
        proof {
            lemma_keyed_empty(r.records@, row_key(), row_val());
            lemma_keyed_empty(r.tables@, table_key(), table_val());
        }
        r
    }

    /// Adds subscriber `sub_id` of record `row_id` of `table_name`. Answers whether the
    /// change hook must be installed: when there was no record subscription before.
    fn add_record_subscriber(&mut self, table_name: &str, row_id: i64, sub_id: i64, handle: T) -> (install:
        bool)
        requires
            old(self).wf(),
        ensures
            final(self).wf(),
            final(self)@.records == with_subscriber(old(self)@.records, (table_name@, row_id), (sub_id, handle)),
            final(self)@.tables == old(self)@.tables,
            install == old(self)@.records.dom().is_empty(),
            hook_follows(old(self)@, final(self)@, install, false),
            final(self).record_count() == old(self).record_count() + 1,
            final(self).table_count() == old(self).table_count(),
    {
        let ghost old_records = self.records@;
        let ghost k = (table_name@, row_id);
        let ghost sub = (sub_id, handle);
        proof {
            lemma_keyed_empty(old_records, row_key(), row_val());
            lemma_keyed_map(old_records, row_key(), row_val());
        }
        let install = self.records.len() == 0;
        let i = self.find_row(table_name, row_id);
        if i < self.records.len() {
            let mut e = self.records.remove(i);
            proof {
                lemma_keyed_remove(old_records, i as int, row_key(), row_val());
                lemma_total_remove(old_records, i as int, row_size());
                assert forall|j: int| 0 <= j < self.records@.len() implies #[trigger] self.records@[j]
                    == old_records[if j < i { j } else { j + 1 }] by {}
            }
            e.subscribers.push((sub_id, handle));
            let ghost mid = self.records@;
            self.records.push(e);
            proof {
                lemma_keyed_push(mid, e, row_key(), row_val());
                assert(self.records@.drop_last() =~= mid);
                assert(keyed_map(self.records@, row_key(), row_val()) =~= with_subscriber(
                    keyed_map(old_records, row_key(), row_val()),
                    k,
                    sub,
                ));
            }
        } else {
            let mut subs: Vec<(i64, T)> = Vec::new();
            subs.push((sub_id, handle));
            let e = RowSubscribers { table_name: String::from_str(table_name), row_id, subscribers: subs };
            proof {
                lemma_keyed_push(old_records, e, row_key(), row_val());
                assert(!keyed_map(old_records, row_key(), row_val()).contains_key(k));
            }
            self.records.push(e);
            proof {
                assert(self.records@.drop_last() =~= old_records);
            }
        }
        proof {
            lemma_not_empty(self@.records, k);
        }
        install
    }

    /// Adds subscriber `sub_id` of table `table_name`. Answers whether the change hook must
    /// be installed: when nothing was subscribed before.
    fn add_table_subscriber(&mut self, table_name: &str, sub_id: i64, handle: T) -> (install: bool)
        requires
            old(self).wf(),
        ensures
            final(self).wf(),
            final(self)@.tables == with_subscriber(old(self)@.tables, table_name@, (sub_id, handle)),
            final(self)@.records == old(self)@.records,
            install == nothing_subscribed(old(self)@),
            hook_follows(old(self)@, final(self)@, install, false),
            final(self).table_count() == old(self).table_count() + 1,
            final(self).record_count() == old(self).record_count(),
    {
        let ghost old_tables = self.tables@;
        let ghost k = table_name@;
        let ghost sub = (sub_id, handle);
        proof {
            lemma_keyed_empty(old_tables, table_key(), table_val());
            lemma_keyed_empty(self.records@, row_key(), row_val());
            lemma_keyed_map(old_tables, table_key(), table_val());
        }
        let install = self.tables.len() == 0 && self.records.len() == 0;
        let i = self.find_table(table_name);
        if i < self.tables.len() {
            let mut e = self.tables.remove(i);
            proof {
                lemma_keyed_remove(old_tables, i as int, table_key(), table_val());
                lemma_total_remove(old_tables, i as int, table_size());
                assert forall|j: int| 0 <= j < self.tables@.len() implies #[trigger] self.tables@[j]
                    == old_tables[if j < i { j } else { j + 1 }] by {}
            }
            e.subscribers.push((sub_id, handle));
            let ghost mid = self.tables@;
            self.tables.push(e);
            proof {
                lemma_keyed_push(mid, e, table_key(), table_val());
                assert(self.tables@.drop_last() =~= mid);
                assert(keyed_map(self.tables@, table_key(), table_val()) =~= with_subscriber(
                    keyed_map(old_tables, table_key(), table_val()),
                    k,
                    sub,
                ));
            }
        } else {
            let mut subs: Vec<(i64, T)> = Vec::new();
            subs.push((sub_id, handle));
            let e = TableSubscribers { table_name: String::from_str(table_name), subscribers: subs };
            proof {
                lemma_keyed_push(old_tables, e, table_key(), table_val());
                assert(!keyed_map(old_tables, table_key(), table_val()).contains_key(k));
            }
            self.tables.push(e);
            proof {
                assert(self.tables@.drop_last() =~= old_tables);
            }
        }
        proof {
            lemma_not_empty(self@.tables, k);
        }
        install
    }

    /// Removes a subscription, dropping a list it leaves empty. Answers whether the change
    /// hook must be removed: when this removal left nothing subscribed.
    fn remove_subscriber(&mut self, id: &SubscriptionId) -> (uninstall: bool)
        requires
            old(self).wf(),
        ensures
            final(self).wf(),
            match id.row_id {
                Some(row_id) => {
                    &&& final(self)@.records == without_subscriber(
                        old(self)@.records,
                        (id.table_name@, row_id),
                        id.sub_id,
                    )
                    &&& final(self)@.tables == old(self)@.tables
                },
                None => {
                    &&& final(self)@.tables == without_subscriber(old(self)@.tables, id.table_name@, id.sub_id)
                    &&& final(self)@.records == old(self)@.records
                },
            },
            uninstall == (!nothing_subscribed(old(self)@) && nothing_subscribed(final(self)@)),
            hook_follows(old(self)@, final(self)@, false, uninstall),
    {
        match id.row_id {
            Some(row_id) => self.remove_record_subscriber(id.table_name.as_str(), row_id, id.sub_id),
            None => self.remove_table_subscriber(id.table_name.as_str(), id.sub_id),
        }
    }

    fn remove_record_subscriber(&mut self, table_name: &str, row_id: i64, sub_id: i64) -> (uninstall: bool)
        requires
            old(self).wf(),
        ensures
            final(self).wf(),
            final(self)@.records == without_subscriber(old(self)@.records, (table_name@, row_id), sub_id),
            final(self)@.tables == old(self)@.tables,
            uninstall == (!nothing_subscribed(old(self)@) && nothing_subscribed(final(self)@)),
            hook_follows(old(self)@, final(self)@, false, uninstall),
    {
        let ghost old_records = self.records@;
        let ghost k = (table_name@, row_id);
        proof {
            lemma_keyed_map(old_records, row_key(), row_val());
        }
        let i = self.find_row(table_name, row_id);
        if i == self.records.len() {
            return false;
        }
        proof {
            lemma_not_empty(self@.records, k);
        }
        let mut e = self.records.remove(i);
        proof {
            lemma_keyed_remove(old_records, i as int, row_key(), row_val());
            assert forall|j: int| 0 <= j < self.records@.len() implies #[trigger] self.records@[j]
                == old_records[if j < i { j } else { j + 1 }] by {}
        }
        retain_others(&mut e.subscribers, sub_id);
        if e.subscribers.len() == 0 {
            proof {
                lemma_keyed_empty(self.records@, row_key(), row_val());
                lemma_keyed_empty(self.tables@, table_key(), table_val());
            }
            self.records.len() == 0 && self.tables.len() == 0
        } else {
            let ghost mid = self.records@;
            self.records.push(e);
            proof {
                lemma_keyed_push(mid, e, row_key(), row_val());
                assert(self.records@.drop_last() =~= mid);
                lemma_not_empty(self@.records, k);
            }
            false
        }
    }

    fn remove_table_subscriber(&mut self, table_name: &str, sub_id: i64) -> (uninstall: bool)
        requires
            old(self).wf(),
        ensures
            final(self).wf(),
            final(self)@.tables == without_subscriber(old(self)@.tables, table_name@, sub_id),
            final(self)@.records == old(self)@.records,
            uninstall == (!nothing_subscribed(old(self)@) && nothing_subscribed(final(self)@)),
            hook_follows(old(self)@, final(self)@, false, uninstall),
    {
        let ghost old_tables = self.tables@;
        let ghost k = table_name@;
        proof {
            lemma_keyed_map(old_tables, table_key(), table_val());
        }
        let i = self.find_table(table_name);
        if i == self.tables.len() {
            return false;
        }
        proof {
            lemma_not_empty(self@.tables, k);
        }
        let mut e = self.tables.remove(i);
        proof {
            lemma_keyed_remove(old_tables, i as int, table_key(), table_val());
            assert forall|j: int| 0 <= j < self.tables@.len() implies #[trigger] self.tables@[j]
                == old_tables[if j < i { j } else { j + 1 }] by {}
        }
        retain_others(&mut e.subscribers, sub_id);
        if e.subscribers.len() == 0 {
            proof {
                lemma_keyed_empty(self.records@, row_key(), row_val());
                lemma_keyed_empty(self.tables@, table_key(), table_val());
            }
            self.records.len() == 0 && self.tables.len() == 0
        } else {
            let ghost mid = self.tables@;
            self.tables.push(e);
            proof {
                lemma_keyed_push(mid, e, table_key(), table_val());
                assert(self.tables@.drop_last() =~= mid);
                lemma_not_empty(self@.tables, k);
            }
            false
        }
    }

    /// Drops every subscription to `table_name` and its records, as when the table is gone.
    /// Answers whether the change hook must be removed: when nothing is subscribed after.
    fn remove_table(&mut self, table_name: &str) -> (uninstall: bool)
        requires
            old(self).wf(),
        ensures
            final(self).wf(),
            final(self)@.records == other_tables(old(self)@.records, table_name@),
            final(self)@.tables == old(self)@.tables.remove(table_name@),
            uninstall == nothing_subscribed(final(self)@),
            hook_follows(old(self)@, final(self)@, false, uninstall),
    {
        let ghost orig = self.records@;
        let ghost p = of_other_table(table_name@);
        let ghost mut j: int = 0;
        let mut i: usize = 0;
        proof {
            assert(orig.take(0) =~= Seq::<RowSubscribers<T>>::empty());
            assert(self.records@.take(0) =~= Seq::<RowSubscribers<T>>::empty());
            assert(orig.skip(0) =~= orig);
        }
        while i < self.records.len()
            invariant
                0 <= i <= self.records@.len(),
                0 <= j <= orig.len(),
                self.records@.take(i as int) == keep_keyed(orig.take(j), row_key(), p),
                self.records@.skip(i as int) == orig.skip(j),
                p == of_other_table(table_name@),
                orig == old(self).records@,
                self.tables@ == old(self).tables@,
                old(self).wf(),
            decreases self.records@.len() - i,
        {
            proof {
                assert(self.records@.skip(i as int).len() > 0);
                assert(orig.skip(j).len() > 0);
                assert(self.records@[i as int] == self.records@.skip(i as int)[0]);
                assert(orig[j] == orig.skip(j)[0]);
                crate::keyed::lemma_keep_keyed_step(orig, j, row_key(), p);
            }
            if str_eq(self.records[i].table_name.as_str(), table_name) {
                let ghost before = self.records@;
                self.records.remove(i);
                proof {
                    assert(self.records@.take(i as int) =~= before.take(i as int));
                    assert(self.records@.skip(i as int) =~= before.skip(i + 1));
                    assert(orig.skip(j + 1) =~= orig.skip(j).skip(1));
                    assert(before.skip(i + 1) =~= before.skip(i as int).skip(1));
                    j = j + 1;
                }
            } else {
                proof {
                    assert(self.records@.take(i + 1) =~= self.records@.take(i as int).push(self.records@[i as int]));
                    assert(self.records@.skip(i + 1) =~= self.records@.skip(i as int).skip(1));
                    assert(orig.skip(j + 1) =~= orig.skip(j).skip(1));
                    j = j + 1;
                }
                i += 1;
            }
        }
        proof {
            assert(orig.skip(j).len() == 0);
            assert(orig.take(j) =~= orig);
            assert(self.records@.take(i as int) =~= self.records@);
            lemma_keep_keyed(orig, row_key(), row_val(), p);
            let kept = self.records@;
            assert forall|a: int| 0 <= a < kept.len() implies (#[trigger] kept[a]).subscribers@.len() > 0 by {
                let b = choose|b: int| 0 <= b < orig.len() && orig[b] == #[trigger] kept[a];
            }
        }
        let ghost old_tables = self.tables@;
        let t = self.find_table(table_name);
        if t < self.tables.len() {
            self.tables.remove(t);
            proof {
                lemma_keyed_remove(old_tables, t as int, table_key(), table_val());
                assert forall|a: int| 0 <= a < self.tables@.len() implies #[trigger] self.tables@[a]
                    == old_tables[if a < t { a } else { a + 1 }] by {}
            }
        } else {
            proof {
                lemma_keyed_map(old_tables, table_key(), table_val());
                assert(keyed_map(old_tables, table_key(), table_val()).remove(table_name@) =~= keyed_map(
                    old_tables,
                    table_key(),
                    table_val(),
                ));
            }
        }
        proof {
            lemma_keyed_empty(self.records@, row_key(), row_val());
            lemma_keyed_empty(self.tables@, table_key(), table_val());
            lemma_keyed_empty(orig, row_key(), row_val());
            lemma_keyed_empty(old_tables, table_key(), table_val());
            if !nothing_subscribed(self@) {
                if !self@.records.dom().is_empty() {
                    let k = self@.records.dom().choose();
                    assert(self@.records.dom().contains(k));
                    lemma_not_empty(keyed_map(orig, row_key(), row_val()), k);
                } else {
                    let k = self@.tables.dom().choose();
                    assert(self@.tables.dom().contains(k));
                    lemma_not_empty(keyed_map(old_tables, table_key(), table_val()), k);
                }
            }
        }
        self.records.len() == 0 && self.tables.len() == 0
    }

    /// Drops dead subscribers of record `row_id` of `table_name` after a change to it was
    /// brokered; a deleted record loses all of them. Answers whether the change hook must be
    /// removed: when this left nothing subscribed.
    fn prune_record_subscribers(
        &mut self,
        table_name: &str,
        row_id: i64,
        dead: &Vec<usize>,
        action: RecordAction,
    ) -> (uninstall: bool)
        requires
            old(self).wf(),
            !(action is Delete) && old(self)@.records.contains_key((table_name@, row_id)) ==> dead_valid(
                dead@,
                old(self)@.records[(table_name@, row_id)].len(),
            ),
        ensures
            final(self).wf(),
            final(self)@.records == after_record_change(old(self)@.records, (table_name@, row_id), dead@, action),
            final(self)@.tables == old(self)@.tables,
            uninstall == (!nothing_subscribed(old(self)@) && nothing_subscribed(final(self)@)),
            hook_follows(old(self)@, final(self)@, false, uninstall),
    {
        let ghost old_records = self.records@;
        let ghost k = (table_name@, row_id);
        proof {
            lemma_keyed_map(old_records, row_key(), row_val());
        }
        let i = self.find_row(table_name, row_id);
        if i == self.records.len() {
            proof {
                assert(keyed_map(old_records, row_key(), row_val()).remove(k) =~= keyed_map(
                    old_records,
                    row_key(),
                    row_val(),
                ));
            }
            return false;
        }
        proof {
            lemma_not_empty(self@.records, k);
        }
        let mut e = self.records.remove(i);
        proof {
            lemma_keyed_remove(old_records, i as int, row_key(), row_val());
            assert forall|j: int| 0 <= j < self.records@.len() implies #[trigger] self.records@[j]
                == old_records[if j < i { j } else { j + 1 }] by {}
        }
        let deleted = matches!(action, RecordAction::Delete);
        if !deleted {
            remove_dead(&mut e.subscribers, dead);
            if e.subscribers.len() > 0 {
                let ghost mid = self.records@;
                self.records.push(e);
                proof {
                    lemma_keyed_push(mid, e, row_key(), row_val());
                    assert(self.records@.drop_last() =~= mid);
                    lemma_not_empty(self@.records, k);
                }
                return false;
            }
        }
        proof {
            lemma_keyed_empty(self.records@, row_key(), row_val());
            lemma_keyed_empty(self.tables@, table_key(), table_val());
        }
        self.records.len() == 0 && self.tables.len() == 0
    }

    /// Drops dead subscribers of table `table_name` after a change was brokered to them.
    /// Answers whether the change hook must be removed: when this left nothing subscribed.
    fn prune_table_subscribers(&mut self, table_name: &str, dead: &Vec<usize>) -> (uninstall: bool)
        requires
            old(self).wf(),
            old(self)@.tables.contains_key(table_name@) ==> dead_valid(
                dead@,
                old(self)@.tables[table_name@].len(),
            ),
        ensures
            final(self).wf(),
            final(self)@.tables == after_pruning(old(self)@.tables, table_name@, dead@),
            final(self)@.records == old(self)@.records,
            uninstall == (!nothing_subscribed(old(self)@) && nothing_subscribed(final(self)@)),
            hook_follows(old(self)@, final(self)@, false, uninstall),
    {
        let ghost old_tables = self.tables@;
        let ghost k = table_name@;
        proof {
            lemma_keyed_map(old_tables, table_key(), table_val());
        }
        let i = self.find_table(table_name);
        if i == self.tables.len() {
            return false;
        }
        proof {
            lemma_not_empty(self@.tables, k);
        }
        let mut e = self.tables.remove(i);
        proof {
            lemma_keyed_remove(old_tables, i as int, table_key(), table_val());
            assert forall|j: int| 0 <= j < self.tables@.len() implies #[trigger] self.tables@[j]
                == old_tables[if j < i { j } else { j + 1 }] by {}
        }
        remove_dead(&mut e.subscribers, dead);
        if e.subscribers.len() > 0 {
            let ghost mid = self.tables@;
            self.tables.push(e);
            proof {
                lemma_keyed_push(mid, e, table_key(), table_val());
                assert(self.tables@.drop_last() =~= mid);
                lemma_not_empty(self@.tables, k);
            }
            return false;
        }
        proof {
            lemma_keyed_empty(self.records@, row_key(), row_val());
            lemma_keyed_empty(self.tables@, table_key(), table_val());
        }
        self.records.len() == 0 && self.tables.len() == 0
    }

    /// The subscribers of record `row_id` of `table_name`, if any.
    fn record_subscribers(&self, table_name: &str, row_id: i64) -> (r: Option<&Vec<(i64, T)>>)
        requires
            self.wf(),
        ensures
            match r {
                Some(v) => self@.records.contains_key((table_name@, row_id)) && self@.records[(
                table_name@,
                row_id,
                )] == v@,
                None => !self@.records.contains_key((table_name@, row_id)),
            },
    {
        proof {
            lemma_keyed_map(self.records@, row_key(), row_val());
        }
        let i = self.find_row(table_name, row_id);
        if i < self.records.len() {
            Some(&self.records[i].subscribers)
        } else {
            None
        }
    }

    /// The subscribers of table `table_name`, if any.
    fn table_subscribers(&self, table_name: &str) -> (r: Option<&Vec<(i64, T)>>)
        requires
            self.wf(),
        ensures
            match r {
                Some(v) => self@.tables.contains_key(table_name@) && self@.tables[table_name@] == v@,
                None => !self@.tables.contains_key(table_name@),
            },
    {
        proof {
            lemma_keyed_map(self.tables@, table_key(), table_val());
        }
        let i = self.find_table(table_name);
        if i < self.tables.len() {
            Some(&self.tables[i].subscribers)
        } else {
            None
        }
    }

    /// Whether a change to record `row_id` of `table_name` has anybody to go to.
    fn has_subscribers(&self, table_name: &str, row_id: i64) -> (r: bool)
        requires
            self.wf(),
        ensures
            r == (self@.records.contains_key((table_name@, row_id)) || self@.tables.contains_key(table_name@)),
    {
        let a = self.record_subscribers(table_name, row_id).is_some();
        let b = self.table_subscribers(table_name).is_some();
        a || b
    }

    /// The number of record subscribers.
    fn num_record_subscriptions(&self) -> (r: usize)
        requires
            self.record_count() <= usize::MAX,
        ensures
            r == self.record_count(),
    {
        let mut count: usize = 0;
        let mut i: usize = 0;
        while i < self.records.len()
            invariant
                i <= self.records@.len(),
                count == total(self.records@.take(i as int), row_size()),
                total(self.records@, row_size()) <= usize::MAX,
            decreases self.records.len() - i,
        {
            proof {
                lemma_total_prefix(self.records@, i as int, row_size());
                lemma_total_prefix(self.records@, i + 1, row_size());
            }
            count = count + self.records[i].subscribers.len();
            i += 1;
        }
        proof {
            assert(self.records@.take(i as int) =~= self.records@);
        }
        count
    }

    /// The number of table subscribers.
    fn num_table_subscriptions(&self) -> (r: usize)
        requires
            self.table_count() <= usize::MAX,
        ensures
            r == self.table_count(),
    {
        let mut count: usize = 0;
        let mut i: usize = 0;
        while i < self.tables.len()
            invariant
                i <= self.tables@.len(),
                count == total(self.tables@.take(i as int), table_size()),
                total(self.tables@, table_size()) <= usize::MAX,
            decreases self.tables.len() - i,
        {
            proof {
                lemma_total_prefix(self.tables@, i as int, table_size());
                lemma_total_prefix(self.tables@, i + 1, table_size());
            }
            count = count + self.tables[i].subscribers.len();
            i += 1;
        }
        proof {
            assert(self.tables@.take(i as int) =~= self.tables@);
        }
        count
    }

    fn find_row(&self, table_name: &str, row_id: i64) -> (r: usize)
        ensures
            r <= self.records@.len(),
            r < self.records@.len() ==> row_key()(self.records@[r as int]) == (table_name@, row_id),
            r == self.records@.len() ==> forall|j: int|
                0 <= j < self.records@.len() ==> row_key()(#[trigger] self.records@[j]) != (table_name@, row_id),
    {
        let mut i: usize = 0;
        while i < self.records.len()
            invariant
                i <= self.records@.len(),
                forall|j: int| 0 <= j < i ==> row_key()(#[trigger] self.records@[j]) != (table_name@, row_id),
            decreases self.records.len() - i,
        {
            if self.records[i].row_id == row_id && str_eq(self.records[i].table_name.as_str(), table_name) {
                return i;
            }
            i += 1;
        }
        i
    }

    fn find_table(&self, table_name: &str) -> (r: usize)
        ensures
            r <= self.tables@.len(),
            r < self.tables@.len() ==> table_key()(self.tables@[r as int]) == table_name@,
            r == self.tables@.len() ==> forall|j: int|
                0 <= j < self.tables@.len() ==> table_key()(#[trigger] self.tables@[j]) != table_name@,
    {
        let mut i: usize = 0;
        while i < self.tables.len()
            invariant
                i <= self.tables@.len(),
                forall|j: int| 0 <= j < i ==> table_key()(#[trigger] self.tables@[j]) != table_name@,
            decreases self.tables.len() - i,
        {
            if str_eq(self.tables[i].table_name.as_str(), table_name) {
                return i;
            }
            i += 1;
        }
        i
    }
}

impl<T> View for Subscriptions<T> {
    type V = SubscriptionsView<T>;

    closed spec fn view(&self) -> SubscriptionsView<T> {
        self.lists@
    }
}

impl<T> Subscriptions<T> {
    /// Each record and each table at most once, and no empty list.
    #[verifier::type_invariant]
    spec fn lists_wf(self) -> bool {
        self.lists.wf()
    }

    /// The number of record subscribers.
    pub closed spec fn record_count(&self) -> nat {
        self.lists.record_count()
    }

    /// The number of table subscribers.
    pub closed spec fn table_count(&self) -> nat {
        self.lists.table_count()
    }

    /// The empty registry.
    pub fn new() -> (r: Subscriptions<T>)
        ensures
            nothing_subscribed(r@),
            no_empty_lists(r@),
            r.record_count() == 0,
            r.table_count() == 0,
    {
        let lists = SubscriptionLists::new();
        proof {
            lists.lemma_no_empty_lists();
        }
        Subscriptions { lists }
    }

    /// Adds subscriber `sub_id` of record `row_id` of `table_name`. Answers whether the
    /// change hook must be installed: when there was no record subscription before.
    pub fn add_record_subscriber(&mut self, table_name: &str, row_id: i64, sub_id: i64, handle: T) -> (install:
        bool)
        ensures
            final(self)@.records == with_subscriber(old(self)@.records, (table_name@, row_id), (sub_id, handle)),
            final(self)@.tables == old(self)@.tables,
            install == old(self)@.records.dom().is_empty(),
            hook_follows(old(self)@, final(self)@, install, false),
            no_empty_lists(final(self)@),
            final(self).record_count() == old(self).record_count() + 1,
            final(self).table_count() == old(self).table_count(),
    {
        proof {
            use_type_invariant(&*self);
        }
        let mut lists = SubscriptionLists::new();
        std::mem::swap(&mut lists, &mut self.lists);
        let install = lists.add_record_subscriber(table_name, row_id, sub_id, handle);
        proof {
            lists.lemma_no_empty_lists();
        }
        self.lists = lists;
        install
    }

    /// Adds subscriber `sub_id` of table `table_name`. Answers whether the change hook must
    /// be installed: when nothing was subscribed before.
    pub fn add_table_subscriber(&mut self, table_name: &str, sub_id: i64, handle: T) -> (install: bool)
        ensures
            final(self)@.tables == with_subscriber(old(self)@.tables, table_name@, (sub_id, handle)),
            final(self)@.records == old(self)@.records,
            install == nothing_subscribed(old(self)@),
            hook_follows(old(self)@, final(self)@, install, false),
            no_empty_lists(final(self)@),
            final(self).table_count() == old(self).table_count() + 1,
            final(self).record_count() == old(self).record_count(),
    {
        proof {
            use_type_invariant(&*self);
        }
        let mut lists = SubscriptionLists::new();
        std::mem::swap(&mut lists, &mut self.lists);
        let install = lists.add_table_subscriber(table_name, sub_id, handle);
        proof {
            lists.lemma_no_empty_lists();
        }
        self.lists = lists;
        install
    }

    /// Removes a subscription, dropping a list it leaves empty. Answers whether the change
    /// hook must be removed: when this removal left nothing subscribed.
    pub fn remove_subscriber(&mut self, id: &SubscriptionId) -> (uninstall: bool)
        ensures
            match id.row_id {
                Some(row_id) => {
                    &&& final(self)@.records == without_subscriber(
                        old(self)@.records,
                        (id.table_name@, row_id),
                        id.sub_id,
                    )
                    &&& final(self)@.tables == old(self)@.tables
                },
                None => {
                    &&& final(self)@.tables == without_subscriber(old(self)@.tables, id.table_name@, id.sub_id)
                    &&& final(self)@.records == old(self)@.records
                },
            },
            uninstall == (!nothing_subscribed(old(self)@) && nothing_subscribed(final(self)@)),
            hook_follows(old(self)@, final(self)@, false, uninstall),
            no_empty_lists(final(self)@),
    {
        proof {
            use_type_invariant(&*self);
        }
        let mut lists = SubscriptionLists::new();
        std::mem::swap(&mut lists, &mut self.lists);
        let uninstall = lists.remove_subscriber(id);
        proof {
            lists.lemma_no_empty_lists();
        }
        self.lists = lists;
        uninstall
    }

    /// Drops every subscription to `table_name` and its records, as when the table is gone.
    /// Answers whether the change hook must be removed: when nothing is subscribed after.
    pub fn remove_table(&mut self, table_name: &str) -> (uninstall: bool)
        ensures
            final(self)@.records == other_tables(old(self)@.records, table_name@),
            final(self)@.tables == old(self)@.tables.remove(table_name@),
            uninstall == nothing_subscribed(final(self)@),
            hook_follows(old(self)@, final(self)@, false, uninstall),
            no_empty_lists(final(self)@),
    {
        proof {
            use_type_invariant(&*self);
        }
        let mut lists = SubscriptionLists::new();
        std::mem::swap(&mut lists, &mut self.lists);
        let uninstall = lists.remove_table(table_name);
        proof {
            lists.lemma_no_empty_lists();
        }
        self.lists = lists;
        uninstall
    }

    /// Drops dead subscribers of record `row_id` of `table_name` after a change to it was
    /// brokered; a deleted record loses all of them. Answers whether the change hook must be
    /// removed: when this left nothing subscribed.
    pub fn prune_record_subscribers(
        &mut self,
        table_name: &str,
        row_id: i64,
        dead: &Vec<usize>,
        action: RecordAction,
    ) -> (uninstall: bool)
        requires
            !(action is Delete) && old(self)@.records.contains_key((table_name@, row_id)) ==> dead_valid(
                dead@,
                old(self)@.records[(table_name@, row_id)].len(),
            ),
        ensures
            final(self)@.records == after_record_change(old(self)@.records, (table_name@, row_id), dead@, action),
            final(self)@.tables == old(self)@.tables,
            uninstall == (!nothing_subscribed(old(self)@) && nothing_subscribed(final(self)@)),
            hook_follows(old(self)@, final(self)@, false, uninstall),
            no_empty_lists(final(self)@),
    {
        proof {
            use_type_invariant(&*self);
        }
        let mut lists = SubscriptionLists::new();
        std::mem::swap(&mut lists, &mut self.lists);
        let uninstall = lists.prune_record_subscribers(table_name, row_id, dead, action);
        proof {
            lists.lemma_no_empty_lists();
        }
        self.lists = lists;
        uninstall
    }

    /// Drops dead subscribers of table `table_name` after a change was brokered to them.
    /// Answers whether the change hook must be removed: when this left nothing subscribed.
    pub fn prune_table_subscribers(&mut self, table_name: &str, dead: &Vec<usize>) -> (uninstall: bool)
        requires
            old(self)@.tables.contains_key(table_name@) ==> dead_valid(
                dead@,
                old(self)@.tables[table_name@].len(),
            ),
        ensures
            final(self)@.tables == after_pruning(old(self)@.tables, table_name@, dead@),
            final(self)@.records == old(self)@.records,
            uninstall == (!nothing_subscribed(old(self)@) && nothing_subscribed(final(self)@)),
            hook_follows(old(self)@, final(self)@, false, uninstall),
            no_empty_lists(final(self)@),
    {
        proof {
            use_type_invariant(&*self);
        }
        let mut lists = SubscriptionLists::new();
        std::mem::swap(&mut lists, &mut self.lists);
        let uninstall = lists.prune_table_subscribers(table_name, dead);
        proof {
            lists.lemma_no_empty_lists();
        }
        self.lists = lists;
        uninstall
    }

    /// The subscribers of record `row_id` of `table_name`, if any.
    pub fn record_subscribers(&self, table_name: &str, row_id: i64) -> (r: Option<&Vec<(i64, T)>>)
        ensures
            match r {
                Some(v) => self@.records.contains_key((table_name@, row_id)) && self@.records[(
                table_name@,
                row_id,
                )] == v@,
                None => !self@.records.contains_key((table_name@, row_id)),
            },
    {
        proof {
            use_type_invariant(self);
        }
        self.lists.record_subscribers(table_name, row_id)
    }

    /// The subscribers of table `table_name`, if any.
    pub fn table_subscribers(&self, table_name: &str) -> (r: Option<&Vec<(i64, T)>>)
        ensures
            match r {
                Some(v) => self@.tables.contains_key(table_name@) && self@.tables[table_name@] == v@,
                None => !self@.tables.contains_key(table_name@),
            },
    {
        proof {
            use_type_invariant(self);
        }
        self.lists.table_subscribers(table_name)
    }

    /// Whether a change to record `row_id` of `table_name` has anybody to go to.
    pub fn has_subscribers(&self, table_name: &str, row_id: i64) -> (r: bool)
        ensures
            r == (self@.records.contains_key((table_name@, row_id)) || self@.tables.contains_key(table_name@)),
    {
        proof {
            use_type_invariant(self);
        }
        self.lists.has_subscribers(table_name, row_id)
    }

    /// The number of record subscribers.
    pub fn num_record_subscriptions(&self) -> (r: usize)
        requires
            self.record_count() <= usize::MAX,
        ensures
            r == self.record_count(),
    {
        self.lists.num_record_subscriptions()
    }

    /// The number of table subscribers.
    pub fn num_table_subscriptions(&self) -> (r: usize)
        requires
            self.table_count() <= usize::MAX,
        ensures
            r == self.table_count(),
    {
        self.lists.num_table_subscriptions()
    }
}

} // verus!
