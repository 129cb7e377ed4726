//! The cache of what the console last reported, and the rule that turns a
//! full snapshot into the reports that bring news.

use std::collections::HashMap;
use vstd::prelude::*;
use vstd::std_specs::hash::group_hash_axioms;

use crate::types::executor::ExecutorType;
use crate::types::executor_data::{
    button_views, fader_views, ButtonDataView, FaderDataView, Ma2DataView,
};
use crate::types::{ButtonData, ButtonExecutor, Executor, FaderData, FaderExecutor, Ma2Data};

verus! {

broadcast use group_hash_axioms;

/// Whether a report brings news: the cache holds nothing of its executor,
/// or holds something else.
pub open spec fn is_news<V>(cache: Map<Executor, V>, item: V, key: spec_fn(V) -> Executor) -> bool {
    !cache.contains_key(key(item)) || cache[key(item)] != item
}

/// The cache after a run of reports: each executor holds the last report
/// made of it.
pub open spec fn cache_after<V>(
    cache: Map<Executor, V>,
    items: Seq<V>,
    key: spec_fn(V) -> Executor,
) -> Map<Executor, V>
    decreases items.len(),
{
    if items.len() == 0 {
        cache
    } else {
        cache_after(cache, items.drop_last(), key).insert(key(items.last()), items.last())
    }
}

/// The reports of a run that bring news, each held against the cache as the
/// reports before it have left it, in the order of the run.
pub open spec fn news<V>(cache: Map<Executor, V>, items: Seq<V>, key: spec_fn(V) -> Executor) -> Seq<
    V,
>
    decreases items.len(),
{
    if items.len() == 0 {
        Seq::empty()
    } else {
        let before = cache_after(cache, items.drop_last(), key);
        let earlier = news(cache, items.drop_last(), key);
        if is_news(before, items.last(), key) {
            earlier.push(items.last())
        } else {
            earlier
        }
    }
}

/// How many reports of a run are of the given executor.
pub open spec fn count_of<V>(items: Seq<V>, executor: Executor, key: spec_fn(V) -> Executor) -> nat
    decreases items.len(),
{
    if items.len() == 0 {
        0
    } else {
        count_of(items.drop_last(), executor, key) + if key(items.last()) == executor {
            1nat
        } else {
            0nat
        }
    }
}

/// Whether the reports of a run that are of one executor agree with each
/// other.
pub open spec fn agree<V>(items: Seq<V>, key: spec_fn(V) -> Executor) -> bool {
    forall|i: int, j: int|
        0 <= i < items.len() && 0 <= j < items.len() && key(#[trigger] items[i]) == key(
            #[trigger] items[j],
        ) ==> items[i] == items[j]
}

/// The executor of a fader report.
pub open spec fn fader_key() -> spec_fn(FaderDataView) -> Executor {
    |f: FaderDataView| f.executor
}

/// The executor of a button report.
pub open spec fn button_key() -> spec_fn(ButtonDataView) -> Executor {
    |b: ButtonDataView| b.executor
}

/// After a run of reports whose reports agree, the cache holds each of
/// them.
pub proof fn lemma_cache_holds_reports<V>(
    cache: Map<Executor, V>,
    items: Seq<V>,
    key: spec_fn(V) -> Executor,
)
    requires
        agree(items, key),
    ensures
        forall|i: int|
            0 <= i < items.len() ==> cache_after(cache, items, key).contains_key(
                key(#[trigger] items[i]),
            ) && cache_after(cache, items, key)[key(items[i])] == items[i],
    decreases items.len(),
{
    if items.len() > 0 {
        let shorter = items.drop_last();
        assert forall|i: int, j: int|
            0 <= i < shorter.len() && 0 <= j < shorter.len() && key(#[trigger] shorter[i]) == key(
                #[trigger] shorter[j],
            ) implies shorter[i] == shorter[j] by {
            assert(shorter[i] == items[i] && shorter[j] == items[j]);
        }
        lemma_cache_holds_reports(cache, shorter, key);
        assert forall|i: int| 0 <= i < items.len() implies cache_after(
            cache,
            items,
            key,
        ).contains_key(key(#[trigger] items[i])) && cache_after(cache, items, key)[key(items[i])]
            == items[i] by {
            if i < items.len() - 1 {
                assert(shorter[i] == items[i]);
                if key(items[i]) == key(items.last()) {
                    assert(items[i] == items[items.len() - 1]);
                }
            }
        }
    }
}

/// A run of reports that the cache already holds changes nothing and brings
/// no news.
pub proof fn lemma_known_reports_are_no_news<V>(
    cache: Map<Executor, V>,
    items: Seq<V>,
    key: spec_fn(V) -> Executor,
)
    requires
        forall|i: int|
            0 <= i < items.len() ==> cache.contains_key(key(#[trigger] items[i])) && cache[key(
                items[i],
            )] == items[i],
    ensures
        cache_after(cache, items, key) == cache,
        news(cache, items, key) == Seq::<V>::empty(),
    decreases items.len(),
{
    if items.len() > 0 {
        let shorter = items.drop_last();
        assert forall|i: int| 0 <= i < shorter.len() implies cache.contains_key(
            key(#[trigger] shorter[i]),
        ) && cache[key(shorter[i])] == shorter[i] by {
            assert(shorter[i] == items[i]);
        }
        lemma_known_reports_are_no_news(cache, shorter, key);
        assert(items.last() == items[items.len() - 1]);
        assert(cache.insert(key(items.last()), items.last()) =~= cache);
    }
}

/// The same run of reports, taken a second time, brings no news and leaves
/// the cache as it is, provided that its reports of one executor agree.
pub proof fn lemma_diff_idempotent<V>(
    cache: Map<Executor, V>,
    items: Seq<V>,
    key: spec_fn(V) -> Executor,
)
    requires
        agree(items, key),
    ensures
        news(cache_after(cache, items, key), items, key) == Seq::<V>::empty(),
        cache_after(cache_after(cache, items, key), items, key) == cache_after(cache, items, key),
{
    lemma_cache_holds_reports(cache, items, key);
    lemma_known_reports_are_no_news(cache_after(cache, items, key), items, key);
}

/// What a run of reports does for one executor whose reports in the run all
/// equal `report`: if there is such a report, the cache afterwards holds
/// it, and the news name the executor once if the cache did not hold the
/// report before, and not at all if it did. Every report of the executor
/// among the news equals `report`.
pub proof fn lemma_diff_of_one_executor<V>(
    cache: Map<Executor, V>,
    items: Seq<V>,
    key: spec_fn(V) -> Executor,
    executor: Executor,
    report: V,
)
    requires
        forall|i: int|
            0 <= i < items.len() && key(#[trigger] items[i]) == executor ==> items[i] == report,
    ensures
        count_of(items, executor, key) == 0 ==> cache_after(cache, items, key).contains_key(
            executor,
        ) == cache.contains_key(executor) && cache_after(cache, items, key)[executor]
            == cache[executor],
        count_of(items, executor, key) > 0 ==> cache_after(cache, items, key).contains_key(
            executor,
        ) && cache_after(cache, items, key)[executor] == report,
        count_of(news(cache, items, key), executor, key) == if count_of(items, executor, key) > 0
            && !(cache.contains_key(executor) && cache[executor] == report) {
            1nat
        } else {
            0nat
        },
        forall|i: int|
            0 <= i < news(cache, items, key).len() && key(#[trigger] news(cache, items, key)[i])
                == executor ==> news(cache, items, key)[i] == report,
    decreases items.len(),
{
    if items.len() > 0 {
        let shorter = items.drop_last();
        let last = items.last();
        assert(last == items[items.len() - 1]);
        assert forall|i: int|
            0 <= i < shorter.len() && key(#[trigger] shorter[i]) == executor implies shorter[i]
            == report by {
            assert(shorter[i] == items[i]);
        }
        lemma_diff_of_one_executor(cache, shorter, key, executor, report);
        let before = cache_after(cache, shorter, key);
        let earlier = news(cache, shorter, key);
        if is_news(before, last, key) {
            let all = earlier.push(last);
            assert(all.drop_last() =~= earlier);
            assert(all.last() == last);
            assert forall|i: int| 0 <= i < all.len() && key(#[trigger] all[i]) == executor implies all[i]
                == report by {
                if i < earlier.len() {
                    assert(all[i] == earlier[i]);
                }
            }
        }
    }
}

/// A report of an executor that the cache does not know, in a run whose
/// reports of that executor agree, is found once among the news and is in
/// the cache afterwards.
pub proof fn lemma_diff_complete<V>(
    cache: Map<Executor, V>,
    items: Seq<V>,
    key: spec_fn(V) -> Executor,
    at: int,
)
    requires
        0 <= at < items.len(),
        !cache.contains_key(key(items[at])),
        forall|i: int|
            0 <= i < items.len() && key(#[trigger] items[i]) == key(items[at]) ==> items[i]
                == items[at],
    ensures
        count_of(news(cache, items, key), key(items[at]), key) == 1,
        forall|i: int|
            0 <= i < news(cache, items, key).len() && key(#[trigger] news(cache, items, key)[i])
                == key(items[at]) ==> news(cache, items, key)[i] == items[at],
        cache_after(cache, items, key).contains_key(key(items[at])),
        cache_after(cache, items, key)[key(items[at])] == items[at],
{
    lemma_diff_of_one_executor(cache, items, key, key(items[at]), items[at]);
    lemma_count_of_present(items, key, at);
}

/// A run names the executor of each of its reports at least once.
pub proof fn lemma_count_of_present<V>(items: Seq<V>, key: spec_fn(V) -> Executor, at: int)
    requires
        0 <= at < items.len(),
    ensures
        count_of(items, key(items[at]), key) > 0,
    decreases items.len(),
{
    if at < items.len() - 1 {
        let shorter = items.drop_last();
        assert(shorter[at] == items[at]);
        lemma_count_of_present(shorter, key, at);
    }
}

/// The place of an executor in the tables of the cache.
pub open spec fn key_of(executor: Executor) -> u32 {
    (executor.page as u32 * 65536 + executor.id as u32) as u32
}

/// Computes the place of an executor in the tables of the cache.
fn table_key(executor: Executor) -> (k: u32)
    ensures
        k == key_of(executor),
{
    executor.page as u32 * 65536 + executor.id as u32
}

/// Two executors have the same place only if they are the same.
pub proof fn lemma_key_of_injective(a: Executor, b: Executor)
    ensures
        key_of(a) == key_of(b) <==> a == b,
{
}

/// What the client last saw of the faders and buttons of the console.
#[derive(Debug)]
pub struct Ma2State {
    buttons: HashMap<u32, ButtonData>,
    faders: HashMap<u32, FaderData>,
}

/// A [`Ma2State`] as a mathematical value: the last report of each executor.
pub struct Ma2StateView {
    pub faders: Map<Executor, FaderDataView>,
    pub buttons: Map<Executor, ButtonDataView>,
}

impl Ma2StateView {
    /// Whether each report lies under its own executor and each executor has
    /// the kind of its map.
    pub open spec fn wf(self) -> bool {
        &&& forall|e: Executor| #[trigger]
            self.faders.contains_key(e) ==> self.faders[e].executor == e && e.kind()
                == ExecutorType::Fader
        &&& forall|e: Executor| #[trigger]
            self.buttons.contains_key(e) ==> self.buttons[e].executor == e && e.kind()
                == ExecutorType::Button
    }
}

impl View for Ma2State {
    type V = Ma2StateView;

    closed spec fn view(&self) -> Ma2StateView {
        Ma2StateView {
            faders: Map::new(
                |e: Executor| self.faders@.contains_key(key_of(e)),
                |e: Executor| self.faders@[key_of(e)]@,
            ),
            buttons: Map::new(
                |e: Executor| self.buttons@.contains_key(key_of(e)),
                |e: Executor| self.buttons@[key_of(e)]@,
            ),
        }
    }
}

impl Ma2State {
    /// Whether each report lies under the place of its own executor, and
    /// each executor has the kind of its table.
    pub closed spec fn wf(self) -> bool {
        &&& forall|k: u32| #[trigger]
            self.faders@.contains_key(k) ==> key_of(self.faders@[k]@.executor) == k
                && self.faders@[k]@.executor.kind() == ExecutorType::Fader
        &&& forall|k: u32| #[trigger]
            self.buttons@.contains_key(k) ==> key_of(self.buttons@[k]@.executor) == k
                && self.buttons@[k]@.executor.kind() == ExecutorType::Button
    }

    /// A state that meets its invariant has a well-formed view.
    pub proof fn lemma_view_wf(self)
        requires
            self.wf(),
        ensures
            self@.wf(),
    {
        assert forall|e: Executor| #[trigger] self@.faders.contains_key(e) implies self@.faders[e].executor
            == e && e.kind() == ExecutorType::Fader by {
            lemma_key_of_injective(self.faders@[key_of(e)]@.executor, e);
        }
        assert forall|e: Executor| #[trigger] self@.buttons.contains_key(e) implies self@.buttons[e].executor
            == e && e.kind() == ExecutorType::Button by {
            lemma_key_of_injective(self.buttons@[key_of(e)]@.executor, e);
        }
    }

    /// A cache that has seen nothing.
    pub fn new() -> (state: Ma2State)
        ensures
            state.wf(),
            state@.faders == Map::<Executor, FaderDataView>::empty(),
            state@.buttons == Map::<Executor, ButtonDataView>::empty(),
    {
        let state = Ma2State { buttons: HashMap::new(), faders: HashMap::new() };
        assert(state@.faders =~= Map::<Executor, FaderDataView>::empty());
        assert(state@.buttons =~= Map::<Executor, ButtonDataView>::empty());
        state
    }

    /// The last report of a button.
    pub fn get_button(&self, button: ButtonExecutor) -> (r: Option<&ButtonData>)
        requires
            self.wf(),
        ensures
            r is Some <==> self@.buttons.contains_key(button.executor()),
            r matches Some(data) ==> self@.buttons[button.executor()] == data@ && data@.executor
                == button.executor(),
    {
        let k = table_key(button.get());
        self.buttons.get(&k)
    }

    /// The last report of a fader.
    pub fn get_fader(&self, fader: FaderExecutor) -> (r: Option<&FaderData>)
        requires
            self.wf(),
        ensures
            r is Some <==> self@.faders.contains_key(fader.executor()),
            r matches Some(data) ==> self@.faders[fader.executor()] == data@ && data@.executor
                == fader.executor(),
    {
        let k = table_key(fader.get());
        self.faders.get(&k)
    }

    /// Takes one fader report into the cache and tells whether it brought
    /// news.
    fn note_fader(&mut self, report: &FaderData) -> (changed: bool)
        requires
            old(self).wf(),
        ensures
            final(self).wf(),
            changed == is_news(old(self)@.faders, report@, fader_key()),
            final(self)@.faders == old(self)@.faders.insert(report@.executor, report@),
            final(self)@.buttons == old(self)@.buttons,
    {
        let executor = report.get_executer().get();
        let k = table_key(executor);
        let changed = match self.faders.get(&k) {
            Some(known) => !known.eq(report),
            None => true,
        };
        if changed {
            self.faders.insert(k, report.duplicate());
        }
        proof {
            assert forall|e: Executor| key_of(e) == k implies e == executor by {
                lemma_key_of_injective(e, executor);
            }
            assert(self@.faders =~= old(self)@.faders.insert(report@.executor, report@));
            assert(self@.buttons =~= old(self)@.buttons);
        }
        changed
    }

    /// Takes one button report into the cache and tells whether it brought
    /// news.
    fn note_button(&mut self, report: &ButtonData) -> (changed: bool)
        requires
            old(self).wf(),
        ensures
            final(self).wf(),
            changed == is_news(old(self)@.buttons, report@, button_key()),
            final(self)@.buttons == old(self)@.buttons.insert(report@.executor, report@),
            final(self)@.faders == old(self)@.faders,
    {
        let executor = report.get_executer().get();
        let k = table_key(executor);
        let changed = match self.buttons.get(&k) {
            Some(known) => !known.eq(report),
            None => true,
        };
        if changed {
            self.buttons.insert(k, report.duplicate());
        }
        proof {
            assert forall|e: Executor| key_of(e) == k implies e == executor by {
                lemma_key_of_injective(e, executor);
            }
            assert(self@.buttons =~= old(self)@.buttons.insert(report@.executor, report@));
            assert(self@.faders =~= old(self)@.faders);
        }
        changed
    }

    /// Takes a snapshot into the cache and returns the reports that brought
    /// news: those of executors not seen before and those that differ from
    /// what was last seen, faders and buttons each in the order of the
    /// snapshot.
    pub fn diff_and_update(&mut self, data: Ma2Data) -> (diff: Ma2Data)
        requires
            old(self).wf(),
        ensures
            final(self).wf(),
            diff@.faders == news(old(self)@.faders, data@.faders, fader_key()),
            diff@.buttons == news(old(self)@.buttons, data@.buttons, button_key()),
            final(self)@.faders == cache_after(old(self)@.faders, data@.faders, fader_key()),
            final(self)@.buttons == cache_after(old(self)@.buttons, data@.buttons, button_key()),
    {
        let ghost faders_before = self@.faders;
        let ghost buttons_before = self@.buttons;
        let ghost fader_reports = data@.faders;
        let ghost button_reports = data@.buttons;
        let mut fader_changes: Vec<FaderData> = Vec::new();
        let mut i: usize = 0;
        assert(fader_reports.take(0) =~= Seq::empty());
        assert(fader_views(fader_changes@) =~= Seq::empty());
        while i < data.fader_data.len()
            invariant
                i <= data.fader_data.len(),
                self.wf(),
                fader_reports == fader_views(data.fader_data@),
                self@.faders == cache_after(faders_before, fader_reports.take(i as int), fader_key()),
                self@.buttons == buttons_before,
                fader_views(fader_changes@) == news(
                    faders_before,
                    fader_reports.take(i as int),
                    fader_key(),
                ),
            decreases data.fader_data.len() - i,
        {
            let report = &data.fader_data[i];
            proof {
                let longer = fader_reports.take(i + 1);
                assert(longer.drop_last() =~= fader_reports.take(i as int));
                assert(longer.last() == report@);
            }
            let ghost changes_before = fader_changes@;
            if self.note_fader(report) {
                fader_changes.push(report.duplicate());
                assert(fader_views(fader_changes@) =~= fader_views(changes_before).push(report@));
            }
            i += 1;
        }
        assert(fader_reports.take(i as int) =~= fader_reports);
        let mut button_changes: Vec<ButtonData> = Vec::new();
        let mut j: usize = 0;
        assert(button_reports.take(0) =~= Seq::empty());
        assert(button_views(button_changes@) =~= Seq::empty());
        while j < data.button_data.len()
            invariant
                j <= data.button_data.len(),
                self.wf(),
                button_reports == button_views(data.button_data@),
                self@.buttons == cache_after(
                    buttons_before,
                    button_reports.take(j as int),
                    button_key(),
                ),
                self@.faders == cache_after(faders_before, fader_reports, fader_key()),
                button_views(button_changes@) == news(
                    buttons_before,
                    button_reports.take(j as int),
                    button_key(),
                ),
            decreases data.button_data.len() - j,
        {
            let report = &data.button_data[j];
            proof {
                let longer = button_reports.take(j + 1);
                assert(longer.drop_last() =~= button_reports.take(j as int));
                assert(longer.last() == report@);
            }
            let ghost changes_before = button_changes@;
            if self.note_button(report) {
                button_changes.push(report.duplicate());
                assert(button_views(button_changes@) =~= button_views(changes_before).push(
                    report@,
                ));
            }
            j += 1;
        }
        assert(button_reports.take(j as int) =~= button_reports);
        Ma2Data::new(fader_changes, button_changes)
    }
}

} // verus!
