//! Batch bookkeeping over many plugins.
//!
//! A [`PluginManager`] is built once from the outcomes of attempting a list
//! of plugin loads, in order: every success becomes a managed plugin, every
//! failure an entry of the error list handed back beside the manager, and
//! one failing path never stops the rest. Batch invocation of `start` and
//! `stop` is the same shape: the host invokes each plugin's export in
//! sequence order and this module turns the statuses into the batch report,
//! keyed by each plugin's display identity.

use vstd::prelude::*;
use crate::errors::PluginLoadError;
use crate::loader::Plugin;
use crate::loader::PluginView;
use crate::loader::spec_display_id;

verus! {

/// The plugins among a list of load outcomes, in encounter order.
pub open spec fn loaded_of(s: Seq<(String, Result<Plugin, PluginLoadError>)>) -> Seq<Plugin>
    decreases s.len(),
{
    if s.len() == 0 {
        Seq::empty()
    } else {
        match s[0].1 {
            Ok(p) => seq![p] + loaded_of(s.drop_first()),
            Err(_) => loaded_of(s.drop_first()),
        }
    }
}

/// The failures among a list of load outcomes, each beside its originating
/// path, in encounter order.
pub open spec fn failures_of(s: Seq<(String, Result<Plugin, PluginLoadError>)>) -> Seq<
    (String, PluginLoadError),
>
    decreases s.len(),
{
    if s.len() == 0 {
        Seq::empty()
    } else {
        match s[0].1 {
            Ok(_) => failures_of(s.drop_first()),
            Err(e) => seq![(s[0].0, e)] + failures_of(s.drop_first()),
        }
    }
}

/// How many of the outcomes are successes.
pub open spec fn count_loaded(s: Seq<(String, Result<Plugin, PluginLoadError>)>) -> int
    decreases s.len(),
{
    if s.len() == 0 {
        0
    } else {
        (if s[0].1 is Ok {
            1int
        } else {
            0int
        }) + count_loaded(s.drop_first())
    }
}

/// Over any mixed list of outcomes, every success becomes a managed plugin
/// and every failure an error entry: the plugin sequence holds exactly the
/// successes and the error list exactly the failures, both in input order,
/// so their lengths add up to the input's length.
pub proof fn lemma_load_all_partitions(s: Seq<(String, Result<Plugin, PluginLoadError>)>)
    ensures
        loaded_of(s).len() == count_loaded(s),
        loaded_of(s).len() + failures_of(s).len() == s.len(),
    decreases s.len(),
{
    if s.len() == 0 {
    } else {
        lemma_load_all_partitions(s.drop_first());
    }
}

/// The views of a sequence of (exec) pairs of key text and status code.
pub open spec fn pairs_view(v: Seq<(String, i32)>) -> Seq<(Seq<char>, i32)> {
    v.map(|i: int, p: (String, i32)| (p.0@, p.1))
}

/// The batch report over plugins and the statuses their invocations came
/// back with, position by position: each success contributes one entry,
/// keyed by the plugin's display identity; each failure contributes
/// nothing.
pub open spec fn batch_results(
    ps: Seq<PluginView>,
    sts: Seq<Result<i32, PluginLoadError>>,
) -> Seq<(Seq<char>, i32)>
    decreases ps.len(),
{
    if ps.len() == 0 || sts.len() == 0 {
        Seq::empty()
    } else {
        let prefix = batch_results(ps.drop_last(), sts.drop_last());
        match sts.last() {
            Ok(c) => prefix.push((spec_display_id(ps.last()), c)),
            Err(_) => prefix,
        }
    }
}

/// How many of the statuses are successes.
pub open spec fn count_ok(sts: Seq<Result<i32, PluginLoadError>>) -> int
    decreases sts.len(),
{
    if sts.len() == 0 {
        0
    } else {
        count_ok(sts.drop_last()) + (if sts.last() is Ok {
            1int
        } else {
            0int
        })
    }
}

/// Whether `entry` is the report of some plugin of `ps` whose status in
/// `sts` was a success: its key is that plugin's display identity and its
/// code that plugin's status.
pub open spec fn reports_some_plugin(
    ps: Seq<PluginView>,
    sts: Seq<Result<i32, PluginLoadError>>,
    entry: (Seq<char>, i32),
) -> bool {
    exists|i: int|
        0 <= i < ps.len() && (#[trigger] sts[i]) is Ok && entry == (
            spec_display_id(ps[i]),
            sts[i]->Ok_0,
        )
}

/// The batch report has exactly one entry per plugin whose invocation did
/// not fail, and each entry is exactly the display identity `{name}
/// v{version}` of the plugin it reports on beside that plugin's status
/// code.
pub proof fn lemma_batch_results_exact(
    ps: Seq<PluginView>,
    sts: Seq<Result<i32, PluginLoadError>>,
)
    requires
        ps.len() == sts.len(),
    ensures
        batch_results(ps, sts).len() == count_ok(sts),
        forall|j: int|
            0 <= j < batch_results(ps, sts).len() ==> reports_some_plugin(
                ps,
                sts,
                #[trigger] batch_results(ps, sts)[j],
            ),
    decreases ps.len(),
{
    if ps.len() == 0 {
    } else {
        let prefix = batch_results(ps.drop_last(), sts.drop_last());
        lemma_batch_results_exact(ps.drop_last(), sts.drop_last());
        let whole = batch_results(ps, sts);
        assert forall|j: int| 0 <= j < whole.len() implies reports_some_plugin(
            ps,
            sts,
            whole[j],
        ) by {
            if j < prefix.len() {
                assert(reports_some_plugin(ps.drop_last(), sts.drop_last(), prefix[j]));
                let i0 = choose|i: int|
                    0 <= i < ps.drop_last().len() && (#[trigger] sts.drop_last()[i]) is Ok
                        && prefix[j] == (
                        spec_display_id(ps.drop_last()[i]),
                        sts.drop_last()[i]->Ok_0,
                    );
                assert(0 <= i0 < ps.len() && sts[i0] is Ok && whole[j] == (
                spec_display_id(ps[i0]),
                sts[i0]->Ok_0,
                ));
            } else {
                let iw = ps.len() - 1;
                assert(0 <= iw < ps.len() && sts[iw] is Ok && whole[j] == (
                spec_display_id(ps[iw]),
                sts[iw]->Ok_0,
                ));
            }
        }
    }
}

/// Owns the plugins that loaded successfully, in encounter order.
pub struct PluginManager {
    plugins: Vec<Plugin>,
}

impl PluginManager {
    /// The managed plugins, in the order their paths were attempted.
    pub closed spec fn spec_plugins(&self) -> Seq<Plugin> {
        self.plugins@
    }

    /// The identities of the managed plugins, in the same order.
    pub open spec fn spec_views(&self) -> Seq<PluginView> {
        self.spec_plugins().map(|i: int, p: Plugin| p@)
    }

    /// Builds a manager from the outcomes of attempting each path, in
    /// order: the successes become the managed plugins and the failures the
    /// returned error list, each beside its path. A failed path contributes
    /// nothing to the manager, and no failure stops the rest.
    pub fn new(outcomes: Vec<(String, Result<Plugin, PluginLoadError>)>) -> (r: (
        PluginManager,
        Vec<(String, PluginLoadError)>,
    ))
        ensures
            r.0.spec_plugins() == loaded_of(outcomes@),
            r.1@ == failures_of(outcomes@),
    {
        let ghost all = outcomes@;
        let mut rest = outcomes;
        let mut plugins: Vec<Plugin> = Vec::new();
        let mut errors: Vec<(String, PluginLoadError)> = Vec::new();
        proof {
            assert(plugins@ + loaded_of(all) =~= loaded_of(all));
            assert(errors@ + failures_of(all) =~= failures_of(all));
        }
        while rest.len() > 0
            invariant
                plugins@ + loaded_of(rest@) == loaded_of(all),
                errors@ + failures_of(rest@) == failures_of(all),
            decreases rest.len(),
        {
            let ghost before = rest@;
            let (path, res) = rest.remove(0);
            proof {
                assert(before.remove(0) =~= before.drop_first());
            }
            match res {
                Ok(p) => {
                    proof {
                        assert(loaded_of(before) == seq![p] + loaded_of(before.drop_first()));
                        assert(plugins@.push(p) + loaded_of(before.drop_first()) =~= plugins@ + (
                        seq![p] + loaded_of(before.drop_first())));
                    }
                    plugins.push(p);
                },
                Err(e) => {
                    proof {
                        assert(failures_of(before) == seq![(path, e)] + failures_of(
                            before.drop_first(),
                        ));
                        assert(errors@.push((path, e)) + failures_of(before.drop_first())
                            =~= errors@ + (seq![(path, e)] + failures_of(before.drop_first())));
                    }
                    errors.push((path, e));
                },
            }
        }
        proof {
            assert(plugins@ + loaded_of(rest@) =~= plugins@);
            assert(errors@ + failures_of(rest@) =~= errors@);
        }
        (PluginManager { plugins }, errors)
    }

    /// How many plugins the manager holds.
    pub fn len(&self) -> (r: usize)
        ensures
            r == self.spec_plugins().len(),
    {
        self.plugins.len()
    }

    /// A managed plugin, by its position in encounter order.
    pub fn plugin_at(&self, i: usize) -> (r: &Plugin)
        requires
            i < self.spec_plugins().len(),
        ensures
            *r == self.spec_plugins()[i as int],
    {
        &self.plugins[i]
    }

    /// The batch report over the statuses that invoking every plugin's
    /// `start` export, in sequence order, came back with: one entry per
    /// success, keyed `{name} v{version}`; a failing plugin is left out and
    /// aborts nothing.
    pub fn start_all(&self, statuses: Vec<Result<i32, PluginLoadError>>) -> (r: Vec<
        (String, i32),
    >)
        requires
            statuses@.len() == self.spec_plugins().len(),
        ensures
            pairs_view(r@) == batch_results(self.spec_views(), statuses@),
    {
        self.collect_results(&statuses)
    }

    /// The batch report over the statuses of invoking every plugin's `stop`
    /// export, under the same contract as [`PluginManager::start_all`].
    pub fn stop_all(&self, statuses: Vec<Result<i32, PluginLoadError>>) -> (r: Vec<
        (String, i32),
    >)
        requires
            statuses@.len() == self.spec_plugins().len(),
        ensures
            pairs_view(r@) == batch_results(self.spec_views(), statuses@),
    {
        self.collect_results(&statuses)
    }

    /// Walks the plugins in order and keeps, for each status that is a
    /// success, the pair of the plugin's display identity and the code.
    fn collect_results(&self, statuses: &Vec<Result<i32, PluginLoadError>>) -> (r: Vec<
        (String, i32),
    >)
        requires
            statuses@.len() == self.spec_plugins().len(),
        ensures
            pairs_view(r@) == batch_results(self.spec_views(), statuses@),
    {
        let ghost all_views = self.spec_views();
        let n: usize = self.plugins.len();
        let mut out: Vec<(String, i32)> = Vec::new();
        let mut i: usize = 0;
        proof {
            assert(pairs_view(out@) =~= batch_results(
                all_views.subrange(0, 0),
                statuses@.subrange(0, 0),
            ));
        }
        while i < n
            invariant
                i <= n,
                n == self.spec_plugins().len(),
                statuses@.len() == n,
                all_views == self.spec_views(),
                pairs_view(out@) == batch_results(
                    all_views.subrange(0, i as int),
                    statuses@.subrange(0, i as int),
                ),
            decreases n - i,
        {
            let p = &self.plugins[i];
            let key = p.display_id();
            proof {
                assert(all_views.subrange(0, i + 1).drop_last() =~= all_views.subrange(
                    0,
                    i as int,
                ));
                assert(statuses@.subrange(0, i + 1).drop_last() =~= statuses@.subrange(
                    0,
                    i as int,
                ));
                assert(all_views.subrange(0, i + 1).last() == all_views[i as int]);
                assert(key@ == spec_display_id(all_views[i as int]));
            }
            match &statuses[i] {
                Ok(c) => {
                    proof {
                        assert(pairs_view(out@.push((key, *c))) =~= pairs_view(out@).push(
                            (key@, *c),
                        ));
                    }
                    out.push((key, *c));
                },
                Err(_) => {},
            }
            i = i + 1;
        }
        proof {
            assert(all_views.subrange(0, n as int) =~= all_views);
            assert(statuses@.subrange(0, n as int) =~= statuses@);
        }
        out
    }
}

} // verus!
