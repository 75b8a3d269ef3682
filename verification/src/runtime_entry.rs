//! Runtime entries: the bootstrap modules that are evaluated before any entry
//! of a context, and how references to them resolve.

use vstd::prelude::*;
use vstd::string::*;
use crate::context::ContextKind;
use crate::error::{Error, ErrorView};
use crate::fs_path::{FileSystemPath, PathView};
use crate::handle::{Module, Source};
use crate::transition::ModuleAssetContext;

verus! {

/// A module that can be evaluated at the start of a bundle.
#[derive(Clone, Copy, Debug, PartialEq, Eq, Structural)]
pub enum EvaluatableAsset {
    /// A module of the graph.
    Module(Module),
    /// The module that a source becomes when it is bound into the context of
    /// the given kind.
    Source(Source, ContextKind),
}

/// A module that an import request resolved to.
#[derive(Clone, Debug, PartialEq, Eq)]
pub struct Candidate {
    pub module: Module,
    /// The identity of the module, as shown to the author of the project.
    pub ident: String,
    /// Whether the module can be evaluated.
    pub evaluatable: bool,
}

/// What a [`Candidate`] denotes.
pub struct CandidateView {
    pub module: Module,
    pub ident: Seq<char>,
    pub evaluatable: bool,
}

impl View for Candidate {
    type V = CandidateView;

    open spec fn view(&self) -> CandidateView {
        CandidateView { module: self.module, ident: self.ident@, evaluatable: self.evaluatable }
    }
}

impl DeepView for Candidate {
    type V = CandidateView;

    open spec fn deep_view(&self) -> CandidateView {
        self@
    }
}

/// One answer of the resolution engine: the modules that `request` resolves
/// to when it is imported from `origin` under the rules of the context of
/// kind `context`, in the order in which the engine found them.
#[derive(Clone, Debug, PartialEq, Eq)]
pub struct Resolution {
    pub context: ContextKind,
    pub request: String,
    pub origin: FileSystemPath,
    pub candidates: Vec<Candidate>,
}

/// What a [`Resolution`] denotes.
pub struct ResolutionView {
    pub context: ContextKind,
    pub request: Seq<char>,
    pub origin: PathView,
    pub candidates: Seq<CandidateView>,
}

impl View for Resolution {
    type V = ResolutionView;

    open spec fn view(&self) -> ResolutionView {
        ResolutionView {
            context: self.context,
            request: self.request@,
            origin: self.origin@,
            candidates: self.candidates.deep_view(),
        }
    }
}

impl DeepView for Resolution {
    type V = ResolutionView;

    open spec fn deep_view(&self) -> ResolutionView {
        self@
    }
}

/// The answers of the resolution engine that a build has gathered. A request
/// that has no answer here matched nothing; of two answers to one request the
/// first counts.
#[derive(Clone, Debug, PartialEq, Eq)]
pub struct Resolver {
    pub resolutions: Vec<Resolution>,
}

impl View for Resolver {
    type V = Seq<ResolutionView>;

    open spec fn view(&self) -> Seq<ResolutionView> {
        self.resolutions.deep_view()
    }
}

/// A reference to a runtime entry.
#[derive(Clone, Debug, PartialEq, Eq)]
pub enum RuntimeEntry {
    /// The modules that an import specifier resolves to from an originating
    /// path.
    Request(String, FileSystemPath),
    /// A module that is ready to be evaluated.
    Evaluatable(EvaluatableAsset),
    /// A raw source, to be bound into the context that asks.
    Source(Source),
}

/// What a [`RuntimeEntry`] denotes.
pub enum RuntimeEntryView {
    Request(Seq<char>, PathView),
    Evaluatable(EvaluatableAsset),
    Source(Source),
}

impl View for RuntimeEntry {
    type V = RuntimeEntryView;

    open spec fn view(&self) -> RuntimeEntryView {
        match self {
            RuntimeEntry::Request(request, origin) => RuntimeEntryView::Request(
                request@,
                origin@,
            ),
            RuntimeEntry::Evaluatable(asset) => RuntimeEntryView::Evaluatable(*asset),
            RuntimeEntry::Source(source) => RuntimeEntryView::Source(*source),
        }
    }
}

impl DeepView for RuntimeEntry {
    type V = RuntimeEntryView;

    open spec fn deep_view(&self) -> RuntimeEntryView {
        self@
    }
}

/// The references to the runtime entries of a context, in the order in which
/// the entries are to be evaluated.
#[derive(Clone, Debug, PartialEq, Eq)]
pub struct RuntimeEntries(pub Vec<RuntimeEntry>);

impl View for RuntimeEntries {
    type V = Seq<RuntimeEntryView>;

    open spec fn view(&self) -> Seq<RuntimeEntryView> {
        self.0.deep_view()
    }
}

/// Whether `resolution` answers the request `request` from `origin` in a
/// context of kind `context`.
pub open spec fn answers(
    resolution: ResolutionView,
    context: ContextKind,
    request: Seq<char>,
    origin: PathView,
) -> bool {
    resolution.context == context && resolution.request == request && resolution.origin == origin
}

/// The modules that the request resolves to according to `resolver`: those of
/// the first answer to it, and none where there is no answer.
pub open spec fn candidates_for(
    resolver: Seq<ResolutionView>,
    context: ContextKind,
    request: Seq<char>,
    origin: PathView,
) -> Seq<CandidateView>
    decreases resolver.len(),
{
    if resolver.len() == 0 {
        Seq::empty()
    } else if answers(resolver.first(), context, request, origin) {
        resolver.first().candidates
    } else {
        candidates_for(resolver.drop_first(), context, request, origin)
    }
}

/// The candidates as modules to evaluate, in their order; the first candidate
/// that cannot be evaluated makes the whole fail, with its identity.
pub open spec fn evaluated(candidates: Seq<CandidateView>) -> Result<
    Seq<EvaluatableAsset>,
    ErrorView,
>
    decreases candidates.len(),
{
    if candidates.len() == 0 {
        Ok(Seq::empty())
    } else {
        match evaluated(candidates.drop_last()) {
            Err(e) => Err(e),
            Ok(assets) => if candidates.last().evaluatable {
                Ok(assets.push(EvaluatableAsset::Module(candidates.last().module)))
            } else {
                Err(ErrorView::NotEvaluatable { ident: candidates.last().ident })
            },
        }
    }
}

/// `assets` without repetitions: each module stays where it first occurs.
pub open spec fn distinct(assets: Seq<EvaluatableAsset>) -> Seq<EvaluatableAsset>
    decreases assets.len(),
{
    if assets.len() == 0 {
        Seq::empty()
    } else {
        let before = distinct(assets.drop_last());
        if before.contains(assets.last()) {
            before
        } else {
            before.push(assets.last())
        }
    }
}

/// What a reference resolves to in a context of kind `context`, given the
/// answers of the resolution engine.
pub open spec fn resolved_entry(
    entry: RuntimeEntryView,
    context: ContextKind,
    resolver: Seq<ResolutionView>,
) -> Result<Seq<EvaluatableAsset>, ErrorView> {
    match entry {
        RuntimeEntryView::Evaluatable(asset) => Ok(seq![asset]),
        RuntimeEntryView::Source(source) => Ok(seq![EvaluatableAsset::Source(source, context)]),
        RuntimeEntryView::Request(request, origin) => {
            match evaluated(candidates_for(resolver, context, request, origin)) {
                Ok(assets) => Ok(distinct(assets)),
                Err(e) => Err(e),
            }
        },
    }
}

/// The resolutions of all references one after the other, in the order of the
/// references; the first reference that fails makes the whole fail.
pub open spec fn flattened(
    entries: Seq<RuntimeEntryView>,
    context: ContextKind,
    resolver: Seq<ResolutionView>,
) -> Result<Seq<EvaluatableAsset>, ErrorView>
    decreases entries.len(),
{
    if entries.len() == 0 {
        Ok(Seq::empty())
    } else {
        match flattened(entries.drop_last(), context, resolver) {
            Err(e) => Err(e),
            Ok(assets) => match resolved_entry(entries.last(), context, resolver) {
                Err(e) => Err(e),
                Ok(more) => Ok(assets + more),
            },
        }
    }
}

/// The runtime entries of a context: what its references resolve to, in their
/// order and without repetitions.
pub open spec fn resolved_entries(
    entries: Seq<RuntimeEntryView>,
    context: ContextKind,
    resolver: Seq<ResolutionView>,
) -> Result<Seq<EvaluatableAsset>, ErrorView> {
    match flattened(entries, context, resolver) {
        Ok(assets) => Ok(distinct(assets)),
        Err(e) => Err(e),
    }
}

/// Nothing occurs twice among distinct assets, and they are the assets they
/// were taken from.
pub proof fn lemma_distinct(assets: Seq<EvaluatableAsset>)
    ensures
        distinct(assets).no_duplicates(),
        distinct(assets).len() <= assets.len(),
        forall|asset: EvaluatableAsset|
            #[trigger] distinct(assets).contains(asset) <==> assets.contains(asset),
    decreases assets.len(),
{
    if assets.len() > 0 {
        let front = assets.drop_last();
        let last = assets.last();
        lemma_distinct(front);
        let before = distinct(front);
        assert forall|asset: EvaluatableAsset| #[trigger]
            distinct(assets).contains(asset) <==> assets.contains(asset) by {
            if assets.contains(asset) {
                let i = choose|i: int| 0 <= i < assets.len() && assets[i] == asset;
                if i < assets.len() - 1 {
                    assert(front[i] == asset);
                    assert(before.contains(asset));
                    let j = choose|j: int| 0 <= j < before.len() && before[j] == asset;
                    assert(distinct(assets)[j] == asset);
                } else if !before.contains(last) {
                    assert(distinct(assets)[before.len() as int] == asset);
                }
            }
            if distinct(assets).contains(asset) {
                let j = choose|j: int|
                    0 <= j < distinct(assets).len() && distinct(assets)[j] == asset;
                if j < before.len() {
                    assert(before[j] == asset);
                    assert(before.contains(asset));
                    let i = choose|i: int| 0 <= i < front.len() && front[i] == asset;
                    assert(assets[i] == asset);
                } else {
                    assert(assets[assets.len() - 1] == asset);
                }
            }
        }
    }
}

/// The position at which `asset` first occurs among `assets`, and -1 where it
/// does not occur.
pub open spec fn first_position(assets: Seq<EvaluatableAsset>, asset: EvaluatableAsset) -> int
    decreases assets.len(),
{
    if assets.len() == 0 {
        -1
    } else if first_position(assets.drop_last(), asset) >= 0 {
        first_position(assets.drop_last(), asset)
    } else if assets.last() == asset {
        assets.len() - 1
    } else {
        -1
    }
}

/// Where an asset occurs, its first position is one at which it stands, and
/// it stands at no earlier one.
pub proof fn lemma_first_position(assets: Seq<EvaluatableAsset>, asset: EvaluatableAsset)
    ensures
        -1 <= first_position(assets, asset) < assets.len(),
        first_position(assets, asset) >= 0 <==> assets.contains(asset),
        first_position(assets, asset) >= 0 ==> assets[first_position(assets, asset)] == asset,
        forall|i: int| 0 <= i < first_position(assets, asset) ==> assets[i] != asset,
    decreases assets.len(),
{
    if assets.len() > 0 {
        let front = assets.drop_last();
        lemma_first_position(front, asset);
        if front.contains(asset) {
            let i = choose|i: int| 0 <= i < front.len() && front[i] == asset;
            assert(assets[i] == asset);
        }
        if assets.contains(asset) && !front.contains(asset) {
            let i = choose|i: int| 0 <= i < assets.len() && assets[i] == asset;
            if i < front.len() {
                assert(front[i] == asset);
            }
        }
        if assets.last() == asset {
            assert(assets[assets.len() - 1] == asset);
        }
        assert forall|i: int| 0 <= i < first_position(assets, asset) implies assets[i]
            != asset by {
            if i < front.len() {
                assert(front[i] == assets[i]);
                if first_position(front, asset) < 0 && assets[i] == asset {
                    assert(front.contains(asset));
                }
            }
        }
    }
}

/// Distinct assets stand in the order in which they first occurred: of two
/// of them, the earlier one first occurs earlier among the assets they were
/// taken from.
pub proof fn lemma_distinct_keeps_order(assets: Seq<EvaluatableAsset>, i: int, j: int)
    requires
        0 <= i < j < distinct(assets).len(),
    ensures
        0 <= first_position(assets, distinct(assets)[i]) < first_position(
            assets,
            distinct(assets)[j],
        ),
    decreases assets.len(),
{
    if assets.len() > 0 {
        let front = assets.drop_last();
        let before = distinct(front);
        lemma_distinct(front);
        lemma_first_position(front, distinct(assets)[i]);
        lemma_first_position(front, distinct(assets)[j]);
        assert(before[i] == distinct(assets)[i]);
        assert(before.contains(before[i]));
        if j < before.len() {
            assert(before[j] == distinct(assets)[j]);
            lemma_distinct_keeps_order(front, i, j);
        } else {
            assert(distinct(assets)[j] == assets.last());
            assert(!before.contains(assets.last()));
        }
    }
}

/// The runtime entries of a context hold no module twice.
pub proof fn lemma_resolved_entries_are_distinct(
    entries: Seq<RuntimeEntryView>,
    context: ContextKind,
    resolver: Seq<ResolutionView>,
)
    ensures
        resolved_entries(entries, context, resolver) matches Ok(assets) ==> assets.no_duplicates(),
{
    if flattened(entries, context, resolver) is Ok {
        lemma_distinct(flattened(entries, context, resolver)->Ok_0);
    }
}

/// Assets among which nothing occurs twice are kept as they are.
pub proof fn lemma_distinct_keeps_sets(assets: Seq<EvaluatableAsset>)
    requires
        assets.no_duplicates(),
    ensures
        distinct(assets) == assets,
    decreases assets.len(),
{
    if assets.len() > 0 {
        let front = assets.drop_last();
        lemma_distinct_keeps_sets(front);
        if front.contains(assets.last()) {
            let i = choose|i: int| 0 <= i < front.len() && front[i] == assets.last();
            assert(assets[i] == assets[assets.len() - 1]);
        }
        assert(front.push(assets.last()) =~= assets);
    }
}

/// Removing repetitions twice removes no more than removing them once.
pub proof fn lemma_distinct_idempotent(assets: Seq<EvaluatableAsset>)
    ensures
        distinct(distinct(assets)) == distinct(assets),
{
    lemma_distinct(assets);
    lemma_distinct_keeps_sets(distinct(assets));
}

/// A reference to a module that is ready resolves to exactly that module,
/// whatever the context and whatever the resolution engine answers.
pub proof fn lemma_evaluatable_resolves_to_itself(
    asset: EvaluatableAsset,
    context: ContextKind,
    resolver: Seq<ResolutionView>,
)
    ensures
        resolved_entry(RuntimeEntryView::Evaluatable(asset), context, resolver) == Ok::<
            Seq<EvaluatableAsset>,
            ErrorView,
        >(seq![asset]),
{
}

/// A request that matches no module resolves to no runtime entry, and this is
/// no failure.
pub proof fn lemma_no_match_resolves_to_nothing(
    request: Seq<char>,
    origin: PathView,
    context: ContextKind,
    resolver: Seq<ResolutionView>,
)
    requires
        candidates_for(resolver, context, request, origin).len() == 0,
    ensures
        resolved_entry(RuntimeEntryView::Request(request, origin), context, resolver) == Ok::<
            Seq<EvaluatableAsset>,
            ErrorView,
        >(Seq::empty()),
{
    assert(candidates_for(resolver, context, request, origin) =~= Seq::empty());
}

/// A request that the resolution engine has no answer to matches no module.
pub proof fn lemma_unanswered_request_matches_nothing(
    request: Seq<char>,
    origin: PathView,
    context: ContextKind,
    resolver: Seq<ResolutionView>,
)
    requires
        forall|i: int|
            0 <= i < resolver.len() ==> !answers(#[trigger] resolver[i], context, request, origin),
    ensures
        candidates_for(resolver, context, request, origin).len() == 0,
    decreases resolver.len(),
{
    if resolver.len() > 0 {
        assert(!answers(resolver[0], context, request, origin));
        assert forall|i: int| 0 <= i < resolver.drop_first().len() implies !answers(
            #[trigger] resolver.drop_first()[i],
            context,
            request,
            origin,
        ) by {
            assert(resolver.drop_first()[i] == resolver[i + 1]);
        }
        lemma_unanswered_request_matches_nothing(request, origin, context, resolver.drop_first());
    }
}

/// A request whose only match cannot be evaluated fails, and the failure
/// names that match.
pub proof fn lemma_sole_unevaluatable_match_fails(
    request: Seq<char>,
    origin: PathView,
    context: ContextKind,
    resolver: Seq<ResolutionView>,
)
    requires
        candidates_for(resolver, context, request, origin).len() == 1,
        !candidates_for(resolver, context, request, origin)[0].evaluatable,
    ensures
        resolved_entry(RuntimeEntryView::Request(request, origin), context, resolver) == Err::<
            Seq<EvaluatableAsset>,
            ErrorView,
        >(
            ErrorView::NotEvaluatable {
                ident: candidates_for(resolver, context, request, origin)[0].ident,
            },
        ),
{
    let candidates = candidates_for(resolver, context, request, origin);
    assert(candidates.drop_last() =~= Seq::empty());
    assert(evaluated(candidates.drop_last()) == Ok::<Seq<EvaluatableAsset>, ErrorView>(
        Seq::empty(),
    ));
}

/// A failure among the first candidates is the failure of all of them.
proof fn lemma_evaluated_failure_persists(candidates: Seq<CandidateView>, n: int)
    requires
        0 <= n <= candidates.len(),
        evaluated(candidates.take(n)) is Err,
    ensures
        evaluated(candidates) == evaluated(candidates.take(n)),
    decreases candidates.len() - n,
{
    if n < candidates.len() {
        assert(candidates.take(n + 1).drop_last() =~= candidates.take(n));
        lemma_evaluated_failure_persists(candidates, n + 1);
    } else {
        assert(candidates.take(n) =~= candidates);
    }
}

/// A failure among the first references is the failure of all of them.
proof fn lemma_flattened_failure_persists(
    entries: Seq<RuntimeEntryView>,
    context: ContextKind,
    resolver: Seq<ResolutionView>,
    n: int,
)
    requires
        0 <= n <= entries.len(),
        flattened(entries.take(n), context, resolver) is Err,
    ensures
        flattened(entries, context, resolver) == flattened(entries.take(n), context, resolver),
    decreases entries.len() - n,
{
    if n < entries.len() {
        assert(entries.take(n + 1).drop_last() =~= entries.take(n));
        lemma_flattened_failure_persists(entries, context, resolver, n + 1);
    } else {
        assert(entries.take(n) =~= entries);
    }
}

/// Adds `asset` at the end of `assets` unless it is among them.
pub fn push_distinct(assets: &mut Vec<EvaluatableAsset>, asset: EvaluatableAsset)
    ensures
        final(assets)@ == if old(assets)@.contains(asset) {
            old(assets)@
        } else {
            old(assets)@.push(asset)
        },
{
    let mut i: usize = 0;
    while i < assets.len()
        invariant
            i <= assets.len(),
            assets@ == old(assets)@,
            forall|j: int| 0 <= j < i ==> assets@[j] != asset,
        decreases assets.len() - i,
    {
        if assets[i] == asset {
            return ;
        }
        i = i + 1;
    }
    assets.push(asset);
}

/// A copy of `assets`.
pub(crate) fn duplicate_assets(assets: &Vec<EvaluatableAsset>) -> (res: Vec<EvaluatableAsset>)
    ensures
        res@ == assets@,
{
    let mut res: Vec<EvaluatableAsset> = Vec::new();
    let mut i: usize = 0;
    while i < assets.len()
        invariant
            i <= assets.len(),
            res@ == assets@.take(i as int),
        decreases assets.len() - i,
    {
        res.push(assets[i]);
        assert(assets@.take(i + 1) =~= assets@.take(i as int).push(assets@[i as int]));
        i = i + 1;
    }
    assert(assets@.take(i as int) =~= assets@);
    res
}

impl Resolver {
    /// The answers of an engine that was asked nothing.
    pub fn new() -> (res: Resolver)
        ensures
            res@ == Seq::<ResolutionView>::empty(),
    {
        let res = Resolver { resolutions: Vec::new() };
        assert(res@ =~= Seq::<ResolutionView>::empty());
        res
    }

    /// The modules that `request` resolves to when imported from `origin` in
    /// a context of kind `context`. `None` stands for no module.
    pub fn candidates(&self, context: ContextKind, request: &String, origin: &FileSystemPath)
        -> (res: Option<&Vec<Candidate>>)
        ensures
            match res {
                Some(candidates) => candidates.deep_view() == candidates_for(
                    self@,
                    context,
                    request@,
                    origin@,
                ),
                None => candidates_for(self@, context, request@, origin@)
                    == Seq::<CandidateView>::empty(),
            },
    {
        let mut i: usize = 0;
        assert(self@.skip(0) =~= self@);
        while i < self.resolutions.len()
            invariant
                i <= self.resolutions.len(),
                candidates_for(self@, context, request@, origin@) == candidates_for(
                    self@.skip(i as int),
                    context,
                    request@,
                    origin@,
                ),
            decreases self.resolutions.len() - i,
        {
            let resolution = &self.resolutions[i];
            proof {
                assert(self@.skip(i as int).first() == resolution@);
                assert(self@.skip(i as int).drop_first() =~= self@.skip(i + 1));
            }
            if resolution.context == context && resolution.request == *request
                && resolution.origin.same_as(origin) {
                return Some(&resolution.candidates);
            }
            i = i + 1;
        }
        None
    }
}

/// The candidates as modules to evaluate, or the failure that names the first
/// candidate that cannot be evaluated.
pub fn evaluate_candidates(candidates: &Vec<Candidate>) -> (res: Result<
    Vec<EvaluatableAsset>,
    Error,
>)
    ensures
        match res {
            Ok(assets) => evaluated(candidates.deep_view()) == Ok::<
                Seq<EvaluatableAsset>,
                ErrorView,
            >(assets@),
            Err(e) => evaluated(candidates.deep_view()) == Err::<Seq<EvaluatableAsset>, ErrorView>(
                e@,
            ),
        },
{
    let mut assets: Vec<EvaluatableAsset> = Vec::new();
    let mut i: usize = 0;
    assert(candidates.deep_view().take(0) =~= Seq::empty());
    while i < candidates.len()
        invariant
            i <= candidates.len(),
            evaluated(candidates.deep_view().take(i as int)) == Ok::<
                Seq<EvaluatableAsset>,
                ErrorView,
            >(assets@),
        decreases candidates.len() - i,
    {
        let candidate = &candidates[i];
        proof {
            let all = candidates.deep_view();
            assert(all.take(i + 1).drop_last() =~= all.take(i as int));
            assert(all.take(i + 1).last() == candidate@);
        }
        if !candidate.evaluatable {
            proof {
                lemma_evaluated_failure_persists(candidates.deep_view(), i + 1);
            }
            return Err(Error::NotEvaluatable { ident: candidate.ident.clone() });
        }
        assets.push(EvaluatableAsset::Module(candidate.module));
        i = i + 1;
    }
    assert(candidates.deep_view().take(i as int) =~= candidates.deep_view());
    Ok(assets)
}

/// Adds to `assets`, which hold `seen` without repetitions, each of `more`
/// that is not among them yet.
fn extend_distinct(
    assets: &mut Vec<EvaluatableAsset>,
    more: &Vec<EvaluatableAsset>,
    Ghost(seen): Ghost<Seq<EvaluatableAsset>>,
)
    requires
        old(assets)@ == distinct(seen),
    ensures
        final(assets)@ == distinct(seen + more@),
{
    let mut j: usize = 0;
    assert(seen + more@.take(0) =~= seen);
    while j < more.len()
        invariant
            j <= more.len(),
            assets@ == distinct(seen + more@.take(j as int)),
        decreases more.len() - j,
    {
        proof {
            let next = seen + more@.take(j + 1);
            assert(next.drop_last() =~= seen + more@.take(j as int));
            assert(next.last() == more@[j as int]);
        }
        push_distinct(assets, more[j]);
        j = j + 1;
    }
    assert(more@.take(j as int) =~= more@);
}

impl RuntimeEntry {
    /// Resolves the reference into the modules to evaluate, in a fixed order
    /// and without repetitions.
    ///
    /// A module that is ready is returned as it is. A source becomes the one
    /// module that binding it into `context` gives. A request becomes the
    /// modules that `resolver` has for it; it fails where one of them cannot
    /// be evaluated, and it is no failure that there are none.
    pub fn resolve_entry(&self, context: &ModuleAssetContext, resolver: &Resolver) -> (res:
        Result<Vec<EvaluatableAsset>, Error>)
        ensures
            match res {
                Ok(assets) => resolved_entry(self@, context.context.kind(), resolver@) == Ok::<
                    Seq<EvaluatableAsset>,
                    ErrorView,
                >(assets@),
                Err(e) => resolved_entry(self@, context.context.kind(), resolver@) == Err::<
                    Seq<EvaluatableAsset>,
                    ErrorView,
                >(e@),
            },
    {
        match self {
            RuntimeEntry::Evaluatable(asset) => {
                let mut assets: Vec<EvaluatableAsset> = Vec::new();
                assets.push(*asset);
                assert(assets@ =~= seq![*asset]);
                Ok(assets)
            },
            RuntimeEntry::Source(source) => {
                let mut assets: Vec<EvaluatableAsset> = Vec::new();
                let bound = EvaluatableAsset::Source(*source, context.context.kind());
                assets.push(bound);
                assert(assets@ =~= seq![bound]);
                Ok(assets)
            },
            RuntimeEntry::Request(request, origin) => {
                let found = match resolver.candidates(context.context.kind(), request, origin) {
                    Some(candidates) => evaluate_candidates(candidates),
                    None => Ok(Vec::new()),
                };
                match found {
                    Ok(assets) => {
                        let mut runtime_entries: Vec<EvaluatableAsset> = Vec::new();
                        assert(Seq::<EvaluatableAsset>::empty() + assets@ =~= assets@);
                        extend_distinct(&mut runtime_entries, &assets, Ghost(Seq::empty()));
                        Ok(runtime_entries)
                    },
                    Err(e) => Err(e),
                }
            },
        }
    }
}

impl RuntimeEntries {
    /// Resolves all references and puts what they resolve to in one list: in
    /// the order of the references, each module once, where it first occurs.
    /// Fails where a reference fails, with the failure of the first that does.
    pub fn resolve_entries(&self, context: &ModuleAssetContext, resolver: &Resolver) -> (res:
        Result<Vec<EvaluatableAsset>, Error>)
        ensures
            match res {
                Ok(assets) => resolved_entries(self@, context.context.kind(), resolver@) == Ok::<
                    Seq<EvaluatableAsset>,
                    ErrorView,
                >(assets@),
                Err(e) => resolved_entries(self@, context.context.kind(), resolver@) == Err::<
                    Seq<EvaluatableAsset>,
                    ErrorView,
                >(e@),
            },
    {
        let ghost kind = context.context.kind();
        let mut runtime_entries: Vec<EvaluatableAsset> = Vec::new();
        let ghost mut seen: Seq<EvaluatableAsset> = Seq::empty();
        let mut i: usize = 0;
        assert(self@.take(0) =~= Seq::empty());
        while i < self.0.len()
            invariant
                i <= self.0.len(),
                kind == context.context.kind(),
                flattened(self@.take(i as int), kind, resolver@) == Ok::<
                    Seq<EvaluatableAsset>,
                    ErrorView,
                >(seen),
                runtime_entries@ == distinct(seen),
            decreases self.0.len() - i,
        {
            let reference = &self.0[i];
            proof {
                assert(self@.take(i + 1).drop_last() =~= self@.take(i as int));
                assert(self@.take(i + 1).last() == reference@);
            }
            match reference.resolve_entry(context, resolver) {
                Ok(resolved_entries) => {
                    extend_distinct(&mut runtime_entries, &resolved_entries, Ghost(seen));
                    proof {
                        seen = seen + resolved_entries@;
                    }
                },
                Err(e) => {
                    proof {
                        lemma_flattened_failure_persists(self@, kind, resolver@, i + 1);
                    }
                    return Err(e);
                },
            }
            i = i + 1;
        }
        assert(self@.take(i as int) =~= self@);
        Ok(runtime_entries)
    }
}

} // verus!
