use vstd::prelude::*;
use crate::context::Context;
use crate::identity::SpanIdentity;

verus! {

/// The abstract state of a strand's context cell: the cell's identity, the
/// current context, the contexts that the outstanding guards will restore
/// (oldest first), and the generation tag of each of those guards.
pub struct StackModel {
    pub cell: u64,
    pub current: Context,
    pub saved: Seq<Context>,
    pub tags: Seq<u64>,
}

/// The state after `ctx` is attached to `m` by a guard of generation `tag`.
pub open spec fn attached(m: StackModel, ctx: Context, tag: u64) -> StackModel {
    StackModel { current: ctx, saved: m.saved.push(m.current), tags: m.tags.push(tag), ..m }
}

/// The state after the topmost guard of `m` is released.
pub open spec fn released(m: StackModel) -> StackModel {
    StackModel { current: m.saved.last(), saved: m.saved.drop_last(), tags: m.tags.drop_last(), ..m }
}

/// A guard made by cell `cell`, at depth `depth`, with generation `tag`, is
/// the topmost guard of `m`.
pub open spec fn is_topmost(m: StackModel, cell: u64, depth: nat, tag: u64) -> bool {
    &&& cell == m.cell
    &&& depth > 0
    &&& depth == m.saved.len()
    &&& m.tags.len() > 0
    &&& tag == m.tags.last()
}

/// The state after each of `ctxs` is attached to `m`, in order, the `i`-th
/// by a guard of generation `tags[i]`.
pub open spec fn attach_all(m: StackModel, ctxs: Seq<Context>, tags: Seq<u64>) -> StackModel
    decreases ctxs.len(),
{
    if ctxs.len() == 0 {
        m
    } else {
        attached(attach_all(m, ctxs.drop_last(), tags.drop_last()), ctxs.last(), tags.last())
    }
}

/// The state after `n` topmost guards of `m` are released, newest first.
pub open spec fn release_n(m: StackModel, n: nat) -> StackModel
    decreases n,
{
    if n == 0 {
        m
    } else {
        release_n(released(m), (n - 1) as nat)
    }
}

/// Releasing a guard that is not the topmost one of this cell: one made by
/// another cell, or one under the topmost.
#[derive(Debug, PartialEq, Eq)]
pub struct PropagationMisuse {
    /// Whether the guard was made by this cell.
    pub same_cell: bool,
    /// The depth of the guard that was released.
    pub guard_depth: usize,
    /// The depth of the topmost guard at that moment.
    pub topmost_depth: usize,
}

/// The handle that `attach` returns. Releasing it restores the context
/// that was current before it was made.
#[derive(Debug)]
pub struct ContextGuard {
    cell: u64,
    depth: usize,
    tag: u64,
}

impl ContextGuard {
    pub closed spec fn cell_spec(&self) -> u64 {
        self.cell
    }

    pub closed spec fn tag_spec(&self) -> u64 {
        self.tag
    }

    pub closed spec fn depth_spec(&self) -> nat {
        self.depth as nat
    }

    /// How many guards were outstanding, this one included, when it was made.
    pub fn depth(&self) -> (r: usize)
        ensures
            r == self.depth_spec(),
    {
        self.depth
    }
}

/// The context cell of one execution strand (a thread, or a task that
/// carries its context from thread to thread). It is owned by the strand
/// and shared with no other.
pub struct ContextStack {
    cell: u64,
    current: Context,
    saved: Vec<Context>,
    tags: Vec<u64>,
    next_tag: u64,
}

impl View for ContextStack {
    type V = StackModel;

    closed spec fn view(&self) -> StackModel {
        StackModel { cell: self.cell, current: self.current, saved: self.saved@, tags: self.tags@ }
    }
}

impl ContextStack {
    /// A cell, known by `cell`, whose current context is the empty one.
    /// Guards are checked against the cell that made them, so each strand's
    /// cell should have an identity of its own.
    pub fn new(cell: u64) -> (r: Self)
        ensures
            r@.cell == cell,
            r@.current.span is None,
            r@.saved.len() == 0,
            r@.tags.len() == 0,
    {
        ContextStack { cell, current: Context::new(), saved: Vec::new(), tags: Vec::new(), next_tag: 0 }
    }

    /// How many guards are outstanding.
    pub fn depth(&self) -> (r: usize)
        ensures
            r == self@.saved.len(),
    {
        self.saved.len()
    }

    /// The current context.
    pub fn current(&self) -> (r: Context)
        ensures
            r == self@.current,
    {
        self.current.clone()
    }

    /// Applies `f` to the current context in place and returns what it
    /// returns.
    pub fn map_current<T, F: Fn(&Context) -> T>(&self, f: F) -> (r: T)
        requires
            f.requires((&self@.current,)),
        ensures
            f.ensures((&self@.current,), r),
    {
        f(&self.current)
    }

    pub fn has_active_span(&self) -> (r: bool)
        ensures
            r == self@.current.has_active_span_spec(),
    {
        self.map_current(|cx: &Context| -> (b: bool)
            ensures
                b == cx.has_active_span_spec(),
            { cx.has_active_span() })
    }

    pub fn is_sampled(&self) -> (r: bool)
        ensures
            r == self@.current.is_sampled_spec(),
    {
        self.map_current(|cx: &Context| -> (b: bool)
            ensures
                b == cx.is_sampled_spec(),
            { cx.is_sampled() })
    }

    pub fn is_recording(&self) -> (r: bool)
        ensures
            r == self@.current.is_recording_spec(),
    {
        self.map_current(|cx: &Context| -> (b: bool)
            ensures
                b == cx.is_recording_spec(),
            { cx.is_recording() })
    }

    /// A context derived from the current one whose active span is a
    /// non-recording placeholder carrying `sc`, marked as remote.
    pub fn with_remote_span_context(&self, sc: SpanIdentity) -> (r: Context)
        ensures
            r == self@.current.with_remote_spec(sc),
            r.has_active_span_spec(),
            !r.is_recording_spec(),
    {
        self.current.with_remote_span_context(sc)
    }

    /// Makes `ctx` current, and returns the guard that restores the
    /// context that was current before. Each guard of the cell gets the next
    /// generation tag.
    pub fn attach(&mut self, ctx: Context) -> (g: ContextGuard)
        requires
            old(self)@.saved.len() < usize::MAX,
        ensures
            final(self)@ == attached(old(self)@, ctx, g.tag_spec()),
            g.cell_spec() == old(self)@.cell,
            g.depth_spec() == final(self)@.saved.len(),
            is_topmost(final(self)@, g.cell_spec(), g.depth_spec(), g.tag_spec()),
    {
        let mut previous = ctx;
        core::mem::swap(&mut self.current, &mut previous);
        self.saved.push(previous);
        let tag = self.next_tag;
        self.tags.push(tag);
        self.next_tag = self.next_tag.wrapping_add(1);
        ContextGuard { cell: self.cell, depth: self.saved.len(), tag }
    }

    /// Releases `guard`: when it is the topmost guard of this cell, the
    /// context that was current before it was made is current again. Any
    /// other guard is a misuse, reported with the cell left as it was.
    pub fn release(&mut self, guard: ContextGuard) -> (r: Result<(), PropagationMisuse>)
        ensures
            r is Ok <==> is_topmost(old(self)@, guard.cell_spec(), guard.depth_spec(), guard.tag_spec()),
            r is Ok ==> final(self)@ == released(old(self)@),
            r matches Err(e) ==> {
                &&& final(self)@ == old(self)@
                &&& e.same_cell == (guard.cell_spec() == old(self)@.cell)
                &&& e.guard_depth == guard.depth_spec()
                &&& e.topmost_depth == old(self)@.saved.len()
            },
    {
        let top = self.saved.len();
        let same_cell = guard.cell == self.cell;
        let misuse = PropagationMisuse { same_cell, guard_depth: guard.depth, topmost_depth: top };
        let n = self.tags.len();
        if !same_cell || guard.depth == 0 || guard.depth != top || n == 0 {
            return Err(misuse);
        }
        if self.tags[n - 1] != guard.tag {
            return Err(misuse);
        }
        match self.saved.pop() {
            Some(previous) => {
                self.current = previous;
                self.tags.pop();
                Ok(())
            },
            None => Err(misuse),
        }
    }
}

/// Attaching any sequence of contexts and then releasing as many guards,
/// newest first, leaves the cell as it was before the first attach.
pub proof fn lemma_unwind_restores(m: StackModel, ctxs: Seq<Context>, tags: Seq<u64>)
    requires
        tags.len() == ctxs.len(),
    ensures
        release_n(attach_all(m, ctxs, tags), ctxs.len()) == m,
    decreases ctxs.len(),
{
    if ctxs.len() > 0 {
        let inner = attach_all(m, ctxs.drop_last(), tags.drop_last());
        assert(released(attached(inner, ctxs.last(), tags.last())).saved =~= inner.saved);
        assert(released(attached(inner, ctxs.last(), tags.last())).tags =~= inner.tags);
        lemma_unwind_restores(m, ctxs.drop_last(), tags.drop_last());
    }
}

/// Each release in such an unwinding is of the topmost guard: the guard
/// made by the `k`-th attach, at depth `m.saved.len() + k` with tag
/// `tags[k - 1]`, is the topmost one of the cell once the guards made after
/// it are released.
pub proof fn lemma_unwind_in_order(m: StackModel, ctxs: Seq<Context>, tags: Seq<u64>, k: nat)
    requires
        tags.len() == ctxs.len(),
        1 <= k <= ctxs.len(),
    ensures
        attach_all(m, ctxs.subrange(0, k as int), tags.subrange(0, k as int)).saved.len()
            == m.saved.len() + k,
        release_n(attach_all(m, ctxs, tags), (ctxs.len() - k) as nat)
            == attach_all(m, ctxs.subrange(0, k as int), tags.subrange(0, k as int)),
        is_topmost(
            release_n(attach_all(m, ctxs, tags), (ctxs.len() - k) as nat),
            m.cell,
            m.saved.len() + k,
            tags[k - 1],
        ),
    decreases ctxs.len(),
{
    let pre_c = ctxs.subrange(0, k as int);
    let pre_t = tags.subrange(0, k as int);
    lemma_attach_all_len(m, pre_c, pre_t);
    assert(pre_t.last() == tags[k - 1]);
    assert(pre_c.drop_last() =~= ctxs.subrange(0, k - 1));
    if k < ctxs.len() {
        let init_c = ctxs.drop_last();
        let init_t = tags.drop_last();
        assert(init_c.subrange(0, k as int) =~= pre_c);
        assert(init_t.subrange(0, k as int) =~= pre_t);
        lemma_unwind_in_order(m, init_c, init_t, k);
        let inner = attach_all(m, init_c, init_t);
        let whole = attached(inner, ctxs.last(), tags.last());
        assert(released(whole).saved =~= inner.saved);
        assert(released(whole).tags =~= inner.tags);
        assert(released(whole) == inner);
        assert(attach_all(m, ctxs, tags) == whole);
        assert(release_n(released(whole), 0) == released(whole));
        assert(release_n(whole, 1) == inner);
        lemma_release_n_split(whole, 1, (init_c.len() - k) as nat);
    } else {
        assert(pre_c =~= ctxs);
        assert(pre_t =~= tags);
    }
}

/// For a pure `f`, `map_current(f)` and `f` applied to what `current()`
/// returns give the same result: both apply `f` to the current context.
pub proof fn lemma_map_current_agrees<T, F: Fn(&Context) -> T>(
    m: StackModel,
    f: F,
    mapped: T,
    direct: T,
)
    requires
        forall|c: &Context, a: T, b: T| #[trigger] f.ensures((c,), a) && #[trigger] f.ensures((c,), b) ==> a == b,
        f.ensures((&m.current,), mapped),
        f.ensures((&m.current,), direct),
    ensures
        mapped == direct,
{
}

proof fn lemma_attach_all_len(m: StackModel, ctxs: Seq<Context>, tags: Seq<u64>)
    ensures
        attach_all(m, ctxs, tags).saved.len() == m.saved.len() + ctxs.len(),
        attach_all(m, ctxs, tags).tags.len() == m.tags.len() + ctxs.len(),
        attach_all(m, ctxs, tags).cell == m.cell,
    decreases ctxs.len(),
{
    if ctxs.len() > 0 {
        lemma_attach_all_len(m, ctxs.drop_last(), tags.drop_last());
    }
}

proof fn lemma_release_n_split(m: StackModel, a: nat, b: nat)
    ensures
        release_n(m, a + b) == release_n(release_n(m, a), b),
    decreases a,
{
    if a > 0 {
        lemma_release_n_split(released(m), (a - 1) as nat, b);
    }
}

} // verus!
