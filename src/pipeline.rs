use vstd::prelude::*;

verus! {

/// A shader source: the file it is read from and its entry point, both as
/// bytes.
pub struct ShaderInfo {
    pub path: Vec<u8>,
    pub entry_point: Vec<u8>,
}

/// A copy of `v`.
fn copy_bytes(v: &Vec<u8>) -> (r: Vec<u8>)
    ensures
        r@ == v@,
{
    let mut r: Vec<u8> = Vec::new();
    let mut i: usize = 0;
    while i < v.len()
        invariant
            0 <= i <= v@.len(),
            r@ == v@.subrange(0, i as int),
        decreases v@.len() - i,
    {
        r.push(v[i]);
        i = i + 1;
        assert(r@ =~= v@.subrange(0, i as int));
    }
    assert(r@ =~= v@);
    r
}

/// Whether two byte strings are equal.
pub fn bytes_equal(a: &Vec<u8>, b: &Vec<u8>) -> (r: bool)
    ensures
        r == (a@ == b@),
{
    if a.len() != b.len() {
        return false;
    }
    let mut i: usize = 0;
    while i < a.len()
        invariant
            0 <= i <= a@.len(),
            a@.len() == b@.len(),
            a@.subrange(0, i as int) == b@.subrange(0, i as int),
        decreases a@.len() - i,
    {
        if a[i] != b[i] {
            assert(a@[i as int] != b@[i as int]);
            return false;
        }
        assert(a@.subrange(0, i + 1) =~= a@.subrange(0, i as int).push(a@[i as int]));
        assert(b@.subrange(0, i + 1) =~= b@.subrange(0, i as int).push(b@[i as int]));
        i = i + 1;
    }
    assert(a@ =~= a@.subrange(0, a@.len() as int));
    assert(b@ =~= b@.subrange(0, b@.len() as int));
    true
}

impl ShaderInfo {
    /// A copy of this shader source.
    pub fn duplicate(&self) -> (r: ShaderInfo)
        ensures
            r.path@ == self.path@,
            r.entry_point@ == self.entry_point@,
    {
        ShaderInfo { path: copy_bytes(&self.path), entry_point: copy_bytes(&self.entry_point) }
    }
}

/// The two kinds of pipeline.
#[derive(Clone, Copy, Debug, PartialEq, Eq, Structural)]
pub enum PipelineKind {
    Graphics,
    Compute,
}

/// The shader sources that a pipeline is built from.
pub enum ShaderSet {
    Graphics { vert: ShaderInfo, frag: ShaderInfo },
    Compute { comp: ShaderInfo },
}

/// The device objects of a built pipeline: `G` for a graphics pipeline, `C`
/// for a compute pipeline (which also owns its command buffer and completion
/// semaphore).
pub enum PipelineObject<G, C> {
    Graphics(G),
    Compute(C),
}

/// A registered pipeline: its sources, kept for rebuilding, and its objects.
pub enum Pipeline<G, C> {
    Graphics { vert: ShaderInfo, frag: ShaderInfo, graphics: G },
    Compute { comp: ShaderInfo, compute: C },
}

/// The kind of a registered pipeline.
pub open spec fn kind_of<G, C>(p: Pipeline<G, C>) -> PipelineKind {
    match p {
        Pipeline::Graphics { .. } => PipelineKind::Graphics,
        Pipeline::Compute { .. } => PipelineKind::Compute,
    }
}

/// The kind of pipeline that built objects belong to.
pub open spec fn object_kind<G, C>(o: PipelineObject<G, C>) -> PipelineKind {
    match o {
        PipelineObject::Graphics(_) => PipelineKind::Graphics,
        PipelineObject::Compute(_) => PipelineKind::Compute,
    }
}

/// The kind of pipeline that a shader set builds.
pub open spec fn set_kind(s: ShaderSet) -> PipelineKind {
    match s {
        ShaderSet::Graphics { .. } => PipelineKind::Graphics,
        ShaderSet::Compute { .. } => PipelineKind::Compute,
    }
}

/// The pipeline `p` with its objects replaced by `o` of the same kind.
pub open spec fn with_object<G, C>(p: Pipeline<G, C>, o: PipelineObject<G, C>) -> Pipeline<G, C> {
    match (p, o) {
        (Pipeline::Graphics { vert, frag, graphics: _ }, PipelineObject::Graphics(g)) => {
            Pipeline::Graphics { vert, frag, graphics: g }
        },
        (Pipeline::Compute { comp, compute: _ }, PipelineObject::Compute(c)) => Pipeline::Compute {
            comp,
            compute: c,
        },
        _ => p,
    }
}

/// The objects held by `p`.
pub open spec fn object_of<G, C>(p: Pipeline<G, C>) -> PipelineObject<G, C> {
    match p {
        Pipeline::Graphics { graphics, .. } => PipelineObject::Graphics(graphics),
        Pipeline::Compute { compute, .. } => PipelineObject::Compute(compute),
    }
}

/// How building a pipeline from its sources failed.
#[derive(Clone, Copy, Debug, PartialEq, Eq, Structural)]
pub enum BuildError {
    /// A failure classified as unknown or transient, such as a shader that does
    /// not compile while it is being edited.
    Unknown,
    /// Any other failure, with the device's result code.
    Device { code: i32 },
}

/// What a rebuild leaves registered, and what it returns.
pub open spec fn rebuild_outcome<G, C>(
    old: Seq<Pipeline<G, C>>,
    index: int,
    built: Result<PipelineObject<G, C>, BuildError>,
    new: Seq<Pipeline<G, C>>,
    r: Result<Option<PipelineObject<G, C>>, BuildError>,
) -> bool {
    match built {
        Ok(o) => new == old.update(index, with_object(old[index], o)) && r == Ok::<
            Option<PipelineObject<G, C>>,
            BuildError,
        >(Some(object_of(old[index]))),
        Err(BuildError::Unknown) => new == old && r == Ok::<
            Option<PipelineObject<G, C>>,
            BuildError,
        >(None),
        Err(e) => new == old && r == Err::<Option<PipelineObject<G, C>>, BuildError>(e),
    }
}

/// What a shader path resolves to: the pipeline of the latest registration
/// of that path.
pub open spec fn lookup_path(table: Seq<(Seq<u8>, usize)>, path: Seq<u8>) -> Option<usize>
    decreases table.len(),
{
    if table.len() == 0 {
        None
    } else if table.last().0 == path {
        Some(table.last().1)
    } else {
        lookup_path(table.drop_last(), path)
    }
}

/// The indices of the compute pipelines among the first `n`, in order.
pub open spec fn compute_indices_upto(kinds: Seq<PipelineKind>, n: int) -> Seq<usize>
    decreases n,
{
    if n <= 0 {
        seq![]
    } else if kinds[n - 1] == PipelineKind::Compute {
        compute_indices_upto(kinds, n - 1).push((n - 1) as usize)
    } else {
        compute_indices_upto(kinds, n - 1)
    }
}

/// The registered pipelines, and the table from shader paths (sources and
/// their dependencies) to the pipeline that a change of that file rebuilds.
pub struct PipelineRegistry<G, C> {
    pipelines: Vec<Pipeline<G, C>>,
    paths: Vec<(Vec<u8>, usize)>,
}

impl<G, C> PipelineRegistry<G, C> {
    /// The registered pipelines, in order of registration.
    pub closed spec fn pipelines(&self) -> Seq<Pipeline<G, C>> {
        self.pipelines@
    }

    /// The path table, in order of registration.
    pub closed spec fn path_table(&self) -> Seq<(Seq<u8>, usize)> {
        self.paths@.map_values(|e: (Vec<u8>, usize)| (e.0@, e.1))
    }

    /// The kinds of the registered pipelines, in order.
    pub open spec fn kinds(&self) -> Seq<PipelineKind> {
        self.pipelines().map_values(|p: Pipeline<G, C>| kind_of(p))
    }

    /// The pipeline that a change of `path` rebuilds.
    pub open spec fn resolves(&self, path: Seq<u8>) -> Option<usize> {
        lookup_path(self.path_table(), path)
    }

    /// An empty registry.
    pub fn new() -> (r: Self)
        ensures
            r.pipelines() == Seq::<Pipeline<G, C>>::empty(),
            r.path_table() == Seq::<(Seq<u8>, usize)>::empty(),
    {
        let r = PipelineRegistry { pipelines: Vec::new(), paths: Vec::new() };
        assert(r.path_table() =~= Seq::<(Seq<u8>, usize)>::empty());
        r
    }

    /// The number of registered pipelines.
    pub fn len(&self) -> (r: usize)
        ensures
            r == self.pipelines().len(),
    {
        self.pipelines.len()
    }

    /// The kind of the pipeline at `index`.
    pub fn kind(&self, index: usize) -> (r: PipelineKind)
        requires
            index < self.pipelines().len(),
        ensures
            r == kind_of(self.pipelines()[index as int]),
    {
        match &self.pipelines[index] {
            Pipeline::Graphics { .. } => PipelineKind::Graphics,
            Pipeline::Compute { .. } => PipelineKind::Compute,
        }
    }

    /// The pipeline at `index`.
    pub fn get(&self, index: usize) -> (r: &Pipeline<G, C>)
        requires
            index < self.pipelines().len(),
        ensures
            *r == self.pipelines()[index as int],
    {
        &self.pipelines[index]
    }

    /// Registers `path` as a source of the pipeline at `index`.
    fn register_path(&mut self, path: &Vec<u8>, index: usize)
        ensures
            final(self).pipelines() == old(self).pipelines(),
            final(self).path_table() == old(self).path_table().push((path@, index)),
    {
        let p = copy_bytes(path);
        self.paths.push((p, index));
        assert(final(self).path_table() =~= old(self).path_table().push((path@, index)));
    }

    /// Registers each path in `deps` for the pipeline at `index`.
    fn register_paths(&mut self, deps: &Vec<Vec<u8>>, index: usize)
        ensures
            final(self).pipelines() == old(self).pipelines(),
            final(self).path_table() == old(self).path_table() + deps@.map_values(
                |d: Vec<u8>| (d@, index),
            ),
    {
        let mut i: usize = 0;
        while i < deps.len()
            invariant
                0 <= i <= deps@.len(),
                self.pipelines() == old(self).pipelines(),
                self.path_table() == old(self).path_table() + deps@.subrange(
                    0,
                    i as int,
                ).map_values(|d: Vec<u8>| (d@, index)),
            decreases deps@.len() - i,
        {
            self.register_path(&deps[i], index);
            i = i + 1;
            assert(deps@.subrange(0, i as int).map_values(|d: Vec<u8>| (d@, index))
                =~= deps@.subrange(0, i - 1).map_values(|d: Vec<u8>| (d@, index)).push(
                (deps@[i - 1]@, index),
            ));
        }
        assert(deps@.subrange(0, deps@.len() as int) =~= deps@);
    }

    /// Registers a graphics pipeline built from `vert` and `frag`. Both
    /// sources and every dependency resolve to the next index; the pipeline is
    /// appended when it was built, and a build error is handed back.
    pub fn push_render_pipeline(
        &mut self,
        vert: ShaderInfo,
        frag: ShaderInfo,
        dependencies: &Vec<Vec<u8>>,
        built: Result<G, BuildError>,
    ) -> (r: Result<(), BuildError>)
        ensures
            final(self).path_table() == old(self).path_table().push(
                (vert.path@, old(self).pipelines().len() as usize),
            ).push((frag.path@, old(self).pipelines().len() as usize)) + dependencies@.map_values(
                |d: Vec<u8>| (d@, old(self).pipelines().len() as usize),
            ),
            match built {
                Ok(g) => r is Ok && final(self).pipelines() == old(self).pipelines().push(
                    Pipeline::Graphics { vert, frag, graphics: g },
                ),
                Err(e) => r == Err::<(), BuildError>(e) && final(self).pipelines() == old(
                    self,
                ).pipelines(),
            },
    {
        let index = self.pipelines.len();
        self.register_path(&vert.path, index);
        self.register_path(&frag.path, index);
        self.register_paths(dependencies, index);
        match built {
            Ok(g) => {
                self.pipelines.push(Pipeline::Graphics { vert, frag, graphics: g });
                Ok(())
            },
            Err(e) => Err(e),
        }
    }

    /// Registers a compute pipeline built from `comp`, in the same way.
    pub fn push_compute_pipeline(
        &mut self,
        comp: ShaderInfo,
        dependencies: &Vec<Vec<u8>>,
        built: Result<C, BuildError>,
    ) -> (r: Result<(), BuildError>)
        ensures
            final(self).path_table() == old(self).path_table().push(
                (comp.path@, old(self).pipelines().len() as usize),
            ) + dependencies@.map_values(|d: Vec<u8>| (d@, old(self).pipelines().len() as usize)),
            match built {
                Ok(c) => r is Ok && final(self).pipelines() == old(self).pipelines().push(
                    Pipeline::Compute { comp, compute: c },
                ),
                Err(e) => r == Err::<(), BuildError>(e) && final(self).pipelines() == old(
                    self,
                ).pipelines(),
            },
    {
        let index = self.pipelines.len();
        self.register_path(&comp.path, index);
        self.register_paths(dependencies, index);
        match built {
            Ok(c) => {
                self.pipelines.push(Pipeline::Compute { comp, compute: c });
                Ok(())
            },
            Err(e) => Err(e),
        }
    }

    /// The pipeline that a change of the file at `path` rebuilds, if any.
    pub fn pipeline_for_path(&self, path: &Vec<u8>) -> (r: Option<usize>)
        ensures
            r == self.resolves(path@),
    {
        let mut i: usize = self.paths.len();
        assert(self.path_table().subrange(0, i as int) =~= self.path_table());
        while i > 0
            invariant
                0 <= i <= self.paths@.len(),
                lookup_path(self.path_table(), path@) == lookup_path(
                    self.path_table().subrange(0, i as int),
                    path@,
                ),
            decreases i,
        {
            let ghost t = self.path_table().subrange(0, i as int);
            assert(t.drop_last() =~= self.path_table().subrange(0, i - 1));
            if bytes_equal(&self.paths[i - 1].0, path) {
                return Some(self.paths[i - 1].1);
            }
            i = i - 1;
        }
        None
    }

    /// The shader sources of the pipeline at `index`, for rebuilding it.
    pub fn shader_set(&self, index: usize) -> (r: ShaderSet)
        requires
            index < self.pipelines().len(),
        ensures
            set_kind(r) == kind_of(self.pipelines()[index as int]),
            match (r, self.pipelines()[index as int]) {
                (ShaderSet::Graphics { vert, frag }, Pipeline::Graphics { vert: v, frag: f, .. }) => {
                    vert.path@ == v.path@ && vert.entry_point@ == v.entry_point@ && frag.path@
                        == f.path@ && frag.entry_point@ == f.entry_point@
                },
                (ShaderSet::Compute { comp }, Pipeline::Compute { comp: c, .. }) => {
                    comp.path@ == c.path@ && comp.entry_point@ == c.entry_point@
                },
                _ => false,
            },
    {
        match &self.pipelines[index] {
            Pipeline::Graphics { vert, frag, .. } => ShaderSet::Graphics {
                vert: vert.duplicate(),
                frag: frag.duplicate(),
            },
            Pipeline::Compute { comp, .. } => ShaderSet::Compute { comp: comp.duplicate() },
        }
    }

    /// Puts a rebuilt pipeline in place of the one at `index`. On success the
    /// old objects are handed back for destruction. A failure classified as
    /// unknown is swallowed, and any other failure is returned; either way
    /// the previous pipeline stays registered unchanged.
    pub fn rebuild_pipeline(
        &mut self,
        index: usize,
        built: Result<PipelineObject<G, C>, BuildError>,
    ) -> (r: Result<Option<PipelineObject<G, C>>, BuildError>)
        requires
            index < old(self).pipelines().len(),
            built matches Ok(o) ==> object_kind(o) == kind_of(old(self).pipelines()[index as int]),
        ensures
            rebuild_outcome(old(self).pipelines(), index as int, built, final(self).pipelines(), r),
            final(self).path_table() == old(self).path_table(),
    {
        match built {
            Ok(object) => {
                let old_pipeline = self.pipelines.remove(index);
                let (next, previous) = match (old_pipeline, object) {
                    (Pipeline::Graphics { vert, frag, graphics: g0 }, PipelineObject::Graphics(g)) => {
                        (Pipeline::Graphics { vert, frag, graphics: g }, PipelineObject::Graphics(g0))
                    },
                    (Pipeline::Compute { comp, compute: c0 }, PipelineObject::Compute(c)) => {
                        (Pipeline::Compute { comp, compute: c }, PipelineObject::Compute(c0))
                    },
                    (Pipeline::Graphics { vert, frag, graphics: g0 }, PipelineObject::Compute(c)) => {
                        proof {
                            assert(false);
                        }
                        (Pipeline::Graphics { vert, frag, graphics: g0 }, PipelineObject::Compute(c))
                    },
                    (Pipeline::Compute { comp, compute: c0 }, PipelineObject::Graphics(g)) => {
                        proof {
                            assert(false);
                        }
                        (Pipeline::Compute { comp, compute: c0 }, PipelineObject::Graphics(g))
                    },
                };
                self.pipelines.insert(index, next);
                assert(self.pipelines@ =~= old(self).pipelines@.update(
                    index as int,
                    with_object(old(self).pipelines@[index as int], object),
                ));
                Ok(Some(previous))
            },
            Err(BuildError::Unknown) => Ok(None),
            Err(e) => Err(e),
        }
    }

    /// The indices of the compute pipelines, in order: the graphics pass
    /// waits on each one's completion semaphore.
    pub fn compute_pipelines(&self) -> (r: Vec<usize>)
        ensures
            r@ == compute_indices_upto(self.kinds(), self.kinds().len() as int),
    {
        let mut r: Vec<usize> = Vec::new();
        let mut i: usize = 0;
        while i < self.pipelines.len()
            invariant
                0 <= i <= self.pipelines@.len(),
                self.kinds().len() == self.pipelines@.len(),
                r@ == compute_indices_upto(self.kinds(), i as int),
            decreases self.pipelines@.len() - i,
        {
            if let Pipeline::Compute { .. } = &self.pipelines[i] {
                r.push(i);
            }
            i = i + 1;
        }
        r
    }
}

/// A failed rebuild leaves the registered pipelines as they were: a failure
/// classified as unknown is swallowed, any other is returned.
pub proof fn lemma_failed_rebuild_keeps_pipeline<G, C>(
    old: Seq<Pipeline<G, C>>,
    index: int,
    error: BuildError,
    new: Seq<Pipeline<G, C>>,
    r: Result<Option<PipelineObject<G, C>>, BuildError>,
)
    requires
        0 <= index < old.len(),
        rebuild_outcome(old, index, Err(error), new, r),
    ensures
        new == old,
        new[index] == old[index],
        error == BuildError::Unknown ==> r == Ok::<Option<PipelineObject<G, C>>, BuildError>(None),
        error != BuildError::Unknown ==> r == Err::<Option<PipelineObject<G, C>>, BuildError>(
            error,
        ),
{
}

/// The shader modules of a pipeline, compiled one stage after another.
pub enum StageOutcome<M, E> {
    /// Every stage so far compiled; these are its modules, in stage order.
    Ready { modules: Vec<M> },
    /// A stage failed: the error, and the modules of the earlier stages, which
    /// must be released before the error goes on.
    Failed { error: E, release: Vec<M> },
}

/// Adds the outcome of compiling the next stage to the modules of the stages
/// before it. A failure hands every earlier module back for release, so that
/// none leaks.
pub fn settle_stage<M, E>(compiled: Vec<M>, next: Result<M, E>) -> (r: StageOutcome<M, E>)
    ensures
        match next {
            Ok(m) => r matches StageOutcome::Ready { modules } && modules@ == compiled@.push(m),
            Err(e) => r matches StageOutcome::Failed { error, release } && error == e
                && release@ == compiled@,
        },
{
    let mut compiled = compiled;
    match next {
        Ok(m) => {
            compiled.push(m);
            StageOutcome::Ready { modules: compiled }
        },
        Err(e) => StageOutcome::Failed { error: e, release: compiled },
    }
}

} // verus!
