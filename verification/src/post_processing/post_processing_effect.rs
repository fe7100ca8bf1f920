//! The render pipelines of a post-processing effect, one per colour format
//! it writes.

use vstd::prelude::*;

verus! {

#[verifier::external_type_specification]
#[verifier::external_body]
pub struct ExTextureFormat(wgpu::TextureFormat);

#[verifier::external_type_specification]
#[verifier::external_body]
pub struct ExRenderPipeline(wgpu::RenderPipeline);

/// `==` on texture formats, which `TextureFormat` derives: two formats
/// compare equal exactly when they are the same format.
#[verifier::external_body]
fn same_format(a: &wgpu::TextureFormat, b: &wgpu::TextureFormat) -> (r: bool)
    ensures
        r == (*a == *b),
{
    *a == *b
}

/// `RenderPipeline::clone`: another handle to the same pipeline, which the
/// contract states as the two being equal.
#[verifier::external_body]
fn share_pipeline(pipeline: &wgpu::RenderPipeline) -> (r: wgpu::RenderPipeline)
    ensures
        r == *pipeline,
{
    pipeline.clone()
}

/// No two entries are for the same format.
pub open spec fn formats_distinct(entries: Seq<(wgpu::TextureFormat, wgpu::RenderPipeline)>) -> bool {
    forall|i: int, j: int| 0 <= i < j < entries.len() ==> #[trigger] entries[i].0 != #[trigger] entries[j].0
}

/// The pipelines of a list of entries, by format.
pub open spec fn pipelines_map(entries: Seq<(wgpu::TextureFormat, wgpu::RenderPipeline)>) -> Map<
    wgpu::TextureFormat,
    wgpu::RenderPipeline,
>
    decreases entries.len(),
{
    if entries.len() == 0 {
        Map::empty()
    } else {
        pipelines_map(entries.drop_last()).insert(entries.last().0, entries.last().1)
    }
}

proof fn lemma_pipelines_map_lookup(entries: Seq<(wgpu::TextureFormat, wgpu::RenderPipeline)>, i: int)
    requires
        formats_distinct(entries),
        0 <= i < entries.len(),
    ensures
        pipelines_map(entries).contains_key(entries[i].0),
        pipelines_map(entries)[entries[i].0] == entries[i].1,
    decreases entries.len(),
{
    if i < entries.len() - 1 {
        let rest = entries.drop_last();
        assert(rest[i] == entries[i]);
        assert(formats_distinct(rest));
        lemma_pipelines_map_lookup(rest, i);
        assert(entries[i].0 != entries[entries.len() - 1].0);
    }
}

proof fn lemma_pipelines_map_missing(
    entries: Seq<(wgpu::TextureFormat, wgpu::RenderPipeline)>,
    format: wgpu::TextureFormat,
)
    requires
        forall|i: int| 0 <= i < entries.len() ==> #[trigger] entries[i].0 != format,
    ensures
        !pipelines_map(entries).contains_key(format),
    decreases entries.len(),
{
    if entries.len() > 0 {
        let rest = entries.drop_last();
        assert forall|i: int| 0 <= i < rest.len() implies #[trigger] rest[i].0 != format by {
            assert(rest[i] == entries[i]);
        }
        lemma_pipelines_map_missing(rest, format);
        assert(entries[entries.len() - 1].0 != format);
    }
}

/// An effect's render pipeline, built once per colour format it is asked to
/// write into.
///
/// A pipeline is tied to the format of the attachment it writes, so an effect
/// that runs on two chains of different formats needs one per format; this
/// builds each the first time it is asked for and keeps it.
pub struct FormatPipelines<B> {
    build: B,
    /// The pipelines built so far, a `Vec` whose formats are distinct (the
    /// type invariant) in place of a `HashMap<TextureFormat, _>`: vstd
    /// specifies `HashMap` only for keys it knows to obey its key model,
    /// which an outside type is not. No `HashMap` form was compiled here.
    built: Vec<(wgpu::TextureFormat, wgpu::RenderPipeline)>,
}

/// How one call of `get` for `format` leaves the pipelines and what it
/// returns: the pipeline already built for `format`, with nothing changed,
/// or else `pipeline`, kept for `format` from then on.
pub open spec fn get_outcome<B>(
    before: FormatPipelines<B>,
    after: FormatPipelines<B>,
    format: wgpu::TextureFormat,
    pipeline: wgpu::RenderPipeline,
) -> bool {
    &&& if before.built().contains_key(format) {
        &&& pipeline == before.built()[format]
        &&& after.built() == before.built()
    } else {
        after.built() == before.built().insert(format, pipeline)
    }
    &&& after.builder() == before.builder()
}

impl<B> FormatPipelines<B> {
    #[verifier::type_invariant]
    spec fn entries_distinct(self) -> bool {
        formats_distinct(self.built@)
    }

    /// The pipelines built so far, by format.
    pub closed spec fn built(self) -> Map<wgpu::TextureFormat, wgpu::RenderPipeline> {
        pipelines_map(self.built@)
    }

    /// What builds a pipeline for a format.
    pub closed spec fn builder(self) -> B {
        self.build
    }
}

impl<B: Fn(wgpu::TextureFormat) -> wgpu::RenderPipeline> FormatPipelines<B> {
    /// Defers pipeline creation to `build`, which is called once per format.
    pub fn new(build: B) -> (r: Self)
        ensures
            r.built() == Map::<wgpu::TextureFormat, wgpu::RenderPipeline>::empty(),
            r.builder() == build,
    {
        FormatPipelines { build, built: Vec::new() }
    }

    /// The index of the entry for `format`.
    fn position(&self, format: &wgpu::TextureFormat) -> (r: Option<usize>)
        ensures
            match r {
                Some(i) => i < self.built@.len() && self.built@[i as int].0 == *format,
                None => forall|i: int|
                    0 <= i < self.built@.len() ==> #[trigger] self.built@[i].0 != *format,
            },
    {
        let len = self.built.len();
        let mut i: usize = 0;
        while i < len
            invariant
                len == self.built@.len(),
                i <= len,
                forall|j: int| 0 <= j < i ==> #[trigger] self.built@[j].0 != *format,
            decreases len - i,
        {
            if same_format(&self.built[i].0, format) {
                return Some(i);
            }
            i = i + 1;
        }
        None
    }

    /// The pipeline writing `format`, built the first time it is asked for.
    /// The returned pipeline is a handle, so cloning it out costs nothing and
    /// leaves the caller free to borrow the rest of its effect.
    pub fn get(&mut self, format: wgpu::TextureFormat) -> (r: wgpu::RenderPipeline)
        requires
            !old(self).built().contains_key(format) ==> call_requires(old(self).builder(), (format,)),
        ensures
            get_outcome(*old(self), *final(self), format, r),
            !old(self).built().contains_key(format) ==> call_ensures(old(self).builder(), (format,), r),
    {
        proof {
            use_type_invariant(&*self);
        }
        match self.position(&format) {
            Some(i) => {
                proof {
                    lemma_pipelines_map_lookup(self.built@, i as int);
                }
                share_pipeline(&self.built[i].1)
            },
            None => {
                proof {
                    lemma_pipelines_map_missing(self.built@, format);
                }
                let pipeline = (self.build)(format);
                let mut entries: Vec<(wgpu::TextureFormat, wgpu::RenderPipeline)> = Vec::new();
                std::mem::swap(&mut entries, &mut self.built);
                let ghost before = entries@;
                entries.push((format, share_pipeline(&pipeline)));
                assert(entries@.drop_last() =~= before);
                self.built = entries;
                pipeline
            },
        }
    }
}

/// Asking twice for the same format gives the same pipeline, and the second
/// request builds nothing.
pub proof fn one_pipeline_per_format<B>(
    p0: FormatPipelines<B>,
    p1: FormatPipelines<B>,
    p2: FormatPipelines<B>,
    format: wgpu::TextureFormat,
    first: wgpu::RenderPipeline,
    second: wgpu::RenderPipeline,
)
    requires
        get_outcome(p0, p1, format, first),
        get_outcome(p1, p2, format, second),
    ensures
        second == first,
        p2.built() == p1.built(),
        p1.built().contains_key(format),
{
}

} // verus!
