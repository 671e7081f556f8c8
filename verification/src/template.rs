//! The template engine: compiling a source string into chunks, and
//! rendering chunks against a context.
//!
//! A template is plain text in which `{name}` marks a placeholder. Every
//! `{` must open a placeholder: a non-empty field name free of delimiter
//! characters, closed by `}`. A stray `{` or `}` — unterminated, empty or
//! nested — is rejected at compile time, so no placeholder syntax of the
//! template survives into its output (context values themselves pass
//! through verbatim). Rendering substitutes each placeholder with the
//! context's value for that name and fails exactly when a referenced name
//! is absent.

use vstd::prelude::*;

use crate::context::{ctx_lookup, RenderContext};
use crate::errors::BuildError;

verus! {

/// A template delimiter character.
pub open spec fn is_delim(c: char) -> bool {
    c == '{' || c == '}'
}

/// The first position at or after `i` holding a delimiter, or the length.
pub open spec fn scan_plain_end(s: Seq<char>, i: int) -> int
    recommends
        0 <= i <= s.len(),
    decreases s.len() - i,
{
    if i < 0 || i >= s.len() {
        s.len() as int
    } else if is_delim(s[i]) {
        i
    } else {
        scan_plain_end(s, i + 1)
    }
}

proof fn lemma_scan_plain_end(s: Seq<char>, i: int)
    requires
        0 <= i <= s.len(),
    ensures
        i <= scan_plain_end(s, i) <= s.len(),
        forall|k: int| i <= k < scan_plain_end(s, i) ==> !is_delim(s[k]),
        scan_plain_end(s, i) < s.len() ==> is_delim(s[scan_plain_end(s, i)]),
    decreases s.len() - i,
{
    if i < s.len() && !is_delim(s[i]) {
        lemma_scan_plain_end(s, i + 1);
    }
}

/// One compiled piece: literal text, or a placeholder's field name.
pub enum ChunkModel {
    Lit(Seq<char>),
    Field(Seq<char>),
}

pub open spec fn opt_cons(c: ChunkModel, rest: Option<Seq<ChunkModel>>) -> Option<
    Seq<ChunkModel>,
> {
    match rest {
        Some(r) => Some(seq![c] + r),
        None => None,
    }
}

/// What compiling the source from position `i` on yields: the chunk
/// sequence, or nothing on a malformed placeholder.
pub open spec fn compile_from(s: Seq<char>, i: int) -> Option<Seq<ChunkModel>>
    recommends
        0 <= i <= s.len(),
    decreases s.len() - i,
{
    if i < 0 || i >= s.len() {
        if i == s.len() {
            Some(Seq::<ChunkModel>::empty())
        } else {
            None
        }
    } else if s[i] == '}' {
        None
    } else if s[i] == '{' {
        let j = scan_plain_end(s, i + 1);
        if i + 1 < j && j < s.len() && s[j] == '}' {
            opt_cons(ChunkModel::Field(s.subrange(i + 1, j)), compile_from(s, j + 1))
        } else {
            None
        }
    } else {
        let j = scan_plain_end(s, i);
        if i < j && j <= s.len() {
            opt_cons(ChunkModel::Lit(s.subrange(i, j)), compile_from(s, j))
        } else {
            None
        }
    }
}

/// What compiling a whole source yields.
pub open spec fn compile_spec(s: Seq<char>) -> Option<Seq<ChunkModel>> {
    compile_from(s, 0)
}

/// One compiled piece, as held at run time.
#[derive(Debug)]
pub enum Chunk {
    Lit(String),
    Field(String),
}

impl Chunk {
    pub open spec fn model(self) -> ChunkModel {
        match self {
            Chunk::Lit(t) => ChunkModel::Lit(t@),
            Chunk::Field(n) => ChunkModel::Field(n@),
        }
    }
}

pub open spec fn chunks_model(cs: Seq<Chunk>) -> Seq<ChunkModel> {
    cs.map_values(|c: Chunk| c.model())
}

/// A compiled template: its registration name and its chunks.
#[derive(Debug)]
pub struct CompiledTemplate {
    pub name: String,
    pub chunks: Vec<Chunk>,
}

impl CompiledTemplate {
    /// The chunk sequence this template renders.
    pub open spec fn model(&self) -> Seq<ChunkModel> {
        chunks_model(self.chunks@)
    }
}

pub open spec fn opt_chunks_concat(pre: Seq<ChunkModel>, rest: Option<Seq<ChunkModel>>) -> Option<
    Seq<ChunkModel>,
> {
    match rest {
        Some(r) => Some(pre + r),
        None => None,
    }
}

fn char_at_is_delim(s: &str, j: usize) -> (r: bool)
    requires
        j < s@.len(),
    ensures
        r == is_delim(s@[j as int]),
{
    let c = s.get_char(j);
    c == '{' || c == '}'
}

fn scan_plain(s: &str, start: usize) -> (j: usize)
    requires
        start <= s@.len(),
    ensures
        j == scan_plain_end(s@, start as int),
        start <= j <= s@.len(),
{
    let n = s.unicode_len();
    let mut j = start;
    while j < n && !char_at_is_delim(s, j)
        invariant
            n == s@.len(),
            start <= j <= n,
            scan_plain_end(s@, start as int) == scan_plain_end(s@, j as int),
        decreases n - j,
    {
        proof {
            assert(scan_plain_end(s@, j as int) == scan_plain_end(s@, j as int + 1));
        }
        j = j + 1;
    }
    proof {
        if j < n {
            assert(scan_plain_end(s@, j as int) == j as int);
        }
        lemma_scan_plain_end(s@, start as int);
    }
    j
}

/// Compiles a template source under a registration name. Succeeds exactly
/// on sources whose every delimiter forms a well-formed placeholder.
pub fn compile(name: String, source: &str) -> (r: Result<CompiledTemplate, BuildError>)
    ensures
        match r {
            Ok(t) => t.name@ == name@ && compile_spec(source@) == Some(t.model()),
            Err(e) => e is TemplateSyntax && compile_spec(source@) is None,
        },
{
    let n = source.unicode_len();
    let mut i: usize = 0;
    let mut chunks: Vec<Chunk> = Vec::new();
    proof {
        assert(chunks_model(chunks@) =~= Seq::<ChunkModel>::empty());
        if compile_from(source@, 0) is Some {
            assert(chunks_model(chunks@) + compile_from(source@, 0)->0 =~= compile_from(
                source@,
                0,
            )->0);
        }
    }
    while i < n
        invariant
            n == source@.len(),
            0 <= i <= n,
            compile_from(source@, 0) == opt_chunks_concat(
                chunks_model(chunks@),
                compile_from(source@, i as int),
            ),
        decreases n - i,
    {
        let c = source.get_char(i);
        if c == '}' {
            return Err(BuildError::TemplateSyntax("a stray closing delimiter".to_owned()));
        } else if c == '{' {
            let j = scan_plain(source, i + 1);
            if !(i + 1 < j) || !(j < n) || source.get_char(j) != '}' {
                return Err(
                    BuildError::TemplateSyntax("an unterminated or empty placeholder".to_owned()),
                );
            }
            let fname = source.substring_char(i + 1, j).to_owned();
            let ghost pre = chunks_model(chunks@);
            let ghost cm = ChunkModel::Field(fname@);
            chunks.push(Chunk::Field(fname));
            proof {
                assert(chunks_model(chunks@) =~= pre.push(cm));
                assert(compile_from(source@, i as int) == opt_cons(
                    cm,
                    compile_from(source@, j as int + 1),
                ));
                if compile_from(source@, j as int + 1) is Some {
                    assert(pre + (seq![cm] + compile_from(source@, j as int + 1)->0) =~= pre.push(
                        cm,
                    ) + compile_from(source@, j as int + 1)->0);
                }
            }
            i = j + 1;
        } else {
            let j = scan_plain(source, i);
            proof {
                assert(!is_delim(source@[i as int]));
                assert(scan_plain_end(source@, i as int) == scan_plain_end(
                    source@,
                    i as int + 1,
                ));
                lemma_scan_plain_end(source@, i as int + 1);
            }
            let lit = source.substring_char(i, j).to_owned();
            let ghost pre = chunks_model(chunks@);
            let ghost cm = ChunkModel::Lit(lit@);
            chunks.push(Chunk::Lit(lit));
            proof {
                assert(chunks_model(chunks@) =~= pre.push(cm));
                assert(compile_from(source@, i as int) == opt_cons(
                    cm,
                    compile_from(source@, j as int),
                ));
                if compile_from(source@, j as int) is Some {
                    assert(pre + (seq![cm] + compile_from(source@, j as int)->0) =~= pre.push(
                        cm,
                    ) + compile_from(source@, j as int)->0);
                }
            }
            i = j;
        }
    }
    proof {
        assert(compile_from(source@, n as int) == Some(Seq::<ChunkModel>::empty()));
        assert(chunks_model(chunks@) + Seq::<ChunkModel>::empty() =~= chunks_model(chunks@));
    }
    Ok(CompiledTemplate { name, chunks })
}

pub open spec fn opt_str_cons(pre: Seq<char>, rest: Option<Seq<char>>) -> Option<Seq<char>> {
    match rest {
        Some(r) => Some(pre + r),
        None => None,
    }
}

/// What rendering the chunks from position `k` on against a context
/// yields: the substituted text, or nothing on the first missing field.
pub open spec fn render_from(
    chunks: Seq<ChunkModel>,
    k: int,
    ctx: Seq<(Seq<char>, Seq<char>)>,
) -> Option<Seq<char>>
    recommends
        0 <= k <= chunks.len(),
    decreases chunks.len() - k,
{
    if k < 0 || k > chunks.len() {
        None
    } else if k == chunks.len() {
        Some(Seq::<char>::empty())
    } else {
        let rest = render_from(chunks, k + 1, ctx);
        match chunks[k] {
            ChunkModel::Lit(t) => opt_str_cons(t, rest),
            ChunkModel::Field(n) => match ctx_lookup(ctx, n) {
                Some(v) => opt_str_cons(v, rest),
                None => None,
            },
        }
    }
}

/// What rendering a whole compiled template against a context yields.
pub open spec fn render_spec(chunks: Seq<ChunkModel>, ctx: Seq<(Seq<char>, Seq<char>)>) -> Option<
    Seq<char>,
> {
    render_from(chunks, 0, ctx)
}

pub open spec fn opt_str_concat(pre: Seq<char>, rest: Option<Seq<char>>) -> Option<Seq<char>> {
    match rest {
        Some(r) => Some(pre + r),
        None => None,
    }
}

/// Renders a compiled template against a context. Succeeds exactly when
/// every field the template references is present in the context; fields
/// the template does not reference play no part.
pub fn render(t: &CompiledTemplate, ctx: &RenderContext) -> (r: Result<String, BuildError>)
    ensures
        match r {
            Ok(out) => render_spec(t.model(), ctx@) == Some(out@),
            Err(e) => e is MissingField && render_spec(t.model(), ctx@) is None,
        },
{
    let n = t.chunks.len();
    let mut out = String::new();
    let mut k: usize = 0;
    proof {
        if render_from(t.model(), 0, ctx@) is Some {
            assert(out@ + render_from(t.model(), 0, ctx@)->0 =~= render_from(t.model(), 0, ctx@)->0);
        }
    }
    while k < n
        invariant
            n == t.chunks@.len(),
            0 <= k <= n,
            render_from(t.model(), 0, ctx@) == opt_str_concat(
                out@,
                render_from(t.model(), k as int, ctx@),
            ),
        decreases n - k,
    {
        let ghost pre = out@;
        let ghost m = t.model();
        let ghost kk = k as int;
        proof {
            assert(m[kk] == t.chunks@[kk].model());
        }
        match &t.chunks[k] {
            Chunk::Lit(s) => {
                let ghost piece = s@;
                out.append(s.as_str());
                proof {
                    assert(render_from(m, kk, ctx@) == opt_str_cons(
                        piece,
                        render_from(m, kk + 1, ctx@),
                    ));
                    if render_from(m, kk + 1, ctx@) is Some {
                        let tail = render_from(m, kk + 1, ctx@)->0;
                        assert(pre + (piece + tail) =~= out@ + tail);
                    }
                }
            },
            Chunk::Field(name) => {
                match ctx.get(name.as_str()) {
                    Some(v) => {
                        let ghost piece = v@;
                        out.append(v.as_str());
                        proof {
                            assert(render_from(m, kk, ctx@) == opt_str_cons(
                                piece,
                                render_from(m, kk + 1, ctx@),
                            ));
                            if render_from(m, kk + 1, ctx@) is Some {
                                let tail = render_from(m, kk + 1, ctx@)->0;
                                assert(pre + (piece + tail) =~= out@ + tail);
                            }
                        }
                    },
                    None => {
                        proof {
                            assert(render_from(m, kk, ctx@) is None);
                        }
                        let mut detail = "a template references the missing field ".to_owned();
                        detail.append(name.as_str());
                        return Err(BuildError::MissingField(detail));
                    },
                }
            },
        }
        k = k + 1;
    }
    proof {
        assert(render_from(t.model(), n as int, ctx@) == Some(Seq::<char>::empty()));
        assert(out@ + Seq::<char>::empty() =~= out@);
    }
    Ok(out)
}

/// Whether some placeholder in the chunks references a field absent from
/// the context.
pub open spec fn references_missing(
    chunks: Seq<ChunkModel>,
    ctx: Seq<(Seq<char>, Seq<char>)>,
) -> bool {
    exists|j: int|
        0 <= j < chunks.len() && (#[trigger] chunks[j]) is Field && ctx_lookup(
            ctx,
            chunks[j]->Field_0,
        ) is None
}

proof fn lemma_missing_field_from(chunks: Seq<ChunkModel>, k: int, ctx: Seq<(Seq<char>, Seq<char>)>)
    requires
        0 <= k <= chunks.len(),
    ensures
        render_from(chunks, k, ctx) is None <==> exists|j: int|
            k <= j < chunks.len() && (#[trigger] chunks[j]) is Field && ctx_lookup(
                ctx,
                chunks[j]->Field_0,
            ) is None,
    decreases chunks.len() - k,
{
    if k < chunks.len() {
        lemma_missing_field_from(chunks, k + 1, ctx);
        if chunks[k] is Field && ctx_lookup(ctx, chunks[k]->Field_0) is None {
            assert(render_from(chunks, k, ctx) is None);
        }
    }
}

/// Rendering fails exactly when the template references a field that the
/// context does not hold: no other condition makes it fail, and extra
/// context fields are never an error.
pub proof fn lemma_missing_field_exact(chunks: Seq<ChunkModel>, ctx: Seq<(Seq<char>, Seq<char>)>)
    ensures
        render_spec(chunks, ctx) is None <==> references_missing(chunks, ctx),
{
    lemma_missing_field_from(chunks, 0, ctx);
}

proof fn lemma_render_same_lookups_from(
    chunks: Seq<ChunkModel>,
    k: int,
    ctx1: Seq<(Seq<char>, Seq<char>)>,
    ctx2: Seq<(Seq<char>, Seq<char>)>,
)
    requires
        0 <= k <= chunks.len(),
        forall|j: int|
            0 <= j < chunks.len() && (#[trigger] chunks[j]) is Field ==> ctx_lookup(
                ctx1,
                chunks[j]->Field_0,
            ) == ctx_lookup(ctx2, chunks[j]->Field_0),
    ensures
        render_from(chunks, k, ctx1) == render_from(chunks, k, ctx2),
    decreases chunks.len() - k,
{
    if k < chunks.len() {
        lemma_render_same_lookups_from(chunks, k + 1, ctx1, ctx2);
    }
}

/// A rendering depends only on the values the template references: two
/// contexts that agree on every referenced field render identically, so a
/// field the template never names plays no part.
pub proof fn lemma_render_ignores_unreferenced(
    chunks: Seq<ChunkModel>,
    ctx1: Seq<(Seq<char>, Seq<char>)>,
    ctx2: Seq<(Seq<char>, Seq<char>)>,
)
    requires
        forall|j: int|
            0 <= j < chunks.len() && (#[trigger] chunks[j]) is Field ==> ctx_lookup(
                ctx1,
                chunks[j]->Field_0,
            ) == ctx_lookup(ctx2, chunks[j]->Field_0),
    ensures
        render_spec(chunks, ctx1) == render_spec(chunks, ctx2),
{
    lemma_render_same_lookups_from(chunks, 0, ctx1, ctx2);
}

/// Compilation and rendering are deterministic: one source compiles to one
/// chunk sequence, and one chunk sequence renders to one output for one
/// context. Compiling the same source twice and rendering with the same
/// context therefore yields identical output both times.
pub proof fn lemma_compile_render_deterministic(
    src: Seq<char>,
    ctx: Seq<(Seq<char>, Seq<char>)>,
    t1: Seq<ChunkModel>,
    t2: Seq<ChunkModel>,
)
    requires
        compile_spec(src) == Some(t1),
        compile_spec(src) == Some(t2),
    ensures
        t1 == t2,
        render_spec(t1, ctx) == render_spec(t2, ctx),
{
}

/// The first registered template under a name, if any.
pub open spec fn set_lookup(ts: Seq<CompiledTemplate>, n: Seq<char>) -> Option<Seq<ChunkModel>>
    decreases ts.len(),
{
    if ts.len() == 0 {
        None
    } else if ts[0].name@ == n {
        Some(ts[0].model())
    } else {
        set_lookup(ts.drop_first(), n)
    }
}

/// The templates of one build, each registered under a unique name.
pub struct TemplateSet {
    pub templates: Vec<CompiledTemplate>,
}

impl TemplateSet {
    /// Whether a name is already registered.
    pub open spec fn has_name(&self, n: Seq<char>) -> bool {
        set_lookup(self.templates@, n) is Some
    }

    /// An empty set.
    pub fn new() -> (r: TemplateSet)
        ensures
            r.templates@ =~= Seq::<CompiledTemplate>::empty(),
    {
        TemplateSet { templates: Vec::new() }
    }

    fn position_of(&self, name: &str) -> (r: Option<usize>)
        ensures
            match r {
                Some(p) => p < self.templates@.len() && self.templates@[p as int].name@ == name@
                    && set_lookup(self.templates@, name@) == Some(
                    self.templates@[p as int].model(),
                ),
                None => set_lookup(self.templates@, name@) is None,
            },
    {
        let n = self.templates.len();
        let mut i: usize = 0;
        proof {
            assert(self.templates@.skip(0) =~= self.templates@);
        }
        while i < n
            invariant
                n == self.templates@.len(),
                0 <= i <= n,
                set_lookup(self.templates@, name@) == set_lookup(
                    self.templates@.skip(i as int),
                    name@,
                ),
            decreases n - i,
        {
            proof {
                assert(self.templates@.skip(i as int)[0] == self.templates@[i as int]);
            }
            if crate::text::str_eq(self.templates[i].name.as_str(), name) {
                return Some(i);
            }
            proof {
                assert(self.templates@.skip(i as int).drop_first() =~= self.templates@.skip(
                    i as int + 1,
                ));
            }
            i = i + 1;
        }
        proof {
            assert(self.templates@.skip(n as int) =~= Seq::<CompiledTemplate>::empty());
        }
        None
    }

    /// Compiles and registers a template. Fails with a syntax error on a
    /// malformed source, and also when the name is already registered.
    pub fn add_template(&mut self, name: &str, source: &str) -> (r: Result<(), BuildError>)
        ensures
            match r {
                Ok(()) => ({
                    &&& !old(self).has_name(name@)
                    &&& compile_spec(source@) is Some
                    &&& final(self).templates@.len() == old(self).templates@.len() + 1
                    &&& final(self).templates@.drop_last() == old(self).templates@
                    &&& final(self).templates@.last().name@ == name@
                    &&& final(self).templates@.last().model() == compile_spec(source@)->0
                }),
                Err(e) => ({
                    &&& *final(self) == *old(self)
                    &&& e is TemplateSyntax
                    &&& (old(self).has_name(name@) || compile_spec(source@) is None)
                }),
            },
    {
        match self.position_of(name) {
            Some(_) => {
                let mut detail = "a template name registered twice: ".to_owned();
                detail.append(name);
                return Err(BuildError::TemplateSyntax(detail));
            },
            None => {},
        }
        let t = match compile(name.to_owned(), source) {
            Ok(t) => t,
            Err(e) => { return Err(e); },
        };
        self.templates.push(t);
        proof {
            assert(self.templates@.drop_last() =~= old(self).templates@);
        }
        Ok(())
    }

    /// The registered template of a name, if any.
    pub fn get(&self, name: &str) -> (r: Option<&CompiledTemplate>)
        ensures
            match r {
                Some(t) => t.name@ == name@ && set_lookup(self.templates@, name@) == Some(
                    t.model(),
                ),
                None => set_lookup(self.templates@, name@) is None,
            },
    {
        match self.position_of(name) {
            Some(p) => Some(&self.templates[p]),
            None => None,
        }
    }
}

} // verus!
