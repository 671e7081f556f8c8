//! The site builder's plan: the pure part of one build.
//!
//! A plan takes the raw input texts — status data, page template, and
//! optionally group data with an index template — and yields every output
//! file of the build with its exact name and contents: `index.html` first
//! when the index feature is on, then one `{code}.html` per status record
//! in load order. The surrounding program resets the output directory,
//! copies the static assets, and writes the planned files; it performs no
//! write when the plan fails. Since the engine substitutes flat fields
//! only, the index page is the concatenation of one rendered fragment per
//! group. Records with equal codes plan files of equal names; written in
//! order, the last one wins, as the data's order says.

use vstd::prelude::*;

use crate::context::{build_group_context, build_page_context, group_context_model,
    page_context_model};
use crate::errors::BuildError;
use crate::records::{groups_model, groups_spec, load_groups, load_statuses, records_model,
    statuses_spec, GroupModel, StatusGroup, StatusModel, StatusRecord};
use crate::template::{compile, compile_spec, render, render_spec, ChunkModel, CompiledTemplate};

verus! {

/// One planned output file.
#[derive(Debug)]
pub struct OutputFile {
    pub name: String,
    pub contents: String,
}

/// The mathematical shape of a file list: name and contents pairs.
pub open spec fn files_model(fs: Seq<OutputFile>) -> Seq<(Seq<char>, Seq<char>)> {
    fs.map_values(|f: OutputFile| (f.name@, f.contents@))
}

/// The index feature's inputs: raw group data and the index template source.
pub struct IndexInputs {
    pub groups_text: String,
    pub template: String,
}

/// The inputs of one build.
pub struct BuildInputs {
    pub statuses_text: String,
    pub page_template: String,
    pub index: Option<IndexInputs>,
}

/// The mathematical shape of the inputs; the index pair is group data text
/// and index template source.
pub struct InputsModel {
    pub statuses_text: Seq<char>,
    pub page_template: Seq<char>,
    pub index: Option<(Seq<char>, Seq<char>)>,
}

impl View for BuildInputs {
    type V = InputsModel;

    open spec fn view(&self) -> InputsModel {
        InputsModel {
            statuses_text: self.statuses_text@,
            page_template: self.page_template@,
            index: match self.index {
                Some(ix) => Some((ix.groups_text@, ix.template@)),
                None => None,
            },
        }
    }
}

/// The kind of failure a plan stops on.
pub enum PlanError {
    Schema,
    TemplateSyntax,
    MissingField,
}

/// Whether a build error is of a plan failure's kind.
pub open spec fn error_matches(e: BuildError, k: PlanError) -> bool {
    match k {
        PlanError::Schema => e is Schema,
        PlanError::TemplateSyntax => e is TemplateSyntax,
        PlanError::MissingField => e is MissingField,
    }
}

/// The text of a rendering that succeeded.
pub open spec fn opt_text(o: Option<Seq<char>>) -> Seq<char>
    recommends
        o is Some,
{
    match o {
        Some(v) => v,
        None => Seq::<char>::empty(),
    }
}

/// The output name of one record's page.
pub open spec fn page_name(r: StatusModel) -> Seq<char> {
    r.code + ".html"@
}

/// The rendered page of one record, if its context holds every field the
/// page template references.
pub open spec fn page_body(pchunks: Seq<ChunkModel>, r: StatusModel) -> Option<Seq<char>> {
    render_spec(pchunks, page_context_model(r))
}

/// Whether every record's page renders.
pub open spec fn all_pages_render(pchunks: Seq<ChunkModel>, recs: Seq<StatusModel>) -> bool {
    forall|i: int| 0 <= i < recs.len() ==> page_body(pchunks, #[trigger] recs[i]) is Some
}

/// One page file per record, in record order.
pub open spec fn page_files(pchunks: Seq<ChunkModel>, recs: Seq<StatusModel>) -> Seq<
    (Seq<char>, Seq<char>),
> {
    recs.map_values(|r: StatusModel| (page_name(r), opt_text(page_body(pchunks, r))))
}

/// The index page's body from group `k` on: one rendered fragment per
/// group, concatenated, or nothing on the first fragment that fails.
pub open spec fn index_body_from(
    ichunks: Seq<ChunkModel>,
    groups: Seq<GroupModel>,
    k: int,
) -> Option<Seq<char>>
    recommends
        0 <= k <= groups.len(),
    decreases groups.len() - k,
{
    if k < 0 || k > groups.len() {
        None
    } else if k == groups.len() {
        Some(Seq::<char>::empty())
    } else {
        match render_spec(ichunks, group_context_model(groups[k])) {
            Some(frag) => match index_body_from(ichunks, groups, k + 1) {
                Some(rest) => Some(frag + rest),
                None => None,
            },
            None => None,
        }
    }
}

/// The whole index page's body.
pub open spec fn index_body(ichunks: Seq<ChunkModel>, groups: Seq<GroupModel>) -> Option<
    Seq<char>,
> {
    index_body_from(ichunks, groups, 0)
}

/// What planning a build yields: the full file list, or the kind of the
/// first failure, checked in pipeline order — status data, group data,
/// page template, index template, index rendering, page renderings.
pub open spec fn plan_spec(m: InputsModel) -> Result<Seq<(Seq<char>, Seq<char>)>, PlanError> {
    if statuses_spec(m.statuses_text) is None {
        Err(PlanError::Schema)
    } else if m.index is Some && groups_spec((m.index->0).0) is None {
        Err(PlanError::Schema)
    } else if compile_spec(m.page_template) is None {
        Err(PlanError::TemplateSyntax)
    } else if m.index is Some && compile_spec((m.index->0).1) is None {
        Err(PlanError::TemplateSyntax)
    } else {
        let recs = statuses_spec(m.statuses_text)->0;
        let pchunks = compile_spec(m.page_template)->0;
        if m.index is Some && index_body(
            compile_spec((m.index->0).1)->0,
            groups_spec((m.index->0).0)->0,
        ) is None {
            Err(PlanError::MissingField)
        } else if !all_pages_render(pchunks, recs) {
            Err(PlanError::MissingField)
        } else {
            let head = if m.index is Some {
                seq![
                    ("index.html"@, opt_text(index_body(
                        compile_spec((m.index->0).1)->0,
                        groups_spec((m.index->0).0)->0,
                    ))),
                ]
            } else {
                Seq::<(Seq<char>, Seq<char>)>::empty()
            };
            Ok(head + page_files(pchunks, recs))
        }
    }
}

/// Every successful plan holds exactly one file per record, named
/// `{code}.html`, after `index.html` when the index feature is on — and
/// nothing else. An empty record collection therefore plans no page file,
/// and that is not an error.
pub proof fn lemma_one_file_per_record(m: InputsModel)
    requires
        plan_spec(m) is Ok,
    ensures
        ({
            let files = plan_spec(m)->Ok_0;
            let recs = statuses_spec(m.statuses_text)->0;
            let base: int = if m.index is Some { 1 } else { 0 };
            &&& statuses_spec(m.statuses_text) is Some
            &&& files.len() == base + recs.len()
            &&& (m.index is Some ==> files[0].0 == "index.html"@)
            &&& forall|i: int|
                0 <= i < recs.len() ==> (#[trigger] files[base + i]).0 == recs[i].code + ".html"@
        }),
{
    let files = plan_spec(m)->Ok_0;
    let recs = statuses_spec(m.statuses_text)->0;
    let pchunks = compile_spec(m.page_template)->0;
    let base: int = if m.index is Some { 1 } else { 0 };
    assert(forall|i: int|
        0 <= i < recs.len() ==> (#[trigger] files[base + i]) == page_files(pchunks, recs)[i]);
}

fn render_index(t: &CompiledTemplate, groups: &Vec<StatusGroup>) -> (r: Result<String, BuildError>)
    ensures
        match r {
            Ok(b) => index_body(t.model(), groups_model(groups@)) == Some(b@),
            Err(e) => e is MissingField && index_body(t.model(), groups_model(groups@)) is None,
        },
{
    let ghost gm = groups_model(groups@);
    let n = groups.len();
    let mut out = String::new();
    let mut k: usize = 0;
    proof {
        if index_body_from(t.model(), gm, 0) is Some {
            assert(out@ + index_body_from(t.model(), gm, 0)->0 =~= index_body_from(
                t.model(),
                gm,
                0,
            )->0);
        }
    }
    while k < n
        invariant
            n == groups@.len(),
            gm == groups_model(groups@),
            0 <= k <= n,
            index_body_from(t.model(), gm, 0) == match index_body_from(t.model(), gm, k as int) {
                Some(rest) => Some(out@ + rest),
                None => None::<Seq<char>>,
            },
        decreases n - k,
    {
        proof {
            assert(gm[k as int] == groups@[k as int]@);
        }
        let ctx = build_group_context(&groups[k]);
        let ghost pre = out@;
        match render(t, &ctx) {
            Ok(frag) => {
                out.append(frag.as_str());
                proof {
                    if index_body_from(t.model(), gm, k as int + 1) is Some {
                        let rest = index_body_from(t.model(), gm, k as int + 1)->0;
                        assert(pre + (frag@ + rest) =~= out@ + rest);
                    }
                }
            },
            Err(e) => {
                proof {
                    assert(index_body_from(t.model(), gm, k as int) is None);
                }
                return Err(e);
            },
        }
        k = k + 1;
    }
    proof {
        assert(index_body_from(t.model(), gm, n as int) == Some(Seq::<char>::empty()));
        assert(out@ + Seq::<char>::empty() =~= out@);
    }
    Ok(out)
}

fn render_pages(t: &CompiledTemplate, records: &Vec<StatusRecord>) -> (r: Result<
    Vec<OutputFile>,
    BuildError,
>)
    ensures
        match r {
            Ok(files) => all_pages_render(t.model(), records_model(records@)) && files_model(
                files@,
            ) == page_files(t.model(), records_model(records@)),
            Err(e) => e is MissingField && !all_pages_render(t.model(), records_model(records@)),
        },
{
    let ghost recm = records_model(records@);
    let n = records.len();
    let mut files: Vec<OutputFile> = Vec::new();
    let mut idx: usize = 0;
    while idx < n
        invariant
            n == records@.len(),
            recm == records_model(records@),
            0 <= idx <= n,
            files@.len() == idx,
            forall|i: int| 0 <= i < idx ==> page_body(t.model(), recm[i]) is Some,
            forall|i: int|
                0 <= i < idx ==> (#[trigger] files@[i]).name@ == page_name(recm[i]) && files@[
                    i
                ].contents@ == opt_text(page_body(t.model(), recm[i])),
        decreases n - idx,
    {
        proof {
            assert(recm[idx as int] == records@[idx as int]@);
        }
        let ctx = build_page_context(&records[idx]);
        match render(t, &ctx) {
            Ok(body) => {
                let name = records[idx].code.clone().concat(".html");
                files.push(OutputFile { name, contents: body });
                idx = idx + 1;
            },
            Err(e) => {
                proof {
                    assert(page_body(t.model(), recm[idx as int]) is None);
                }
                return Err(e);
            },
        }
    }
    proof {
        assert(files_model(files@) =~= page_files(t.model(), recm));
    }
    Ok(files)
}

/// Plans one whole build from its raw inputs: exactly the file list that
/// `plan_spec` gives on these inputs, or the first failure in pipeline
/// order, as a build error of the kind `plan_spec` names.
pub fn plan_site(inputs: &BuildInputs) -> (r: Result<Vec<OutputFile>, BuildError>)
    ensures
        match r {
            Ok(files) => plan_spec(inputs@) == Ok::<Seq<(Seq<char>, Seq<char>)>, PlanError>(
                files_model(files@),
            ),
            Err(e) => plan_spec(inputs@) is Err && error_matches(e, plan_spec(inputs@)->Err_0),
        },
{
    let ghost m = inputs@;
    let records = match load_statuses(inputs.statuses_text.as_str()) {
        Ok(v) => v,
        Err(e) => { return Err(e); },
    };
    let groups: Option<Vec<StatusGroup>> = match &inputs.index {
        Some(ix) => Some(
            match load_groups(ix.groups_text.as_str()) {
                Ok(g) => g,
                Err(e) => { return Err(e); },
            },
        ),
        None => None,
    };
    proof {
        assert(match groups {
            Some(g) => m.index is Some && groups_spec((m.index->0).0) == Some(groups_model(g@)),
            None => m.index is None,
        });
    }
    let page_t = match compile("status_page".to_owned(), inputs.page_template.as_str()) {
        Ok(t) => t,
        Err(e) => { return Err(e); },
    };
    let mut files: Vec<OutputFile> = Vec::new();
    match (&inputs.index, &groups) {
        (Some(ix), Some(gs)) => {
            let it = match compile("index_page".to_owned(), ix.template.as_str()) {
                Ok(t) => t,
                Err(e) => { return Err(e); },
            };
            let body = match render_index(&it, gs) {
                Ok(b) => b,
                Err(e) => { return Err(e); },
            };
            proof {
                assert(m.index is Some);
                assert(compile_spec((m.index->0).1) == Some(it.model()));
                assert(index_body(compile_spec((m.index->0).1)->0, groups_spec((m.index->0).0)->0)
                    == Some(body@));
            }
            files.push(OutputFile { name: "index.html".to_owned(), contents: body });
            proof {
                assert(files_model(files@) =~= seq![("index.html"@, body@)]);
            }
        },
        _ => {
            proof {
                assert(m.index is None);
                assert(files_model(files@) =~= Seq::<(Seq<char>, Seq<char>)>::empty());
            }
        },
    }
    let ghost head = files_model(files@);
    let mut pages = match render_pages(&page_t, &records) {
        Ok(p) => p,
        Err(e) => { return Err(e); },
    };
    let ghost pages_m = files_model(pages@);
    files.append(&mut pages);
    proof {
        assert(files_model(files@) =~= head + pages_m);
        assert(plan_spec(m) == Ok::<Seq<(Seq<char>, Seq<char>)>, PlanError>(files_model(files@)));
    }
    Ok(files)
}

} // verus!
