//! What the commands print: one block per search hit, the project info
//! page, and one line per resolved dependency. Each formatter's result is
//! pinned down character for character.
use vstd::prelude::*;

use crate::models::Hit;
use crate::models::HitV;
use crate::models::ProjectDependency;
use crate::models::ProjectDependencyV;
use crate::models::ProjectResponse;
use crate::models::ProjectResponseV;

verus! {

/// The printed block for one search hit: quoted title, slug, then the
/// description on its own line, then a blank line.
pub open spec fn hit_block(h: HitV) -> Seq<char> {
    "\""@ + h.title + "\" : "@ + h.slug + "\n"@ + h.description + "\n\n"@
}

/// The search command's whole output: the hits' blocks in order.
pub open spec fn hits_output(hs: Seq<HitV>) -> Seq<char>
    decreases hs.len(),
{
    if hs.len() == 0 {
        Seq::empty()
    } else {
        hit_block(hs[0]) + hits_output(hs.drop_first())
    }
}

proof fn lemma_hits_output_snoc(hs: Seq<HitV>, h: HitV)
    ensures
        hits_output(hs.push(h)) == hits_output(hs) + hit_block(h),
    decreases hs.len(),
{
    if hs.len() == 0 {
        assert(hs.push(h).drop_first() =~= Seq::<HitV>::empty());
        assert(hs.push(h)[0] == h);
        assert(hits_output(hs.push(h)) == hit_block(hs.push(h)[0]) + hits_output(
            hs.push(h).drop_first(),
        ));
        assert(hits_output(hs.push(h).drop_first()) =~= Seq::<char>::empty());
        assert(hits_output(hs) =~= Seq::<char>::empty());
        assert(hits_output(hs.push(h)) =~= hits_output(hs) + hit_block(h));
    } else {
        assert(hs.push(h).drop_first() =~= hs.drop_first().push(h));
        assert(hs.push(h)[0] == hs[0]);
        lemma_hits_output_snoc(hs.drop_first(), h);
        assert(hits_output(hs.push(h)) =~= hits_output(hs) + hit_block(h));
    }
}

/// Formats the search hits, one block per hit.
pub fn format_hits(hits: &Vec<Hit>) -> (r: String)
    ensures
        r@ == hits_output(hits.deep_view()),
{
    let mut out = String::new();
    let n: usize = hits.len();
    let mut i: usize = 0;
    proof {
        assert(hits.deep_view().len() == n);
        assert(hits.deep_view().subrange(0, 0) =~= Seq::<HitV>::empty());
        assert(out@ =~= hits_output(hits.deep_view().subrange(0, 0)));
    }
    while i < n
        invariant
            n == hits@.len(),
            i <= n,
            hits.deep_view().len() == n,
            out@ == hits_output(hits.deep_view().subrange(0, i as int)),
        decreases n - i,
    {
        let h = &hits[i];
        out.append("\"");
        out.append(h.title.as_str());
        out.append("\" : ");
        out.append(h.slug.as_str());
        out.append("\n");
        out.append(h.description.as_str());
        out.append("\n\n");
        proof {
            let hv = hits.deep_view()[i as int];
            assert(hv == hits@[i as int]@);
            lemma_hits_output_snoc(hits.deep_view().subrange(0, i as int), hv);
            assert(hits.deep_view().subrange(0, i as int + 1) =~= hits.deep_view().subrange(
                0,
                i as int,
            ).push(hv));
            assert(out@ =~= hits_output(hits.deep_view().subrange(0, i as int + 1)));
        }
        i = i + 1;
    }
    proof {
        assert(hits.deep_view().subrange(0, n as int) =~= hits.deep_view());
    }
    out
}

/// The given parts, concatenated with no separator.
pub open spec fn concat_all(parts: Seq<Seq<char>>) -> Seq<char>
    decreases parts.len(),
{
    if parts.len() == 0 {
        Seq::empty()
    } else {
        parts[0] + concat_all(parts.drop_first())
    }
}

proof fn lemma_concat_all_snoc(parts: Seq<Seq<char>>, p: Seq<char>)
    ensures
        concat_all(parts.push(p)) == concat_all(parts) + p,
    decreases parts.len(),
{
    if parts.len() == 0 {
        assert(parts.push(p).drop_first() =~= Seq::<Seq<char>>::empty());
        assert(parts.push(p)[0] == p);
        assert(concat_all(parts.push(p)) == parts.push(p)[0] + concat_all(
            parts.push(p).drop_first(),
        ));
        assert(concat_all(parts.push(p).drop_first()) =~= Seq::<char>::empty());
        assert(concat_all(parts) =~= Seq::<char>::empty());
        assert(concat_all(parts.push(p)) =~= concat_all(parts) + p);
    } else {
        assert(parts.push(p).drop_first() =~= parts.drop_first().push(p));
        assert(parts.push(p)[0] == parts[0]);
        lemma_concat_all_snoc(parts.drop_first(), p);
        assert(concat_all(parts.push(p)) =~= concat_all(parts) + p);
    }
}

/// The info command's output: project type and title, the categories run
/// together with no separator, then the description body.
pub open spec fn info_output(p: ProjectResponseV) -> Seq<char> {
    p.project_type + " - "@ + p.title + "\n"@ + concat_all(p.categories) + "\n\n"@ + p.body
        + "\n\n"@
}

/// Formats the project-detail page.
pub fn format_project_info(p: &ProjectResponse) -> (r: String)
    ensures
        r@ == info_output(p@),
{
    let mut out = String::new();
    out.append(p.project_type.as_str());
    out.append(" - ");
    out.append(p.title.as_str());
    out.append("\n");
    let ghost head = p.project_type@ + " - "@ + p.title@ + "\n"@;
    let n: usize = p.categories.len();
    let mut i: usize = 0;
    proof {
        assert(p.categories.deep_view().len() == n);
        assert(p.categories.deep_view().subrange(0, 0) =~= Seq::<Seq<char>>::empty());
        assert(concat_all(p.categories.deep_view().subrange(0, 0)) =~= Seq::<char>::empty());
        assert(out@ =~= head + concat_all(p.categories.deep_view().subrange(0, 0)));
    }
    while i < n
        invariant
            n == p.categories@.len(),
            i <= n,
            p.categories.deep_view().len() == n,
            head == p.project_type@ + " - "@ + p.title@ + "\n"@,
            out@ == head + concat_all(p.categories.deep_view().subrange(0, i as int)),
        decreases n - i,
    {
        out.append(p.categories[i].as_str());
        proof {
            let cv = p.categories.deep_view()[i as int];
            assert(cv == p.categories@[i as int]@);
            lemma_concat_all_snoc(p.categories.deep_view().subrange(0, i as int), cv);
            assert(p.categories.deep_view().subrange(0, i as int + 1)
                =~= p.categories.deep_view().subrange(0, i as int).push(cv));
            assert(out@ =~= head + concat_all(p.categories.deep_view().subrange(0, i as int + 1)));
        }
        i = i + 1;
    }
    out.append("\n\n");
    out.append(p.body.as_str());
    out.append("\n\n");
    proof {
        assert(p.categories.deep_view().subrange(0, n as int) =~= p.categories.deep_view());
        assert(out@ =~= info_output(p@));
    }
    out
}

/// One printed dependency line: the dependency type, then the resolved
/// project's quoted title and its slug.
pub open spec fn dependency_line_spec(
    dep_type: Seq<char>,
    title: Seq<char>,
    slug: Seq<char>,
) -> Seq<char> {
    dep_type + ": \""@ + title + "\" - "@ + slug + "\n"@
}

/// Formats one dependency line.
pub fn dependency_line(dependency_type: &str, title: &str, slug: &str) -> (r: String)
    ensures
        r@ == dependency_line_spec(dependency_type@, title@, slug@),
{
    let mut out = String::new();
    out.append(dependency_type);
    out.append(": \"");
    out.append(title);
    out.append("\" - ");
    out.append(slug);
    out.append("\n");
    proof {
        assert(out@ =~= dependency_line_spec(dependency_type@, title@, slug@));
    }
    out
}

/// The dependencies command's output: one line per dependency, each paired
/// with the project detail that resolved it, in input order.
pub open spec fn dependencies_output(
    deps: Seq<ProjectDependencyV>,
    projects: Seq<ProjectResponseV>,
) -> Seq<char>
    decreases deps.len(),
{
    if deps.len() == 0 || projects.len() == 0 {
        Seq::empty()
    } else {
        dependency_line_spec(deps[0].dependency_type, projects[0].title, projects[0].slug)
            + dependencies_output(deps.drop_first(), projects.drop_first())
    }
}

proof fn lemma_dependencies_output_snoc(
    deps: Seq<ProjectDependencyV>,
    projects: Seq<ProjectResponseV>,
    d: ProjectDependencyV,
    p: ProjectResponseV,
)
    requires
        deps.len() == projects.len(),
    ensures
        dependencies_output(deps.push(d), projects.push(p)) == dependencies_output(deps, projects)
            + dependency_line_spec(d.dependency_type, p.title, p.slug),
    decreases deps.len(),
{
    if deps.len() == 0 {
        assert(deps.push(d).drop_first() =~= Seq::<ProjectDependencyV>::empty());
        assert(projects.push(p).drop_first() =~= Seq::<ProjectResponseV>::empty());
        assert(deps.push(d)[0] == d);
        assert(projects.push(p)[0] == p);
        assert(dependencies_output(deps.push(d), projects.push(p)) == dependency_line_spec(
            deps.push(d)[0].dependency_type,
            projects.push(p)[0].title,
            projects.push(p)[0].slug,
        ) + dependencies_output(deps.push(d).drop_first(), projects.push(p).drop_first()));
        assert(dependencies_output(deps.push(d).drop_first(), projects.push(p).drop_first())
            =~= Seq::<char>::empty());
        assert(dependencies_output(deps, projects) =~= Seq::<char>::empty());
        assert(dependencies_output(deps.push(d), projects.push(p)) =~= dependencies_output(
            deps,
            projects,
        ) + dependency_line_spec(d.dependency_type, p.title, p.slug));
    } else {
        assert(deps.push(d).drop_first() =~= deps.drop_first().push(d));
        assert(projects.push(p).drop_first() =~= projects.drop_first().push(p));
        assert(deps.push(d)[0] == deps[0]);
        assert(projects.push(p)[0] == projects[0]);
        lemma_dependencies_output_snoc(deps.drop_first(), projects.drop_first(), d, p);
        assert(dependencies_output(deps.push(d), projects.push(p)) =~= dependencies_output(
            deps,
            projects,
        ) + dependency_line_spec(d.dependency_type, p.title, p.slug));
    }
}

/// Formats the dependency report from the dependencies and the project
/// details that resolved them, pairwise in order.
pub fn format_dependencies(deps: &Vec<ProjectDependency>, projects: &Vec<ProjectResponse>) -> (r:
    String)
    requires
        deps@.len() == projects@.len(),
    ensures
        r@ == dependencies_output(deps.deep_view(), projects.deep_view()),
{
    let mut out = String::new();
    let n: usize = deps.len();
    let mut i: usize = 0;
    proof {
        assert(deps.deep_view().len() == n);
        assert(projects.deep_view().len() == n);
        assert(deps.deep_view().subrange(0, 0) =~= Seq::<ProjectDependencyV>::empty());
        assert(projects.deep_view().subrange(0, 0) =~= Seq::<ProjectResponseV>::empty());
        assert(dependencies_output(
            deps.deep_view().subrange(0, 0),
            projects.deep_view().subrange(0, 0),
        ) =~= Seq::<char>::empty());
        assert(out@ =~= dependencies_output(
            deps.deep_view().subrange(0, 0),
            projects.deep_view().subrange(0, 0),
        ));
    }
    while i < n
        invariant
            n == deps@.len(),
            n == projects@.len(),
            i <= n,
            deps.deep_view().len() == n,
            projects.deep_view().len() == n,
            out@ == dependencies_output(
                deps.deep_view().subrange(0, i as int),
                projects.deep_view().subrange(0, i as int),
            ),
        decreases n - i,
    {
        let d = &deps[i];
        let p = &projects[i];
        let line = dependency_line(
            d.dependency_type.as_str(),
            p.title.as_str(),
            p.slug.as_str(),
        );
        out.append(line.as_str());
        proof {
            let dv = deps.deep_view()[i as int];
            let pv = projects.deep_view()[i as int];
            assert(dv == deps@[i as int]@);
            assert(pv == projects@[i as int]@);
            lemma_dependencies_output_snoc(
                deps.deep_view().subrange(0, i as int),
                projects.deep_view().subrange(0, i as int),
                dv,
                pv,
            );
            assert(deps.deep_view().subrange(0, i as int + 1) =~= deps.deep_view().subrange(
                0,
                i as int,
            ).push(dv));
            assert(projects.deep_view().subrange(0, i as int + 1)
                =~= projects.deep_view().subrange(0, i as int).push(pv));
            assert(out@ =~= dependencies_output(
                deps.deep_view().subrange(0, i as int + 1),
                projects.deep_view().subrange(0, i as int + 1),
            ));
        }
        i = i + 1;
    }
    proof {
        assert(deps.deep_view().subrange(0, n as int) =~= deps.deep_view());
        assert(projects.deep_view().subrange(0, n as int) =~= projects.deep_view());
    }
    out
}

} // verus!
