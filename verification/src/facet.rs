//! The search facet builder: turns a category list and a game version into
//! the API's bracket-nested filter fragment. The builder works by pushing
//! each clause with a trailing separator and stripping the leftovers at the
//! end, and is proved to produce exactly the comma-joined clause list.
use vstd::prelude::*;

verus! {

/// A facet clause: a quoted body inside one bracket pair.
pub open spec fn bracketed(body: Seq<char>) -> Seq<char> {
    "[\""@ + body + "\"]"@
}

/// One clause per category, in the order given.
pub open spec fn category_clauses(categories: Seq<Seq<char>>) -> Seq<Seq<char>>
    decreases categories.len(),
{
    if categories.len() == 0 {
        Seq::empty()
    } else {
        seq![bracketed("categories:"@ + categories[0])] + category_clauses(
            categories.drop_first(),
        )
    }
}

/// The version clause, present only for a non-empty version string.
pub open spec fn version_clauses(version: Seq<char>) -> Seq<Seq<char>> {
    if version.len() == 0 {
        Seq::<Seq<char>>::empty()
    } else {
        seq![bracketed("versions:"@ + version)]
    }
}

/// Every clause of the filter: the fixed project-type clause, then the
/// categories, then the version.
pub open spec fn facet_clauses(categories: Seq<Seq<char>>, version: Seq<char>) -> Seq<Seq<char>> {
    seq![bracketed("project_type=mod"@)] + category_clauses(categories) + version_clauses(version)
}

/// The given parts separated by commas.
pub open spec fn join_comma(parts: Seq<Seq<char>>) -> Seq<char>
    decreases parts.len(),
{
    if parts.len() == 0 {
        Seq::empty()
    } else if parts.len() == 1 {
        parts[0]
    } else {
        parts[0] + ","@ + join_comma(parts.drop_first())
    }
}

/// The whole facet fragment: the clauses, comma-joined, inside the outer
/// bracket pair of the `&facets=` query parameter.
pub open spec fn facet_string(categories: Seq<Seq<char>>, version: Seq<char>) -> Seq<char> {
    "&facets=["@ + join_comma(facet_clauses(categories, version)) + "]"@
}

/// Every part followed by a comma: the shape the incremental builder leaves
/// behind before the trailing separators are stripped.
spec fn commas_all(parts: Seq<Seq<char>>) -> Seq<char>
    decreases parts.len(),
{
    if parts.len() == 0 {
        Seq::empty()
    } else {
        parts[0] + ","@ + commas_all(parts.drop_first())
    }
}

proof fn lemma_commas_snoc(parts: Seq<Seq<char>>, p: Seq<char>)
    ensures
        commas_all(parts.push(p)) == commas_all(parts) + p + ","@,
    decreases parts.len(),
{
    if parts.len() == 0 {
        assert(parts.push(p).drop_first() =~= Seq::<Seq<char>>::empty());
        assert(parts.push(p)[0] == p);
        assert(commas_all(parts.push(p)) == parts.push(p)[0] + ","@ + commas_all(
            parts.push(p).drop_first(),
        ));
        assert(commas_all(parts.push(p).drop_first()) =~= Seq::<char>::empty());
        assert(commas_all(parts) =~= Seq::<char>::empty());
        assert(commas_all(parts.push(p)) =~= commas_all(parts) + p + ","@);
    } else {
        assert(parts.push(p).drop_first() =~= parts.drop_first().push(p));
        assert(parts.push(p)[0] == parts[0]);
        lemma_commas_snoc(parts.drop_first(), p);
        assert(commas_all(parts.push(p)) =~= commas_all(parts) + p + ","@);
    }
}

proof fn lemma_category_clauses_snoc(categories: Seq<Seq<char>>, c: Seq<char>)
    ensures
        category_clauses(categories.push(c)) == category_clauses(categories) + seq![
            bracketed("categories:"@ + c),
        ],
    decreases categories.len(),
{
    if categories.len() == 0 {
        assert(categories.push(c).drop_first() =~= Seq::<Seq<char>>::empty());
        assert(categories.push(c)[0] == c);
        assert(category_clauses(categories.push(c)) == seq![
            bracketed("categories:"@ + categories.push(c)[0]),
        ] + category_clauses(categories.push(c).drop_first()));
        assert(category_clauses(categories.push(c).drop_first()) =~= Seq::<Seq<char>>::empty());
        assert(category_clauses(categories) =~= Seq::<Seq<char>>::empty());
        assert(category_clauses(categories.push(c)) =~~= category_clauses(categories) + seq![
            bracketed("categories:"@ + c),
        ]);
    } else {
        assert(categories.push(c).drop_first() =~= categories.drop_first().push(c));
        assert(categories.push(c)[0] == categories[0]);
        lemma_category_clauses_snoc(categories.drop_first(), c);
        assert(category_clauses(categories.push(c)) =~~= category_clauses(categories) + seq![
            bracketed("categories:"@ + c),
        ]);
    }
}

proof fn lemma_commas_join(parts: Seq<Seq<char>>)
    requires
        parts.len() > 0,
    ensures
        commas_all(parts) == join_comma(parts) + ","@,
    decreases parts.len(),
{
    if parts.len() == 1 {
        assert(parts.drop_first().len() == 0);
        assert(commas_all(parts.drop_first()) =~= Seq::<char>::empty());
        assert(commas_all(parts) =~= join_comma(parts) + ","@);
    } else {
        lemma_commas_join(parts.drop_first());
        assert(commas_all(parts) =~= join_comma(parts) + ","@);
    }
}

/// The index of the last occurrence of `c` in `s`, or -1 when there is none.
pub open spec fn last_index_of(s: Seq<char>, c: char) -> int
    decreases s.len(),
{
    if s.len() == 0 {
        -1
    } else if s[s.len() - 1] == c {
        s.len() - 1
    } else {
        last_index_of(s.drop_last(), c)
    }
}

/// `s` with the last occurrence of `c` taken out, or `s` itself when `c`
/// does not occur.
pub open spec fn remove_last_occurrence(s: Seq<char>, c: char) -> Seq<char> {
    let i = last_index_of(s, c);
    if i < 0 {
        s
    } else {
        s.subrange(0, i) + s.subrange(i + 1, s.len() as int)
    }
}

proof fn lemma_last_index_found(s: Seq<char>, c: char, i: int)
    requires
        0 <= i < s.len(),
        s[i] == c,
        forall|k: int| i < k < s.len() ==> s[k] != c,
    ensures
        last_index_of(s, c) == i,
    decreases s.len(),
{
    if i < s.len() - 1 {
        assert(s[s.len() - 1] != c);
        assert(forall|k: int| i < k < s.drop_last().len() ==> s.drop_last()[k] != c);
        lemma_last_index_found(s.drop_last(), c, i);
    }
}

proof fn lemma_last_index_none(s: Seq<char>, c: char)
    requires
        forall|k: int| 0 <= k < s.len() ==> s[k] != c,
    ensures
        last_index_of(s, c) == -1,
    decreases s.len(),
{
    if s.len() > 0 {
        assert(forall|k: int| 0 <= k < s.drop_last().len() ==> s.drop_last()[k] != c);
        lemma_last_index_none(s.drop_last(), c);
    }
}

/// Removes the last occurrence of `c` from the string, as the incremental
/// facet builder does to strip trailing separators.
pub fn remove_last_char(string: &str, c: char) -> (r: String)
    ensures
        r@ == remove_last_occurrence(string@, c),
{
    let n: usize = string.unicode_len();
    let mut i: usize = n;
    while i > 0
        invariant
            n == string@.len(),
            i <= n,
            forall|k: int| i <= k < n ==> string@[k] != c,
        decreases i,
    {
        if string.get_char(i - 1) == c {
            proof {
                lemma_last_index_found(string@, c, i - 1);
            }
            let pre = string.substring_char(0, i - 1);
            let post = string.substring_char(i, n);
            let r = String::from_str(pre).concat(post);
            proof {
                assert(r@ =~= remove_last_occurrence(string@, c));
            }
            return r;
        }
        i = i - 1;
    }
    proof {
        lemma_last_index_none(string@, c);
    }
    String::from_str(string)
}

/// Builds the facet fragment incrementally: every clause is pushed with its
/// trailing comma, a closing `"],` is pushed, and the leftover separators
/// are stripped from the end. The result is exactly `facet_string`.
pub fn adapt_to_facet(categories: Vec<String>, game_version: &str) -> (r: String)
    ensures
        r@ == facet_string(categories.deep_view(), game_version@),
{
    let ghost cats: Seq<Seq<char>> = categories.deep_view();
    let mut facet = String::from_str("&facets=[[\"project_type=mod\"],");
    proof {
        reveal_strlit("&facets=[[\"project_type=mod\"],");
        reveal_strlit("&facets=[");
        reveal_strlit("[\"");
        reveal_strlit("\"]");
        reveal_strlit("project_type=mod");
        reveal_strlit(",");
        assert(seq![bracketed("project_type=mod"@)] =~= Seq::<Seq<char>>::empty().push(
            bracketed("project_type=mod"@),
        ));
        lemma_commas_snoc(Seq::<Seq<char>>::empty(), bracketed("project_type=mod"@));
        assert(commas_all(Seq::<Seq<char>>::empty()) =~= Seq::<char>::empty());
        assert(commas_all(seq![bracketed("project_type=mod"@)]) =~= bracketed("project_type=mod"@)
            + ","@);
        assert(facet@ =~= "&facets=["@ + commas_all(seq![bracketed("project_type=mod"@)]));
    }
    let n: usize = categories.len();
    let mut i: usize = 0;
    while i < n
        invariant
            n == categories@.len(),
            i <= n,
            cats == categories.deep_view(),
            cats.len() == n,
            facet@ == "&facets=["@ + commas_all(
                seq![bracketed("project_type=mod"@)] + category_clauses(
                    cats.subrange(0, i as int),
                ),
            ),
        decreases n - i,
    {
        let ghost pref = seq![bracketed("project_type=mod"@)] + category_clauses(
            cats.subrange(0, i as int),
        );
        facet.append("[\"categories:");
        facet.append(categories[i].as_str());
        facet.append("\"],");
        proof {
            reveal_strlit("[\"categories:");
            reveal_strlit("[\"");
            reveal_strlit("categories:");
            reveal_strlit("\"],");
            reveal_strlit("\"]");
            reveal_strlit(",");
            assert(cats[i as int] == categories@[i as int]@);
            let cc = "categories:"@ + cats[i as int];
            assert("[\"categories:"@ =~= "[\""@ + "categories:"@);
            assert("\"],"@ =~= "\"]"@ + ","@);
            lemma_commas_snoc(pref, bracketed(cc));
            assert(facet@ =~= "&facets=["@ + commas_all(pref.push(bracketed(cc))));
            lemma_category_clauses_snoc(cats.subrange(0, i as int), cats[i as int]);
            assert(cats.subrange(0, i as int + 1) =~= cats.subrange(0, i as int).push(
                cats[i as int],
            ));
            assert(pref.push(bracketed(cc)) =~= seq![bracketed("project_type=mod"@)]
                + category_clauses(cats.subrange(0, i as int + 1)));
        }
        i = i + 1;
    }
    proof {
        assert(cats.subrange(0, n as int) =~= cats);
    }
    let ghost pref = seq![bracketed("project_type=mod"@)] + category_clauses(cats);
    if !game_version.is_empty() {
        facet.append("[\"versions:");
        facet.append(game_version);
        facet.append("\"],");
        proof {
            reveal_strlit("[\"versions:");
            reveal_strlit("[\"");
            reveal_strlit("versions:");
            reveal_strlit("\"],");
            reveal_strlit("\"]");
            reveal_strlit(",");
            let vc = "versions:"@ + game_version@;
            assert("[\"versions:"@ =~= "[\""@ + "versions:"@);
            assert("\"],"@ =~= "\"]"@ + ","@);
            lemma_commas_snoc(pref, bracketed(vc));
            assert(facet@ =~= "&facets=["@ + commas_all(pref.push(bracketed(vc))));
            assert(pref.push(bracketed(vc)) =~= facet_clauses(cats, game_version@));
        }
    } else {
        proof {
            assert(facet_clauses(cats, game_version@) =~= pref);
        }
    }
    let ghost clauses = facet_clauses(cats, game_version@);
    let ghost jj = "&facets=["@ + join_comma(clauses);
    proof {
        reveal_strlit(",");
        assert(clauses.len() > 0);
        lemma_commas_join(clauses);
        assert(facet@ =~= jj + ","@);
        assert(","@ =~= seq![',']);
        assert(facet@ =~= jj + seq![',']);
    }
    facet.append("\"],");
    let ghost b0 = jj + seq![','];
    proof {
        reveal_strlit("\"],");
        assert(facet@ =~= b0 + seq!['"', ']']+ seq![',']);
        lemma_last_index_found(facet@, ',', facet@.len() - 1);
        assert(remove_last_occurrence(facet@, ',') =~= b0 + seq!['"', ']']);
    }
    let f1 = remove_last_char(facet.as_str(), ',');
    proof {
        assert(f1@[b0.len() as int] == '"');
        assert(forall|k: int| b0.len() < k < f1@.len() ==> f1@[k] != '"');
        lemma_last_index_found(f1@, '"', b0.len() as int);
        assert(remove_last_occurrence(f1@, '"') =~= b0 + seq![']']);
    }
    let f2 = remove_last_char(f1.as_str(), '"');
    proof {
        assert(f2@ =~= jj + seq![','] + seq![']']);
        assert(f2@[jj.len() as int] == ',');
        assert(forall|k: int| jj.len() < k < f2@.len() ==> f2@[k] != ',');
        lemma_last_index_found(f2@, ',', jj.len() as int);
        assert(remove_last_occurrence(f2@, ',') =~= jj + seq![']']);
    }
    let r = remove_last_char(f2.as_str(), ',');
    proof {
        reveal_strlit("]");
        assert("]"@ =~= seq![']']);
        assert(r@ =~= facet_string(cats, game_version@));
    }
    r
}

/// The facet fragment a search applies: none at all when no category filter
/// was given, even when a version was.
pub fn build_facet(categories: Vec<String>, game_version: &str) -> (r: String)
    ensures
        categories.deep_view().len() == 0 ==> r@ == Seq::<char>::empty(),
        categories.deep_view().len() > 0 ==> r@ == facet_string(
            categories.deep_view(),
            game_version@,
        ),
{
    proof {
        assert(categories.deep_view().len() == categories@.len());
    }
    if categories.len() > 0 {
        adapt_to_facet(categories, game_version)
    } else {
        String::new()
    }
}

} // verus!
