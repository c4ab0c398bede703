//! Parameters of catalog requests and the query pairs they are sent as.

use vstd::prelude::*;
use vstd::string::*;
use crate::text::{decimal, to_decimal};

verus! {

/// Parameters for listing or searching projects.
pub struct ListProjectsParams {
    pub project_type: Option<String>,
    pub search: Option<String>,
    pub tags: Option<Vec<String>>,
    pub version_tags: Option<Vec<String>>,
    pub order_by: Option<String>,
    pub order_direction: Option<String>,
    pub per_page: u32,
    pub page: u32,
    pub release_date_period: Option<String>,
    pub release_date_start: Option<String>,
    pub release_date_end: Option<String>,
}

impl Default for ListProjectsParams {
    /// Mods, most downloaded first, ten per page, first page, any release date.
    fn default() -> (r: Self)
        ensures
            r.project_type matches Some(t) && t@ == "mod"@,
            r.search is None,
            r.tags is None,
            r.version_tags is None,
            r.order_by matches Some(o) && o@ == "downloads"@,
            r.order_direction matches Some(d) && d@ == "desc"@,
            r.per_page == 10,
            r.page == 1,
            r.release_date_period matches Some(p) && p@ == "all"@,
            r.release_date_start is None,
            r.release_date_end is None,
    {
        ListProjectsParams {
            project_type: Some("mod".to_owned()),
            search: None,
            tags: None,
            version_tags: None,
            order_by: Some("downloads".to_owned()),
            order_direction: Some("desc".to_owned()),
            per_page: 10,
            page: 1,
            release_date_period: Some("all".to_owned()),
            release_date_start: None,
            release_date_end: None,
        }
    }
}

/// Parameters for listing the versions of a project.
pub struct ListVersionsParams {
    pub tags: Option<Vec<String>>,
    pub order_by: String,
    pub order_direction: String,
    pub per_page: u32,
    pub page: u32,
}

impl Default for ListVersionsParams {
    /// Most downloaded first, ten per page, first page.
    fn default() -> (r: Self)
        ensures
            r.tags is None,
            r.order_by@ == "downloads"@,
            r.order_direction@ == "desc"@,
            r.per_page == 10,
            r.page == 1,
    {
        ListVersionsParams {
            tags: None,
            order_by: "downloads".to_owned(),
            order_direction: "desc".to_owned(),
            per_page: 10,
            page: 1,
        }
    }
}

/// Parameters for creating a project version.
pub struct CreateVersionParams {
    pub name: String,
    pub version: String,
    pub release_type: String,
    pub release_date: String,
    pub changelog: String,
    pub tags: Option<Vec<String>>,
    pub dependencies: Option<Vec<Dependency>>,
}

/// Parameters for updating a project version; `None` leaves a field as it is.
pub struct UpdateVersionParams {
    pub name: Option<String>,
    pub version_new: Option<String>,
    pub release_type: Option<String>,
    pub release_date: Option<String>,
    pub changelog: Option<String>,
    pub tags: Option<Vec<String>>,
    pub files_to_remove: Option<Vec<String>>,
    pub clean_existing_files: bool,
    pub dependencies: Option<Vec<Dependency>>,
}

impl Default for UpdateVersionParams {
    /// Changes nothing.
    fn default() -> (r: Self)
        ensures
            r.name is None,
            r.version_new is None,
            r.release_type is None,
            r.release_date is None,
            r.changelog is None,
            r.tags is None,
            r.files_to_remove is None,
            !r.clean_existing_files,
            r.dependencies is None,
    {
        UpdateVersionParams {
            name: None,
            version_new: None,
            release_type: None,
            release_date: None,
            changelog: None,
            tags: None,
            files_to_remove: None,
            clean_existing_files: false,
            dependencies: None,
        }
    }
}

/// A dependency given when creating or updating a version.
pub struct Dependency {
    pub project: String,
    pub version: String,
    pub dep_type: String,
    pub external: bool,
}

/// A list of key/value pairs, as text.
pub open spec fn pairs_view(q: Seq<(String, String)>) -> Seq<(Seq<char>, Seq<char>)> {
    q.map_values(|p: (String, String)| (p.0@, p.1@))
}

/// One pair for a present value, none for an absent one.
pub open spec fn optional_pair(key: Seq<char>, v: Option<String>) -> Seq<(Seq<char>, Seq<char>)> {
    match v {
        Some(s) => seq![(key, s@)],
        None => Seq::empty(),
    }
}

/// One pair per listed value, all with the same key.
pub open spec fn repeated_pairs(key: Seq<char>, vs: Option<Vec<String>>) -> Seq<(Seq<char>, Seq<char>)> {
    match vs {
        Some(v) => v@.map_values(|s: String| (key, s@)),
        None => Seq::empty(),
    }
}

/// The query pairs of a project listing, in the order they are sent.
pub open spec fn projects_query(p: ListProjectsParams) -> Seq<(Seq<char>, Seq<char>)> {
    optional_pair("project_type"@, p.project_type)
        + optional_pair("search"@, p.search)
        + repeated_pairs("tags[]"@, p.tags)
        + repeated_pairs("version_tags[]"@, p.version_tags)
        + optional_pair("order_by"@, p.order_by)
        + optional_pair("order_direction"@, p.order_direction)
        + seq![("per_page"@, decimal(p.per_page as nat)), ("page"@, decimal(p.page as nat))]
        + optional_pair("release_date_period"@, p.release_date_period)
        + optional_pair("release_date_start"@, p.release_date_start)
        + optional_pair("release_date_end"@, p.release_date_end)
}

/// The query pairs of a version listing, in the order they are sent.
pub open spec fn versions_query(p: ListVersionsParams) -> Seq<(Seq<char>, Seq<char>)> {
    repeated_pairs("tags[]"@, p.tags)
        + seq![
            ("order_by"@, p.order_by@),
            ("order_direction"@, p.order_direction@),
            ("per_page"@, decimal(p.per_page as nat)),
            ("page"@, decimal(p.page as nat)),
        ]
}

/// `true` or `false`.
pub open spec fn bool_text(b: bool) -> Seq<char> {
    if b { "true"@ } else { "false"@ }
}

/// The query pairs of a tag listing.
pub open spec fn tags_query(plain: bool, project_type: Option<Seq<char>>) -> Seq<(Seq<char>, Seq<char>)> {
    seq![("plain"@, bool_text(plain))] + match project_type {
        Some(t) => seq![("project_type"@, t)],
        None => Seq::empty(),
    }
}

fn push_pair(q: &mut Vec<(String, String)>, key: &str, value: String)
    ensures
        pairs_view(final(q)@) == pairs_view(old(q)@).push((key@, value@)),
{
    q.push((key.to_owned(), value));
    proof {
        assert(pairs_view(final(q)@) =~= pairs_view(old(q)@).push((key@, value@)));
    }
}

fn push_optional(q: &mut Vec<(String, String)>, key: &str, v: &Option<String>)
    ensures
        pairs_view(final(q)@) == pairs_view(old(q)@) + optional_pair(key@, *v),
{
    match v {
        Some(s) => {
            push_pair(q, key, s.clone());
            assert(pairs_view(final(q)@) =~= pairs_view(old(q)@) + optional_pair(key@, *v));
        },
        None => {
            assert(pairs_view(q@) =~= pairs_view(old(q)@) + optional_pair(key@, *v));
        },
    }
}

fn push_repeated(q: &mut Vec<(String, String)>, key: &str, vs: &Option<Vec<String>>)
    ensures
        pairs_view(final(q)@) == pairs_view(old(q)@) + repeated_pairs(key@, *vs),
{
    match vs {
        Some(v) => {
            let ghost start = pairs_view(q@);
            let mut i: usize = 0;
            while i < v.len()
                invariant
                    i <= v@.len(),
                    pairs_view(q@) == start + v@.subrange(0, i as int).map_values(|s: String| (key@, s@)),
                decreases v@.len() - i,
            {
                push_pair(q, key, v[i].clone());
                proof {
                    assert(v@.subrange(0, i as int + 1).map_values(|s: String| (key@, s@))
                        =~= v@.subrange(0, i as int).map_values(|s: String| (key@, s@)).push((key@, v@[i as int]@)));
                }
                i = i + 1;
            }
            proof {
                assert(v@.subrange(0, i as int) =~= v@);
            }
        },
        None => {
            assert(pairs_view(q@) =~= pairs_view(old(q)@) + repeated_pairs(key@, *vs));
        },
    }
}

/// The query pairs of a project listing: each present parameter once, each
/// tag as its own `tags[]` (or `version_tags[]`) pair, page size and page
/// always.
pub fn list_projects_query(params: &ListProjectsParams) -> (q: Vec<(String, String)>)
    ensures
        pairs_view(q@) == projects_query(*params),
{
    let mut q: Vec<(String, String)> = Vec::new();
    let ghost v0 = pairs_view(q@);
    push_optional(&mut q, "project_type", &params.project_type);
    let ghost v1 = pairs_view(q@);
    push_optional(&mut q, "search", &params.search);
    let ghost v2 = pairs_view(q@);
    push_repeated(&mut q, "tags[]", &params.tags);
    let ghost v3 = pairs_view(q@);
    push_repeated(&mut q, "version_tags[]", &params.version_tags);
    let ghost v4 = pairs_view(q@);
    push_optional(&mut q, "order_by", &params.order_by);
    let ghost v5 = pairs_view(q@);
    push_optional(&mut q, "order_direction", &params.order_direction);
    let ghost v6 = pairs_view(q@);
    push_pair(&mut q, "per_page", to_decimal(params.per_page as u64));
    push_pair(&mut q, "page", to_decimal(params.page as u64));
    let ghost v7 = pairs_view(q@);
    push_optional(&mut q, "release_date_period", &params.release_date_period);
    let ghost v8 = pairs_view(q@);
    push_optional(&mut q, "release_date_start", &params.release_date_start);
    let ghost v9 = pairs_view(q@);
    push_optional(&mut q, "release_date_end", &params.release_date_end);
    proof {
        reveal_strlit("project_type");
        reveal_strlit("search");
        reveal_strlit("tags[]");
        reveal_strlit("version_tags[]");
        reveal_strlit("order_by");
        reveal_strlit("order_direction");
        reveal_strlit("per_page");
        reveal_strlit("page");
        reveal_strlit("release_date_period");
        reveal_strlit("release_date_start");
        reveal_strlit("release_date_end");
        assert(v0 =~= Seq::empty());
        assert(pairs_view(q@) =~= projects_query(*params));
    }
    q
}

/// The query pairs of a version listing: each tag as a `tags[]` pair, then
/// order, direction, page size and page.
pub fn list_versions_query(params: &ListVersionsParams) -> (q: Vec<(String, String)>)
    ensures
        pairs_view(q@) == versions_query(*params),
{
    let mut q: Vec<(String, String)> = Vec::new();
    let ghost v0 = pairs_view(q@);
    push_repeated(&mut q, "tags[]", &params.tags);
    push_pair(&mut q, "order_by", params.order_by.clone());
    push_pair(&mut q, "order_direction", params.order_direction.clone());
    push_pair(&mut q, "per_page", to_decimal(params.per_page as u64));
    push_pair(&mut q, "page", to_decimal(params.page as u64));
    proof {
        reveal_strlit("tags[]");
        reveal_strlit("order_by");
        reveal_strlit("order_direction");
        reveal_strlit("per_page");
        reveal_strlit("page");
        assert(v0 =~= Seq::empty());
        assert(pairs_view(q@) =~= versions_query(*params));
    }
    q
}

/// The query pairs of a tag listing: `plain`, then the project type when
/// one is given.
pub fn list_tags_query(plain: bool, project_type: Option<&str>) -> (q: Vec<(String, String)>)
    ensures
        pairs_view(q@) == tags_query(plain, match project_type {
            Some(t) => Some(t@),
            None => None,
        }),
{
    let mut q: Vec<(String, String)> = Vec::new();
    let flag = if plain { "true".to_owned() } else { "false".to_owned() };
    push_pair(&mut q, "plain", flag);
    let ghost v1 = pairs_view(q@);
    match project_type {
        Some(t) => {
            push_pair(&mut q, "project_type", t.to_owned());
        },
        None => {},
    }
    proof {
        reveal_strlit("plain");
        reveal_strlit("true");
        reveal_strlit("false");
        reveal_strlit("project_type");
        assert(pairs_view(q@) =~= tags_query(plain, match project_type {
            Some(t) => Some(t@),
            None => None,
        }));
    }
    q
}

/// The form key of field `name` of the `i`-th dependency.
pub open spec fn dependency_key(i: nat, name: Seq<char>) -> Seq<char> {
    "dependencies["@ + decimal(i) + "]["@ + name + "]"@
}

/// The four form fields of dependency `d` at position `i`.
pub open spec fn dependency_pairs(i: nat, d: Dependency) -> Seq<(Seq<char>, Seq<char>)> {
    seq![
        (dependency_key(i, "project"@), d.project@),
        (dependency_key(i, "version"@), d.version@),
        (dependency_key(i, "type"@), d.dep_type@),
        (dependency_key(i, "external"@), if d.external { "1"@ } else { "0"@ }),
    ]
}

/// The form fields of all dependencies, in order.
pub open spec fn dependencies_pairs(deps: Seq<Dependency>) -> Seq<(Seq<char>, Seq<char>)>
    decreases deps.len(),
{
    if deps.len() == 0 {
        Seq::empty()
    } else {
        dependencies_pairs(deps.drop_last()) + dependency_pairs((deps.len() - 1) as nat, deps.last())
    }
}

/// The dependency fields of an optional list.
pub open spec fn optional_dependencies(deps: Option<Vec<Dependency>>) -> Seq<(Seq<char>, Seq<char>)> {
    match deps {
        Some(d) => dependencies_pairs(d@),
        None => Seq::empty(),
    }
}

/// The text fields of the form that creates a version, in order; the files
/// are sent after them.
pub open spec fn create_fields(p: CreateVersionParams) -> Seq<(Seq<char>, Seq<char>)> {
    seq![
        ("name"@, p.name@),
        ("version"@, p.version@),
        ("release_type"@, p.release_type@),
        ("release_date"@, p.release_date@),
        ("changelog"@, p.changelog@),
    ] + repeated_pairs("tags[]"@, p.tags) + optional_dependencies(p.dependencies)
}

/// The text fields of the form that updates version `version`, in order; the
/// files are sent after them. The version field is always sent: the new
/// version when one is given, else the current one.
pub open spec fn update_fields(version: Seq<char>, p: UpdateVersionParams) -> Seq<(Seq<char>, Seq<char>)> {
    seq![("version"@, match p.version_new {
        Some(v) => v@,
        None => version,
    })]
        + optional_pair("name"@, p.name)
        + optional_pair("release_type"@, p.release_type)
        + optional_pair("release_date"@, p.release_date)
        + optional_pair("changelog"@, p.changelog)
        + (if p.clean_existing_files { seq![("clean_existing_files"@, "1"@)] } else { Seq::empty() })
        + repeated_pairs("tags[]"@, p.tags)
        + optional_dependencies(p.dependencies)
        + repeated_pairs("files_to_remove[]"@, p.files_to_remove)
}

fn dependency_field_key(i: usize, name: &str) -> (r: String)
    ensures
        r@ == dependency_key(i as nat, name@),
{
    proof {
        reveal_strlit("dependencies[");
        reveal_strlit("][");
        reveal_strlit("]");
    }
    let mut r = "dependencies[".to_owned();
    r.append(to_decimal(i as u64).as_str());
    r.append("][");
    r.append(name);
    r.append("]");
    r
}

fn push_dependencies(q: &mut Vec<(String, String)>, deps: &Option<Vec<Dependency>>)
    ensures
        pairs_view(final(q)@) == pairs_view(old(q)@) + optional_dependencies(*deps),
{
    proof {
        reveal_strlit("project");
        reveal_strlit("version");
        reveal_strlit("type");
        reveal_strlit("external");
        reveal_strlit("1");
        reveal_strlit("0");
    }
    match deps {
        Some(d) => {
            let ghost start = pairs_view(q@);
            let mut i: usize = 0;
            while i < d.len()
                invariant
                    i <= d@.len(),
                    pairs_view(q@) == start + dependencies_pairs(d@.subrange(0, i as int)),
                decreases d@.len() - i,
            {
                let dep = &d[i];
                proof {
                    assert(d@.subrange(0, i as int + 1).drop_last() =~= d@.subrange(0, i as int));
                }
                push_pair(q, dependency_field_key(i, "project").as_str(), dep.project.clone());
                push_pair(q, dependency_field_key(i, "version").as_str(), dep.version.clone());
                push_pair(q, dependency_field_key(i, "type").as_str(), dep.dep_type.clone());
                let flag = if dep.external { "1".to_owned() } else { "0".to_owned() };
                push_pair(q, dependency_field_key(i, "external").as_str(), flag);
                proof {
                    assert(pairs_view(q@) =~= start + dependencies_pairs(d@.subrange(0, i as int + 1)));
                }
                i = i + 1;
            }
            proof {
                assert(d@.subrange(0, i as int) =~= d@);
            }
        },
        None => {
            assert(pairs_view(q@) =~= pairs_view(old(q)@) + optional_dependencies(*deps));
        },
    }
}

/// The text fields of the form that creates a version (see `create_fields`).
pub fn create_version_fields(params: &CreateVersionParams) -> (q: Vec<(String, String)>)
    ensures
        pairs_view(q@) == create_fields(*params),
{
    let mut q: Vec<(String, String)> = Vec::new();
    let ghost v0 = pairs_view(q@);
    push_pair(&mut q, "name", params.name.clone());
    push_pair(&mut q, "version", params.version.clone());
    push_pair(&mut q, "release_type", params.release_type.clone());
    push_pair(&mut q, "release_date", params.release_date.clone());
    push_pair(&mut q, "changelog", params.changelog.clone());
    push_repeated(&mut q, "tags[]", &params.tags);
    push_dependencies(&mut q, &params.dependencies);
    proof {
        reveal_strlit("name");
        reveal_strlit("version");
        reveal_strlit("release_type");
        reveal_strlit("release_date");
        reveal_strlit("changelog");
        reveal_strlit("tags[]");
        assert(v0 =~= Seq::empty());
        assert(pairs_view(q@) =~= create_fields(*params));
    }
    q
}

/// The text fields of the form that updates version `version` (see
/// `update_fields`).
pub fn update_version_fields(version: &str, params: &UpdateVersionParams) -> (q: Vec<(String, String)>)
    ensures
        pairs_view(q@) == update_fields(version@, *params),
{
    let mut q: Vec<(String, String)> = Vec::new();
    let ghost v0 = pairs_view(q@);
    let current = match &params.version_new {
        Some(v) => v.clone(),
        None => version.to_owned(),
    };
    push_pair(&mut q, "version", current);
    push_optional(&mut q, "name", &params.name);
    push_optional(&mut q, "release_type", &params.release_type);
    push_optional(&mut q, "release_date", &params.release_date);
    push_optional(&mut q, "changelog", &params.changelog);
    let ghost v5 = pairs_view(q@);
    if params.clean_existing_files {
        push_pair(&mut q, "clean_existing_files", "1".to_owned());
    }
    let ghost v6 = pairs_view(q@);
    push_repeated(&mut q, "tags[]", &params.tags);
    push_dependencies(&mut q, &params.dependencies);
    push_repeated(&mut q, "files_to_remove[]", &params.files_to_remove);
    proof {
        reveal_strlit("version");
        reveal_strlit("name");
        reveal_strlit("release_type");
        reveal_strlit("release_date");
        reveal_strlit("changelog");
        reveal_strlit("clean_existing_files");
        reveal_strlit("1");
        reveal_strlit("tags[]");
        reveal_strlit("files_to_remove[]");
        assert(v0 =~= Seq::empty());
        assert(v6 =~= v5 + (if params.clean_existing_files { seq![("clean_existing_files"@, "1"@)] } else { Seq::empty() }));
        assert(pairs_view(q@) =~= update_fields(version@, *params));
    }
    q
}

} // verus!
