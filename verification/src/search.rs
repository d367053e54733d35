//! Searching the npm registry for packages to complete `add` with.
use std::fmt::Write;
use vstd::prelude::*;
use vstd::utf8::encode_utf8;

use crate::cli::sub::complete::opt_str;
use crate::context::Context;
use crate::enums::PackageManager;
use crate::numbers::{decimal_i32, i32_to_string};
use crate::strings::{concat, owned};

verus! {

/// A package found in the npm registry.
#[derive(Debug)]
pub struct PackageInfo {
    pub name: String,
    pub description: String,
    pub version: String,
    /// The day of the last update, as `YYYY-MM-DD`.
    pub updated: String,
}

/// The fields of a package in a registry search result, each where the result has it.
#[derive(Debug)]
pub struct SearchPackage {
    pub name: Option<String>,
    pub description: Option<String>,
    pub version: Option<String>,
}

/// A search of the registry: its base URL, the text searched for, and how many results
/// to return from which position.
#[derive(Debug)]
pub struct SearchRequest {
    pub base_url: String,
    pub text: String,
    pub size: Option<i32>,
    pub from: Option<i32>,
}

/// The number of results one search asks for.
pub const SEARCH_SIZE: i32 = 20;

/// The number of bytes of `s` in UTF-8, as `str::len` gives it.
pub open spec fn byte_len(s: Seq<char>) -> usize {
    encode_utf8(s).len() as usize
}

/// Whether a query is searched for: it takes 2 to 64 bytes in UTF-8.
pub open spec fn searchable(query: Seq<char>) -> bool {
    2 <= byte_len(query) <= 64
}

impl PackageManager {
    /// The search of the registry of `ctx` that completing `query` sends: the first
    /// [`SEARCH_SIZE`] results for it, when it is searchable.
    pub fn search_npm_registry(ctx: &Context, query: Option<&str>) -> (r: Option<SearchRequest>)
        ensures
            match query {
                Some(q) if searchable(q@) => r matches Some(req) && req.base_url@ == ctx.registry@
                    && req.text@ == q@ && req.size == Some(SEARCH_SIZE) && req.from is None,
                _ => r is None,
            },
    {
        let q = match query {
            Some(q) => q,
            None => return None,
        };
        let n = q.len();
        if n < 2 || n > 64 {
            return None;
        }
        Some(
            SearchRequest {
                base_url: owned(ctx.registry.as_str()),
                text: owned(q),
                size: Some(SEARCH_SIZE),
                from: None,
            },
        )
    }
}

/// The package a search result describes: none without a package or a name; a missing
/// description, version or day is empty.
pub open spec fn package_info_spec(package: Option<SearchPackage>, day: Option<Seq<char>>) -> Option<
    (Seq<char>, Seq<char>, Seq<char>, Seq<char>),
> {
    match package {
        None => None,
        Some(p) => match p.name {
            None => None,
            Some(name) => Some(
                (
                    name@,
                    match p.description {
                        Some(d) => d@,
                        None => Seq::empty(),
                    },
                    match p.version {
                        Some(v) => v@,
                        None => Seq::empty(),
                    },
                    match day {
                        Some(u) => u,
                        None => Seq::empty(),
                    },
                ),
            ),
        },
    }
}

/// The text, or an empty one.
fn or_empty(t: Option<String>) -> (r: String)
    ensures
        r@ == match t {
            Some(s) => s@,
            None => Seq::<char>::empty(),
        },
{
    match t {
        Some(s) => s,
        None => String::new(),
    }
}

impl PackageInfo {
    /// The package a search result describes, with `updated` the day of its last update.
    pub fn from_search_object(package: Option<SearchPackage>, updated: Option<String>) -> (r:
        Option<PackageInfo>)
        ensures
            match package_info_spec(package, opt_str(updated)) {
                Some((name, description, version, day)) => r matches Some(info) && info.name@
                    == name && info.description@ == description && info.version@ == version
                    && info.updated@ == day,
                None => r is None,
            },
    {
        let p = match package {
            Some(p) => p,
            None => return None,
        };
        let name = match p.name {
            Some(n) => n,
            None => return None,
        };
        Some(
            PackageInfo {
                name,
                description: or_empty(p.description),
                version: or_empty(p.version),
                updated: or_empty(updated),
            },
        )
    }
}

/// A search result as the registry sends it: the package, and the time of its last
/// update as RFC 3339 text.
#[derive(Debug)]
pub struct SearchObject {
    pub package: Option<SearchPackage>,
    pub updated: Option<String>,
}

/// The format in which the day of an update is shown.
pub const DAY_FORMAT: &'static str = "%Y-%m-%d";

/// The text that chrono writes, with format `fmt`, for the time that `updated` gives in
/// RFC 3339, if it reads one and can write it.
pub uninterp spec fn day_of(updated: Seq<char>, fmt: Seq<char>) -> Option<Seq<char>>;

/// Reads `updated` with `chrono::DateTime::<Utc>::from_str` (RFC 3339) and writes the
/// time with `DateTime::format(fmt)`. Claimed: the result is what `day_of` names, and
/// `None` exactly where chrono refuses the text or cannot write the format.
#[verifier::external_body]
pub(crate) fn format_day(updated: &str, fmt: &str) -> (r: Option<String>)
    ensures
        match r {
            Some(d) => day_of(updated@, fmt@) == Some(d@),
            None => day_of(updated@, fmt@) is None,
        },
{
    let time = updated.parse::<chrono::DateTime<chrono::Utc>>().ok()?;
    let mut out = String::new();
    write!(out, "{}", time.format(fmt)).ok()?;
    Some(out)
}

/// Whether the time of a result reads, where it has one.
pub open spec fn date_reads(o: SearchObject) -> bool {
    match o.updated {
        Some(t) => day_of(t@, DAY_FORMAT@) is Some,
        None => true,
    }
}

/// The day of the last update of a result, where it has a time.
pub open spec fn day_view(o: SearchObject) -> Option<Seq<char>> {
    match o.updated {
        Some(t) => day_of(t@, DAY_FORMAT@),
        None => None,
    }
}

/// The packages that the results describe, in order.
pub open spec fn infos_spec(objects: Seq<SearchObject>) -> Seq<
    (Seq<char>, Seq<char>, Seq<char>, Seq<char>),
>
    decreases objects.len(),
{
    if objects.len() == 0 {
        Seq::empty()
    } else {
        let rest = infos_spec(objects.drop_last());
        match package_info_spec(objects.last().package, day_view(objects.last())) {
            Some(x) => rest.push(x),
            None => rest,
        }
    }
}

/// A reply of the registry: the packages its results describe, or nothing when the
/// time of any result does not read.
pub open spec fn reply_spec(objects: Seq<SearchObject>) -> Option<
    Seq<(Seq<char>, Seq<char>, Seq<char>, Seq<char>)>,
> {
    if forall|i: int| 0 <= i < objects.len() ==> #[trigger] date_reads(objects[i]) {
        Some(infos_spec(objects))
    } else {
        None
    }
}

/// The fields of package infos.
pub open spec fn infos_view(v: Seq<PackageInfo>) -> Seq<(Seq<char>, Seq<char>, Seq<char>, Seq<char>)> {
    v.map_values(|p: PackageInfo| (p.name@, p.description@, p.version@, p.updated@))
}

fn copy_opt(t: &Option<String>) -> (r: Option<String>)
    ensures
        opt_str(r) == opt_str(*t),
{
    match t {
        Some(s) => Some(owned(s.as_str())),
        None => None,
    }
}

fn copy_package(p: &Option<SearchPackage>) -> (r: Option<SearchPackage>)
    ensures
        match (r, *p) {
            (Some(a), Some(b)) => opt_str(a.name) == opt_str(b.name) && opt_str(a.description)
                == opt_str(b.description) && opt_str(a.version) == opt_str(b.version),
            (None, None) => true,
            _ => false,
        },
{
    match p {
        Some(q) => Some(
            SearchPackage {
                name: copy_opt(&q.name),
                description: copy_opt(&q.description),
                version: copy_opt(&q.version),
            },
        ),
        None => None,
    }
}

impl PackageInfo {
    /// The packages that a reply of the registry describes, in order; `None` when the
    /// time of any result does not read, as then the whole reply is refused.
    pub fn from_search_reply(objects: &Vec<SearchObject>) -> (r: Option<Vec<PackageInfo>>)
        ensures
            match reply_spec(objects@) {
                Some(xs) => r matches Some(v) && infos_view(v@) == xs,
                None => r is None,
            },
    {
        let ghost all = objects@;
        let mut out: Vec<PackageInfo> = Vec::new();
        let mut i: usize = 0;
        while i < objects.len()
            invariant
                i <= objects.len(),
                all == objects@,
                forall|j: int| 0 <= j < i ==> #[trigger] date_reads(all[j]),
                infos_view(out@) == infos_spec(all.take(i as int)),
            decreases objects.len() - i,
        {
            let o = &objects[i];
            assert(all.take(i + 1).drop_last() =~= all.take(i as int));
            assert(all.take(i + 1).last() == all[i as int]);
            let day = match &o.updated {
                Some(t) => match format_day(t.as_str(), DAY_FORMAT) {
                    Some(d) => Some(d),
                    None => {
                        assert(!date_reads(all[i as int]));
                        return None;
                    },
                },
                None => None,
            };
            assert(opt_str(day) == day_view(all[i as int]));
            let package = copy_package(&o.package);
            assert(package_info_spec(package, opt_str(day)) == package_info_spec(
                all[i as int].package,
                day_view(all[i as int]),
            ));
            let ghost before = out@;
            match PackageInfo::from_search_object(package, day) {
                Some(x) => {
                    out.push(x);
                    assert(infos_view(out@) =~= infos_view(before).push(
                        (x.name@, x.description@, x.version@, x.updated@),
                    ));
                },
                None => {},
            }
            i = i + 1;
        }
        assert(all.take(objects.len() as int) =~= all);
        Some(out)
    }
}

/// The query pairs of a search: its text, then how many results and from which
/// position where these are given, as decimal numbers.
pub open spec fn search_pairs(req: SearchRequest) -> Seq<(Seq<char>, Seq<char>)> {
    seq![("text"@, req.text@)] + match req.size {
        Some(n) => seq![("size"@, decimal_i32(n))],
        None => Seq::empty(),
    } + match req.from {
        Some(n) => seq![("from"@, decimal_i32(n))],
        None => Seq::empty(),
    }
}

/// The path of the search endpoint of a registry.
pub const SEARCH_PATH: &'static str = "/-/v1/search";

/// The text of the URL that `reqwest::Url` makes of `base` with its path set to `path`
/// and the query pairs `pairs` appended in order, if `base` parses as a URL.
pub uninterp spec fn url_with(
    base: Seq<char>,
    path: Seq<char>,
    pairs: Seq<(Seq<char>, Seq<char>)>,
) -> Option<Seq<char>>;

/// Parses `base` with `reqwest::Url::parse`, sets the path with `Url::set_path` and
/// appends each pair with `query_pairs_mut().append_pair`, then gives the URL's text.
/// Claimed: the result is what `url_with` names, and `None` exactly where `base` does
/// not parse.
#[verifier::external_body]
pub(crate) fn url_from_parts(base: &str, path: &str, pairs: &Vec<(String, String)>) -> (r: Option<
    String,
>)
    ensures
        match r {
            Some(u) => url_with(base@, path@, pairs.deep_view()) == Some(u@),
            None => url_with(base@, path@, pairs.deep_view()) is None,
        },
{
    let mut url = reqwest::Url::parse(base).ok()?;
    url.set_path(path);
    for (key, value) in pairs.iter() {
        url.query_pairs_mut().append_pair(key, value);
    }
    Some(url.to_string())
}

/// The URL that a search of the registry is sent to: the search endpoint of its base
/// URL, with its text, size and position as query pairs; `None` where the base URL does
/// not parse.
pub fn search_url(req: &SearchRequest) -> (r: Option<String>)
    ensures
        match r {
            Some(u) => url_with(req.base_url@, SEARCH_PATH@, search_pairs(*req)) == Some(u@),
            None => url_with(req.base_url@, SEARCH_PATH@, search_pairs(*req)) is None,
        },
{
    let mut pairs: Vec<(String, String)> = Vec::new();
    pairs.push((owned("text"), owned(req.text.as_str())));
    if let Some(n) = req.size {
        pairs.push((owned("size"), i32_to_string(n)));
    }
    if let Some(n) = req.from {
        pairs.push((owned("from"), i32_to_string(n)));
    }
    assert(pairs.deep_view() =~= search_pairs(*req));
    url_from_parts(req.base_url.as_str(), SEARCH_PATH, &pairs)
}

/// The number of bytes of the longest version among `pkgs`, in UTF-8.
pub open spec fn widest_version(pkgs: Seq<PackageInfo>) -> nat
    decreases pkgs.len(),
{
    if pkgs.len() == 0 {
        0
    } else {
        let rest = widest_version(pkgs.drop_last());
        let here = byte_len(pkgs.last().version@) as nat;
        if here > rest {
            here
        } else {
            rest
        }
    }
}

/// `n` spaces.
pub open spec fn spaces(n: nat) -> Seq<char> {
    Seq::new(n, |i: int| ' ')
}

/// `s` with spaces before it up to `width` characters.
pub open spec fn pad_left(s: Seq<char>, width: nat) -> Seq<char> {
    if s.len() < width {
        spaces((width - s.len()) as nat) + s
    } else {
        s
    }
}

/// The help shown beside a package: `[version | day] description`, with the version
/// prefixed by `v` and padded on the left to `width`.
pub open spec fn help_text(p: PackageInfo, width: nat) -> Seq<char> {
    "["@ + pad_left("v"@ + p.version@, width) + " | "@ + p.updated@ + "] "@ + p.description@
}

/// Each package's name with its help, the versions padded to the widest of them.
pub open spec fn candidates_spec(pkgs: Seq<PackageInfo>) -> Seq<(Seq<char>, Seq<char>)> {
    Seq::new(pkgs.len(), |i: int| (pkgs[i].name@, help_text(pkgs[i], widest_version(pkgs))))
}

/// `s` with spaces before it up to `width` characters.
fn padded(s: String, width: usize) -> (r: String)
    ensures
        r@ == pad_left(s@, width as nat),
{
    let n = s.as_str().unicode_len();
    if n >= width {
        return s;
    }
    let mut out = String::new();
    let mut i: usize = 0;
    proof {
        reveal_strlit(" ");
    }
    while i < width - n
        invariant
            n < width,
            i <= width - n,
            out@ == spaces(i as nat),
            " "@ == seq![' '],
        decreases width - n - i,
    {
        out.append(" ");
        assert(out@ =~= spaces((i + 1) as nat));
        i = i + 1;
    }
    out.append(s.as_str());
    out
}

/// Each package's name with its help, for completing a package name: the versions are
/// padded to the number of bytes of the longest version.
pub fn search_candidates(pkgs: &Vec<PackageInfo>) -> (r: Vec<(String, String)>)
    ensures
        r.deep_view() == candidates_spec(pkgs@),
{
    let mut width: usize = 0;
    let mut i: usize = 0;
    while i < pkgs.len()
        invariant
            i <= pkgs.len(),
            width == widest_version(pkgs@.take(i as int)),
        decreases pkgs.len() - i,
    {
        assert(pkgs@.take(i + 1).drop_last() =~= pkgs@.take(i as int));
        let here = pkgs[i].version.as_str().len();
        if here > width {
            width = here;
        }
        i = i + 1;
    }
    assert(pkgs@.take(pkgs.len() as int) =~= pkgs@);
    let ghost all = candidates_spec(pkgs@);
    let mut out: Vec<(String, String)> = Vec::new();
    let mut j: usize = 0;
    while j < pkgs.len()
        invariant
            j <= pkgs.len(),
            width == widest_version(pkgs@),
            all == candidates_spec(pkgs@),
            out.deep_view() =~= all.take(j as int),
        decreases pkgs.len() - j,
    {
        let p = &pkgs[j];
        let mut help = owned("[");
        help.append(padded(concat("v", p.version.as_str()), width).as_str());
        help.append(" | ");
        help.append(p.updated.as_str());
        help.append("] ");
        help.append(p.description.as_str());
        let ghost before = out.deep_view();
        out.push((owned(p.name.as_str()), help));
        assert(out.deep_view() =~= before.push(all[j as int]));
        j = j + 1;
    }
    out
}

} // verus!
