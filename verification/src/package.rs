//! The fields of a project's `package.json` that the commands read.
use vstd::prelude::*;

use crate::json::{
    as_str, convert, get, get_spec, lookup, member, members_spec, str_spec, JsonSpec, JsonValue,
};
use crate::strings::{owned, split_once, split_once_spec, starts_with, strip_prefix};

verus! {

/// The fields of a `package.json` that the library reads, as package_json_schema reads
/// them; maps keep the order of the file.
#[derive(Debug)]
pub struct PackageJsonData {
    pub package_manager: Option<String>,
    pub scripts: Option<Vec<(String, Option<String>)>>,
    pub dependencies: Option<Vec<(String, String)>>,
    pub dev_dependencies: Option<Vec<(String, String)>>,
    /// The fields that package_json_schema has no field of its own for.
    pub other: Option<Vec<(String, JsonValue)>>,
}

/// The mathematical form of [`PackageJsonData`].
pub struct PackageJsonSpec {
    pub package_manager: Option<Seq<char>>,
    pub scripts: Option<Seq<(Seq<char>, Option<Seq<char>>)>>,
    pub dependencies: Option<Seq<(Seq<char>, Seq<char>)>>,
    pub dev_dependencies: Option<Seq<(Seq<char>, Seq<char>)>>,
    pub other: Option<Seq<(Seq<char>, JsonSpec)>>,
}

impl View for PackageJsonData {
    type V = PackageJsonSpec;

    open spec fn view(&self) -> PackageJsonSpec {
        PackageJsonSpec {
            package_manager: self.package_manager.deep_view(),
            scripts: self.scripts.deep_view(),
            dependencies: self.dependencies.deep_view(),
            dev_dependencies: self.dev_dependencies.deep_view(),
            other: match self.other {
                Some(m) => Some(members_spec(m@)),
                None => None,
            },
        }
    }
}

/// What package_json_schema reads from the text of a `package.json`, if it reads it.
pub uninterp spec fn package_json_of(text: Seq<char>) -> Option<PackageJsonSpec>;

/// Reads `text` with `package_json_schema::PackageJson::try_from` and keeps the fields
/// the library reads, each as it is. Claimed: the result is what `package_json_of`
/// names for the text, and `None` exactly where package_json_schema refuses it.
#[verifier::external_body]
pub(crate) fn parse_package_json(text: &str) -> (r: Option<PackageJsonData>)
    ensures
        match r {
            Some(p) => package_json_of(text@) == Some(p@),
            None => package_json_of(text@) is None,
        },
{
    let p = package_json_schema::PackageJson::try_from(text).ok()?;
    Some(PackageJsonData {
        package_manager: p.package_manager,
        scripts: p.scripts.map(|m| m.into_iter().collect()),
        dependencies: p.dependencies.map(|m| m.into_iter().collect()),
        dev_dependencies: p.dev_dependencies.map(|m| m.into_iter().collect()),
        other: p.other.map(|m| m.iter().map(|(k, v)| (k.clone(), convert(v))).collect()),
    })
}

/// `s` without one leading `^`.
pub open spec fn caret_stripped(s: Seq<char>) -> Seq<char> {
    if s.len() > 0 && s[0] == '^' {
        s.drop_first()
    } else {
        s
    }
}

/// The name and version that the `packageManager` field gives: the field without a
/// leading `^`, split at its first `@`; the version is empty when there is no `@`.
pub open spec fn by_field_spec(p: PackageJsonSpec) -> Option<(Seq<char>, Seq<char>)> {
    match p.package_manager {
        Some(f) => Some(split_once_spec(caret_stripped(f), '@')),
        None => None,
    }
}

/// The name and version that `devEngines.packageManager` gives: its `name` must be a
/// string; its `version` counts where it is a string and is empty otherwise.
pub open spec fn by_dev_engines_spec(p: PackageJsonSpec) -> Option<(Seq<char>, Seq<char>)> {
    match p.other {
        None => None,
        Some(other) => match member(other, "devEngines"@) {
            None => None,
            Some(dev_engines) => match get_spec(dev_engines, "packageManager"@) {
                None => None,
                Some(pm) => match get_spec(pm, "name"@) {
                    None => None,
                    Some(name) => match str_spec(name) {
                        None => None,
                        Some(name) => Some(
                            (
                                name,
                                match get_spec(pm, "version"@) {
                                    Some(v) => match str_spec(v) {
                                        Some(v) => v,
                                        None => Seq::empty(),
                                    },
                                    None => Seq::empty(),
                                },
                            ),
                        ),
                    },
                },
            },
        },
    }
}

/// Whether `key` is kept under `prefix`: every key when there is none.
pub open spec fn keeps(prefix: Option<Seq<char>>, key: Seq<char>) -> bool {
    match prefix {
        Some(p) => p.is_prefix_of(key),
        None => true,
    }
}

/// The scripts that have a command and whose name `prefix` keeps, in order.
pub open spec fn script_entries(
    scripts: Seq<(Seq<char>, Option<Seq<char>>)>,
    prefix: Option<Seq<char>>,
) -> Seq<(Seq<char>, Seq<char>)>
    decreases scripts.len(),
{
    if scripts.len() == 0 {
        Seq::empty()
    } else {
        let rest = script_entries(scripts.drop_last(), prefix);
        let (name, command) = scripts.last();
        match command {
            Some(c) => if keeps(prefix, name) {
                rest.push((name, c))
            } else {
                rest
            },
            None => rest,
        }
    }
}

/// The names of `deps` that `prefix` keeps, in order, each with `label`.
pub open spec fn dependency_entries(
    deps: Seq<(Seq<char>, Seq<char>)>,
    label: Seq<char>,
    prefix: Option<Seq<char>>,
) -> Seq<(Seq<char>, Seq<char>)>
    decreases deps.len(),
{
    if deps.len() == 0 {
        Seq::empty()
    } else {
        let rest = dependency_entries(deps.drop_last(), label, prefix);
        let name = deps.last().0;
        if keeps(prefix, name) {
            rest.push((name, label))
        } else {
            rest
        }
    }
}

/// The dependencies and then the development dependencies whose names `prefix` keeps,
/// each with the field it comes from.
pub open spec fn dependencies_spec(p: PackageJsonSpec, prefix: Option<Seq<char>>) -> Seq<
    (Seq<char>, Seq<char>),
> {
    dependency_entries(
        match p.dependencies {
            Some(d) => d,
            None => Seq::empty(),
        },
        "dependencies"@,
        prefix,
    ) + dependency_entries(
        match p.dev_dependencies {
            Some(d) => d,
            None => Seq::empty(),
        },
        "devDependencies"@,
        prefix,
    )
}

/// The prefix as an optional character sequence.
pub open spec fn prefix_view(prefix: Option<&str>) -> Option<Seq<char>> {
    match prefix {
        Some(p) => Some(p@),
        None => None,
    }
}

/// Whether `key` is kept under `prefix`.
pub fn keep(prefix: Option<&str>, key: &str) -> (r: bool)
    ensures
        r == keeps(prefix_view(prefix), key@),
{
    match prefix {
        Some(p) => starts_with(key, p),
        None => true,
    }
}

impl PackageJsonData {
    /// The package manager that the `packageManager` field names, with its version.
    pub fn resolve_package_manager_by_field(&self) -> (r: Option<(String, String)>)
        ensures
            match r {
                Some((name, version)) => by_field_spec(self@) == Some((name@, version@)),
                None => by_field_spec(self@) is None,
            },
    {
        let field = match &self.package_manager {
            Some(f) => f,
            None => return None,
        };
        proof {
            reveal_strlit("^");
            assert("^"@.len() == 1 && "^"@[0] == '^');
            if field@.len() > 0 && field@[0] == '^' {
                assert("^"@ =~= field@.take(1));
            }
        }
        let stripped = match strip_prefix(field.as_str(), "^") {
            Some(t) => {
                assert(t@ =~= field@.drop_first());
                t
            },
            None => owned(field.as_str()),
        };
        assert(stripped@ == caret_stripped(field@));
        Some(split_once(stripped.as_str(), '@'))
    }

    /// The package manager that `devEngines.packageManager` names, with its version.
    pub fn resolve_package_manager_by_dev_engines(&self) -> (r: Option<(String, String)>)
        ensures
            match r {
                Some((name, version)) => by_dev_engines_spec(self@) == Some((name@, version@)),
                None => by_dev_engines_spec(self@) is None,
            },
    {
        let other = match &self.other {
            Some(o) => o,
            None => return None,
        };
        let dev_engines = match lookup(other, "devEngines") {
            Some(v) => v,
            None => return None,
        };
        let pm = match get(dev_engines, "packageManager") {
            Some(v) => v,
            None => return None,
        };
        let name = match get(pm, "name") {
            Some(v) => match as_str(v) {
                Some(n) => n,
                None => return None,
            },
            None => return None,
        };
        let version = match get(pm, "version") {
            Some(v) => match as_str(v) {
                Some(t) => owned(t),
                None => String::new(),
            },
            None => String::new(),
        };
        Some((owned(name), version))
    }

    /// The scripts that have a command and whose names start with `prefix`, with their
    /// commands; `None` when the file has no `scripts`.
    pub fn list_scripts(&self, prefix: Option<&str>) -> (r: Option<Vec<(String, String)>>)
        ensures
            match self@.scripts {
                Some(ss) => r matches Some(v) && v.deep_view() == script_entries(
                    ss,
                    prefix_view(prefix),
                ),
                None => r is None,
            },
    {
        let scripts = match &self.scripts {
            Some(s) => s,
            None => return None,
        };
        let ghost ss = scripts.deep_view();
        let mut out: Vec<(String, String)> = Vec::new();
        let mut i: usize = 0;
        while i < scripts.len()
            invariant
                i <= scripts.len(),
                ss == scripts.deep_view(),
                out.deep_view() == script_entries(ss.take(i as int), prefix_view(prefix)),
            decreases scripts.len() - i,
        {
            assert(ss.take(i + 1).drop_last() =~= ss.take(i as int));
            assert(ss.take(i + 1).last() == ss[i as int]);
            let entry = &scripts[i];
            if let Some(command) = &entry.1 {
                if keep(prefix, entry.0.as_str()) {
                    let ghost before = out.deep_view();
                    out.push((owned(entry.0.as_str()), owned(command.as_str())));
                    assert(out.deep_view() =~= before.push((entry.0@, command@)));
                }
            }
            i = i + 1;
        }
        assert(ss.take(scripts.len() as int) =~= ss);
        Some(out)
    }

    /// The dependencies and then the development dependencies whose names start with
    /// `prefix`, each with the field it comes from.
    pub fn list_dependencies(&self, prefix: Option<&str>) -> (r: Vec<(String, String)>)
        ensures
            r.deep_view() == dependencies_spec(self@, prefix_view(prefix)),
    {
        let mut out: Vec<(String, String)> = Vec::new();
        if let Some(deps) = &self.dependencies {
            push_dependencies(&mut out, deps, "dependencies", prefix);
        }
        proof {
            if self.dependencies is None {
                assert(dependency_entries(Seq::empty(), "dependencies"@, prefix_view(prefix))
                    =~= Seq::empty());
            }
        }
        let ghost middle = out.deep_view();
        if let Some(deps) = &self.dev_dependencies {
            push_dependencies(&mut out, deps, "devDependencies", prefix);
        }
        proof {
            if self.dev_dependencies is None {
                assert(dependency_entries(Seq::empty(), "devDependencies"@, prefix_view(prefix))
                    =~= Seq::empty());
                assert(out.deep_view() =~= middle + Seq::empty());
            }
        }
        out
    }
}

/// What package_json_schema reads from `text`, where there is a text.
pub open spec fn parsed(text: Option<Seq<char>>) -> Option<PackageJsonSpec> {
    match text {
        Some(t) => package_json_of(t),
        None => None,
    }
}

/// The names of the entries that are files, in order.
pub open spec fn file_names(entries: Seq<(Seq<char>, bool)>) -> Seq<Seq<char>>
    decreases entries.len(),
{
    if entries.len() == 0 {
        Seq::empty()
    } else {
        let rest = file_names(entries.drop_last());
        if entries.last().1 {
            rest.push(entries.last().0)
        } else {
            rest
        }
    }
}

/// A project directory: its `package.json` as package_json_schema read it (absent when
/// the file is missing, unreadable or refused), and the entries of its `node_modules`
/// directory, each with whether it is a file (absent when there is no such directory).
#[derive(Debug)]
pub struct Project {
    pub package_json: Option<PackageJsonData>,
    pub node_modules: Option<Vec<(String, bool)>>,
}

impl Project {
    /// The project whose `package.json` holds `package_json` and whose `node_modules`
    /// holds `node_modules`.
    pub fn new(package_json: Option<String>, node_modules: Option<Vec<(String, bool)>>) -> (r:
        Project)
        ensures
            match r.package_json {
                Some(p) => parsed(package_json.deep_view()) == Some(p@),
                None => parsed(package_json.deep_view()) is None,
            },
            r.node_modules.deep_view() == node_modules.deep_view(),
    {
        let package_json = match package_json {
            Some(text) => parse_package_json(text.as_str()),
            None => None,
        };
        Project { package_json, node_modules }
    }

    /// The names of the files in `node_modules`, in order; `None` when there is no
    /// such directory.
    pub fn list_bins(&self) -> (r: Option<Vec<String>>)
        ensures
            match self.node_modules {
                Some(es) => r matches Some(v) && v.deep_view() == file_names(es.deep_view()),
                None => r is None,
            },
    {
        let entries = match &self.node_modules {
            Some(es) => es,
            None => return None,
        };
        let ghost es = entries.deep_view();
        let mut bins: Vec<String> = Vec::new();
        let mut i: usize = 0;
        while i < entries.len()
            invariant
                i <= entries.len(),
                es == entries.deep_view(),
                bins.deep_view() == file_names(es.take(i as int)),
            decreases entries.len() - i,
        {
            assert(es.take(i + 1).drop_last() =~= es.take(i as int));
            assert(es.take(i + 1).last() == es[i as int]);
            if entries[i].1 {
                let ghost before = bins.deep_view();
                bins.push(owned(entries[i].0.as_str()));
                assert(bins.deep_view() =~= before.push(entries@[i as int].0@));
            }
            i = i + 1;
        }
        assert(es.take(entries.len() as int) =~= es);
        Some(bins)
    }

    /// The scripts that have a command and whose names start with `prefix`; `None`
    /// when there is no `package.json` or it has no `scripts`.
    pub fn list_scripts(&self, prefix: Option<&str>) -> (r: Option<Vec<(String, String)>>)
        ensures
            match self.package_json {
                Some(p) => match p@.scripts {
                    Some(ss) => r matches Some(v) && v.deep_view() == script_entries(
                        ss,
                        prefix_view(prefix),
                    ),
                    None => r is None,
                },
                None => r is None,
            },
    {
        match &self.package_json {
            Some(p) => p.list_scripts(prefix),
            None => None,
        }
    }

    /// The dependencies and then the development dependencies whose names start with
    /// `prefix`; `None` when there is no `package.json`.
    pub fn list_dependencies(&self, prefix: Option<&str>) -> (r: Option<Vec<(String, String)>>)
        ensures
            match self.package_json {
                Some(p) => r matches Some(v) && v.deep_view() == dependencies_spec(
                    p@,
                    prefix_view(prefix),
                ),
                None => r is None,
            },
    {
        match &self.package_json {
            Some(p) => Some(p.list_dependencies(prefix)),
            None => None,
        }
    }

    /// The name and version in the `packageManager` field.
    pub fn resolve_package_manager_by_field(&self) -> (r: Option<(String, String)>)
        ensures
            match self.package_json {
                Some(p) => match r {
                    Some((name, version)) => by_field_spec(p@) == Some((name@, version@)),
                    None => by_field_spec(p@) is None,
                },
                None => r is None,
            },
    {
        match &self.package_json {
            Some(p) => p.resolve_package_manager_by_field(),
            None => None,
        }
    }

    /// The name and version in `devEngines.packageManager`.
    pub fn resolve_package_manager_by_dev_engines(&self) -> (r: Option<(String, String)>)
        ensures
            match self.package_json {
                Some(p) => match r {
                    Some((name, version)) => by_dev_engines_spec(p@) == Some((name@, version@)),
                    None => by_dev_engines_spec(p@) is None,
                },
                None => r is None,
            },
    {
        match &self.package_json {
            Some(p) => p.resolve_package_manager_by_dev_engines(),
            None => None,
        }
    }
}

/// Appends the names of `deps` that `prefix` keeps, each with `label`, to `out`.
fn push_dependencies(
    out: &mut Vec<(String, String)>,
    deps: &Vec<(String, String)>,
    label: &str,
    prefix: Option<&str>,
)
    ensures
        final(out).deep_view() == old(out).deep_view() + dependency_entries(
            deps.deep_view(),
            label@,
            prefix_view(prefix),
        ),
{
    let ghost start = out.deep_view();
    let ghost ds = deps.deep_view();
    let mut i: usize = 0;
    while i < deps.len()
        invariant
            i <= deps.len(),
            ds == deps.deep_view(),
            out.deep_view() == start + dependency_entries(ds.take(i as int), label@, prefix_view(prefix)),
        decreases deps.len() - i,
    {
        assert(ds.take(i + 1).drop_last() =~= ds.take(i as int));
        assert(ds.take(i + 1).last() == ds[i as int]);
        if keep(prefix, deps[i].0.as_str()) {
            let ghost before = out.deep_view();
            out.push((owned(deps[i].0.as_str()), owned(label)));
            assert(out.deep_view() =~= before.push((deps@[i as int].0@, label@)));
        }
        i = i + 1;
    }
    assert(ds.take(deps.len() as int) =~= ds);
}

} // verus!
