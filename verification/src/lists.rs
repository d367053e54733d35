//! What the package manager side offers to complete: the project's binaries, scripts
//! and dependencies, and the global packages.
use vstd::prelude::*;

use crate::adaptors::{pm_command, CommandAdaptor};
use crate::enums::{PackageManager, PackageManagerOperation};
use crate::json::{
    first, first_spec, get, get_spec, json_of, members_spec, parse_json, JsonSpec, JsonValue,
};
use crate::package::{
    dependencies_spec, file_names, keep, keeps, prefix_view, script_entries, Project,
};
use crate::order::{sort_strings, str_order};
use crate::strings::owned;
use vstd::relations::sorted_by;

verus! {

/// The names of `members` that `prefix` keeps, in order, each with `label`.
pub open spec fn member_entries(
    members: Seq<(Seq<char>, JsonSpec)>,
    label: Seq<char>,
    prefix: Option<Seq<char>>,
) -> Seq<(Seq<char>, Seq<char>)>
    decreases members.len(),
{
    if members.len() == 0 {
        Seq::empty()
    } else {
        let rest = member_entries(members.drop_last(), label, prefix);
        let name = members.last().0;
        if keeps(prefix, name) {
            rest.push((name, label))
        } else {
            rest
        }
    }
}

/// The global packages that the JSON output of a global list gives: the names of the
/// members of `dependencies` in the output, or in its first element where the output
/// is an array, that `prefix` keeps, each labelled `global packages`.
pub open spec fn global_dependencies_spec(text: Seq<char>, prefix: Option<Seq<char>>) -> Option<
    Seq<(Seq<char>, Seq<char>)>,
> {
    match json_of(text) {
        None => None,
        Some(v) => {
            let root = match v {
                JsonSpec::Array(_) => first_spec(v),
                _ => Some(v),
            };
            match root {
                None => None,
                Some(root) => match get_spec(root, "dependencies"@) {
                    Some(JsonSpec::Object(members)) => Some(
                        member_entries(members, "global packages"@, prefix),
                    ),
                    _ => None,
                },
            }
        },
    }
}

/// Whether `pm` can list its global packages as JSON.
pub open spec fn lists_globals(pm: PackageManager) -> bool {
    pm == PackageManager::Npm || pm == PackageManager::Pnpm
}

impl PackageManager {
    /// The names of the files in the `node_modules` of the nearest project; `None` when
    /// there is no project or it has no `node_modules`.
    pub fn list_bins(project: Option<&Project>) -> (r: Option<Vec<String>>)
        ensures
            match project {
                Some(p) => match p.node_modules {
                    Some(es) => r matches Some(v) && v.deep_view() == file_names(es.deep_view()),
                    None => r is None,
                },
                None => r is None,
            },
    {
        match project {
            Some(p) => p.list_bins(),
            None => None,
        }
    }

    /// The scripts of the nearest project whose names start with `prefix`.
    pub fn list_scripts(prefix: Option<&str>, project: Option<&Project>) -> (r: Option<
        Vec<(String, String)>,
    >)
        ensures
            match project {
                Some(p) => match p.package_json {
                    Some(pkg) => match pkg@.scripts {
                        Some(ss) => r matches Some(v) && v.deep_view() == script_entries(
                            ss,
                            prefix_view(prefix),
                        ),
                        None => r is None,
                    },
                    None => r is None,
                },
                None => r is None,
            },
    {
        match project {
            Some(p) => p.list_scripts(prefix),
            None => None,
        }
    }

    /// The dependencies of the nearest project whose names start with `prefix`, each
    /// with the field it comes from.
    pub fn list_local_dependencies(prefix: Option<&str>, project: Option<&Project>) -> (r:
        Option<Vec<(String, String)>>)
        ensures
            match project {
                Some(p) => match p.package_json {
                    Some(pkg) => r matches Some(v) && v.deep_view() == dependencies_spec(
                        pkg@,
                        prefix_view(prefix),
                    ),
                    None => r is None,
                },
                None => r is None,
            },
    {
        match project {
            Some(p) => p.list_dependencies(prefix),
            None => None,
        }
    }

    /// The command that lists this package manager's global packages as JSON; only npm
    /// and pnpm have one.
    pub fn global_list_command(&self) -> (r: Option<CommandAdaptor>)
        ensures
            match r {
                Some(a) => lists_globals(*self) && pm_command(
                    *self,
                    PackageManagerOperation::GlobalList,
                    seq!["--json"@],
                ) == Some(a@),
                None => !lists_globals(*self),
            },
    {
        if *self != PackageManager::Npm && *self != PackageManager::Pnpm {
            return None;
        }
        match CommandAdaptor::for_pm(*self, PackageManagerOperation::GlobalList) {
            Ok(a) => {
                let mut args: Vec<String> = Vec::new();
                args.push(owned("--json"));
                assert(args.deep_view() =~= seq!["--json"@]);
                Some(a.set_extra_args(args))
            },
            Err(_) => None,
        }
    }

    /// The global packages whose names start with `prefix`, read from `output`, the
    /// standard output of a successful run of [`PackageManager::global_list_command`]
    /// (`None` when it could not be run or failed). Only npm and pnpm list them.
    pub fn list_global_dependencies(&self, prefix: Option<&str>, output: Option<&str>) -> (r:
        Option<Vec<(String, String)>>)
        ensures
            match output {
                Some(text) if lists_globals(*self) => match global_dependencies_spec(
                    text@,
                    prefix_view(prefix),
                ) {
                    Some(es) => r matches Some(v) && v.deep_view() == es,
                    None => r is None,
                },
                _ => r is None,
            },
    {
        if *self != PackageManager::Npm && *self != PackageManager::Pnpm {
            return None;
        }
        let text = match output {
            Some(t) => t,
            None => return None,
        };
        let json = match parse_json(text) {
            Some(v) => v,
            None => return None,
        };
        let root = match &json {
            JsonValue::Array(_) => match first(&json) {
                Some(x) => x,
                None => return None,
            },
            _ => &json,
        };
        let deps = match get(root, "dependencies") {
            Some(d) => d,
            None => return None,
        };
        let members = match deps {
            JsonValue::Object(m) => m,
            _ => return None,
        };
        let ghost ms = members_spec(members@);
        assert(deps@ == JsonSpec::Object(ms)) by {
            assert(deps@->Object_0 =~= ms);
        }
        let mut out: Vec<(String, String)> = Vec::new();
        let mut i: usize = 0;
        while i < members.len()
            invariant
                i <= members.len(),
                ms == members_spec(members@),
                out.deep_view() == member_entries(
                    ms.take(i as int),
                    "global packages"@,
                    prefix_view(prefix),
                ),
            decreases members.len() - i,
        {
            assert(ms.take(i + 1).drop_last() =~= ms.take(i as int));
            assert(ms.take(i + 1).last() == ms[i as int]);
            if keep(prefix, members[i].0.as_str()) {
                let ghost before = out.deep_view();
                out.push((owned(members[i].0.as_str()), owned("global packages")));
                assert(out.deep_view() =~= before.push((members@[i as int].0@, "global packages"@)));
            }
            i = i + 1;
        }
        assert(ms.take(members.len() as int) =~= ms);
        Some(out)
    }
}

/// The names among `names` that `prefix` keeps, in order.
pub open spec fn kept_names(names: Seq<Seq<char>>, prefix: Option<Seq<char>>) -> Seq<Seq<char>>
    decreases names.len(),
{
    if names.len() == 0 {
        Seq::empty()
    } else {
        let rest = kept_names(names.drop_last(), prefix);
        if keeps(prefix, names.last()) {
            rest.push(names.last())
        } else {
            rest
        }
    }
}

/// The binaries that complete `current`: those whose names start with it, sorted.
pub fn complete_bins(bins: Vec<String>, current: Option<&str>) -> (r: Vec<String>)
    ensures
        sorted_by(r.deep_view(), str_order()),
        r.deep_view().to_multiset() == kept_names(bins.deep_view(), prefix_view(current)).to_multiset(),
{
    let ghost all = bins.deep_view();
    let mut kept: Vec<String> = Vec::new();
    let mut i: usize = 0;
    while i < bins.len()
        invariant
            i <= bins.len(),
            all == bins.deep_view(),
            kept.deep_view() == kept_names(all.take(i as int), prefix_view(current)),
        decreases bins.len() - i,
    {
        assert(all.take(i + 1).drop_last() =~= all.take(i as int));
        assert(all.take(i + 1).last() == all[i as int]);
        if keep(current, bins[i].as_str()) {
            let ghost before = kept.deep_view();
            kept.push(owned(bins[i].as_str()));
            assert(kept.deep_view() =~= before.push(all[i as int]));
        }
        i = i + 1;
    }
    assert(all.take(bins.len() as int) =~= all);
    sort_strings(kept)
}

} // verus!
