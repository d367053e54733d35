//! Detecting the package manager a project uses, from its lockfiles, the fields of its
//! `package.json` and what an install left behind.
use vstd::prelude::*;

use crate::enums::{pm_from_name, PackageManager};
use crate::package::{by_dev_engines_spec, by_field_spec, parsed, Project};
use crate::strings::{ends_with, owned, split_once, split_once_spec, str_eq};

verus! {

/// Whether `c` is an ASCII digit.
pub open spec fn is_digit(c: char) -> bool {
    '0' <= c <= '9'
}

/// `s` from its first ASCII digit on (empty when it has none).
pub open spec fn skip_non_digits(s: Seq<char>) -> Seq<char>
    decreases s.len(),
{
    if s.len() == 0 || is_digit(s[0]) {
        s
    } else {
        skip_non_digits(s.drop_first())
    }
}

/// The ASCII digits at the start of `s`.
pub open spec fn leading_digits(s: Seq<char>) -> Seq<char>
    decreases s.len(),
{
    if s.len() == 0 || !is_digit(s[0]) {
        Seq::empty()
    } else {
        seq![s[0]] + leading_digits(s.drop_first())
    }
}

/// The number that the decimal digits `ds` write.
pub open spec fn digits_value(ds: Seq<char>) -> nat
    decreases ds.len(),
{
    if ds.len() == 0 {
        0
    } else {
        digits_value(ds.drop_last()) * 10 + ((ds.last() as int - '0' as int) as nat)
    }
}

/// The major version of yarn that a version text gives: the digits that follow the
/// non-digits at the start of the text before its first `.`, as a `u64`; none when
/// there are no such digits or their number does not fit.
pub open spec fn major_version(version: Seq<char>) -> Option<u64> {
    let ds = leading_digits(skip_non_digits(split_once_spec(version, '.').0));
    if ds.len() == 0 || digits_value(ds) > u64::MAX {
        None
    } else {
        Some(digits_value(ds) as u64)
    }
}

/// The package manager that a name and version give: the one with that name, where
/// `yarn` at a major version above 1 is Yarn Berry.
pub open spec fn determine_spec(name: Seq<char>, version: Seq<char>) -> Option<PackageManager> {
    match pm_from_name(name) {
        None => None,
        Some(pm) => if pm != PackageManager::Yarn {
            Some(pm)
        } else if major_version(version) matches Some(m) && m > 1 {
            Some(PackageManager::YarnBerry)
        } else {
            Some(PackageManager::Yarn)
        },
    }
}

proof fn lemma_leading_digits_shape(s: Seq<char>)
    ensures
        leading_digits(s).len() <= s.len(),
        forall|k: int| 0 <= k < leading_digits(s).len() ==> leading_digits(s)[k] == s[k] && is_digit(s[k]),
        leading_digits(s).len() < s.len() ==> !is_digit(s[leading_digits(s).len() as int]),
    decreases s.len(),
{
    if s.len() > 0 && is_digit(s[0]) {
        let t = s.drop_first();
        lemma_leading_digits_shape(t);
        assert forall|k: int| 0 <= k < leading_digits(s).len() implies leading_digits(s)[k] == s[k]
            && is_digit(s[k]) by {
            if k > 0 {
                assert(leading_digits(s)[k] == leading_digits(t)[k - 1]);
                assert(t[k - 1] == s[k]);
            }
        }
    }
}

proof fn lemma_skip_non_digits_shape(s: Seq<char>)
    ensures
        exists|k: int|
            0 <= k <= s.len() && skip_non_digits(s) == s.skip(k) && (forall|j: int|
                0 <= j < k ==> !is_digit(#[trigger] s[j])) && (k < s.len() ==> is_digit(s[k])),
    decreases s.len(),
{
    if s.len() == 0 || is_digit(s[0]) {
        assert(s.skip(0) =~= s);
    } else {
        lemma_skip_non_digits_shape(s.drop_first());
        let k = choose|k: int|
            0 <= k <= s.drop_first().len() && skip_non_digits(s.drop_first()) == s.drop_first().skip(
                k,
            ) && (forall|j: int| 0 <= j < k ==> !is_digit(#[trigger] s.drop_first()[j])) && (k
                < s.drop_first().len() ==> is_digit(s.drop_first()[k]));
        assert(s.drop_first().skip(k) =~= s.skip(k + 1));
        assert forall|j: int| 0 <= j < k + 1 implies !is_digit(#[trigger] s[j]) by {
            if j > 0 {
                assert(s[j] == s.drop_first()[j - 1]);
            }
        }
    }
}

proof fn lemma_digits_value_grows(ds: Seq<char>, i: int)
    requires
        0 <= i <= ds.len(),
        forall|k: int| 0 <= k < ds.len() ==> is_digit(#[trigger] ds[k]),
    ensures
        digits_value(ds.take(i)) <= digits_value(ds),
    decreases ds.len() - i,
{
    if i < ds.len() {
        lemma_digits_value_grows(ds, i + 1);
        assert(ds.take(i + 1).drop_last() =~= ds.take(i));
    } else {
        assert(ds.take(i) =~= ds);
    }
}

/// The major version of yarn that `version` gives, as `major_version` states it.
fn parse_major_version(version: &str) -> (r: Option<u64>)
    ensures
        r == major_version(version@),
{
    let (segment, _) = split_once(version, '.');
    let s = segment.as_str();
    let n = s.unicode_len();
    proof {
        lemma_skip_non_digits_shape(s@);
    }
    let ghost k = choose|k: int|
        0 <= k <= s@.len() && skip_non_digits(s@) == s@.skip(k) && (forall|j: int|
            0 <= j < k ==> !is_digit(#[trigger] s@[j])) && (k < s@.len() ==> is_digit(s@[k]));
    let mut i: usize = 0;
    while i < n && !('0' <= s.get_char(i) && s.get_char(i) <= '9')
        invariant
            n == s@.len(),
            0 <= k <= n,
            i <= k,
            forall|j: int| 0 <= j < k ==> !is_digit(#[trigger] s@[j]),
            k < s@.len() ==> is_digit(s@[k]),
        decreases n - i,
    {
        i = i + 1;
    }
    assert(i == k);
    let ghost rest = s@.skip(k);
    let ghost ds = leading_digits(rest);
    assert(ds == leading_digits(skip_non_digits(split_once_spec(version@, '.').0)));
    proof {
        lemma_leading_digits_shape(rest);
    }
    let start = i;
    let mut value: u64 = 0;
    while i < n && '0' <= s.get_char(i) && s.get_char(i) <= '9'
        invariant
            n == s@.len(),
            start == k,
            rest == s@.skip(k),
            ds == leading_digits(rest),
            ds == leading_digits(skip_non_digits(split_once_spec(version@, '.').0)),
            ds.len() <= rest.len(),
            forall|j: int| 0 <= j < ds.len() ==> ds[j] == rest[j] && is_digit(rest[j]),
            ds.len() < rest.len() ==> !is_digit(rest[ds.len() as int]),
            start <= i <= start + ds.len(),
            value == digits_value(ds.take(i - start)),
        decreases n - i,
    {
        let c = s.get_char(i);
        assert(rest[i - start] == c);
        assert(i - start < ds.len());
        assert(ds.take(i - start + 1).drop_last() =~= ds.take(i - start));
        let d = (c as u32 - '0' as u32) as u64;
        assert(ds.take(i - start + 1).last() == c);
        assert(d == c as int - '0' as int);
        assert(digits_value(ds.take(i - start + 1)) == value * 10 + d);
        let next = match value.checked_mul(10) {
            Some(v) => v.checked_add(d),
            None => None,
        };
        match next {
            Some(v) => {
                value = v;
            },
            None => {
                proof {
                    assert forall|j: int| 0 <= j < ds.len() implies is_digit(#[trigger] ds[j]) by {
                        assert(ds[j] == rest[j]);
                    }
                    lemma_digits_value_grows(ds, i - start + 1);
                }
                return None;
            },
        }
        i = i + 1;
    }
    proof {
        if i - start < ds.len() {
            assert(ds[i - start] == rest[i - start]);
            assert(rest[i - start] == s@[i as int]);
        }
    }
    assert(i - start == ds.len());
    assert(ds.take(ds.len() as int) =~= ds);
    if i == start {
        None
    } else {
        Some(value)
    }
}

/// The package manager that a name and version from a `package.json` give.
pub fn determine_package_manager(name: &str, version: &str) -> (r: Option<PackageManager>)
    ensures
        r == determine_spec(name@, version@),
{
    let pm = match PackageManager::from_name(name) {
        Some(pm) => pm,
        None => return None,
    };
    if pm != PackageManager::Yarn {
        return Some(pm);
    }
    match parse_major_version(version) {
        Some(major) if major > 1 => Some(PackageManager::YarnBerry),
        _ => Some(PackageManager::Yarn),
    }
}

/// A way of telling which package manager a directory uses.
#[derive(Clone, Copy, Debug, PartialEq, Eq, Structural)]
pub enum DetectionStrategy {
    /// The lockfile in the directory.
    Lockfile,
    /// The `packageManager` field of `package.json`.
    PackageManagerField,
    /// The `devEngines.packageManager` field of `package.json`.
    DevEnginesField,
    /// What an install left in the directory.
    InstallMetadata,
}

/// The strategies tried when none are given, in order.
pub open spec fn default_strategies() -> Seq<DetectionStrategy> {
    seq![
        DetectionStrategy::Lockfile,
        DetectionStrategy::DevEnginesField,
        DetectionStrategy::PackageManagerField,
    ]
}

impl DetectionStrategy {
    /// The strategies tried when none are given: the lockfile, then `devEngines`, then
    /// `packageManager`.
    pub fn default() -> (r: Vec<DetectionStrategy>)
        ensures
            r@ == default_strategies(),
    {
        let r = vec![
            DetectionStrategy::Lockfile,
            DetectionStrategy::DevEnginesField,
            DetectionStrategy::PackageManagerField,
        ];
        assert(r@ =~= default_strategies());
        r
    }
}

/// What detection reads of one directory.
#[derive(Debug)]
pub struct DirFacts {
    /// The paths, relative to the directory, that are files there.
    pub files: Vec<String>,
    /// The paths, relative to the directory, that are directories there.
    pub dirs: Vec<String>,
    /// The text of the directory's `package.json`, where it is a file that was read.
    pub package_json: Option<String>,
}

/// The mathematical form of [`DirFacts`].
pub struct DirSpec {
    pub files: Seq<Seq<char>>,
    pub dirs: Seq<Seq<char>>,
    pub package_json: Option<Seq<char>>,
}

impl View for DirFacts {
    type V = DirSpec;

    open spec fn view(&self) -> DirSpec {
        DirSpec {
            files: self.files.deep_view(),
            dirs: self.dirs.deep_view(),
            package_json: self.package_json.deep_view(),
        }
    }
}

/// The lockfiles, each with the package manager it shows, in the order they are
/// looked for. A `yarn.lock` is also what Yarn Berry writes.
pub open spec fn lockfiles() -> Seq<(Seq<char>, PackageManager)> {
    seq![
        ("bun.lock"@, PackageManager::Bun),
        ("bun.lockb"@, PackageManager::Bun),
        ("pnpm-lock.yaml"@, PackageManager::Pnpm),
        ("pnpm-workspace.yaml"@, PackageManager::Pnpm),
        ("yarn.lock"@, PackageManager::Yarn),
        ("package-lock.json"@, PackageManager::Npm),
        ("npm-shrinkwrap.json"@, PackageManager::Npm),
    ]
}

/// What installs leave behind, each with the package manager it shows, in the order
/// they are looked for; a path that ends with `/` is a directory.
pub open spec fn install_metadata() -> Seq<(Seq<char>, PackageManager)> {
    seq![
        ("node_modules/.pnpm/"@, PackageManager::Pnpm),
        ("node_modules/.yarn-state.yml"@, PackageManager::YarnBerry),
        ("node_modules/.yarn_integrity"@, PackageManager::Yarn),
        ("node_modules/.package-lock.json"@, PackageManager::Npm),
        (".pnp.cjs"@, PackageManager::YarnBerry),
        (".pnp.js"@, PackageManager::YarnBerry),
        ("bun.lock"@, PackageManager::Bun),
        ("bun.lockb"@, PackageManager::Bun),
    ]
}

/// Whether `path` is in the directory: as a directory where it ends with `/`, else as
/// a file.
pub open spec fn present(d: DirSpec, path: Seq<char>) -> bool {
    if path.len() > 0 && path.last() == '/' {
        d.dirs.contains(path)
    } else {
        d.files.contains(path)
    }
}

/// The package manager of the first entry of `table` that is in the directory.
pub open spec fn first_present(d: DirSpec, table: Seq<(Seq<char>, PackageManager)>) -> Option<
    PackageManager,
>
    decreases table.len(),
{
    if table.len() == 0 {
        None
    } else if present(d, table[0].0) {
        Some(table[0].1)
    } else {
        first_present(d, table.drop_first())
    }
}

/// The package manager the `packageManager` field of the directory's `package.json`
/// names.
pub open spec fn by_field_pm(d: DirSpec) -> Option<PackageManager> {
    match parsed(d.package_json) {
        Some(p) => match by_field_spec(p) {
            Some((name, version)) => determine_spec(name, version),
            None => None,
        },
        None => None,
    }
}

/// The package manager `devEngines.packageManager` of the directory's `package.json`
/// names.
pub open spec fn by_dev_engines_pm(d: DirSpec) -> Option<PackageManager> {
    match parsed(d.package_json) {
        Some(p) => match by_dev_engines_spec(p) {
            Some((name, version)) => determine_spec(name, version),
            None => None,
        },
        None => None,
    }
}

/// What one of the two `package.json` strategies finds; nothing for the others.
pub open spec fn field_result(d: DirSpec, s: DetectionStrategy) -> Option<PackageManager> {
    match s {
        DetectionStrategy::PackageManagerField => by_field_pm(d),
        DetectionStrategy::DevEnginesField => by_dev_engines_pm(d),
        _ => None,
    }
}

/// The first package manager that the `package.json` strategies among `ss` find, in
/// their order.
pub open spec fn fields_spec(d: DirSpec, ss: Seq<DetectionStrategy>) -> Option<PackageManager>
    decreases ss.len(),
{
    if ss.len() == 0 {
        None
    } else if field_result(d, ss[0]) is Some {
        field_result(d, ss[0])
    } else {
        fields_spec(d, ss.drop_first())
    }
}

/// What the strategy `s`, one of those in `all`, finds in the directory on its own. A
/// `yarn.lock` does not tell Yarn Berry from Yarn Classic: the `package.json` strategies
/// among `all` decide, and Yarn Classic is assumed where they find nothing.
pub open spec fn strategy_finds(d: DirSpec, all: Seq<DetectionStrategy>, s: DetectionStrategy) -> Option<
    PackageManager,
> {
    match s {
        DetectionStrategy::Lockfile => match first_present(d, lockfiles()) {
            Some(pm) => if pm != PackageManager::Yarn {
                Some(pm)
            } else {
                match fields_spec(d, all) {
                    Some(p) => Some(p),
                    None => Some(PackageManager::Yarn),
                }
            },
            None => None,
        },
        DetectionStrategy::InstallMetadata => first_present(d, install_metadata()),
        s => field_result(d, s),
    }
}

/// The package manager that the strategies `all`, tried in order from position `i`,
/// detect in the directory.
pub open spec fn detect_from(d: DirSpec, all: Seq<DetectionStrategy>, i: int) -> Option<
    PackageManager,
>
    decreases all.len() - i,
{
    if i < 0 || i >= all.len() {
        None
    } else if strategy_finds(d, all, all[i]) is Some {
        strategy_finds(d, all, all[i])
    } else {
        detect_from(d, all, i + 1)
    }
}

/// The package manager that the strategies `all` detect in the directory.
pub open spec fn detect_spec(d: DirSpec, all: Seq<DetectionStrategy>) -> Option<PackageManager> {
    detect_from(d, all, 0)
}

/// The package manager detected in the first directory of `dirs` where any is.
pub open spec fn detect_dirs(dirs: Seq<DirSpec>, all: Seq<DetectionStrategy>) -> Option<
    PackageManager,
>
    decreases dirs.len(),
{
    if dirs.len() == 0 {
        None
    } else if detect_spec(dirs[0], all) is Some {
        detect_spec(dirs[0], all)
    } else {
        detect_dirs(dirs.drop_first(), all)
    }
}

/// The lockfile at position `i` of [`lockfiles`].
fn lockfile_at(i: usize) -> (r: (&'static str, PackageManager))
    requires
        i < lockfiles().len(),
    ensures
        (r.0@, r.1) == lockfiles()[i as int],
{
    match i {
        0 => ("bun.lock", PackageManager::Bun),
        1 => ("bun.lockb", PackageManager::Bun),
        2 => ("pnpm-lock.yaml", PackageManager::Pnpm),
        3 => ("pnpm-workspace.yaml", PackageManager::Pnpm),
        4 => ("yarn.lock", PackageManager::Yarn),
        5 => ("package-lock.json", PackageManager::Npm),
        _ => ("npm-shrinkwrap.json", PackageManager::Npm),
    }
}

/// The install metadata at position `i` of [`install_metadata`].
fn install_metadata_at(i: usize) -> (r: (&'static str, PackageManager))
    requires
        i < install_metadata().len(),
    ensures
        (r.0@, r.1) == install_metadata()[i as int],
{
    match i {
        0 => ("node_modules/.pnpm/", PackageManager::Pnpm),
        1 => ("node_modules/.yarn-state.yml", PackageManager::YarnBerry),
        2 => ("node_modules/.yarn_integrity", PackageManager::Yarn),
        3 => ("node_modules/.package-lock.json", PackageManager::Npm),
        4 => (".pnp.cjs", PackageManager::YarnBerry),
        5 => (".pnp.js", PackageManager::YarnBerry),
        6 => ("bun.lock", PackageManager::Bun),
        _ => ("bun.lockb", PackageManager::Bun),
    }
}

/// Whether `names` holds `name`.
fn holds(names: &Vec<String>, name: &str) -> (r: bool)
    ensures
        r == names.deep_view().contains(name@),
{
    let ghost ns = names.deep_view();
    let mut i: usize = 0;
    while i < names.len()
        invariant
            i <= names.len(),
            ns == names.deep_view(),
            forall|j: int| 0 <= j < i ==> ns[j] != name@,
        decreases names.len() - i,
    {
        if str_eq(names[i].as_str(), name) {
            assert(ns[i as int] == name@);
            return true;
        }
        i = i + 1;
    }
    false
}

impl DirFacts {
    /// Whether `path` is in the directory: as a directory where it ends with `/`, else
    /// as a file.
    pub fn is_present(&self, path: &str) -> (r: bool)
        ensures
            r == present(self@, path@),
    {
        if ends_with(path, "/") {
            proof {
                reveal_strlit("/");
                assert("/"@.len() == 1 && "/"@[0] == '/');
                assert(path@.subrange(path@.len() - 1, path@.len() as int)[0] == path@.last());
            }
            holds(&self.dirs, path)
        } else {
            proof {
                reveal_strlit("/");
                if path@.len() > 0 && path@.last() == '/' {
                    assert("/"@ =~= path@.subrange(path@.len() - 1, path@.len() as int));
                }
            }
            holds(&self.files, path)
        }
    }
}

/// The package manager the lockfile in the directory shows.
pub fn detect_by_lockfile(dir: &DirFacts) -> (r: Option<PackageManager>)
    ensures
        r == first_present(dir@, lockfiles()),
{
    let n: usize = 7;
    let ghost table = lockfiles();
    let mut i: usize = 0;
    assert(table.skip(0) =~= table);
    while i < n
        invariant
            n == table.len(),
            table == lockfiles(),
            i <= n,
            first_present(dir@, table) == first_present(dir@, table.skip(i as int)),
        decreases n - i,
    {
        assert(table.skip(i as int).drop_first() =~= table.skip(i + 1));
        let (file, pm) = lockfile_at(i);
        if dir.is_present(file) {
            return Some(pm);
        }
        i = i + 1;
    }
    None
}

/// The package manager that what an install left in the directory shows.
pub fn detect_by_install_metadata(dir: &DirFacts) -> (r: Option<PackageManager>)
    ensures
        r == first_present(dir@, install_metadata()),
{
    let n: usize = 8;
    let ghost table = install_metadata();
    let mut i: usize = 0;
    assert(table.skip(0) =~= table);
    while i < n
        invariant
            n == table.len(),
            table == install_metadata(),
            i <= n,
            first_present(dir@, table) == first_present(dir@, table.skip(i as int)),
        decreases n - i,
    {
        assert(table.skip(i as int).drop_first() =~= table.skip(i + 1));
        let (meta, pm) = install_metadata_at(i);
        if dir.is_present(meta) {
            return Some(pm);
        }
        i = i + 1;
    }
    None
}

/// The package manager the `packageManager` field of the directory's `package.json`
/// names.
pub fn detect_by_package_manager_field(dir: &DirFacts) -> (r: Option<PackageManager>)
    ensures
        r == by_field_pm(dir@),
{
    let project = Project::new(copy_text(&dir.package_json), None);
    match project.resolve_package_manager_by_field() {
        Some((name, version)) => determine_package_manager(name.as_str(), version.as_str()),
        None => None,
    }
}

/// The package manager `devEngines.packageManager` of the directory's `package.json`
/// names.
pub fn detect_by_dev_engines_field(dir: &DirFacts) -> (r: Option<PackageManager>)
    ensures
        r == by_dev_engines_pm(dir@),
{
    let project = Project::new(copy_text(&dir.package_json), None);
    match project.resolve_package_manager_by_dev_engines() {
        Some((name, version)) => determine_package_manager(name.as_str(), version.as_str()),
        None => None,
    }
}

/// The first package manager that the `package.json` strategies among `strategies`
/// find in the directory, in their order.
fn detect_by_fields(dir: &DirFacts, strategies: &Vec<DetectionStrategy>) -> (r: Option<
    PackageManager,
>)
    ensures
        r == fields_spec(dir@, strategies@),
{
    let ghost all = strategies@;
    let mut i: usize = 0;
    assert(all.skip(0) =~= all);
    while i < strategies.len()
        invariant
            i <= strategies.len(),
            all == strategies@,
            fields_spec(dir@, all) == fields_spec(dir@, all.skip(i as int)),
        decreases strategies.len() - i,
    {
        assert(all.skip(i as int).drop_first() =~= all.skip(i + 1));
        assert(all.skip(i as int)[0] == all[i as int]);
        let found = match strategies[i] {
            DetectionStrategy::PackageManagerField => detect_by_package_manager_field(dir),
            DetectionStrategy::DevEnginesField => detect_by_dev_engines_field(dir),
            _ => None,
        };
        if found.is_some() {
            return found;
        }
        i = i + 1;
    }
    None
}

/// The package manager that `strategies`, tried in order, detect in the directory. A
/// `yarn.lock` is looked into further: the `packageManager` and `devEngines` strategies
/// among `strategies` decide between Yarn Berry and Yarn Classic, and Yarn Classic is
/// assumed where they find nothing.
pub fn detect_with_strategies(dir: &DirFacts, strategies: &Vec<DetectionStrategy>) -> (r: Option<
    PackageManager,
>)
    ensures
        r == detect_spec(dir@, strategies@),
{
    let ghost all = strategies@;
    let mut i: usize = 0;
    while i < strategies.len()
        invariant
            i <= strategies.len(),
            all == strategies@,
            detect_spec(dir@, all) == detect_from(dir@, all, i as int),
        decreases strategies.len() - i,
    {
        let found = match strategies[i] {
            DetectionStrategy::Lockfile => match detect_by_lockfile(dir) {
                Some(pm) => if pm != PackageManager::Yarn {
                    Some(pm)
                } else {
                    match detect_by_fields(dir, strategies) {
                        Some(p) => Some(p),
                        None => Some(PackageManager::Yarn),
                    }
                },
                None => None,
            },
            DetectionStrategy::PackageManagerField => detect_by_package_manager_field(dir),
            DetectionStrategy::DevEnginesField => detect_by_dev_engines_field(dir),
            DetectionStrategy::InstallMetadata => detect_by_install_metadata(dir),
        };
        if found.is_some() {
            return found;
        }
        i = i + 1;
    }
    None
}

/// The mathematical form of a list of directories.
pub open spec fn dirs_view(dirs: Seq<DirFacts>) -> Seq<DirSpec> {
    dirs.map_values(|d: DirFacts| d@)
}

/// The strategies given, or the default ones.
pub open spec fn strategies_or_default(strategies: Option<Seq<DetectionStrategy>>) -> Seq<
    DetectionStrategy,
> {
    match strategies {
        Some(s) => s,
        None => default_strategies(),
    }
}

/// The package manager detected in the nearest directory of `dirs` where any is, with
/// `dirs` from the working directory up to the root and `strategies` (the default ones
/// when none are given) tried in order in each.
pub fn detect_package_manager(dirs: &Vec<DirFacts>, strategies: Option<&Vec<DetectionStrategy>>) -> (r:
    Option<PackageManager>)
    ensures
        r == detect_dirs(
            dirs_view(dirs@),
            strategies_or_default(
                match strategies {
                    Some(s) => Some(s@),
                    None => None,
                },
            ),
        ),
{
    let default = DetectionStrategy::default();
    let chosen = match strategies {
        Some(s) => s,
        None => &default,
    };
    let ghost wanted = strategies_or_default(
        match strategies {
            Some(s) => Some(s@),
            None => None,
        },
    );
    assert(chosen@ == wanted);
    let ghost ds = dirs_view(dirs@);
    let mut i: usize = 0;
    assert(ds.skip(0) =~= ds);
    while i < dirs.len()
        invariant
            i <= dirs.len(),
            ds == dirs_view(dirs@),
            chosen@ == wanted,
            wanted == strategies_or_default(
                match strategies {
                    Some(s) => Some(s@),
                    None => None,
                },
            ),
            detect_dirs(ds, wanted) == detect_dirs(ds.skip(i as int), wanted),
        decreases dirs.len() - i,
    {
        assert(ds.skip(i as int).drop_first() =~= ds.skip(i + 1));
        assert(ds.skip(i as int)[0] == dirs@[i as int]@);
        let found = detect_with_strategies(&dirs[i], chosen);
        if found.is_some() {
            return found;
        }
        i = i + 1;
    }
    None
}

/// The paths of a table.
pub open spec fn table_paths(table: Seq<(Seq<char>, PackageManager)>) -> Seq<Seq<char>> {
    table.map_values(|e: (Seq<char>, PackageManager)| e.0)
}

/// Every path that detection looks for in a directory: the lockfiles, then what
/// installs leave behind. A path that ends with `/` is looked for as a directory.
pub fn detection_paths() -> (r: Vec<String>)
    ensures
        r.deep_view() == table_paths(lockfiles()) + table_paths(install_metadata()),
{
    let mut r: Vec<String> = Vec::new();
    let mut i: usize = 0;
    while i < 7
        invariant
            i <= 7,
            r.deep_view() =~= table_paths(lockfiles()).take(i as int),
        decreases 7 - i,
    {
        let (path, _) = lockfile_at(i);
        let ghost before = r.deep_view();
        r.push(owned(path));
        assert(r.deep_view() =~= before.push(path@));
        assert(table_paths(lockfiles()).take(i + 1) =~= table_paths(lockfiles()).take(
            i as int,
        ).push(lockfiles()[i as int].0));
        i = i + 1;
    }
    let mut j: usize = 0;
    while j < 8
        invariant
            j <= 8,
            r.deep_view() =~= table_paths(lockfiles()) + table_paths(install_metadata()).take(
                j as int,
            ),
        decreases 8 - j,
    {
        let (path, _) = install_metadata_at(j);
        let ghost before = r.deep_view();
        r.push(owned(path));
        assert(r.deep_view() =~= before.push(path@));
        assert(table_paths(install_metadata()).take(j + 1) =~= table_paths(install_metadata()).take(
            j as int,
        ).push(install_metadata()[j as int].0));
        j = j + 1;
    }
    r
}

/// A copy of an optional text.
fn copy_text(t: &Option<String>) -> (r: Option<String>)
    ensures
        r.deep_view() == t.deep_view(),
{
    match t {
        Some(s) => Some(s.clone()),
        None => None,
    }
}

} // verus!
