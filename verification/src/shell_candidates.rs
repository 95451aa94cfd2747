//! Where the elevated terminal looks for a PowerShell 7 installed from the
//! Store: the package directories under `WindowsApps` for this machine's
//! architecture, newest version first.
use vstd::prelude::*;
use crate::text::{
    chars_of, ends_with, ends_with_chars, join, parse_unsigned, parse_unsigned_chars,
    push_str, starts_with, join_str, starts_with_chars, string_of, sub_chars, join_chars,
};
use crate::windows::{lemma_split_nonempty, split_chars, split_on};

verus! {

/// The name every PowerShell Store package directory starts with.
pub const STORE_PACKAGE_PREFIX: &'static str = "Microsoft.PowerShell_";

/// The Store's label for a Rust target architecture name: `x86_64` is `x64`,
/// `aarch64` is `arm64`, and any other name is its own label.
pub open spec fn store_architecture_label(arch: Seq<char>) -> Seq<char> {
    if arch == "x86_64"@ {
        "x64"@
    } else if arch == "aarch64"@ {
        "arm64"@
    } else {
        arch
    }
}

/// The Store's label for a Rust target architecture name.
pub fn architecture_label(arch: &str) -> (r: String)
    ensures
        r@ == store_architecture_label(arch@),
{
    let a = chars_of(arch);
    let x86_64 = chars_of("x86_64");
    let aarch64 = chars_of("aarch64");
    if crate::text::chars_eq(&a, &x86_64) {
        string_of(&chars_of("x64"))
    } else if crate::text::chars_eq(&a, &aarch64) {
        string_of(&chars_of("arm64"))
    } else {
        string_of(&a)
    }
}

/// The end of a package directory name for the architecture labelled `label`.
pub open spec fn store_package_marker(label: Seq<char>) -> Seq<char> {
    "_"@ + label + "__8wekyb3d8bbwe"@
}

/// The values of dotted version parts, when every part reads as a `u64`.
pub open spec fn parsed_parts(parts: Seq<Seq<char>>) -> Option<Seq<nat>> {
    if forall|k: int| 0 <= k < parts.len() ==> (#[trigger] parse_unsigned(parts[k], u64::MAX as nat)) is Some {
        Some(Seq::new(parts.len(), |k: int| parse_unsigned(parts[k], u64::MAX as nat)->0))
    } else {
        None
    }
}

/// The version of a PowerShell Store package directory for the architecture
/// labelled `label`: the text after the prefix up to the first `_`, read as
/// dot-separated `u64` parts; `None` for any other directory.
pub open spec fn store_package_version(name: Seq<char>, label: Seq<char>) -> Option<Seq<nat>> {
    if starts_with(name, STORE_PACKAGE_PREFIX@) && ends_with(name, store_package_marker(label)) {
        parsed_parts(split_on(split_on(name.skip(STORE_PACKAGE_PREFIX@.len() as int), '_')[0], '.'))
    } else {
        None
    }
}

/// Lexicographic order of versions, as `Vec<u64>` orders them: a proper
/// prefix comes first.
pub open spec fn version_lt(a: Seq<nat>, b: Seq<nat>) -> bool
    decreases a.len(),
{
    if a.len() == 0 {
        b.len() > 0
    } else if b.len() == 0 {
        false
    } else if a[0] != b[0] {
        a[0] < b[0]
    } else {
        version_lt(a.drop_first(), b.drop_first())
    }
}

/// No version comes before itself.
pub proof fn lemma_version_lt_irreflexive(a: Seq<nat>)
    ensures
        !version_lt(a, a),
    decreases a.len(),
{
    if a.len() > 0 {
        lemma_version_lt_irreflexive(a.drop_first());
    }
}

/// Of two different versions, exactly one comes first.
pub proof fn lemma_version_lt_total(a: Seq<nat>, b: Seq<nat>)
    ensures
        a != b ==> (version_lt(a, b) || version_lt(b, a)),
        !(version_lt(a, b) && version_lt(b, a)),
    decreases a.len(),
{
    if a.len() > 0 && b.len() > 0 && a[0] == b[0] {
        lemma_version_lt_total(a.drop_first(), b.drop_first());
        if a != b {
            assert(a.drop_first() != b.drop_first()) by {
                if a.drop_first() == b.drop_first() {
                    assert(a =~= seq![a[0]] + a.drop_first());
                    assert(b =~= seq![b[0]] + b.drop_first());
                }
            }
        }
    } else if a.len() == 0 && b.len() == 0 {
        assert(a =~= b);
    }
}

/// The order of versions is transitive.
pub proof fn lemma_version_lt_transitive(a: Seq<nat>, b: Seq<nat>, c: Seq<nat>)
    requires
        version_lt(a, b),
        version_lt(b, c),
    ensures
        version_lt(a, c),
    decreases a.len(),
{
    if a.len() > 0 && b.len() > 0 && c.len() > 0 && a[0] == b[0] && b[0] == c[0] {
        lemma_version_lt_transitive(a.drop_first(), b.drop_first(), c.drop_first());
    }
}

/// The natural-number view of `u64` parts.
pub open spec fn nat_seq(v: Seq<u64>) -> Seq<nat> {
    v.map_values(|x: u64| x as nat)
}

/// Whether version `a` comes before version `b`.
fn version_less(a: &Vec<u64>, b: &Vec<u64>) -> (r: bool)
    ensures
        r == version_lt(nat_seq(a@), nat_seq(b@)),
{
    let mut i: usize = 0;
    assert(nat_seq(a@).skip(0) =~= nat_seq(a@));
    assert(nat_seq(b@).skip(0) =~= nat_seq(b@));
    while i < a.len() && i < b.len()
        invariant
            i <= a.len(),
            i <= b.len(),
            version_lt(nat_seq(a@), nat_seq(b@)) == version_lt(
                nat_seq(a@).skip(i as int),
                nat_seq(b@).skip(i as int),
            ),
        decreases a.len() - i,
    {
        let ghost sa = nat_seq(a@).skip(i as int);
        let ghost sb = nat_seq(b@).skip(i as int);
        assert(sa[0] == a@[i as int] as nat);
        assert(sb[0] == b@[i as int] as nat);
        if a[i] != b[i] {
            return a[i] < b[i];
        }
        assert(sa.drop_first() =~= nat_seq(a@).skip(i + 1));
        assert(sb.drop_first() =~= nat_seq(b@).skip(i + 1));
        i += 1;
    }
    assert(nat_seq(a@).skip(i as int).len() == a.len() - i);
    assert(nat_seq(b@).skip(i as int).len() == b.len() - i);
    i == a.len() && i < b.len()
}

/// The version of a package directory name, as [`store_package_version`]
/// reads it, given the directory marker for the architecture label.
fn package_version(name: &str, label: &str) -> (r: Option<Vec<u64>>)
    ensures
        r is Some <==> store_package_version(name@, label@) is Some,
        r matches Some(v) ==> nat_seq(v@) == store_package_version(name@, label@)->0,
{
    let n = chars_of(name);
    let prefix = chars_of(STORE_PACKAGE_PREFIX);
    let mut marker: Vec<char> = Vec::new();
    push_str(&mut marker, "_");
    push_str(&mut marker, label);
    push_str(&mut marker, "__8wekyb3d8bbwe");
    assert(marker@ == store_package_marker(label@));
    if !(starts_with_chars(&n, &prefix) && ends_with_chars(&n, &marker)) {
        return None;
    }
    let rest = sub_chars(&n, prefix.len(), n.len());
    assert(rest@ =~= n@.skip(STORE_PACKAGE_PREFIX@.len() as int));
    let pieces = split_chars(&rest, '_');
    proof {
        lemma_split_nonempty(rest@, '_');
    }
    let parts = split_chars(&pieces[0], '.');
    let ghost sp = split_on(split_on(rest@, '_')[0], '.');
    assert(store_package_version(name@, label@) == parsed_parts(sp));
    let mut values: Vec<u64> = Vec::new();
    let mut k: usize = 0;
    while k < parts.len()
        invariant
            k <= parts.len(),
            store_package_version(name@, label@) == parsed_parts(sp),
            parts@.len() == sp.len(),
            forall|q: int| 0 <= q < parts@.len() ==> #[trigger] parts@[q]@ == sp[q],
            values.len() == k,
            forall|q: int| 0 <= q < k ==> (#[trigger] parse_unsigned(sp[q], u64::MAX as nat)) is Some,
            forall|q: int| 0 <= q < k ==> values@[q] as nat == parse_unsigned(sp[q], u64::MAX as nat)->0,
        decreases parts.len() - k,
    {
        match parse_unsigned_chars(&parts[k], u64::MAX) {
            Some(v) => {
                values.push(v);
            },
            None => {
                assert(parse_unsigned(sp[k as int], u64::MAX as nat) is None);
                assert(!(forall|q: int| 0 <= q < sp.len() ==> (#[trigger] parse_unsigned(sp[q], u64::MAX as nat)) is Some));
                return None;
            },
        }
        k += 1;
    }
    assert(nat_seq(values@) =~= Seq::new(
        sp.len(),
        |q: int| parse_unsigned(sp[q], u64::MAX as nat)->0,
    ));
    Some(values)
}

/// The path of `pwsh.exe` inside the package directory `name` under `windows_apps`.
pub open spec fn store_candidate_path(windows_apps: Seq<char>, name: Seq<char>) -> Seq<char> {
    join(join(windows_apps, name), "pwsh.exe"@)
}

/// The version of the package directory at position `j`.
pub open spec fn version_at(names: Seq<Seq<char>>, label: Seq<char>, j: int) -> Seq<nat> {
    store_package_version(names[j], label)->0
}

/// Every position in `order` is below `n` and names a package directory.
#[verifier::opaque]
pub open spec fn order_members(names: Seq<Seq<char>>, label: Seq<char>, order: Seq<int>, n: int) -> bool {
    forall|k: int|
        0 <= k < order.len() ==> 0 <= #[trigger] order[k] < n && n <= names.len()
            && store_package_version(names[order[k]], label) is Some
}

/// Every package directory below position `n` is in `order`.
#[verifier::opaque]
pub open spec fn order_covers(names: Seq<Seq<char>>, label: Seq<char>, order: Seq<int>, n: int) -> bool {
    forall|j: int|
        0 <= j < n && (#[trigger] store_package_version(names[j], label)) is Some ==> exists|k: int|
            0 <= k < order.len() && order[k] == j
}

/// Newer versions come first in `order`, and equal versions keep the order
/// of their positions.
#[verifier::opaque]
pub open spec fn order_sorted(names: Seq<Seq<char>>, label: Seq<char>, order: Seq<int>) -> bool {
    forall|k: int, l: int|
        #![trigger order[k], order[l]]
        0 <= k < l < order.len() ==> {
            &&& !version_lt(version_at(names, label, order[k]), version_at(names, label, order[l]))
            &&& (version_at(names, label, order[k]) == version_at(names, label, order[l]) ==> order[k]
                < order[l])
        }
}

/// `order` lists the positions of the PowerShell Store package directories
/// among `names`, each once, newer versions first and directories of equal
/// version in the order given.
pub open spec fn store_candidate_order(names: Seq<Seq<char>>, label: Seq<char>, order: Seq<int>) -> bool {
    &&& order_members(names, label, order, names.len() as int)
    &&& order_covers(names, label, order, names.len() as int)
    &&& order_sorted(names, label, order)
}

/// Once the first entry from position `p` on is older than `v`, all later
/// ones are too.
proof fn lemma_older_from(names: Seq<Seq<char>>, label: Seq<char>, order: Seq<int>, p: int, v: Seq<nat>)
    requires
        order_sorted(names, label, order),
        0 <= p < order.len(),
        version_lt(version_at(names, label, order[p]), v),
    ensures
        forall|q: int| p <= q < order.len() ==> version_lt(version_at(names, label, #[trigger] order[q]), v),
{
    reveal(order_sorted);
    assert forall|q: int| p <= q < order.len() implies version_lt(version_at(names, label, #[trigger] order[q]), v) by {
        let vp = version_at(names, label, order[p]);
        let vq = version_at(names, label, order[q]);
        if q > p {
            assert(!version_lt(vp, vq));
            lemma_version_lt_total(vp, vq);
            if vq != vp {
                lemma_version_lt_transitive(vq, vp, v);
            }
        }
    }
}

/// Inserting the next package directory `i` at the first position `p` whose
/// entry is older keeps `order` sorted and complete.
proof fn lemma_insert_in_order(names: Seq<Seq<char>>, label: Seq<char>, order: Seq<int>, p: int, i: int)
    requires
        0 <= i < names.len(),
        store_package_version(names[i], label) is Some,
        0 <= p <= order.len(),
        order_members(names, label, order, i),
        order_covers(names, label, order, i),
        order_sorted(names, label, order),
        forall|q: int| 0 <= q < p ==> !version_lt(version_at(names, label, #[trigger] order[q]), version_at(names, label, i)),
        forall|q: int| p <= q < order.len() ==> version_lt(version_at(names, label, #[trigger] order[q]), version_at(names, label, i)),
    ensures
        order_members(names, label, order.insert(p, i), i + 1),
        order_covers(names, label, order.insert(p, i), i + 1),
        order_sorted(names, label, order.insert(p, i)),
{
    reveal(order_members);
    reveal(order_covers);
    reveal(order_sorted);
    let n = order.insert(p, i);
    let vi = version_at(names, label, i);
    assert forall|k: int, l: int|
        #![trigger n[k], n[l]]
        0 <= k < l < n.len() implies {
            &&& !version_lt(version_at(names, label, n[k]), version_at(names, label, n[l]))
            &&& (version_at(names, label, n[k]) == version_at(names, label, n[l]) ==> n[k] < n[l])
        } by {
        if l < p {
            assert(n[k] == order[k] && n[l] == order[l]);
        } else if k > p {
            assert(n[k] == order[k - 1] && n[l] == order[l - 1]);
        } else if k < p && l > p {
            assert(n[k] == order[k] && n[l] == order[l - 1]);
        } else if l == p {
            assert(n[k] == order[k]);
            assert(n[l] == i);
        } else {
            assert(n[k] == i);
            assert(n[l] == order[l - 1]);
            let vl = version_at(names, label, n[l]);
            assert(version_lt(vl, vi));
            lemma_version_lt_total(vi, vl);
            lemma_version_lt_irreflexive(vi);
        }
    }
    assert forall|k: int| 0 <= k < n.len() implies 0 <= #[trigger] n[k] < i + 1 && i + 1 <= names.len()
        && store_package_version(names[n[k]], label) is Some by {
        if k < p {
            assert(n[k] == order[k]);
        } else if k > p {
            assert(n[k] == order[k - 1]);
        }
    }
    assert forall|j: int|
        0 <= j < i + 1 && (#[trigger] store_package_version(names[j], label)) is Some implies exists|k: int|
            0 <= k < n.len() && n[k] == j by {
        if j == i {
            assert(n[p] == j);
        } else {
            let k0 = choose|k: int| 0 <= k < order.len() && order[k] == j;
            if k0 < p {
                assert(n[k0] == j);
            } else {
                assert(n[k0 + 1] == j);
            }
        }
    }
}

/// The `pwsh.exe` paths of the PowerShell 7 Store packages among the
/// directory entries `entry_names` of `windows_apps` for the architecture
/// labelled `label`, newest version first; packages of equal version keep
/// the order of the entries. Whether each path is a file is left to the
/// caller, which drops those that are not.
pub fn store_powershell7_candidates(windows_apps: &str, entry_names: &Vec<String>, label: &str) -> (r:
    Vec<String>)
    ensures
        exists|order: Seq<int>|
            {
                &&& store_candidate_order(crate::text::str_views(entry_names@), label@, order)
                &&& r.len() == order.len()
                &&& forall|k: int|
                    0 <= k < order.len() ==> (#[trigger] r@[k])@ == store_candidate_path(
                        windows_apps@,
                        entry_names@[order[k]]@,
                    )
            },
{
    let ghost names = crate::text::str_views(entry_names@);
    let mut versions: Vec<Vec<u64>> = Vec::new();
    let mut paths: Vec<String> = Vec::new();
    let ghost mut order: Seq<int> = Seq::empty();
    proof {
        reveal(order_members);
        reveal(order_covers);
        reveal(order_sorted);
    }
    let mut i: usize = 0;
    while i < entry_names.len()
        invariant
            i <= entry_names.len(),
            names == crate::text::str_views(entry_names@),
            names.len() == entry_names.len(),
            versions.len() == order.len(),
            paths.len() == order.len(),
            order_members(names, label@, order, i as int),
            order_covers(names, label@, order, i as int),
            order_sorted(names, label@, order),
            forall|k: int|
                0 <= k < order.len() ==> nat_seq((#[trigger] versions@[k])@) == version_at(
                    names,
                    label@,
                    order[k],
                ),
            forall|k: int|
                0 <= k < order.len() ==> (#[trigger] paths@[k])@ == store_candidate_path(
                    windows_apps@,
                    names[order[k]],
                ),
        decreases entry_names.len() - i,
    {
        let name = entry_names[i].as_str();
        assert(names[i as int] == name@);
        match package_version(name, label) {
            None => {
                proof {
                    reveal(order_members);
                    reveal(order_covers);
                    assert forall|j: int|
                        0 <= j < i + 1 && (#[trigger] store_package_version(names[j], label@)) is Some
                            implies exists|k: int| 0 <= k < order.len() && order[k] == j by {}
                }
            },
            Some(v) => {
                let ghost vi = version_at(names, label@, i as int);
                let mut p: usize = 0;
                while p < versions.len() && !version_less(&versions[p], &v)
                    invariant
                        p <= versions.len(),
                        nat_seq(v@) == vi,
                        versions.len() == order.len(),
                        forall|k: int|
                            0 <= k < order.len() ==> nat_seq((#[trigger] versions@[k])@)
                                == version_at(names, label@, order[k]),
                        forall|q: int|
                            0 <= q < p ==> !version_lt(version_at(names, label@, #[trigger] order[q]), vi),
                    decreases versions.len() - p,
                {
                    p += 1;
                }
                proof {
                    if p < order.len() {
                        lemma_older_from(names, label@, order, p as int, vi);
                    }
                    lemma_insert_in_order(names, label@, order, p as int, i as int);
                }
                let path = string_of(
                    &join_chars(
                        &join_chars(&chars_of(windows_apps), &chars_of(name)),
                        &chars_of("pwsh.exe"),
                    ),
                );
                let ghost old_order = order;
                versions.insert(p, v);
                paths.insert(p, path);
                proof {
                    order = old_order.insert(p as int, i as int);
                    assert forall|k: int| 0 <= k < order.len() implies nat_seq((#[trigger] versions@[k])@)
                        == version_at(names, label@, order[k]) by {
                        if k > p {
                            assert(versions@[k] == versions@[k]);
                        }
                    }
                }
            },
        }
        i += 1;
    }
    proof {
        assert forall|k: int| 0 <= k < order.len() implies (#[trigger] paths@[k])@ == store_candidate_path(
            windows_apps@,
            entry_names@[order[k]]@,
        ) by {
            reveal(order_members);
            assert(0 <= order[k] < names.len());
            assert(names[order[k]] == entry_names@[order[k]]@);
        }
    }
    paths
}

/// A `Program Files` directory named by the environment, with the
/// PowerShell 7 Store executables found under its `WindowsApps`.
pub struct ProgramFilesRoot {
    pub root: String,
    pub store_candidates: Vec<String>,
}

/// `pwsh.exe` of a machine-wide PowerShell 7 installed under `root`.
pub open spec fn installed_pwsh(root: Seq<char>) -> Seq<char> {
    join(join(join(root, "PowerShell"@), "7"@), "pwsh.exe"@)
}

/// The candidates a `Program Files` directory contributes: its machine-wide
/// installation, then its Store packages.
pub open spec fn root_candidates(root: ProgramFilesRoot) -> Seq<Seq<char>> {
    seq![installed_pwsh(root.root@)] + crate::text::str_views(root.store_candidates@)
}

/// The candidates of all the `Program Files` directories, in order.
pub open spec fn roots_candidates(roots: Seq<ProgramFilesRoot>) -> Seq<Seq<char>>
    decreases roots.len(),
{
    if roots.len() == 0 {
        Seq::empty()
    } else {
        roots_candidates(roots.drop_last()) + root_candidates(roots.last())
    }
}

/// An optional path as a list of at most one.
pub open spec fn optional_path(p: Option<Seq<char>>) -> Seq<Seq<char>> {
    match p {
        Some(v) => seq![v],
        None => Seq::empty(),
    }
}

/// Where the elevated terminal looks for PowerShell 7, in order: the Store
/// package the package query found, each `Program Files` directory, the
/// per-user installation under `LOCALAPPDATA`, then `pwsh.exe` in each
/// directory of `PATH`.
pub open spec fn powershell7_candidate_list(
    store: Option<Seq<char>>,
    roots: Seq<ProgramFilesRoot>,
    local_app_data: Option<Seq<char>>,
    path_dirs: Seq<Seq<char>>,
) -> Seq<Seq<char>> {
    optional_path(store) + roots_candidates(roots) + optional_path(
        match local_app_data {
            Some(l) => Some(installed_pwsh(join(l, "Programs"@))),
            None => None,
        },
    ) + Seq::new(path_dirs.len(), |i: int| join(path_dirs[i], "pwsh.exe"@))
}

fn push_view(r: &mut Vec<String>, s: String)
    ensures
        crate::text::str_views(final(r)@) == crate::text::str_views(old(r)@).push(s@),
{
    proof {
        crate::text::lemma_str_views_push(old(r)@, s);
    }
    r.push(s);
}

/// The PowerShell 7 candidates the elevated terminal tries, in the order of
/// [`powershell7_candidate_list`], built from what the environment names.
pub fn system_powershell7_candidates(
    store: Option<String>,
    roots: &Vec<ProgramFilesRoot>,
    local_app_data: Option<&str>,
    path_dirs: &Vec<String>,
) -> (r: Vec<String>)
    ensures
        crate::text::str_views(r@) == powershell7_candidate_list(
            match store {
                Some(s) => Some(s@),
                None => None,
            },
            roots@,
            match local_app_data {
                Some(l) => Some(l@),
                None => None,
            },
            crate::text::str_views(path_dirs@),
        ),
{
    let mut r: Vec<String> = Vec::new();
    match store {
        Some(s) => push_view(&mut r, s),
        None => {},
    }
    assert(crate::text::str_views(r@) =~= optional_path(
        match store {
            Some(s) => Some(s@),
            None => None,
        },
    ));
    let ghost head = crate::text::str_views(r@);
    let mut i: usize = 0;
    while i < roots.len()
        invariant
            i <= roots.len(),
            crate::text::str_views(r@) == head + roots_candidates(roots@.take(i as int)),
        decreases roots.len() - i,
    {
        let root = &roots[i];
        let ghost before = crate::text::str_views(r@);
        let installed = join_str(&join_str(&join_str(root.root.as_str(), "PowerShell"), "7"), "pwsh.exe");
        push_view(&mut r, installed);
        let mut j: usize = 0;
        while j < root.store_candidates.len()
            invariant
                j <= root.store_candidates.len(),
                crate::text::str_views(r@) == before + seq![installed_pwsh(root.root@)]
                    + crate::text::str_views(root.store_candidates@.take(j as int)),
            decreases root.store_candidates.len() - j,
        {
            proof {
                crate::text::lemma_str_views_push(root.store_candidates@.take(j as int), root.store_candidates@[j as int]);
                assert(root.store_candidates@.take(j as int).push(root.store_candidates@[j as int])
                    =~= root.store_candidates@.take(j + 1));
            }
            push_view(&mut r, root.store_candidates[j].clone());
            assert(crate::text::str_views(r@) =~= before + seq![installed_pwsh(root.root@)]
                + crate::text::str_views(root.store_candidates@.take(j + 1)));
            j += 1;
        }
        proof {
            assert(root.store_candidates@.take(j as int) =~= root.store_candidates@);
            assert(roots@.take(i + 1).drop_last() =~= roots@.take(i as int));
            assert(roots@.take(i + 1).last() == roots@[i as int]);
        }
        assert(crate::text::str_views(r@) =~= head + roots_candidates(roots@.take(i + 1)));
        i += 1;
    }
    assert(roots@.take(i as int) =~= roots@);
    let ghost mid = crate::text::str_views(r@);
    match local_app_data {
        Some(l) => {
            let user = join_str(
                &join_str(&join_str(&join_str(l, "Programs"), "PowerShell"), "7"),
                "pwsh.exe",
            );
            push_view(&mut r, user);
        },
        None => {},
    }
    let ghost mid2 = crate::text::str_views(r@);
    let ghost dirs = crate::text::str_views(path_dirs@);
    let mut k: usize = 0;
    while k < path_dirs.len()
        invariant
            k <= path_dirs.len(),
            dirs == crate::text::str_views(path_dirs@),
            dirs.len() == path_dirs.len(),
            crate::text::str_views(r@) == mid2 + Seq::new(k as nat, |q: int| join(dirs[q], "pwsh.exe"@)),
        decreases path_dirs.len() - k,
    {
        let ghost before = crate::text::str_views(r@);
        let p = join_str(path_dirs[k].as_str(), "pwsh.exe");
        assert(dirs[k as int] == path_dirs@[k as int]@);
        push_view(&mut r, p);
        assert(crate::text::str_views(r@) =~= mid2 + Seq::new((k + 1) as nat, |q: int| join(dirs[q], "pwsh.exe"@)));
        k += 1;
    }
    r
}

} // verus!
