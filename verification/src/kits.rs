use vstd::prelude::*;

verus! {

/// Why the Windows Kits directories could not be found.
#[derive(Clone, Copy, Debug)]
pub enum Error {
    /// The registry holds no Windows Kits root.
    RegKeyNotFound,
    /// No fitting directory under the kits root.
    DirectoryNotFound,
}

/// Which part of the kernel-mode kit is wanted.
#[derive(Clone, Copy)]
pub enum KernelDirectoryType {
    Library,
    Include,
}

/// The name of the kits subdirectory that holds a part.
pub open spec fn spec_kits_subdirectory(directory_type: KernelDirectoryType) -> Seq<char> {
    match directory_type {
        KernelDirectoryType::Library => "Lib"@,
        KernelDirectoryType::Include => "Include"@,
    }
}

/// See [`spec_kits_subdirectory`].
pub fn kits_subdirectory(directory_type: KernelDirectoryType) -> (name: &'static str)
    ensures
        name@ == spec_kits_subdirectory(directory_type),
{
    match directory_type {
        KernelDirectoryType::Library => "Lib",
        KernelDirectoryType::Include => "Include",
    }
}

/// The name of the kernel-mode directory inside a kit version.
pub fn kernel_mode_subdirectory() -> (name: &'static str)
    ensures
        name@ == "km"@,
{
    "km"
}

/// An entry of a kits directory: its name, when it is valid Unicode, and
/// whether it holds a kernel-mode (`km`) directory.
pub struct KitsEntry {
    pub name: Option<Vec<u8>>,
    pub has_km: bool,
}

/// `a` sorts strictly before `b`, byte by byte, a proper prefix first.
pub open spec fn bytes_lt(a: Seq<u8>, b: Seq<u8>) -> bool
    decreases a.len(),
{
    if a.len() == 0 {
        b.len() > 0
    } else if b.len() == 0 {
        false
    } else if a[0] != b[0] {
        a[0] < b[0]
    } else {
        bytes_lt(a.drop_first(), b.drop_first())
    }
}

/// The byte order is lexicographic: after a common prefix, the first
/// differing byte decides, and a proper prefix sorts first.
pub proof fn lemma_bytes_lt_lexicographic(prefix: Seq<u8>, x: u8, y: u8, rest_a: Seq<u8>, rest_b: Seq<u8>)
    ensures
        x < y ==> bytes_lt(prefix + seq![x] + rest_a, prefix + seq![y] + rest_b),
        bytes_lt(prefix, prefix + seq![y] + rest_b),
    decreases prefix.len(),
{
    let a = prefix + seq![x] + rest_a;
    let b = prefix + seq![y] + rest_b;
    if prefix.len() == 0 {
        assert(a[0] == x);
        assert(b[0] == y);
    } else {
        let p = prefix.drop_first();
        lemma_bytes_lt_lexicographic(p, x, y, rest_a, rest_b);
        assert(a.drop_first() =~= p + seq![x] + rest_a);
        assert(b.drop_first() =~= p + seq![y] + rest_b);
        assert(a[0] == prefix[0]);
        assert(b[0] == prefix[0]);
    }
}

/// The byte order is a strict total order.
pub proof fn lemma_bytes_lt_total(a: Seq<u8>, b: Seq<u8>)
    ensures
        !(bytes_lt(a, b) && bytes_lt(b, a)),
        a != b ==> bytes_lt(a, b) || bytes_lt(b, a),
        !bytes_lt(a, a),
    decreases a.len(),
{
    if a.len() > 0 {
        lemma_bytes_lt_total(a.drop_first(), a.drop_first());
    }
    if a.len() > 0 && b.len() > 0 {
        lemma_bytes_lt_total(a.drop_first(), b.drop_first());
        if a[0] == b[0] && a.drop_first() == b.drop_first() {
            assert(a =~= seq![a[0]] + a.drop_first());
            assert(b =~= seq![b[0]] + b.drop_first());
        }
    } else if a.len() == 0 && b.len() == 0 {
        assert(a =~= b);
    }
}

/// The byte order is transitive.
pub proof fn lemma_bytes_lt_transitive(a: Seq<u8>, b: Seq<u8>, c: Seq<u8>)
    requires
        bytes_lt(a, b),
        bytes_lt(b, c),
    ensures
        bytes_lt(a, c),
    decreases a.len(),
{
    if a.len() > 0 && b.len() > 0 && c.len() > 0 && a[0] == b[0] && b[0] == c[0] {
        lemma_bytes_lt_transitive(a.drop_first(), b.drop_first(), c.drop_first());
    }
}

/// Whether a name starts with `10.`, the prefix of a Windows 10 kit version.
pub open spec fn is_kit_version(name: Seq<u8>) -> bool {
    name.len() >= 3 && name[0] == 49 && name[1] == 48 && name[2] == 46
}

/// Whether an entry is a Windows 10 kit version with a kernel-mode directory.
pub open spec fn qualifies(entry: KitsEntry) -> bool {
    &&& entry.name is Some
    &&& is_kit_version(entry.name.unwrap()@)
    &&& entry.has_km
}

/// `chosen` is the greatest qualifying entry by name, the last of them when
/// names tie; `None` exactly when no entry qualifies.
pub open spec fn is_greatest_kit(entries: Seq<KitsEntry>, chosen: Option<usize>) -> bool {
    match chosen {
        None => forall|j: int| 0 <= j < entries.len() ==> !qualifies(#[trigger] entries[j]),
        Some(i) => {
            &&& i < entries.len()
            &&& qualifies(entries[i as int])
            &&& forall|j: int|
                0 <= j < entries.len() && qualifies(#[trigger] entries[j]) ==> !bytes_lt(
                    entries[i as int].name.unwrap()@,
                    entries[j].name.unwrap()@,
                )
            &&& forall|j: int|
                i < j < entries.len() && qualifies(#[trigger] entries[j]) ==> bytes_lt(
                    entries[j].name.unwrap()@,
                    entries[i as int].name.unwrap()@,
                )
        },
    }
}

fn has_kit_version_prefix(name: &Vec<u8>) -> (r: bool)
    ensures
        r == is_kit_version(name@),
{
    name.len() >= 3 && name[0] == 49 && name[1] == 48 && name[2] == 46
}

fn less_than(a: &Vec<u8>, b: &Vec<u8>) -> (r: bool)
    ensures
        r == bytes_lt(a@, b@),
{
    let mut i: usize = 0;
    assert(a@.skip(0) =~= a@);
    assert(b@.skip(0) =~= b@);
    while i < a.len() && i < b.len()
        invariant
            i <= a@.len(),
            i <= b@.len(),
            bytes_lt(a@, b@) == bytes_lt(a@.skip(i as int), b@.skip(i as int)),
        decreases a.len() - i,
    {
        assert(a@.skip(i as int).drop_first() =~= a@.skip(i + 1));
        assert(b@.skip(i as int).drop_first() =~= b@.skip(i + 1));
        if a[i] != b[i] {
            return a[i] < b[i];
        }
        i = i + 1;
    }
    i < b.len()
}

/// Picks the kit version to use: the greatest qualifying entry by name.
pub fn select_kits_version(entries: &Vec<KitsEntry>) -> (chosen: Option<usize>)
    ensures
        is_greatest_kit(entries@, chosen),
{
    let mut best: Option<usize> = None;
    let mut k: usize = 0;
    while k < entries.len()
        invariant
            k <= entries@.len(),
            is_greatest_kit(entries@.take(k as int), best),
        decreases entries.len() - k,
    {
        let ghost prev = entries@.take(k as int);
        assert(entries@.take(k + 1) =~= prev.push(entries@[k as int]));
        let entry = &entries[k];
        let qualifying = match &entry.name {
            Some(name) => has_kit_version_prefix(name) && entry.has_km,
            None => false,
        };
        if qualifying {
            let take = match best {
                None => true,
                Some(b) => {
                    let best_name = entries[b].name.as_ref().unwrap();
                    let name = entry.name.as_ref().unwrap();
                    !less_than(name, best_name)
                },
            };
            if take {
                proof {
                    let cur = entries@.take(k + 1);
                    let n = entries@[k as int].name.unwrap()@;
                    assert forall|j: int| 0 <= j < cur.len() && qualifies(#[trigger] cur[j]) implies !bytes_lt(
                        n,
                        cur[j].name.unwrap()@,
                    ) by {
                        lemma_bytes_lt_total(n, cur[j].name.unwrap()@);
                        if j < k {
                            if let Some(b) = best {
                                let bn = entries@[b as int].name.unwrap()@;
                                lemma_bytes_lt_total(n, bn);
                                lemma_bytes_lt_total(bn, cur[j].name.unwrap()@);
                                if bytes_lt(n, cur[j].name.unwrap()@) {
                                    if bn == n {
                                    } else {
                                        lemma_bytes_lt_transitive(bn, n, cur[j].name.unwrap()@);
                                    }
                                }
                            }
                        }
                    }
                }
                best = Some(k);
            } else {
                proof {
                    let b = best.unwrap();
                    let cur = entries@.take(k + 1);
                    assert(cur[b as int] == prev[b as int]);
                    assert forall|j: int| 0 <= j < cur.len() && qualifies(#[trigger] cur[j]) implies !bytes_lt(
                        cur[b as int].name.unwrap()@,
                        cur[j].name.unwrap()@,
                    ) by {
                        if j == k {
                            lemma_bytes_lt_total(cur[b as int].name.unwrap()@, cur[j].name.unwrap()@);
                        } else {
                            assert(cur[j] == prev[j]);
                        }
                    }
                    assert forall|j: int| b < j < cur.len() && qualifies(#[trigger] cur[j]) implies bytes_lt(
                        cur[j].name.unwrap()@,
                        cur[b as int].name.unwrap()@,
                    ) by {
                        if j < k {
                            assert(cur[j] == prev[j]);
                        }
                    }
                }
            }
        } else {
            proof {
                let cur = entries@.take(k + 1);
                assert(!qualifies(cur[k as int]));
                if let Some(b) = best {
                    assert(cur[b as int] == prev[b as int]);
                    assert forall|j: int| 0 <= j < cur.len() && qualifies(#[trigger] cur[j]) implies !bytes_lt(
                        cur[b as int].name.unwrap()@,
                        cur[j].name.unwrap()@,
                    ) by {
                        assert(cur[j] == prev[j]);
                    }
                    assert forall|j: int| b < j < cur.len() && qualifies(#[trigger] cur[j]) implies bytes_lt(
                        cur[j].name.unwrap()@,
                        cur[b as int].name.unwrap()@,
                    ) by {
                        assert(cur[j] == prev[j]);
                    }
                } else {
                    assert forall|j: int| 0 <= j < cur.len() implies !qualifies(#[trigger] cur[j]) by {
                        if j < k {
                            assert(cur[j] == prev[j]);
                        }
                    }
                }
            }
        }
        k = k + 1;
    }
    assert(entries@.take(k as int) =~= entries@);
    best
}

/// Finds the kernel-mode directory among the entries of the kits
/// subdirectory; `None` when that subdirectory could not be listed. The
/// index of the chosen version is returned, or "directory not found" when
/// the listing failed or no version qualifies.
pub fn select_km_directory(listing: Option<&Vec<KitsEntry>>) -> (r: Result<usize, Error>)
    ensures
        match listing {
            None => r == Err::<usize, Error>(Error::DirectoryNotFound),
            Some(entries) => match r {
                Ok(i) => is_greatest_kit(entries@, Some(i)),
                Err(e) => e == Error::DirectoryNotFound && is_greatest_kit(entries@, None),
            },
        },
{
    match listing {
        None => Err(Error::DirectoryNotFound),
        Some(entries) => match select_kits_version(entries) {
            Some(i) => Ok(i),
            None => Err(Error::DirectoryNotFound),
        },
    }
}

/// The header a set of bindings is generated from: `src/wrapper_<header>.h`.
pub fn wrapper_header_path(header: &str) -> (path: String)
    ensures
        path@ == "src/wrapper_"@ + header@ + ".h"@,
{
    let mut path = String::from_str("src/wrapper_");
    path.append(header);
    path.append(".h");
    path
}

/// The file a set of bindings is written to: `bindings_<header>.rs`.
pub fn bindings_file_name(header: &str) -> (name: String)
    ensures
        name@ == "bindings_"@ + header@ + ".rs"@,
{
    let mut name = String::from_str("bindings_");
    name.append(header);
    name.append(".rs");
    name
}

/// The compiler argument that adds an include directory: `-I<dir>`.
pub fn include_argument(dir: &str) -> (arg: String)
    ensures
        arg@ == "-I"@ + dir@,
{
    let mut arg = String::from_str("-I");
    arg.append(dir);
    arg
}

} // verus!
