//! What the prefetch engine fetches: the archives named by a manifest of
//! `name=version` lines or by a lockfile, and the files of the mirrored index that
//! hold package records.
use vstd::prelude::*;

use crate::cache::PackageRef;
use crate::text::chars_of;

verus! {

/// One record of the mirrored index: a package name and one of its versions.
pub struct Package {
    pub name: String,
    pub vers: String,
}

impl View for Package {
    type V = (Seq<char>, Seq<char>);

    open spec fn view(&self) -> (Seq<char>, Seq<char>) {
        (self.name@, self.vers@)
    }
}

impl Package {
    /// The archive that this record names.
    pub fn package_ref(&self) -> (r: PackageRef)
        ensures
            r@ == self@,
    {
        PackageRef { name: self.name.clone(), version: self.vers.clone() }
    }
}

pub open spec fn refs_view(v: Seq<PackageRef>) -> Seq<(Seq<char>, Seq<char>)> {
    v.map_values(|p: PackageRef| p@)
}

/// The number of characters of `s` before the first `c` (all of them when `c` is absent).
pub open spec fn char_prefix_len(s: Seq<char>, c: char) -> nat
    decreases s.len(),
{
    if s.len() == 0 {
        0
    } else if s[0] == c {
        0
    } else {
        1 + char_prefix_len(s.drop_first(), c)
    }
}

/// A manifest line `name=version` read as its pair: the name is what comes before the
/// first `=`, the version what comes after it up to the next `=` or the end. A line
/// without `=` names nothing.
pub open spec fn pair_of(line: Seq<char>) -> Option<(Seq<char>, Seq<char>)> {
    let i = char_prefix_len(line, '=');
    if i < line.len() {
        let rest = line.subrange(i + 1 as int, line.len() as int);
        Some((line.subrange(0, i as int), rest.subrange(0, char_prefix_len(rest, '=') as int)))
    } else {
        None
    }
}

/// The pairs named by the manifest lines that start at `pos` of `t`. Lines end at a
/// line feed, which takes a carriage return just before it along.
pub open spec fn manifest_from(t: Seq<char>, pos: nat) -> Seq<(Seq<char>, Seq<char>)>
    decreases t.len() - pos,
{
    if pos >= t.len() {
        seq![]
    } else {
        let end = pos + char_prefix_len(t.subrange(pos as int, t.len() as int), '\n');
        let raw = t.subrange(pos as int, end as int);
        let line = if end < t.len() && raw.len() > 0 && raw.last() == '\r' {
            raw.drop_last()
        } else {
            raw
        };
        let rest = if end < t.len() {
            manifest_from(t, end + 1)
        } else {
            seq![]
        };
        match pair_of(line) {
            Some(p) => seq![p] + rest,
            None => rest,
        }
    }
}

/// The index of the first `c` in `s[from..to]`, or `to`.
fn find_char(s: &Vec<char>, from: usize, to: usize, c: char) -> (r: usize)
    requires
        from <= to <= s@.len(),
    ensures
        r == from + char_prefix_len(s@.subrange(from as int, to as int), c),
        r <= to,
{
    let mut i = from;
    while i < to && s[i] != c
        invariant
            from <= i <= to <= s@.len(),
            from + char_prefix_len(s@.subrange(from as int, to as int), c) == i + char_prefix_len(
                s@.subrange(i as int, to as int),
                c,
            ),
        decreases to - i,
    {
        assert(s@.subrange(i as int, to as int).drop_first() =~= s@.subrange(
            i as int + 1,
            to as int,
        ));
        i = i + 1;
    }
    i
}

/// The archives that a manifest of `name=version` lines names, in order. Lines
/// without `=` are skipped.
pub fn parse_manifest(text: &str) -> (r: Vec<PackageRef>)
    ensures
        refs_view(r@) == manifest_from(text@, 0),
{
    let cs = chars_of(text);
    let n = cs.len();
    let mut out: Vec<PackageRef> = Vec::new();
    let mut pos: usize = 0;
    loop
        invariant
            cs@ == text@,
            n == cs@.len(),
            pos <= n,
            manifest_from(text@, 0) == refs_view(out@) + manifest_from(text@, pos as nat),
        decreases n - pos,
    {
        if pos >= n {
            assert(refs_view(out@) + seq![] =~= refs_view(out@));
            return out;
        }
        let end = find_char(&cs, pos, n, '\n');
        let line_end = if end < n && end > pos && cs[end - 1] == '\r' {
            end - 1
        } else {
            end
        };
        let ghost raw = cs@.subrange(pos as int, end as int);
        let ghost line = cs@.subrange(pos as int, line_end as int);
        proof {
            if end < n && raw.len() > 0 && raw.last() == '\r' {
                assert(raw.drop_last() =~= line);
            } else {
                assert(raw =~= line);
            }
        }
        let eq = find_char(&cs, pos, line_end, '=');
        let ghost before = refs_view(out@);
        if eq < line_end {
            let stop = find_char(&cs, eq + 1, line_end, '=');
            let name = String::from_str(text.substring_char(pos, eq));
            let version = String::from_str(text.substring_char(eq + 1, stop));
            proof {
                let rest = line.subrange(eq - pos + 1, line.len() as int);
                assert(rest =~= cs@.subrange(eq + 1, line_end as int));
                assert(line.subrange(0, eq - pos) =~= name@);
                assert(rest.subrange(0, stop - eq - 1) =~= version@);
            }
            out.push(PackageRef { name, version });
            assert(refs_view(out@) =~= before.push((cs@.subrange(pos as int, eq as int), cs@.subrange(eq + 1, stop as int))));
        }
        if end >= n {
            assert(refs_view(out@) + seq![] =~= refs_view(out@));
            return out;
        }
        proof {
            if eq < line_end {
                assert(before + (seq![pair_of(line)->0] + manifest_from(text@, (end + 1) as nat))
                    =~= refs_view(out@) + manifest_from(text@, (end + 1) as nat));
            }
        }
        pos = end + 1;
    }
}

/// How a prefetch manifest is written.
#[derive(PartialEq, Eq, Structural, Clone, Copy, Debug)]
pub enum ManifestFormat {
    /// A dependency lockfile.
    Lockfile,
    /// Lines of `name=version`.
    Pairs,
}

/// The extension of the last component of `path`, as `Path::extension` finds it.
pub uninterp spec fn extension_of(path: Seq<char>) -> Option<Seq<char>>;

/// Relies on `std::path::Path::extension`: the text after the last `.` of the file
/// name, or `None` where the name has none (or only a leading one). The result
/// depends on the path alone.
#[verifier::external_body]
fn path_extension(path: &str) -> (r: Option<String>)
    ensures
        match r {
            Some(e) => extension_of(path@) == Some(e@),
            None => extension_of(path@) is None,
        },
{
    std::path::Path::new(path).extension().map(|e| e.to_string_lossy().into_owned())
}

pub open spec fn format_of(ext: Option<Seq<char>>) -> ManifestFormat {
    if ext == Some("lock"@) {
        ManifestFormat::Lockfile
    } else {
        ManifestFormat::Pairs
    }
}

/// The format that a manifest file with extension `ext` is read in: a lockfile for
/// `lock`, pairs for anything else.
pub fn format_for_extension(ext: &Option<String>) -> (r: ManifestFormat)
    ensures
        r == format_of(
            match ext {
                Some(e) => Some(e@),
                None => None,
            },
        ),
{
    match ext {
        Some(e) => {
            let lock = String::from_str("lock");
            if *e == lock {
                ManifestFormat::Lockfile
            } else {
                ManifestFormat::Pairs
            }
        },
        None => ManifestFormat::Pairs,
    }
}

/// The format that the manifest at `path` is read in.
pub fn manifest_format(path: &str) -> (r: ManifestFormat)
    ensures
        r == format_of(extension_of(path@)),
{
    format_for_extension(&path_extension(path))
}

/// The packages of a lockfile, each as its name and its version written out, in the
/// order of the file; `None` where the text is no lockfile.
pub uninterp spec fn lock_packages_of(text: Seq<char>) -> Option<Seq<(Seq<char>, Seq<char>)>>;

/// Relies on `cargo_lock::Lockfile::from_str`: it reads the lockfile's `package`
/// entries, each with a name and a version, or fails; the result depends on the text
/// alone.
#[verifier::external_body]
fn lockfile_packages(text: &str) -> (r: Option<Vec<(String, String)>>)
    ensures
        match r {
            Some(v) => lock_packages_of(text@) == Some(
                v@.map_values(|p: (String, String)| (p.0@, p.1@)),
            ),
            None => lock_packages_of(text@) is None,
        },
{
    text.parse::<cargo_lock::Lockfile>().ok().map(
        |l| l.packages.iter().map(|p| (p.name.as_str().to_string(), p.version.to_string())).collect(),
    )
}

/// The archives named by the packages a lockfile was read into; none when it could
/// not be read.
pub fn refs_of_packages(packages: Option<Vec<(String, String)>>) -> (r: Vec<PackageRef>)
    ensures
        refs_view(r@) == match packages {
            Some(v) => v@.map_values(|p: (String, String)| (p.0@, p.1@)),
            None => Seq::empty(),
        },
{
    match packages {
        None => Vec::new(),
        Some(v) => {
            let mut out: Vec<PackageRef> = Vec::new();
            let mut i: usize = 0;
            while i < v.len()
                invariant
                    0 <= i <= v@.len(),
                    refs_view(out@) =~= v@.subrange(0, i as int).map_values(
                        |p: (String, String)| (p.0@, p.1@),
                    ),
                decreases v@.len() - i,
            {
                let ghost before = out@;
                out.push(PackageRef { name: v[i].0.clone(), version: v[i].1.clone() });
                assert(v@.subrange(0, i + 1) =~= v@.subrange(0, i as int).push(v@[i as int]));
                assert(refs_view(out@) =~= refs_view(before).push((v@[i as int].0@, v@[i as int].1@)));
                i = i + 1;
            }
            assert(v@.subrange(0, i as int) =~= v@);
            out
        },
    }
}

/// The archives that the lockfile `text` names, in order; none where it is no lockfile.
pub fn lockfile_refs(text: &str) -> (r: Vec<PackageRef>)
    ensures
        refs_view(r@) == match lock_packages_of(text@) {
            Some(s) => s,
            None => Seq::empty(),
        },
{
    refs_of_packages(lockfile_packages(text))
}

/// The archives that the manifest at `path`, holding `text`, names.
pub fn manifest_refs(path: &str, text: &str) -> (r: Vec<PackageRef>)
    ensures
        refs_view(r@) == match format_of(extension_of(path@)) {
            ManifestFormat::Lockfile => match lock_packages_of(text@) {
                Some(s) => s,
                None => Seq::empty(),
            },
            ManifestFormat::Pairs => manifest_from(text@, 0),
        },
{
    match manifest_format(path) {
        ManifestFormat::Lockfile => lockfile_refs(text),
        ManifestFormat::Pairs => parse_manifest(text),
    }
}

/// `t` occurs in `s`.
pub open spec fn contains_text(s: Seq<char>, t: Seq<char>) -> bool {
    exists|i: int| 0 <= i && i + t.len() <= s.len() && #[trigger] s.subrange(i, i + t.len()) == t
}

/// Whether `cs` holds `t`, starting at `i`.
fn occurs_at(cs: &Vec<char>, i: usize, t: &Vec<char>) -> (r: bool)
    requires
        i + t@.len() <= cs@.len(),
    ensures
        r == (cs@.subrange(i as int, i + t@.len()) == t@),
{
    let n = cs.len();
    let mut j: usize = 0;
    while j < t.len()
        invariant
            n == cs@.len(),
            i + t@.len() <= cs@.len(),
            0 <= j <= t@.len(),
            forall|k: int| 0 <= k < j ==> cs@[i + k] == t@[k],
        decreases t@.len() - j,
    {
        if cs[i + j] != t[j] {
            assert(cs@.subrange(i as int, i + t@.len())[j as int] != t@[j as int]);
            return false;
        }
        j = j + 1;
    }
    assert(cs@.subrange(i as int, i + t@.len()) =~= t@);
    true
}

/// Whether `t` occurs in `s`.
pub fn contains(s: &str, t: &str) -> (r: bool)
    ensures
        r == contains_text(s@, t@),
{
    let cs = chars_of(s);
    let ts = chars_of(t);
    if ts.len() > cs.len() {
        return false;
    }
    let last = cs.len() - ts.len();
    let mut i: usize = 0;
    loop
        invariant
            cs@ == s@,
            ts@ == t@,
            last == cs@.len() - ts@.len(),
            i <= last,
            forall|k: int| 0 <= k < i ==> #[trigger] s@.subrange(k, k + t@.len()) != t@,
        decreases last - i,
    {
        if occurs_at(&cs, i, &ts) {
            return true;
        }
        if i == last {
            return false;
        }
        i = i + 1;
    }
}

/// Whether a file met in the walk of the mirrored index holds package records: a
/// regular file, outside the version control data, that is not the served
/// `config.json`.
pub fn index_entry_wanted(path: &str, is_file: bool, file_name: &str) -> (r: bool)
    ensures
        r == (!contains_text(path@, ".git"@) && is_file && file_name@ != "config.json"@),
{
    if contains(path, ".git") || !is_file {
        return false;
    }
    let name = String::from_str(file_name);
    let config = String::from_str("config.json");
    !(name == config)
}

} // verus!
