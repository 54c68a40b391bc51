use vstd::prelude::*;
use vstd::arithmetic::div_mod::{
    lemma_div_denominator, lemma_div_is_ordered, lemma_div_nonincreasing, lemma_fundamental_div_mod,
};
use crate::text::{str_views, string_views};
use crate::text::{
    chars_of, decimal, digit_char, decimal_chars, ends_with, ends_with_chars, equal_chars, extend_str,
    string_of,
};

verus! {

// ---------------------------------------------------------------------------
// Human-readable sizes
// ---------------------------------------------------------------------------

/// The distance between neighbouring `f64` values around `b`: 1 up to 2^53, and
/// doubling with each further bit of `b`.
pub open spec fn f64_spacing(b: nat) -> nat
    decreases b,
{
    if b < 0x20_0000_0000_0000 {
        1
    } else {
        2 * f64_spacing(b / 2)
    }
}

/// `a / d` rounded to the nearest integer, a tie going to the even one.
pub open spec fn div_round_even(a: nat, d: nat) -> nat {
    let q = a / d;
    let r = a % d;
    if 2 * r > d || (2 * r == d && q % 2 == 1) {
        q + 1
    } else {
        q
    }
}

/// The value of `b as f64`: `b` rounded to the nearest multiple of the spacing,
/// ties to even.
pub open spec fn as_f64(b: nat) -> nat {
    div_round_even(b, f64_spacing(b)) * f64_spacing(b)
}

/// How many times a size is divided by 1024 before it is shown (at most five: PB).
pub open spec fn size_unit(v: nat) -> nat {
    if v < 1024 {
        0
    } else if v < 1048576 {
        1
    } else if v < 1073741824 {
        2
    } else if v < 1099511627776 {
        3
    } else if v < 1125899906842624 {
        4
    } else {
        5
    }
}

/// 1024 to the power `u`.
pub open spec fn unit_scale(u: nat) -> nat {
    if u == 0 {
        1
    } else if u == 1 {
        1024
    } else if u == 2 {
        1048576
    } else if u == 3 {
        1073741824
    } else if u == 4 {
        1099511627776
    } else {
        1125899906842624
    }
}

pub open spec fn unit_name(u: nat) -> Seq<char> {
    if u == 0 {
        "B"@
    } else if u == 1 {
        "KB"@
    } else if u == 2 {
        "MB"@
    } else if u == 3 {
        "GB"@
    } else if u == 4 {
        "TB"@
    } else {
        "PB"@
    }
}

/// A byte count as `format_size` shows it: "0B" for zero, otherwise the size in
/// the largest unit (up to PB) in which it is at least 1, with one decimal, rounded
/// to nearest with ties to even, from the value the size has as an `f64`.
pub open spec fn spec_format_size(bytes: nat) -> Seq<char> {
    if bytes == 0 {
        "0B"@
    } else {
        let v = as_f64(bytes);
        let u = size_unit(v);
        let t = div_round_even(10 * v, unit_scale(u));
        decimal(t / 10) + seq!['.', digit_char(t % 10)] + unit_name(u)
    }
}

fn div_round_even_exec(a: u128, d: u128) -> (r: u128)
    requires
        0 < d,
        a < 0x10_0000_0000_0000_0000_0000_0000,
    ensures
        r == div_round_even(a as nat, d as nat),
        r <= a / d + 1,
{
    let q = a / d;
    let rem = a % d;
    proof {
        lemma_div_nonincreasing(a as int, d as int);
    }
    if rem > d - rem || (rem == d - rem && q % 2 == 1) {
        q + 1
    } else {
        q
    }
}

fn unit_name_exec(u: usize) -> (r: &'static str)
    ensures
        r@ == unit_name(u as nat),
{
    if u == 0 {
        "B"
    } else if u == 1 {
        "KB"
    } else if u == 2 {
        "MB"
    } else if u == 3 {
        "GB"
    } else if u == 4 {
        "TB"
    } else {
        "PB"
    }
}

/// The value `bytes as f64` has, as an integer.
fn f64_value(bytes: u64) -> (v: u128)
    ensures
        v == as_f64(bytes as nat),
        v <= 0x2_0000_0000_0000_0000,
{
    let mut q: u64 = bytes;
    let mut step: u64 = 1;
    while q >= 0x20_0000_0000_0000
        invariant
            1 <= step,
            step == 1 || step * 0x10_0000_0000_0000 <= bytes,
            q == bytes as nat / step as nat,
            f64_spacing(bytes as nat) == step * f64_spacing(q as nat),
        decreases q,
    {
        proof {
            lemma_div_denominator(bytes as int, step as int, 2);
            assert(step * (2 * f64_spacing((q / 2) as nat)) == (step * 2) * f64_spacing((q / 2) as nat))
                by (nonlinear_arith);
            lemma_fundamental_div_mod(bytes as int, step as int);
            vstd::arithmetic::div_mod::lemma_mod_pos_bound(bytes as int, step as int);
            assert(step * q >= step * 0x20_0000_0000_0000) by (nonlinear_arith)
                requires q >= 0x20_0000_0000_0000, step >= 1;
            assert(step * 2 * 0x10_0000_0000_0000 <= bytes);
        }
        q = q / 2;
        step = step * 2;
    }
    assert(f64_spacing(q as nat) == 1);
    assert(f64_spacing(bytes as nat) == step) by {
        assert(step * f64_spacing(q as nat) == step * 1);
    }
    proof {
        lemma_fundamental_div_mod(bytes as int, step as int);
        vstd::arithmetic::div_mod::lemma_mod_pos_bound(bytes as int, step as int);
        assert(step < 0x1000) by (nonlinear_arith)
            requires step == 1 || step * 0x10_0000_0000_0000 <= bytes, bytes < 0x1_0000_0000_0000_0000;
    }
    let rem: u64 = bytes - q * step;
    assert(rem == bytes as nat % step as nat);
    let rounded: u64 = if rem > step - rem || (rem == step - rem && q % 2 == 1) {
        q + 1
    } else {
        q
    };
    assert(rounded == div_round_even(bytes as nat, step as nat));
    proof {
        assert((rounded as int) * (step as int) <= 0x20_0000_0000_0000 * 0x1000) by (nonlinear_arith)
            requires rounded <= 0x20_0000_0000_0000, step <= 0x1000, rounded >= 0, step >= 0;
    }
    let v = (rounded as u128) * (step as u128);
    assert(v == div_round_even(bytes as nat, f64_spacing(bytes as nat)) * f64_spacing(bytes as nat));
    v
}

/// Shows a byte count in B, KB, MB, GB, TB or PB with one decimal, as
/// `spec_format_size` states.
pub fn format_size(bytes: u64) -> (r: String)
    ensures
        r@ == spec_format_size(bytes as nat),
{
    if bytes == 0 {
        let z = chars_of("0B");
        return string_of(&z);
    }
    let v = f64_value(bytes);
    let (u, d): (usize, u128) = if v < 1024 {
        (0, 1)
    } else if v < 1048576 {
        (1, 1024)
    } else if v < 1073741824 {
        (2, 1048576)
    } else if v < 1099511627776 {
        (3, 1073741824)
    } else if v < 1125899906842624 {
        (4, 1099511627776)
    } else {
        (5, 1125899906842624)
    };
    assert(u == size_unit(v as nat) && d == unit_scale(u as nat));
    let t = div_round_even_exec(10 * v, d);
    proof {
        if u < 5 {
            assert(10 * v < 10240 * d);
            assert((10 * v) / (d as int) < 10240) by {
                lemma_fundamental_div_mod(10 * v as int, d as int);
                vstd::arithmetic::div_mod::lemma_mod_pos_bound(10 * v as int, d as int);
                assert((d as int) * ((10 * v) / (d as int)) < (d as int) * 10240) by (nonlinear_arith)
                    requires (d as int) * ((10 * v) / (d as int)) <= 10 * v, 10 * v < 10240 * d;
                if (10 * v) / (d as int) >= 10240 {
                    assert((d as int) * ((10 * v) / (d as int)) >= (d as int) * 10240) by (nonlinear_arith)
                        requires (10 * v) / (d as int) >= 10240, d >= 1;
                }
            }
        } else {
            lemma_div_is_ordered(10 * v as int, 0x14_0000_0000_0000_0000, d as int);
            assert(0x14_0000_0000_0000_0000int / 1125899906842624int == 327680);
        }
    }
    let whole: u64 = (t / 10) as u64;
    let tenth: u64 = (t % 10) as u64;
    let mut out = decimal_chars(whole);
    let frac = decimal_chars(tenth);
    assert(frac@ == seq![digit_char(tenth as nat)]);
    extend_str(&mut out, ".");
    proof {
        reveal_strlit(".");
    }
    let ghost before = out@;
    out.push(frac[0]);
    extend_str(&mut out, unit_name_exec(u));
    assert(out@ =~= decimal((t / 10) as nat) + seq!['.', digit_char((t % 10) as nat)] + unit_name(u as nat));
    string_of(&out)
}

// ---------------------------------------------------------------------------
// Bounded directory walks
//
// The walks below read directories one entry at a time; the reading stays with
// the caller, and each decision it takes (whether to open a directory, whether an
// entry is recorded, whether the walk goes on) is made by these types.
// ---------------------------------------------------------------------------

/// Whether `k` is in `keys`.
fn contains_key(keys: &Vec<u64>, k: u64) -> (r: bool)
    ensures
        r == keys@.contains(k),
{
    let mut i: usize = 0;
    while i < keys.len()
        invariant
            i <= keys.len(),
            forall|j: int| 0 <= j < i ==> keys@[j] != k,
        decreases keys.len() - i,
    {
        if keys[i] == k {
            return true;
        }
        i = i + 1;
    }
    false
}

/// What the keys of the directories already opened become when one more is
/// opened: a key of 0 (no key could be had) is not remembered.
pub open spec fn remember(visited: Seq<u64>, key: u64) -> Seq<u64> {
    if key == 0 {
        visited
    } else {
        visited.push(key)
    }
}

/// Whether a directory is opened: within the depth bound, below the count
/// bound, and not opened before (by its key; a key of 0 never counts as seen).
pub open spec fn may_enter(visited: Seq<u64>, key: u64, depth: usize, max_depth: usize, count: usize, max: usize) -> bool {
    &&& depth <= max_depth
    &&& count <= max
    &&& (key == 0 || !visited.contains(key))
}

/// A directory with a key is read at most once in a walk: once it was entered,
/// entering it again is refused, whatever the depth and counts.
pub proof fn law_directory_entered_once(
    visited: Seq<u64>,
    key: u64,
    depth: usize,
    max_depth: usize,
    count: usize,
    max: usize,
)
    requires
        key != 0,
    ensures
        !may_enter(remember(visited, key), key, depth, max_depth, count, max),
{
    assert(remember(visited, key)[visited.len() as int] == key);
}

/// The running total of a size walk that stops after `max_files` files, as
/// `dir_size` does.
pub struct SizeWalk {
    total: u64,
    count: usize,
    visited: Vec<u64>,
    max_depth: usize,
    max_files: usize,
}

impl SizeWalk {
    pub closed spec fn spec_total(&self) -> u64 {
        self.total
    }

    pub closed spec fn spec_count(&self) -> usize {
        self.count
    }

    pub closed spec fn spec_visited(&self) -> Seq<u64> {
        self.visited@
    }

    pub closed spec fn spec_max_depth(&self) -> usize {
        self.max_depth
    }

    pub closed spec fn spec_max_files(&self) -> usize {
        self.max_files
    }

    /// A walk that has counted nothing yet.
    pub fn new(max_depth: usize, max_files: usize) -> (r: Self)
        ensures
            r.spec_total() == 0,
            r.spec_count() == 0,
            r.spec_visited() == Seq::<u64>::empty(),
            r.spec_max_depth() == max_depth,
            r.spec_max_files() == max_files,
    {
        SizeWalk { total: 0, count: 0, visited: Vec::new(), max_depth, max_files }
    }

    /// Whether the directory with `key` at `depth` is read; if so it is remembered.
    pub fn enter(&mut self, key: u64, depth: usize) -> (r: bool)
        ensures
            r == may_enter(old(self).spec_visited(), key, depth, old(self).spec_max_depth(),
                old(self).spec_count(), old(self).spec_max_files()),
            final(self).spec_visited() == (if r { remember(old(self).spec_visited(), key) } else {
                old(self).spec_visited()
            }),
            final(self).spec_total() == old(self).spec_total(),
            final(self).spec_count() == old(self).spec_count(),
            final(self).spec_max_depth() == old(self).spec_max_depth(),
            final(self).spec_max_files() == old(self).spec_max_files(),
    {
        if depth > self.max_depth || self.count > self.max_files {
            return false;
        }
        if key != 0 {
            if contains_key(&self.visited, key) {
                return false;
            }
            self.visited.push(key);
        }
        true
    }

    /// Counts one regular file of `size` bytes; the reading of its directory goes
    /// on while no more than `max_files` files have been counted.
    pub fn add_file(&mut self, size: u64) -> (r: bool)
        requires
            old(self).spec_total() + size <= u64::MAX,
            old(self).spec_count() < usize::MAX,
        ensures
            final(self).spec_total() == old(self).spec_total() + size,
            final(self).spec_count() == old(self).spec_count() + 1,
            r == (final(self).spec_count() <= old(self).spec_max_files()),
            final(self).spec_visited() == old(self).spec_visited(),
            final(self).spec_max_depth() == old(self).spec_max_depth(),
            final(self).spec_max_files() == old(self).spec_max_files(),
    {
        self.total = self.total + size;
        self.count = self.count + 1;
        self.count <= self.max_files
    }

    /// The bytes counted so far.
    pub fn total(&self) -> (r: u64)
        ensures
            r == self.spec_total(),
    {
        self.total
    }

    /// The files counted so far.
    pub fn count(&self) -> (r: usize)
        ensures
            r == self.spec_count(),
    {
        self.count
    }
}

/// What is done with one directory entry in `collect_entries`.
#[derive(PartialEq, Eq, Structural, Clone, Copy, Debug)]
pub enum Visit {
    /// Not recorded: a symbolic link or a hidden name.
    Skip,
    /// Recorded; the walk goes on with the next entry.
    Next,
    /// Recorded; a directory whose entries are walked next, one level deeper.
    Descend,
    /// Recorded, and the bound was passed: the reading of this directory ends.
    Stop,
}

/// A name that starts with a dot.
pub open spec fn is_hidden(name: Seq<char>) -> bool {
    name.len() > 0 && name[0] == '.'
}

/// No listed entry has a hidden name: what every walk's listing keeps.
pub open spec fn all_visible(es: Seq<(Seq<char>, usize, bool, u64)>) -> bool {
    forall|i: int| 0 <= i < es.len() ==> !is_hidden(#[trigger] es[i].0)
}

pub open spec fn entry_view(e: (String, usize, bool, u64)) -> (Seq<char>, usize, bool, u64) {
    (e.0@, e.1, e.2, e.3)
}

pub open spec fn entry_views(v: Seq<(String, usize, bool, u64)>) -> Seq<(Seq<char>, usize, bool, u64)> {
    v.map_values(|e: (String, usize, bool, u64)| entry_view(e))
}

/// The listing that `collect_entries` builds: each entry's name, depth, whether it
/// is a directory, and its size (0 for a directory).
pub struct EntryWalk {
    entries: Vec<(String, usize, bool, u64)>,
    count: usize,
    visited: Vec<u64>,
    max_depth: usize,
    max_entries: usize,
}

impl EntryWalk {
    pub closed spec fn spec_entries(&self) -> Seq<(Seq<char>, usize, bool, u64)> {
        entry_views(self.entries@)
    }

    pub closed spec fn spec_count(&self) -> usize {
        self.count
    }

    pub closed spec fn spec_visited(&self) -> Seq<u64> {
        self.visited@
    }

    pub closed spec fn spec_max_depth(&self) -> usize {
        self.max_depth
    }

    pub closed spec fn spec_max_entries(&self) -> usize {
        self.max_entries
    }

    /// A walk that has recorded nothing yet.
    pub fn new(max_depth: usize, max_entries: usize) -> (r: Self)
        ensures
            r.spec_entries() == Seq::<(Seq<char>, usize, bool, u64)>::empty(),
            all_visible(r.spec_entries()),
            r.spec_count() == 0,
            r.spec_visited() == Seq::<u64>::empty(),
            r.spec_max_depth() == max_depth,
            r.spec_max_entries() == max_entries,
    {
        let r = EntryWalk { entries: Vec::new(), count: 0, visited: Vec::new(), max_depth, max_entries };
        assert(r.spec_entries() =~= Seq::<(Seq<char>, usize, bool, u64)>::empty());
        r
    }

    /// Whether the path at `depth` is read as a directory; if so it is remembered.
    pub fn enter(&mut self, key: u64, depth: usize, is_dir: bool) -> (r: bool)
        ensures
            r == (is_dir && may_enter(old(self).spec_visited(), key, depth, old(self).spec_max_depth(),
                old(self).spec_count(), old(self).spec_max_entries())),
            final(self).spec_visited() == (if r { remember(old(self).spec_visited(), key) } else {
                old(self).spec_visited()
            }),
            final(self).spec_entries() == old(self).spec_entries(),
            final(self).spec_count() == old(self).spec_count(),
            final(self).spec_max_depth() == old(self).spec_max_depth(),
            final(self).spec_max_entries() == old(self).spec_max_entries(),
    {
        if depth > self.max_depth || !is_dir || self.count > self.max_entries {
            return false;
        }
        if key != 0 {
            if contains_key(&self.visited, key) {
                return false;
            }
            self.visited.push(key);
        }
        true
    }

    /// Decides on one entry found at `depth`: symbolic links and hidden names are
    /// skipped; any other is recorded (a directory with size 0).
    pub fn visit(&mut self, name: String, depth: usize, is_dir: bool, is_symlink: bool, size: u64) -> (r: Visit)
        requires
            !(is_symlink || is_hidden(name@)) ==> old(self).spec_count() < usize::MAX,
        ensures
            (is_symlink || is_hidden(name@)) ==> r == Visit::Skip && *final(self) == *old(self),
            !(is_symlink || is_hidden(name@)) ==> {
                &&& final(self).spec_entries() == old(self).spec_entries().push(
                    (name@, depth, is_dir, if is_dir { 0u64 } else { size }))
                &&& final(self).spec_count() == old(self).spec_count() + 1
                &&& (all_visible(old(self).spec_entries()) ==> all_visible(final(self).spec_entries()))
                &&& final(self).spec_visited() == old(self).spec_visited()
                &&& final(self).spec_max_depth() == old(self).spec_max_depth()
                &&& final(self).spec_max_entries() == old(self).spec_max_entries()
                &&& r == (if final(self).spec_count() > old(self).spec_max_entries() {
                    Visit::Stop
                } else if is_dir {
                    Visit::Descend
                } else {
                    Visit::Next
                })
            },
    {
        if is_symlink {
            return Visit::Skip;
        }
        let n = chars_of(name.as_str());
        if n.len() > 0 && n[0] == '.' {
            return Visit::Skip;
        }
        let ghost before = self.entries@;
        let sz: u64 = if is_dir { 0 } else { size };
        self.entries.push((name, depth, is_dir, sz));
        self.count = self.count + 1;
        assert(entry_views(self.entries@) =~= entry_views(before).push(entry_view(self.entries@.last())));
        if self.count > self.max_entries {
            Visit::Stop
        } else if is_dir {
            Visit::Descend
        } else {
            Visit::Next
        }
    }

    /// The entries recorded, in the order they were found.
    pub fn into_entries(self) -> (r: Vec<(String, usize, bool, u64)>)
        ensures
            entry_views(r@) == self.spec_entries(),
    {
        self.entries
    }
}

// ---------------------------------------------------------------------------
// Project files
// ---------------------------------------------------------------------------

/// The names under which a project's read-me is looked for, in order.
pub open spec fn readme_names() -> Seq<Seq<char>> {
    seq!["README.md"@, "Readme.md"@, "readme.md"@, "README"@, "README.txt"@]
}

/// The configuration files that `scan_configs` reports, in order.
pub open spec fn config_names() -> Seq<Seq<char>> {
    seq!["Cargo.toml"@, "package.json"@, "pyproject.toml"@, "go.mod"@, "build.gradle"@, "CMakeLists.txt"@]
}

fn readme_names_exec() -> (r: Vec<&'static str>)
    ensures
        str_views(r@) == readme_names(),
        r.len() == 5,
{
    let r = vec!["README.md", "Readme.md", "readme.md", "README", "README.txt"];
    assert(str_views(r@) =~= readme_names());
    r
}

fn config_names_exec() -> (r: Vec<&'static str>)
    ensures
        str_views(r@) == config_names(),
        r.len() == 6,
{
    let r = vec!["Cargo.toml", "package.json", "pyproject.toml", "go.mod", "build.gradle", "CMakeLists.txt"];
    assert(str_views(r@) =~= config_names());
    r
}

/// The first position below `n` where `exists` holds.
pub open spec fn first_present(exists: Seq<bool>, n: int) -> Option<int>
    decreases n,
{
    if n <= 0 {
        None
    } else {
        match first_present(exists, n - 1) {
            Some(i) => Some(i),
            None => if n - 1 < exists.len() && exists[n - 1] {
                Some(n - 1)
            } else {
                None
            },
        }
    }
}

proof fn lemma_first_present_stable(exists: Seq<bool>, i: int, n: int)
    requires
        i <= n,
        first_present(exists, i) is Some,
    ensures
        first_present(exists, n) == first_present(exists, i),
    decreases n - i,
{
    if i < n {
        lemma_first_present_stable(exists, i, n - 1);
    }
}

/// The read-me of a project: the first of `readme_names()` that exists, where
/// `exists[i]` tells whether the `i`-th name exists in the project's root.
pub fn find_readme(exists: &Vec<bool>) -> (r: Option<&'static str>)
    ensures
        match first_present(exists@, 5) {
            Some(i) => r matches Some(n) && n@ == readme_names()[i],
            None => r is None,
        },
{
    let names = readme_names_exec();
    let mut i: usize = 0;
    while i < 5
        invariant
            i <= 5,
            str_views(names@) == readme_names(),
            names.len() == 5,
            first_present(exists@, i as int) is None,
        decreases 5 - i,
    {
        if i < exists.len() && exists[i] {
            assert(str_views(names@)[i as int] == names@[i as int]@);
            assert(first_present(exists@, i + 1) == Some(i as int));
            proof {
                lemma_first_present_stable(exists@, i + 1, 5);
            }
            return Some(names[i]);
        }
        i = i + 1;
    }
    None
}

/// The names of `config_names()` that exist, where `exists[i]` tells whether the
/// `i`-th name exists in the project's root; in the order of `config_names()`.
pub open spec fn present_configs(exists: Seq<bool>, n: int) -> Seq<Seq<char>>
    decreases n,
{
    if n <= 0 {
        seq![]
    } else {
        present_configs(exists, n - 1) + if n - 1 < exists.len() && exists[n - 1] {
            seq![config_names()[n - 1]]
        } else {
            seq![]
        }
    }
}

/// The configuration files a project has, as `present_configs` states.
pub fn scan_configs(exists: &Vec<bool>) -> (r: Vec<String>)
    ensures
        string_views(r@) == present_configs(exists@, 6),
{
    let names = config_names_exec();
    let mut out: Vec<String> = Vec::new();
    let mut i: usize = 0;
    while i < 6
        invariant
            i <= 6,
            str_views(names@) == config_names(),
            names.len() == 6,
            string_views(out@) == present_configs(exists@, i as int),
        decreases 6 - i,
    {
        if i < exists.len() && exists[i] {
            assert(str_views(names@)[i as int] == names@[i as int]@);
            let ghost before = out@;
            out.push(String::from_str(names[i]));
            assert(string_views(out@) =~= string_views(before).push(config_names()[i as int]));
        } else {
            assert(present_configs(exists@, i + 1) =~= present_configs(exists@, i as int));
        }
        i = i + 1;
    }
    out
}

// ---------------------------------------------------------------------------
// Clean-up of generated files
// ---------------------------------------------------------------------------

/// A file name against a clean-up pattern: `*` and a suffix matches names that end
/// in the suffix; any other pattern matches only itself.
pub open spec fn name_matches(name: Seq<char>, pat: Seq<char>) -> bool {
    if pat.len() > 0 && pat[0] == '*' {
        ends_with(name, pat.drop_first())
    } else {
        name == pat
    }
}

pub open spec fn candidate_views(v: Seq<(String, String)>) -> Seq<(Seq<char>, Seq<char>)> {
    v.map_values(|c: (String, String)| (c.0@, c.1@))
}

/// The seconds a file must be old to be removed: `days` days, or no file at all
/// for 0 days (the greatest `u64`), as the clean-up tool computes it.
pub open spec fn spec_max_age(days: u64) -> u64 {
    if days > 0 {
        if days * 86400 > u64::MAX { u64::MAX } else { (days * 86400) as u64 }
    } else {
        u64::MAX
    }
}

pub fn cleanup_max_age(days: u64) -> (r: u64)
    ensures
        r == spec_max_age(days),
{
    if days > 0 {
        if days > u64::MAX / 86400 {
            u64::MAX
        } else {
            days * 86400
        }
    } else {
        u64::MAX
    }
}

/// The file patterns the clean-up tool looks for when none are given.
pub fn default_cleanup_patterns() -> (r: Vec<String>)
    ensures
        string_views(r@) == seq!["*.tmp"@, "*.temp"@, "*.log"@, "*.bak"@, "*.swp"@,
            "*.swo"@, "*.pyc"@, "__pycache__"@, ".DS_Store"@, "Thumbs.db"@],
{
    let r = vec![
        String::from_str("*.tmp"),
        String::from_str("*.temp"),
        String::from_str("*.log"),
        String::from_str("*.bak"),
        String::from_str("*.swp"),
        String::from_str("*.swo"),
        String::from_str("*.pyc"),
        String::from_str("__pycache__"),
        String::from_str(".DS_Store"),
        String::from_str("Thumbs.db"),
    ];
    assert(string_views(r@) =~= seq!["*.tmp"@, "*.temp"@, "*.log"@, "*.bak"@, "*.swp"@,
        "*.swo"@, "*.pyc"@, "__pycache__"@, ".DS_Store"@, "Thumbs.db"@]);
    r
}

/// The directory names the clean-up tool removes whole when none are given.
pub fn default_cleanup_dir_patterns() -> (r: Vec<String>)
    ensures
        string_views(r@) == seq!["node_modules"@, ".next"@, ".turbo"@, "dist"@, "build"@,
            ".cache"@],
{
    let r = vec![
        String::from_str("node_modules"),
        String::from_str(".next"),
        String::from_str(".turbo"),
        String::from_str("dist"),
        String::from_str("build"),
        String::from_str(".cache"),
    ];
    assert(string_views(r@) =~= seq!["node_modules"@, ".next"@, ".turbo"@, "dist"@,
        "build"@, ".cache"@]);
    r
}

/// The candidates of a clean-up walk: files that match a pattern and are old
/// enough, and directories whose name is one of the directory patterns.
pub struct CleanupContext {
    patterns: Vec<String>,
    dir_patterns: Vec<String>,
    candidates: Vec<(String, String)>,
    total_size: u64,
    now: u64,
    max_age: u64,
    max_depth: usize,
    visited: Vec<u64>,
}

impl CleanupContext {
    pub closed spec fn spec_patterns(&self) -> Seq<Seq<char>> {
        string_views(self.patterns@)
    }

    pub closed spec fn spec_dir_patterns(&self) -> Seq<Seq<char>> {
        string_views(self.dir_patterns@)
    }

    pub closed spec fn spec_candidates(&self) -> Seq<(Seq<char>, Seq<char>)> {
        candidate_views(self.candidates@)
    }

    pub closed spec fn spec_total_size(&self) -> u64 {
        self.total_size
    }

    pub closed spec fn spec_now(&self) -> u64 {
        self.now
    }

    pub closed spec fn spec_max_age(&self) -> u64 {
        self.max_age
    }

    pub closed spec fn spec_max_depth(&self) -> usize {
        self.max_depth
    }

    pub closed spec fn spec_visited(&self) -> Seq<u64> {
        self.visited@
    }

    /// The parts of the context that no step of a walk changes.
    pub open spec fn same_settings(&self, other: &Self) -> bool {
        &&& self.spec_patterns() == other.spec_patterns()
        &&& self.spec_dir_patterns() == other.spec_dir_patterns()
        &&& self.spec_now() == other.spec_now()
        &&& self.spec_max_age() == other.spec_max_age()
        &&& self.spec_max_depth() == other.spec_max_depth()
    }

    pub fn new(patterns: Vec<String>, dir_patterns: Vec<String>, now: u64, max_age: u64, max_depth: usize) -> (r: Self)
        ensures
            r.spec_patterns() == string_views(patterns@),
            r.spec_dir_patterns() == string_views(dir_patterns@),
            r.spec_candidates() == Seq::<(Seq<char>, Seq<char>)>::empty(),
            r.spec_total_size() == 0,
            r.spec_now() == now,
            r.spec_max_age() == max_age,
            r.spec_max_depth() == max_depth,
            r.spec_visited() == Seq::<u64>::empty(),
    {
        let r = CleanupContext {
            patterns,
            dir_patterns,
            candidates: Vec::new(),
            total_size: 0,
            now,
            max_age,
            max_depth,
            visited: Vec::new(),
        };
        assert(r.spec_candidates() =~= Seq::<(Seq<char>, Seq<char>)>::empty());
        r
    }

    /// Starts a walk: no directory counts as opened yet.
    pub fn begin_walk(&mut self)
        ensures
            final(self).spec_visited() == Seq::<u64>::empty(),
            final(self).same_settings(old(self)),
            final(self).spec_candidates() == old(self).spec_candidates(),
            final(self).spec_total_size() == old(self).spec_total_size(),
    {
        self.visited = Vec::new();
    }

    /// Whether the directory with `key` at `depth` is read; if so it is remembered.
    pub fn enter(&mut self, key: u64, depth: usize) -> (r: bool)
        ensures
            r == (depth <= old(self).spec_max_depth() && (key == 0 || !old(self).spec_visited().contains(key))),
            final(self).spec_visited() == (if r { remember(old(self).spec_visited(), key) } else {
                old(self).spec_visited()
            }),
            final(self).same_settings(old(self)),
            final(self).spec_candidates() == old(self).spec_candidates(),
            final(self).spec_total_size() == old(self).spec_total_size(),
    {
        if depth > self.max_depth {
            return false;
        }
        if key != 0 {
            if contains_key(&self.visited, key) {
                return false;
            }
            self.visited.push(key);
        }
        true
    }

    /// Whether a directory of this name is removed whole (else it is walked).
    pub fn is_dir_candidate(&self, name: &str) -> (r: bool)
        ensures
            r == self.spec_dir_patterns().contains(name@),
    {
        let n = chars_of(name);
        let mut i: usize = 0;
        while i < self.dir_patterns.len()
            invariant
                i <= self.dir_patterns.len(),
                n@ == name@,
                forall|j: int| 0 <= j < i ==> self.spec_dir_patterns()[j] != name@,
            decreases self.dir_patterns.len() - i,
        {
            let d = chars_of(self.dir_patterns[i].as_str());
            if equal_chars(&n, &d) {
                assert(self.spec_dir_patterns()[i as int] == name@);
                return true;
            }
            i = i + 1;
        }
        false
    }

    /// Whether a file of this name matches one of the file patterns.
    pub fn matches_file(&self, name: &str) -> (r: bool)
        ensures
            r == exists|j: int| 0 <= j < self.spec_patterns().len() && #[trigger] name_matches(name@, self.spec_patterns()[j]),
    {
        let n = chars_of(name);
        let mut i: usize = 0;
        while i < self.patterns.len()
            invariant
                i <= self.patterns.len(),
                n@ == name@,
                forall|j: int| 0 <= j < i ==> !#[trigger] name_matches(name@, self.spec_patterns()[j]),
            decreases self.patterns.len() - i,
        {
            let p = chars_of(self.patterns[i].as_str());
            assert(p@ == self.spec_patterns()[i as int]);
            let hit = if p.len() > 0 && p[0] == '*' {
                let mut suffix: Vec<char> = Vec::new();
                let mut k: usize = 1;
                while k < p.len()
                    invariant
                        1 <= k <= p.len(),
                        suffix@ == p@.subrange(1, k as int),
                    decreases p.len() - k,
                {
                    suffix.push(p[k]);
                    k = k + 1;
                }
                assert(suffix@ =~= p@.drop_first());
                ends_with_chars(&n, &suffix)
            } else {
                equal_chars(&n, &p)
            };
            if hit {
                assert(name_matches(name@, self.spec_patterns()[i as int]));
                return true;
            }
            i = i + 1;
        }
        false
    }

    /// Records a directory removed whole, with the bytes it holds.
    pub fn add_dir(&mut self, path: String, size: u64)
        requires
            old(self).spec_total_size() + size <= u64::MAX,
        ensures
            final(self).spec_candidates() == old(self).spec_candidates().push((path@, "dir"@)),
            final(self).spec_total_size() == old(self).spec_total_size() + size,
            final(self).same_settings(old(self)),
            final(self).spec_visited() == old(self).spec_visited(),
    {
        let ghost before = self.candidates@;
        self.candidates.push((path, String::from_str("dir")));
        self.total_size = self.total_size + size;
        assert(candidate_views(self.candidates@) =~= candidate_views(before).push((path@, "dir"@)));
    }

    /// Whether a file last modified at `modified` (seconds since the epoch) is old
    /// enough to be removed: at least `max_age` seconds have passed since, up to
    /// `now` (none when `modified` lies after `now`).
    pub open spec fn spec_old_enough(&self, modified: u64) -> bool {
        (if self.spec_now() >= modified { self.spec_now() - modified } else { 0 }) >= self.spec_max_age()
    }

    pub fn is_old_enough(&self, modified: u64) -> (r: bool)
        ensures
            r == self.spec_old_enough(modified),
    {
        let aged = if self.now >= modified { self.now - modified } else { 0 };
        aged >= self.max_age
    }

    /// A file that matched a pattern, last modified at `modified`: recorded, with its
    /// size, when it is old enough. Whether it was recorded is returned.
    pub fn consider_file(&mut self, path: String, modified: u64, size: u64) -> (r: bool)
        requires
            old(self).spec_old_enough(modified) ==> old(self).spec_total_size() + size <= u64::MAX,
        ensures
            r == old(self).spec_old_enough(modified),
            final(self).spec_candidates() == (if r {
                old(self).spec_candidates().push((path@, "file"@))
            } else {
                old(self).spec_candidates()
            }),
            final(self).spec_total_size() == (if r { old(self).spec_total_size() + size } else {
                old(self).spec_total_size() as int
            }),
            final(self).same_settings(old(self)),
            final(self).spec_visited() == old(self).spec_visited(),
    {
        if self.is_old_enough(modified) {
            let ghost before = self.candidates@;
            self.candidates.push((path, String::from_str("file")));
            self.total_size = self.total_size + size;
            assert(candidate_views(self.candidates@) =~= candidate_views(before).push((path@, "file"@)));
            true
        } else {
            false
        }
    }

    /// The candidates found, each with its kind ("file" or "dir").
    pub fn candidates(&self) -> (r: &Vec<(String, String)>)
        ensures
            candidate_views(r@) == self.spec_candidates(),
    {
        &self.candidates
    }

    /// The bytes the candidates hold.
    pub fn total_size(&self) -> (r: u64)
        ensures
            r == self.spec_total_size(),
    {
        self.total_size
    }
}

} // verus!
