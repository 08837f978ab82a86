//! The manifest model: a declarative description of desired packages,
//! options, hooks, and environment variables, parsed from manifest text.
//!
//! The text format is TOML; the `toml` crate does the parsing.  The model
//! keeps, as plain values, exactly what the engine reads: the declared
//! `version` tag, the `install` table's entries, and the rendered `hook`,
//! `vars` and `options.systems` sections.

use vstd::prelude::*;

use crate::error::CoreEnvironmentError;

verus! {

/// Whether the text parses as TOML.
pub uninterp spec fn toml_ok(s: Seq<char>) -> bool;

/// The top-level `version` integer of the text, when the text parses.
pub uninterp spec fn toml_version(s: Seq<char>) -> Option<i64>;

/// The rendered `hook` section of the text, when the text parses.
pub uninterp spec fn toml_hook(s: Seq<char>) -> Option<Seq<char>>;

/// The rendered `vars` section of the text, when the text parses.
pub uninterp spec fn toml_vars(s: Seq<char>) -> Option<Seq<char>>;

/// The rendered `options.systems` list of the text, when the text parses.
pub uninterp spec fn toml_systems(s: Seq<char>) -> Option<Seq<char>>;

/// The `install` table of the text as (install-id, rendered descriptor)
/// pairs in table order, when the text parses; empty when the table is
/// absent.
pub uninterp spec fn toml_install(s: Seq<char>) -> Seq<(Seq<char>, Seq<char>)>;

/// Relies on `toml::from_str::<toml::Table>` and `toml::Value::as_integer`:
/// parsing succeeds exactly when the text is valid TOML, and the result is
/// the top-level `version` integer, a function of the text alone.
#[verifier::external_body]
fn toml_read_version(s: &String) -> (r: Result<Option<i64>, String>)
    ensures
        r is Ok <==> toml_ok(s@),
        r matches Ok(v) ==> v == toml_version(s@),
{
    match toml::from_str::<toml::Table>(s) {
        Err(e) => Err(e.to_string()),
        Ok(t) => Ok(t.get("version").and_then(toml::Value::as_integer)),
    }
}

/// Relies on `toml::from_str::<toml::Table>` and the `toml::Value` display
/// serializer: the rendered `hook` section, a function of the text alone.
#[verifier::external_body]
fn toml_read_hook(s: &String) -> (r: Result<Option<String>, String>)
    ensures
        r is Ok <==> toml_ok(s@),
        r matches Ok(v) ==> opt_string_view(&v) == toml_hook(s@),
{
    match toml::from_str::<toml::Table>(s) {
        Err(e) => Err(e.to_string()),
        Ok(t) => Ok(t.get("hook").map(toml::Value::to_string)),
    }
}

/// Relies on `toml::from_str::<toml::Table>` and the `toml::Value` display
/// serializer: the rendered `vars` section, a function of the text alone.
#[verifier::external_body]
fn toml_read_vars(s: &String) -> (r: Result<Option<String>, String>)
    ensures
        r is Ok <==> toml_ok(s@),
        r matches Ok(v) ==> opt_string_view(&v) == toml_vars(s@),
{
    match toml::from_str::<toml::Table>(s) {
        Err(e) => Err(e.to_string()),
        Ok(t) => Ok(t.get("vars").map(toml::Value::to_string)),
    }
}

/// Relies on `toml::from_str::<toml::Table>`, `toml::Value::as_table` and
/// the `toml::Value` display serializer: the rendered `options.systems`
/// list, a function of the text alone.
#[verifier::external_body]
fn toml_read_systems(s: &String) -> (r: Result<Option<String>, String>)
    ensures
        r is Ok <==> toml_ok(s@),
        r matches Ok(v) ==> opt_string_view(&v) == toml_systems(s@),
{
    match toml::from_str::<toml::Table>(s) {
        Err(e) => Err(e.to_string()),
        Ok(t) => {
            let opts = match t.get("options") {
                Some(v) => v.as_table(),
                None => None,
            };
            let systems = match opts {
                Some(o) => o.get("systems"),
                None => None,
            };
            Ok(systems.map(toml::Value::to_string))
        },
    }
}

/// Relies on `toml::from_str::<toml::Table>`, `toml::Value::as_table` and
/// the `toml::Value` display serializer: the `install` table's entries as
/// (install-id, rendered descriptor) pairs, a function of the text alone.
#[verifier::external_body]
fn toml_read_install(s: &String) -> (r: Result<Vec<(String, String)>, String>)
    ensures
        r is Ok <==> toml_ok(s@),
        r matches Ok(v) ==> v@.map_values(|p: (String, String)| (p.0@, p.1@))
            == toml_install(s@),
{
    match toml::from_str::<toml::Table>(s) {
        Err(e) => Err(e.to_string()),
        Ok(t) => {
            let tbl = match t.get("install") {
                Some(v) => v.as_table(),
                None => None,
            };
            match tbl {
                None => Ok(Vec::new()),
                Some(tb) => Ok(tb.iter().map(|(k, v)| (k.clone(), v.to_string())).collect()),
            }
        },
    }
}

/// The view of an `Option<String>` as an optional character sequence.
pub open spec fn opt_string_view(o: &Option<String>) -> Option<Seq<char>> {
    match o {
        Some(s) => Some(s@),
        None => None,
    }
}

/// Mathematical model of a parsed manifest.
pub struct ManifestV {
    pub version: Option<i64>,
    pub install: Seq<(Seq<char>, Seq<char>)>,
    pub systems: Option<Seq<char>>,
    pub hook: Option<Seq<char>>,
    pub vars: Option<Seq<char>>,
}

/// The manifest a given text parses to.
pub open spec fn spec_manifest(s: Seq<char>) -> ManifestV {
    ManifestV {
        version: toml_version(s),
        install: toml_install(s),
        systems: toml_systems(s),
        hook: toml_hook(s),
        vars: toml_vars(s),
    }
}

/// A parsed manifest: the declared version tag, the `install` table as
/// (install-id, rendered descriptor) pairs, and the rendered `options.systems`,
/// `hook` and `vars` sections.
#[derive(Debug)]
pub struct Manifest {
    pub version: Option<i64>,
    pub install: Vec<(String, String)>,
    pub systems: Option<String>,
    pub hook: Option<String>,
    pub vars: Option<String>,
}

impl View for Manifest {
    type V = ManifestV;

    open spec fn view(&self) -> ManifestV {
        ManifestV {
            version: self.version,
            install: self.install@.map_values(|p: (String, String)| (p.0@, p.1@)),
            systems: opt_string_view(&self.systems),
            hook: opt_string_view(&self.hook),
            vars: opt_string_view(&self.vars),
        }
    }
}

impl ManifestV {
    /// A manifest is a catalog manifest exactly when it declares `version = 1`;
    /// it is a legacy manifest when the tag is absent or another value.
    pub open spec fn is_catalog(self) -> bool {
        self.version == Some(1i64)
    }
}

impl Manifest {
    /// Whether this manifest must be resolved by the catalog client.
    pub fn is_catalog(&self) -> (r: bool)
        ensures
            r == self@.is_catalog(),
    {
        match self.version {
            Some(v) => v == 1i64,
            None => false,
        }
    }
}

/// Compare two optional strings by their contents.
pub fn opt_string_eq(a: &Option<String>, b: &Option<String>) -> (r: bool)
    ensures
        r == (opt_string_view(a) == opt_string_view(b)),
{
    match (a, b) {
        (None, None) => true,
        (Some(x), Some(y)) => *x == *y,
        _ => false,
    }
}

/// Clone an optional string.
pub fn clone_opt_string(o: &Option<String>) -> (r: Option<String>)
    ensures
        r == *o,
{
    match o {
        Some(s) => Some(s.clone()),
        None => None,
    }
}

/// Clone a list of string pairs.
pub fn clone_string_pairs(v: &Vec<(String, String)>) -> (r: Vec<(String, String)>)
    ensures
        r@ == v@,
{
    let mut out: Vec<(String, String)> = Vec::new();
    let mut i: usize = 0;
    while i < v.len()
        invariant
            i <= v.len(),
            out@ == v@.subrange(0, i as int),
        decreases v.len() - i,
    {
        let p = (v[i].0.clone(), v[i].1.clone());
        assert(p == v@[i as int]);
        out.push(p);
        assert(out@ =~= v@.subrange(0, i as int + 1));
        i = i + 1;
    }
    assert(out@ =~= v@);
    out
}

impl Clone for Manifest {
    fn clone(&self) -> (res: Self)
        ensures
            res@ == self@,
    {
        Manifest {
            version: self.version,
            install: clone_string_pairs(&self.install),
            systems: clone_opt_string(&self.systems),
            hook: clone_opt_string(&self.hook),
            vars: clone_opt_string(&self.vars),
        }
    }
}

/// Parse manifest text into the manifest model.
///
/// Succeeds exactly when the text is valid TOML; the failure is a
/// `DeserializeManifest` error carrying the parser's message.
pub fn parse_manifest(s: &String) -> (r: Result<Manifest, CoreEnvironmentError>)
    ensures
        r is Ok <==> toml_ok(s@),
        r matches Ok(m) ==> m@ == spec_manifest(s@),
        r matches Err(e) ==> e matches CoreEnvironmentError::DeserializeManifest(_),
{
    let version = match toml_read_version(s) {
        Ok(v) => v,
        Err(e) => {
            return Err(CoreEnvironmentError::DeserializeManifest(e));
        },
    };
    let hook = match toml_read_hook(s) {
        Ok(v) => v,
        Err(e) => {
            return Err(CoreEnvironmentError::DeserializeManifest(e));
        },
    };
    let vars = match toml_read_vars(s) {
        Ok(v) => v,
        Err(e) => {
            return Err(CoreEnvironmentError::DeserializeManifest(e));
        },
    };
    let systems = match toml_read_systems(s) {
        Ok(v) => v,
        Err(e) => {
            return Err(CoreEnvironmentError::DeserializeManifest(e));
        },
    };
    let install = match toml_read_install(s) {
        Ok(v) => v,
        Err(e) => {
            return Err(CoreEnvironmentError::DeserializeManifest(e));
        },
    };
    let m = Manifest { version, install, systems, hook, vars };
    assert(m@ =~= spec_manifest(s@));
    Ok(m)
}

/// A package a caller asks to install: the install-id for the manifest's
/// `install` table, the package's attribute path, and an optional version
/// constraint.
#[derive(Debug)]
pub struct PackageToInstall {
    pub id: String,
    pub pkg_path: String,
    pub version: Option<String>,
}

/// Mathematical model of an installation request.
pub struct PackageToInstallV {
    pub id: Seq<char>,
    pub pkg_path: Seq<char>,
    pub version: Option<Seq<char>>,
}

impl View for PackageToInstall {
    type V = PackageToInstallV;

    open spec fn view(&self) -> PackageToInstallV {
        PackageToInstallV {
            id: self.id@,
            pkg_path: self.pkg_path@,
            version: opt_string_view(&self.version),
        }
    }
}

impl Clone for PackageToInstall {
    fn clone(&self) -> (res: Self)
        ensures
            res@ == self@,
    {
        PackageToInstall {
            id: self.id.clone(),
            pkg_path: self.pkg_path.clone(),
            version: clone_opt_string(&self.version),
        }
    }
}

/// The manifest text split at newlines; a text ending in a newline yields
/// a final empty line, so joining the lines with newlines restores the
/// text exactly.
pub open spec fn spec_split_lines(s: Seq<char>) -> Seq<Seq<char>>
    decreases s.len(),
{
    if s.len() == 0 {
        seq![Seq::<char>::empty()]
    } else if s.first() == '\n' {
        seq![Seq::<char>::empty()] + spec_split_lines(s.drop_first())
    } else {
        seq![seq![s.first()] + spec_split_lines(s.drop_first()).first()] + spec_split_lines(
            s.drop_first(),
        ).drop_first()
    }
}

/// Lines joined with newlines.
pub open spec fn spec_join_lines(lines: Seq<Seq<char>>) -> Seq<char>
    decreases lines.len(),
{
    if lines.len() == 0 {
        Seq::empty()
    } else if lines.len() == 1 {
        lines.first()
    } else {
        lines.first() + seq!['\n'] + spec_join_lines(lines.drop_first())
    }
}

/// Splitting never yields an empty line list.
proof fn lemma_split_nonempty(s: Seq<char>)
    ensures
        spec_split_lines(s).len() >= 1,
    decreases s.len(),
{
    if s.len() > 0 && s.first() != '\n' {
        lemma_split_nonempty(s.drop_first());
    }
}

/// How splitting relates to the first newline: with none, the text is one
/// line; otherwise the text up to it is the first line and the rest splits
/// on its own.
proof fn lemma_split_step(s: Seq<char>, i: int)
    requires
        0 <= i <= s.len(),
        forall|j: int| 0 <= j < i ==> s[j] != '\n',
    ensures
        i == s.len() ==> spec_split_lines(s) == seq![s],
        i < s.len() && s[i] == '\n' ==> spec_split_lines(s) == seq![s.subrange(0, i)]
            + spec_split_lines(s.subrange(i + 1, s.len() as int)),
    decreases i,
{
    lemma_split_nonempty(s);
    if i == 0 {
        if i == s.len() {
            assert(s =~= Seq::<char>::empty());
            assert(spec_split_lines(s) =~= seq![s]);
        } else if s[0] == '\n' {
            assert(s.drop_first() =~= s.subrange(1, s.len() as int));
            assert(s.subrange(0, 0) =~= Seq::<char>::empty());
            assert(spec_split_lines(s) =~= seq![s.subrange(0, 0)] + spec_split_lines(
                s.subrange(1, s.len() as int),
            ));
        }
    } else {
        let rest = s.drop_first();
        lemma_split_nonempty(rest);
        lemma_split_step(rest, i - 1);
        if i == s.len() {
            assert(spec_split_lines(rest) == seq![rest]);
            assert(seq![s.first()] + rest =~= s);
            assert(spec_split_lines(s) =~= seq![s]);
        } else if s[i] == '\n' {
            assert(rest[i - 1] == '\n');
            assert(spec_split_lines(rest) == seq![rest.subrange(0, i - 1)] + spec_split_lines(
                rest.subrange(i, rest.len() as int),
            ));
            assert(rest.subrange(i, rest.len() as int) =~= s.subrange(i + 1, s.len() as int));
            assert(seq![s.first()] + rest.subrange(0, i - 1) =~= s.subrange(0, i));
            assert((seq![rest.subrange(0, i - 1)] + spec_split_lines(
                rest.subrange(i, rest.len() as int),
            )).first() == rest.subrange(0, i - 1));
            assert((seq![rest.subrange(0, i - 1)] + spec_split_lines(
                rest.subrange(i, rest.len() as int),
            )).drop_first() =~= spec_split_lines(rest.subrange(i, rest.len() as int)));
            assert(spec_split_lines(s) =~= seq![s.subrange(0, i)] + spec_split_lines(
                s.subrange(i + 1, s.len() as int),
            ));
        }
    }
}

/// Joining after adding one more line appends a newline and the line.
proof fn lemma_join_push(lines: Seq<Seq<char>>, x: Seq<char>)
    requires
        lines.len() >= 1,
    ensures
        spec_join_lines(lines.push(x)) == spec_join_lines(lines) + seq!['\n'] + x,
    decreases lines.len(),
{
    if lines.len() == 1 {
        assert(lines.push(x).drop_first() =~= seq![x]);
        assert(spec_join_lines(seq![x]) == x);
        assert(spec_join_lines(lines.push(x)) == lines.first() + seq!['\n'] + x);
        assert(spec_join_lines(lines) == lines.first());
    } else {
        lemma_join_push(lines.drop_first(), x);
        assert(lines.push(x).drop_first() =~= lines.drop_first().push(x));
        assert(spec_join_lines(lines.push(x)) == lines.first() + seq!['\n'] + (spec_join_lines(
            lines.drop_first(),
        ) + seq!['\n'] + x));
        assert(lines.first() + seq!['\n'] + (spec_join_lines(lines.drop_first()) + seq!['\n'] + x)
            =~= (lines.first() + seq!['\n'] + spec_join_lines(lines.drop_first())) + seq!['\n']
            + x);
    }
}

/// Split manifest text into its lines.
pub fn split_lines(s: &String) -> (r: Vec<String>)
    ensures
        r@.map_values(|x: String| x@) == spec_split_lines(s@),
{
    let text = s.as_str();
    let n = text.unicode_len();
    let mut out: Vec<String> = Vec::new();
    let mut start: usize = 0;
    let mut i: usize = 0;
    proof {
        assert(s@.subrange(0, n as int) =~= s@);
        assert(out@.map_values(|x: String| x@) + spec_split_lines(s@) =~= spec_split_lines(s@));
    }
    while i < n
        invariant
            0 <= start <= i <= n,
            n == s@.len(),
            text@ == s@,
            forall|j: int| start <= j < i ==> s@[j] != '\n',
            spec_split_lines(s@) == out@.map_values(|x: String| x@) + spec_split_lines(
                s@.subrange(start as int, n as int),
            ),
        decreases n - i,
    {
        let c = text.get_char(i);
        if c == '\n' {
            let ghost out0 = out@.map_values(|x: String| x@);
            let line = text.substring_char(start, i).to_owned();
            proof {
                let suffix = s@.subrange(start as int, n as int);
                lemma_split_step(suffix, i - start);
                assert(suffix.subrange(0, i - start) =~= s@.subrange(start as int, i as int));
                assert(suffix.subrange(i - start + 1, suffix.len() as int) =~= s@.subrange(
                    i as int + 1,
                    n as int,
                ));
            }
            out.push(line);
            proof {
                assert(out@.map_values(|x: String| x@) =~= out0 + seq![
                    s@.subrange(start as int, i as int),
                ]);
                assert(out@.map_values(|x: String| x@) + spec_split_lines(
                    s@.subrange(i as int + 1, n as int),
                ) =~= (out0 + seq![s@.subrange(start as int, i as int)]) + spec_split_lines(
                    s@.subrange(i as int + 1, n as int),
                ));
            }
            start = i + 1;
        }
        i = i + 1;
    }
    let last = text.substring_char(start, n).to_owned();
    proof {
        let suffix = s@.subrange(start as int, n as int);
        lemma_split_step(suffix, n - start);
        assert(spec_split_lines(suffix) == seq![suffix]);
    }
    out.push(last);
    proof {
        assert(out@.map_values(|x: String| x@) =~= spec_split_lines(s@));
    }
    out
}

/// Join lines back into manifest text.
pub fn join_lines(lines: &Vec<String>) -> (r: String)
    requires
        lines@.len() >= 1,
    ensures
        r@ == spec_join_lines(lines@.map_values(|x: String| x@)),
{
    let ghost lv = lines@.map_values(|x: String| x@);
    let mut out = lines[0].clone();
    let mut i: usize = 1;
    proof {
        assert(lv.subrange(0, 1).len() == 1);
        assert(lv.subrange(0, 1).first() == lv[0]);
        assert(spec_join_lines(lv.subrange(0, 1)) == lv[0]);
    }
    while i < lines.len()
        invariant
            1 <= i <= lines.len(),
            lv == lines@.map_values(|x: String| x@),
            out@ == spec_join_lines(lv.subrange(0, i as int)),
        decreases lines.len() - i,
    {
        out.append("\n");
        out.append(lines[i].as_str());
        proof {
            reveal_strlit("\n");
            assert("\n"@ =~= seq!['\n']);
            lemma_join_push(lv.subrange(0, i as int), lv[i as int]);
            assert(lv.subrange(0, i as int).push(lv[i as int]) =~= lv.subrange(0, i as int + 1));
        }
        i = i + 1;
    }
    proof {
        assert(lv.subrange(0, lv.len() as int) =~= lv);
    }
    out
}

/// Whether a character is horizontal whitespace.
pub open spec fn is_blank(c: char) -> bool {
    c == ' ' || c == '\t'
}

/// The line without its leading whitespace.
pub open spec fn spec_trim_start(s: Seq<char>) -> Seq<char>
    decreases s.len(),
{
    if s.len() > 0 && is_blank(s.first()) {
        spec_trim_start(s.drop_first())
    } else {
        s
    }
}

/// The line without its trailing whitespace.
pub open spec fn spec_trim_end(s: Seq<char>) -> Seq<char>
    decreases s.len(),
{
    if s.len() > 0 && is_blank(s.last()) {
        spec_trim_end(s.drop_last())
    } else {
        s
    }
}

/// The line without its surrounding whitespace.
pub open spec fn spec_trim(s: Seq<char>) -> Seq<char> {
    spec_trim_end(spec_trim_start(s))
}

/// Whether the character at an index is horizontal whitespace.
fn blank_at(s: &str, i: usize) -> (r: bool)
    requires
        i < s@.len(),
    ensures
        r == is_blank(s@[i as int]),
{
    let c = s.get_char(i);
    c == ' ' || c == '\t'
}

/// Trim a line's surrounding whitespace.
fn trim_line(line: &String) -> (r: String)
    ensures
        r@ == spec_trim(line@),
{
    let s = line.as_str();
    let n = s.unicode_len();
    proof {
        assert(line@.subrange(0, n as int) =~= line@);
    }
    let mut a: usize = 0;
    while a < n && blank_at(s, a)
        invariant
            0 <= a <= n,
            n == line@.len(),
            s@ == line@,
            spec_trim_start(line@) == spec_trim_start(line@.subrange(a as int, n as int)),
        decreases n - a,
    {
        proof {
            let rest = line@.subrange(a as int, n as int);
            assert(rest.first() == line@[a as int]);
            assert(rest.drop_first() =~= line@.subrange(a as int + 1, n as int));
        }
        a = a + 1;
    }
    proof {
        let rest = line@.subrange(a as int, n as int);
        if rest.len() > 0 {
            assert(rest.first() == line@[a as int]);
        }
        assert(spec_trim_start(line@) == rest);
    }
    let mut b: usize = n;
    while b > a && blank_at(s, b - 1)
        invariant
            a <= b <= n,
            n == line@.len(),
            s@ == line@,
            spec_trim_start(line@) == line@.subrange(a as int, n as int),
            spec_trim_end(line@.subrange(a as int, n as int)) == spec_trim_end(
                line@.subrange(a as int, b as int),
            ),
        decreases b,
    {
        proof {
            let cur = line@.subrange(a as int, b as int);
            assert(cur.last() == line@[b as int - 1]);
            assert(cur.drop_last() =~= line@.subrange(a as int, b as int - 1));
        }
        b = b - 1;
    }
    proof {
        let cur = line@.subrange(a as int, b as int);
        if cur.len() > 0 {
            assert(cur.last() == line@[b as int - 1]);
        }
        assert(spec_trim_end(line@.subrange(a as int, n as int)) == cur);
        assert(line@.subrange(a as int, n as int) =~= line@.subrange(a as int, n as int));
    }
    s.substring_char(a, b).to_owned()
}

/// Whether a line is the `install` table's header, up to surrounding
/// whitespace.
pub open spec fn is_install_header(line: Seq<char>) -> bool {
    spec_trim(line) == "[install]"@
}

/// Whether a line opens some section: its first non-blank character is a
/// bracket.
pub open spec fn is_section_header(line: Seq<char>) -> bool {
    spec_trim(line).len() > 0 && spec_trim(line).first() == '['
}

/// Whether this line is the `install` table's header.
fn line_is_install_header(line: &String) -> (r: bool)
    ensures
        r == is_install_header(line@),
{
    let trimmed = trim_line(line);
    trimmed == String::from_str("[install]")
}

/// Whether this line opens some section.
fn line_is_section_header(line: &String) -> (r: bool)
    ensures
        r == is_section_header(line@),
{
    let trimmed = trim_line(line);
    let t = trimmed.as_str();
    t.unicode_len() > 0 && t.get_char(0) == '['
}

/// The lines of the new manifest entries one installation request adds:
/// a dotted `pkg-path` key, and a dotted `version` key when a version is
/// requested.
pub open spec fn spec_entry_lines_of(p: PackageToInstallV) -> Seq<Seq<char>> {
    seq![p.id + ".pkg-path = \""@ + p.pkg_path + "\""@] + (match p.version {
        Some(v) => seq![p.id + ".version = \""@ + v + "\""@],
        None => Seq::empty(),
    })
}

/// The lines a list of installation requests adds, in request order.
pub open spec fn spec_entry_lines(pkgs: Seq<PackageToInstallV>) -> Seq<Seq<char>>
    decreases pkgs.len(),
{
    if pkgs.len() == 0 {
        Seq::empty()
    } else {
        spec_entry_lines_of(pkgs.first()) + spec_entry_lines(pkgs.drop_first())
    }
}

/// New entry lines inserted into a manifest's lines: right after the first
/// `[install]` header when one exists, else under a new header at the end.
pub open spec fn spec_insert_lines(lines: Seq<Seq<char>>, entries: Seq<Seq<char>>) -> Seq<
    Seq<char>,
>
    decreases lines.len(),
{
    if lines.len() == 0 {
        seq!["[install]"@] + entries
    } else if is_install_header(lines.first()) {
        seq![lines.first()] + entries + lines.drop_first()
    } else {
        seq![lines.first()] + spec_insert_lines(lines.drop_first(), entries)
    }
}

/// How inserting relates to the first `[install]` header.
proof fn lemma_insert_at(lines: Seq<Seq<char>>, entries: Seq<Seq<char>>, k: int)
    requires
        0 <= k <= lines.len(),
        forall|j: int| 0 <= j < k ==> !is_install_header(lines[j]),
    ensures
        k == lines.len() ==> spec_insert_lines(lines, entries) == lines + seq!["[install]"@]
            + entries,
        k < lines.len() && is_install_header(lines[k]) ==> spec_insert_lines(lines, entries)
            == lines.subrange(0, k + 1) + entries + lines.subrange(k + 1, lines.len() as int),
    decreases k,
{
    if k == 0 {
        if k == lines.len() {
            assert(lines =~= Seq::<Seq<char>>::empty());
            assert(spec_insert_lines(lines, entries) =~= lines + seq!["[install]"@] + entries);
        } else if is_install_header(lines[0]) {
            assert(lines.subrange(0, 1) =~= seq![lines.first()]);
            assert(lines.drop_first() =~= lines.subrange(1, lines.len() as int));
            assert(spec_insert_lines(lines, entries) =~= lines.subrange(0, 1) + entries
                + lines.subrange(1, lines.len() as int));
        }
    } else {
        let rest = lines.drop_first();
        lemma_insert_at(rest, entries, k - 1);
        if k == lines.len() {
            assert(spec_insert_lines(lines, entries) =~= lines + seq!["[install]"@] + entries);
        } else if is_install_header(lines[k]) {
            assert(is_install_header(rest[k - 1]));
            assert(seq![lines.first()] + rest.subrange(0, k) =~= lines.subrange(0, k + 1));
            assert(rest.subrange(k, rest.len() as int) =~= lines.subrange(
                k + 1,
                lines.len() as int,
            ));
            assert(spec_insert_lines(lines, entries) =~= lines.subrange(0, k + 1) + entries
                + lines.subrange(k + 1, lines.len() as int));
        }
    }
}

/// Whether a manifest line sets a key for this install-id: the id followed
/// by a dot, a space or an equals sign.
pub open spec fn line_has_key(line: Seq<char>, id: Seq<char>) -> bool {
    id.len() > 0 && line.len() > id.len() && line.subrange(0, id.len() as int) == id && (line[
        id.len() as int
    ] == '.' || line[id.len() as int] == ' ' || line[id.len() as int] == '=')
}

/// Whether a line sets a key for any of the listed install-ids.
pub open spec fn line_has_any_key(line: Seq<char>, ids: Seq<Seq<char>>) -> bool {
    exists|k: int| 0 <= k < ids.len() && line_has_key(line, ids[k])
}

/// Manifest lines with the listed install-ids' entries removed: inside the
/// `[install]` section, every line keyed by a listed id is dropped; all
/// other lines stay.
pub open spec fn spec_remove_lines(
    lines: Seq<Seq<char>>,
    ids: Seq<Seq<char>>,
    in_install: bool,
) -> Seq<Seq<char>>
    decreases lines.len(),
{
    if lines.len() == 0 {
        lines
    } else {
        let line = lines.first();
        let is_header = is_section_header(line);
        let now_install = if is_install_header(line) {
            true
        } else if is_header {
            false
        } else {
            in_install
        };
        let rest = spec_remove_lines(lines.drop_first(), ids, now_install);
        if now_install && !is_header && line_has_any_key(line, ids) {
            rest
        } else {
            seq![line] + rest
        }
    }
}

/// Whether this line sets a key for this install-id.
fn line_has_key_exec(line: &String, id: &String) -> (r: bool)
    ensures
        r == line_has_key(line@, id@),
{
    let ls = line.as_str();
    let ids = id.as_str();
    let ll = ls.unicode_len();
    let il = ids.unicode_len();
    if il == 0 || ll <= il {
        return false;
    }
    let mut k: usize = 0;
    while k < il
        invariant
            0 <= k <= il,
            il == id@.len(),
            ll == line@.len(),
            ll > il,
            ls@ == line@,
            ids@ == id@,
            forall|j: int| 0 <= j < k ==> line@[j] == id@[j],
        decreases il - k,
    {
        if !(ls.get_char(k) == ids.get_char(k)) {
            proof {
                assert(line@.subrange(0, il as int)[k as int] != id@[k as int]);
            }
            return false;
        }
        k = k + 1;
    }
    proof {
        assert(line@.subrange(0, il as int) =~= id@);
    }
    let c = ls.get_char(il);
    c == '.' || c == ' ' || c == '='
}

/// Whether this line sets a key for any of the listed install-ids.
fn line_has_any_key_exec(line: &String, ids: &Vec<String>) -> (r: bool)
    ensures
        r == line_has_any_key(line@, ids@.map_values(|s: String| s@)),
{
    let ghost idsv = ids@.map_values(|s: String| s@);
    let mut k: usize = 0;
    while k < ids.len()
        invariant
            0 <= k <= ids.len(),
            idsv == ids@.map_values(|s: String| s@),
            forall|j: int| 0 <= j < k ==> !line_has_key(line@, idsv[j]),
        decreases ids.len() - k,
    {
        if line_has_key_exec(line, &ids[k]) {
            assert(line_has_key(line@, idsv[k as int]));
            return true;
        }
        k = k + 1;
    }
    false
}

/// Remove the listed install-ids' entries from the manifest's lines.
fn remove_entry_lines(lines: &Vec<String>, ids: &Vec<String>) -> (r: Vec<String>)
    ensures
        r@.map_values(|s: String| s@) == spec_remove_lines(
            lines@.map_values(|s: String| s@),
            ids@.map_values(|s: String| s@),
            false,
        ),
{
    let ghost lv = lines@.map_values(|s: String| s@);
    let ghost idsv = ids@.map_values(|s: String| s@);
    let mut out: Vec<String> = Vec::new();
    let mut in_install = false;
    let mut i: usize = 0;
    proof {
        assert(lv.subrange(0, lv.len() as int) =~= lv);
    }
    while i < lines.len()
        invariant
            0 <= i <= lines.len(),
            lv == lines@.map_values(|s: String| s@),
            idsv == ids@.map_values(|s: String| s@),
            spec_remove_lines(lv, idsv, false) == out@.map_values(|s: String| s@)
                + spec_remove_lines(lv.subrange(i as int, lv.len() as int), idsv, in_install),
        decreases lines.len() - i,
    {
        let ghost rest = lv.subrange(i as int, lv.len() as int);
        proof {
            assert(rest.first() == lv[i as int]);
            assert(rest.drop_first() =~= lv.subrange(i as int + 1, lv.len() as int));
        }
        let line = &lines[i];
        let is_header = line_is_section_header(line);
        let now_install = if line_is_install_header(line) {
            true
        } else if is_header {
            false
        } else {
            in_install
        };
        let ghost out0 = out@.map_values(|s: String| s@);
        if now_install && !is_header && line_has_any_key_exec(line, ids) {
            // dropped
        } else {
            out.push(line.clone());
            proof {
                assert(out@.map_values(|s: String| s@) =~= out0 + seq![lv[i as int]]);
            }
        }
        proof {
            assert(out@.map_values(|s: String| s@) + spec_remove_lines(
                lv.subrange(i as int + 1, lv.len() as int),
                idsv,
                now_install,
            ) =~= spec_remove_lines(lv, idsv, false));
        }
        in_install = now_install;
        i = i + 1;
    }
    proof {
        assert(lv.subrange(lv.len() as int, lv.len() as int).len() == 0);
        assert(out@.map_values(|s: String| s@) =~= spec_remove_lines(lv, idsv, false));
    }
    out
}

/// The lines the requests in `pkgs` add to the `install` table.
fn entry_lines(pkgs: &Vec<PackageToInstall>) -> (r: Vec<String>)
    ensures
        r@.map_values(|s: String| s@) == spec_entry_lines(
            pkgs@.map_values(|p: PackageToInstall| p@),
        ),
{
    let ghost pv = pkgs@.map_values(|p: PackageToInstall| p@);
    let mut out: Vec<String> = Vec::new();
    let mut i: usize = 0;
    proof {
        assert(pv.subrange(0, pv.len() as int) =~= pv);
    }
    while i < pkgs.len()
        invariant
            0 <= i <= pkgs.len(),
            pv == pkgs@.map_values(|p: PackageToInstall| p@),
            spec_entry_lines(pv) == out@.map_values(|s: String| s@) + spec_entry_lines(
                pv.subrange(i as int, pv.len() as int),
            ),
        decreases pkgs.len() - i,
    {
        let ghost rest = pv.subrange(i as int, pv.len() as int);
        proof {
            assert(rest.first() == pv[i as int]);
            assert(rest.drop_first() =~= pv.subrange(i as int + 1, pv.len() as int));
        }
        let p = &pkgs[i];
        let ghost out0 = out@.map_values(|s: String| s@);
        let mut line = p.id.clone();
        line.append(".pkg-path = \"");
        line.append(p.pkg_path.as_str());
        line.append("\"");
        out.push(line);
        match &p.version {
            Some(v) => {
                let mut vline = p.id.clone();
                vline.append(".version = \"");
                vline.append(v.as_str());
                vline.append("\"");
                out.push(vline);
                proof {
                    assert(out@.map_values(|s: String| s@) =~= out0 + spec_entry_lines_of(
                        pv[i as int],
                    ));
                }
            },
            None => {
                proof {
                    assert(spec_entry_lines_of(pv[i as int]) =~= seq![
                        pv[i as int].id + ".pkg-path = \""@ + pv[i as int].pkg_path + "\""@,
                    ]);
                    assert(out@.map_values(|s: String| s@) =~= out0 + spec_entry_lines_of(
                        pv[i as int],
                    ));
                }
            },
        }
        proof {
            assert(out@.map_values(|s: String| s@) + spec_entry_lines(
                pv.subrange(i as int + 1, pv.len() as int),
            ) =~= spec_entry_lines(pv));
        }
        i = i + 1;
    }
    proof {
        assert(pv.subrange(pv.len() as int, pv.len() as int).len() == 0);
        assert(out@.map_values(|s: String| s@) =~= spec_entry_lines(pv));
    }
    out
}

/// Insert entry lines after the first `[install]` header, or append a new
/// header and the entries when the manifest has none.
fn insert_entry_lines(lines: &Vec<String>, entries: &Vec<String>) -> (r: Vec<String>)
    ensures
        r@.map_values(|s: String| s@) == spec_insert_lines(
            lines@.map_values(|s: String| s@),
            entries@.map_values(|s: String| s@),
        ),
{
    let ghost lv = lines@.map_values(|s: String| s@);
    let ghost ev = entries@.map_values(|s: String| s@);
    let header = String::from_str("[install]");
    let mut k: usize = 0;
    let mut found = false;
    while k < lines.len() && !found
        invariant
            0 <= k <= lines.len(),
            lv == lines@.map_values(|s: String| s@),
            header@ == "[install]"@,
            found ==> k < lines.len() && is_install_header(lv[k as int]),
            forall|j: int| 0 <= j < k ==> !is_install_header(lv[j]),
        decreases lines.len() - k + (if found { 0int } else { 1int }),
    {
        if line_is_install_header(&lines[k]) {
            found = true;
        } else {
            k = k + 1;
        }
    }
    let mut out: Vec<String> = Vec::new();
    if found {
        proof {
            lemma_insert_at(lv, ev, k as int);
        }
        let mut i: usize = 0;
        while i < k + 1
            invariant
                0 <= i <= k + 1 <= lines.len(),
                lv == lines@.map_values(|s: String| s@),
                out@.map_values(|s: String| s@) =~= lv.subrange(0, i as int),
            decreases k + 1 - i,
        {
            let ghost out0 = out@.map_values(|s: String| s@);
            out.push(lines[i].clone());
            proof {
                assert(out@.map_values(|s: String| s@) =~= out0.push(lv[i as int]));
                assert(out@.map_values(|s: String| s@) =~= lv.subrange(0, i as int + 1));
            }
            i = i + 1;
        }
        proof {
            assert(out@.map_values(|s: String| s@) =~= lv.subrange(0, k as int + 1) + ev.subrange(
                0,
                0,
            ));
        }
        let mut j: usize = 0;
        while j < entries.len()
            invariant
                0 <= j <= entries.len(),
                lv == lines@.map_values(|s: String| s@),
                ev == entries@.map_values(|s: String| s@),
                k + 1 <= lines.len(),
                out@.map_values(|s: String| s@) =~= lv.subrange(0, k as int + 1) + ev.subrange(
                    0,
                    j as int,
                ),
            decreases entries.len() - j,
        {
            let ghost out0 = out@.map_values(|s: String| s@);
            out.push(entries[j].clone());
            proof {
                assert(out@.map_values(|s: String| s@) =~= out0.push(ev[j as int]));
                assert(out@.map_values(|s: String| s@) =~= lv.subrange(0, k as int + 1)
                    + ev.subrange(0, j as int + 1));
            }
            j = j + 1;
        }
        let mut t: usize = k + 1;
        while t < lines.len()
            invariant
                k + 1 <= t <= lines.len(),
                lv == lines@.map_values(|s: String| s@),
                ev == entries@.map_values(|s: String| s@),
                out@.map_values(|s: String| s@) =~= lv.subrange(0, k as int + 1) + ev
                    + lv.subrange(k as int + 1, t as int),
            decreases lines.len() - t,
        {
            let ghost out0 = out@.map_values(|s: String| s@);
            out.push(lines[t].clone());
            proof {
                assert(out@.map_values(|s: String| s@) =~= out0.push(lv[t as int]));
                assert(out@.map_values(|s: String| s@) =~= lv.subrange(0, k as int + 1) + ev
                    + lv.subrange(k as int + 1, t as int + 1));
            }
            t = t + 1;
        }
        proof {
            assert(ev.subrange(0, ev.len() as int) =~= ev);
            assert(out@.map_values(|s: String| s@) =~= spec_insert_lines(lv, ev));
        }
    } else {
        proof {
            lemma_insert_at(lv, ev, lv.len() as int);
        }
        let mut i: usize = 0;
        while i < lines.len()
            invariant
                0 <= i <= lines.len(),
                lv == lines@.map_values(|s: String| s@),
                out@.map_values(|s: String| s@) =~= lv.subrange(0, i as int),
            decreases lines.len() - i,
        {
            let ghost out0 = out@.map_values(|s: String| s@);
            out.push(lines[i].clone());
            proof {
                assert(out@.map_values(|s: String| s@) =~= out0.push(lv[i as int]));
                assert(out@.map_values(|s: String| s@) =~= lv.subrange(0, i as int + 1));
            }
            i = i + 1;
        }
        let ghost outh = out@.map_values(|s: String| s@);
        out.push(header);
        proof {
            assert(out@.map_values(|s: String| s@) =~= outh.push("[install]"@));
            assert(out@.map_values(|s: String| s@) =~= lv + seq!["[install]"@] + ev.subrange(
                0,
                0,
            ));
        }
        let mut j: usize = 0;
        while j < entries.len()
            invariant
                0 <= j <= entries.len(),
                lv == lines@.map_values(|s: String| s@),
                ev == entries@.map_values(|s: String| s@),
                out@.map_values(|s: String| s@) =~= lv + seq!["[install]"@] + ev.subrange(
                    0,
                    j as int,
                ),
            decreases entries.len() - j,
        {
            let ghost out0 = out@.map_values(|s: String| s@);
            out.push(entries[j].clone());
            proof {
                assert(out@.map_values(|s: String| s@) =~= out0.push(ev[j as int]));
                assert(out@.map_values(|s: String| s@) =~= lv + seq!["[install]"@] + ev.subrange(
                    0,
                    j as int + 1,
                ));
            }
            j = j + 1;
        }
        proof {
            assert(ev.subrange(0, ev.len() as int) =~= ev);
            assert(out@.map_values(|s: String| s@) =~= spec_insert_lines(lv, ev));
        }
    }
    out
}

/// The `install` table's entries as (install-id, `pkg-path`, `version`)
/// with each descriptor's fields as plain values, when the text parses:
/// nothing when the manifest has no `install` key at all, the entries —
/// possibly none — when it has one.
pub uninterp spec fn toml_install_fields(s: Seq<char>) -> Option<
    Seq<(Seq<char>, Option<Seq<char>>, Option<Seq<char>>)>,
>;

/// Relies on `toml::from_str::<toml::Table>`, `toml::Value::as_table` and
/// `toml::Value::as_str`: the `install` table's entries with each
/// descriptor's `pkg-path` and `version` fields, a function of the text
/// alone; absent exactly when the manifest has no `install` key.
#[verifier::external_body]
fn toml_read_install_fields(s: &String) -> (r: Result<
    Option<Vec<(String, Option<String>, Option<String>)>>,
    String,
>)
    ensures
        r is Ok <==> toml_ok(s@),
        r matches Ok(v) ==> (match v {
            Some(entries) => Some(
                entries@.map_values(
                    |p: (String, Option<String>, Option<String>)|
                        (p.0@, opt_string_view(&p.1), opt_string_view(&p.2)),
                ),
            ),
            None => None,
        }) == toml_install_fields(s@),
{
    match toml::from_str::<toml::Table>(s) {
        Err(e) => Err(e.to_string()),
        Ok(t) => match t.get("install") {
            None => Ok(None),
            Some(v) => match v.as_table() {
                None => Ok(Some(Vec::new())),
                Some(tb) => Ok(Some(tb.iter().map(|(k, d)| (
                    k.clone(),
                    d.get("pkg-path").and_then(toml::Value::as_str).map(str::to_owned),
                    d.get("version").and_then(toml::Value::as_str).map(str::to_owned),
                )).collect())),
            },
        },
    }
}

/// The descriptor fields the manifest's `install` table gives an
/// install-id: the first entry with that id, if any.
pub open spec fn fields_lookup(
    fields: Seq<(Seq<char>, Option<Seq<char>>, Option<Seq<char>>)>,
    id: Seq<char>,
) -> Option<(Option<Seq<char>>, Option<Seq<char>>)>
    decreases fields.len(),
{
    if fields.len() == 0 {
        None
    } else if fields.first().0 == id {
        Some((fields.first().1, fields.first().2))
    } else {
        fields_lookup(fields.drop_first(), id)
    }
}

/// Whether the manifest already lists this request with an equivalent
/// descriptor: same install-id, same `pkg-path`, same `version`.
pub open spec fn request_installed(s: Seq<char>, p: PackageToInstallV) -> bool {
    match toml_install_fields(s) {
        Some(fields) => match fields_lookup(fields, p.id) {
            Some(f) => f.0 == Some(p.pkg_path) && f.1 == p.version,
            None => false,
        },
        None => false,
    }
}

/// The predicate selecting the requests the manifest already lists with an
/// equivalent descriptor.
pub open spec fn already_installed_pred(s: Seq<char>) -> spec_fn(PackageToInstallV) -> bool {
    |p: PackageToInstallV| request_installed(s, p)
}

/// The predicate selecting the requests to insert: those the manifest does
/// not list, or lists with a different descriptor.
pub open spec fn to_install_pred(s: Seq<char>) -> spec_fn(PackageToInstallV) -> bool {
    |p: PackageToInstallV| !request_installed(s, p)
}

/// The outcome of an insertion: the new manifest text when anything was
/// added, and the requests that were already present.
#[derive(Debug)]
pub struct Insertion {
    pub new_text: Option<String>,
    pub already_installed: Vec<PackageToInstall>,
}

/// Filtering a sequence extended by one element keeps the element exactly
/// when the predicate holds of it.
proof fn lemma_filter_push_pkgs(s: Seq<PackageToInstallV>, pred: spec_fn(PackageToInstallV) -> bool, x: PackageToInstallV)
    ensures
        s.push(x).filter(pred) == if pred(x) {
            s.filter(pred).push(x)
        } else {
            s.filter(pred)
        },
{
    reveal(Seq::filter);
    assert(s.push(x).drop_last() =~= s);
    assert(s.push(x).last() == x);
}

/// Look up an install-id's descriptor fields among the table's entries:
/// the first entry with that id.
fn lookup_fields(
    entries: &Vec<(String, Option<String>, Option<String>)>,
    id: &String,
) -> (r: Option<(Option<String>, Option<String>)>)
    ensures
        ({
            let ev = entries@.map_values(
                |p: (String, Option<String>, Option<String>)|
                    (p.0@, opt_string_view(&p.1), opt_string_view(&p.2)),
            );
            match r {
                Some(f) => fields_lookup(ev, id@) == Some(
                    (opt_string_view(&f.0), opt_string_view(&f.1)),
                ),
                None => fields_lookup(ev, id@) is None,
            }
        }),
{
    let ghost ev = entries@.map_values(
        |p: (String, Option<String>, Option<String>)|
            (p.0@, opt_string_view(&p.1), opt_string_view(&p.2)),
    );
    proof {
        assert(ev.subrange(0, ev.len() as int) =~= ev);
    }
    let mut i: usize = 0;
    while i < entries.len()
        invariant
            i <= entries.len(),
            ev == entries@.map_values(
                |p: (String, Option<String>, Option<String>)|
                    (p.0@, opt_string_view(&p.1), opt_string_view(&p.2)),
            ),
            fields_lookup(ev, id@) == fields_lookup(
                ev.subrange(i as int, ev.len() as int),
                id@,
            ),
        decreases entries.len() - i,
    {
        let ghost rest = ev.subrange(i as int, ev.len() as int);
        proof {
            assert(rest.first() == ev[i as int]);
            assert(rest.drop_first() =~= ev.subrange(i as int + 1, ev.len() as int));
        }
        if entries[i].0 == *id {
            return Some((clone_opt_string(&entries[i].1), clone_opt_string(&entries[i].2)));
        }
        i = i + 1;
    }
    None
}

/// Whether a manifest's lines contain the `install` table's header.
pub open spec fn spec_has_install_header(lines: Seq<Seq<char>>) -> bool {
    exists|j: int| 0 <= j < lines.len() && is_install_header(lines[j])
}

/// Whether these lines contain the `install` table's header.
fn has_install_header(lines: &Vec<String>) -> (r: bool)
    ensures
        r == spec_has_install_header(lines@.map_values(|s: String| s@)),
{
    let ghost lv = lines@.map_values(|s: String| s@);
    let mut i: usize = 0;
    while i < lines.len()
        invariant
            i <= lines.len(),
            lv == lines@.map_values(|s: String| s@),
            forall|j: int| 0 <= j < i ==> !is_install_header(lv[j]),
        decreases lines.len() - i,
    {
        if line_is_install_header(&lines[i]) {
            assert(is_install_header(lv[i as int]));
            return true;
        }
        i = i + 1;
    }
    false
}

/// Whether the editor can place new entries in this manifest: either its
/// lines hold an `[install]` header, or it has no `install` key yet and a
/// fresh table can be appended.
pub open spec fn insert_layout_ok(s: Seq<char>) -> bool {
    spec_has_install_header(spec_split_lines(s)) || toml_install_fields(s) is None
}

/// Insert the requested packages into the manifest text.
///
/// A request the manifest already lists with an equivalent descriptor —
/// same `pkg-path` and `version` — is reported as already installed.  The
/// rest are added to the `install` table, right after its header when the
/// table exists, else under a new header at the end; an entry with the
/// same id but a different descriptor is replaced.  Text outside the
/// touched lines is preserved.  The new text is absent exactly when
/// nothing was added.  An `install` key written in a form the editor does
/// not recognize — no `[install]` header line — cannot take new entries
/// and is refused.
pub fn insert_packages(manifest_text: &String, packages: &Vec<PackageToInstall>) -> (r: Result<
    Insertion,
    CoreEnvironmentError,
>)
    ensures
        r is Ok <==> toml_ok(manifest_text@) && (packages@.map_values(
            |p: PackageToInstall| p@,
        ).filter(to_install_pred(manifest_text@)).len() == 0 || insert_layout_ok(manifest_text@)),
        r matches Err(e) ==> e matches CoreEnvironmentError::ModifyToml(_),
        r matches Ok(ins) ==> ({
            let pkgsv = packages@.map_values(|p: PackageToInstall| p@);
            let already = pkgsv.filter(already_installed_pred(manifest_text@));
            let to_add = pkgsv.filter(to_install_pred(manifest_text@));
            &&& ins.already_installed@.map_values(|p: PackageToInstall| p@) == already
            &&& if to_add.len() == 0 {
                ins.new_text is None
            } else {
                ins.new_text matches Some(t) && t@ == spec_join_lines(
                    spec_insert_lines(
                        spec_remove_lines(
                            spec_split_lines(manifest_text@),
                            to_add.map_values(|p: PackageToInstallV| p.id),
                            false,
                        ),
                        spec_entry_lines(to_add),
                    ),
                )
            }
        }),
{
    let fields_opt = match toml_read_install_fields(manifest_text) {
        Ok(v) => v,
        Err(e) => {
            return Err(CoreEnvironmentError::ModifyToml(e));
        },
    };
    let ghost pkgsv = packages@.map_values(|p: PackageToInstall| p@);
    let ghost text = manifest_text@;
    let mut already: Vec<PackageToInstall> = Vec::new();
    let mut to_add: Vec<PackageToInstall> = Vec::new();
    let mut i: usize = 0;
    while i < packages.len()
        invariant
            0 <= i <= packages.len(),
            pkgsv == packages@.map_values(|p: PackageToInstall| p@),
            text == manifest_text@,
            (match fields_opt {
                Some(ref entries) => Some(
                    entries@.map_values(
                        |p: (String, Option<String>, Option<String>)|
                            (p.0@, opt_string_view(&p.1), opt_string_view(&p.2)),
                    ),
                ),
                None => None,
            }) == toml_install_fields(text),
            already@.map_values(|p: PackageToInstall| p@) == pkgsv.subrange(0, i as int).filter(
                already_installed_pred(text),
            ),
            to_add@.map_values(|p: PackageToInstall| p@) == pkgsv.subrange(0, i as int).filter(
                to_install_pred(text),
            ),
        decreases packages.len() - i,
    {
        let p = &packages[i];
        proof {
            assert(pkgsv[i as int] == packages@[i as int]@);
        }
        let present = match &fields_opt {
            None => false,
            Some(entries) => match lookup_fields(entries, &p.id) {
                None => false,
                Some(f) => {
                    let path_same = match &f.0 {
                        Some(x) => *x == p.pkg_path,
                        None => false,
                    };
                    path_same && opt_string_eq(&f.1, &p.version)
                },
            },
        };
        proof {
            assert(present == request_installed(text, pkgsv[i as int]));
            lemma_filter_push_pkgs(
                pkgsv.subrange(0, i as int),
                already_installed_pred(text),
                pkgsv[i as int],
            );
            lemma_filter_push_pkgs(
                pkgsv.subrange(0, i as int),
                to_install_pred(text),
                pkgsv[i as int],
            );
            assert(pkgsv.subrange(0, i as int).push(pkgsv[i as int]) =~= pkgsv.subrange(
                0,
                i as int + 1,
            ));
        }
        let ghost already0 = already@.map_values(|p: PackageToInstall| p@);
        let ghost to_add0 = to_add@.map_values(|p: PackageToInstall| p@);
        if present {
            already.push(p.clone());
            proof {
                assert(already@.map_values(|p: PackageToInstall| p@) =~= already0.push(
                    pkgsv[i as int],
                ));
            }
        } else {
            to_add.push(p.clone());
            proof {
                assert(to_add@.map_values(|p: PackageToInstall| p@) =~= to_add0.push(
                    pkgsv[i as int],
                ));
            }
        }
        i = i + 1;
    }
    proof {
        assert(pkgsv.subrange(0, pkgsv.len() as int) =~= pkgsv);
    }
    if to_add.len() == 0 {
        return Ok(Insertion { new_text: None, already_installed: already });
    }
    let lines = split_lines(manifest_text);
    if !has_install_header(&lines) && fields_opt.is_some() {
        return Err(
            CoreEnvironmentError::ModifyToml(
                String::from_str("install table has no recognizable header line"),
            ),
        );
    }
    let mut replace_ids: Vec<String> = Vec::new();
    let mut j: usize = 0;
    while j < to_add.len()
        invariant
            0 <= j <= to_add.len(),
            replace_ids@.len() == j,
            forall|w: int| 0 <= w < j ==> replace_ids@[w]@ == to_add@[w]@.id,
        decreases to_add.len() - j,
    {
        replace_ids.push(to_add[j].id.clone());
        j = j + 1;
    }
    proof {
        assert(replace_ids@.map_values(|s: String| s@) =~= to_add@.map_values(
            |p: PackageToInstall| p@,
        ).map_values(|p: PackageToInstallV| p.id));
    }
    let kept = remove_entry_lines(&lines, &replace_ids);
    let entry_ls = entry_lines(&to_add);
    let new_lines = insert_entry_lines(&kept, &entry_ls);
    proof {
        lemma_insert_nonempty(
            kept@.map_values(|s: String| s@),
            entry_ls@.map_values(|s: String| s@),
        );
    }
    let new_text = join_lines(&new_lines);
    Ok(Insertion { new_text: Some(new_text), already_installed: already })
}

/// Inserting always yields at least one line.
proof fn lemma_insert_nonempty(lines: Seq<Seq<char>>, entries: Seq<Seq<char>>)
    ensures
        spec_insert_lines(lines, entries).len() >= 1,
    decreases lines.len(),
{
    if lines.len() > 0 && !is_install_header(lines.first()) {
        lemma_insert_nonempty(lines.drop_first(), entries);
    }
}

/// Remove the listed install-ids' entries from the manifest text.
///
/// A missing id is a non-fatal no-op; lines outside the `install` section
/// are preserved as they are.
pub fn remove_packages(manifest_text: &String, install_ids: &Vec<String>) -> (r: Result<
    String,
    CoreEnvironmentError,
>)
    ensures
        r is Ok <==> toml_ok(manifest_text@),
        r matches Err(e) ==> e matches CoreEnvironmentError::ModifyToml(_),
        r matches Ok(t) ==> t@ == spec_join_lines(
            spec_remove_lines(
                spec_split_lines(manifest_text@),
                install_ids@.map_values(|s: String| s@),
                false,
            ),
        ),
{
    match toml_read_install(manifest_text) {
        Ok(_) => {},
        Err(e) => {
            return Err(CoreEnvironmentError::ModifyToml(e));
        },
    }
    let lines = split_lines(manifest_text);
    let kept = remove_entry_lines(&lines, install_ids);
    proof {
        lemma_split_nonempty(manifest_text@);
        lemma_remove_keeps_first(
            lines@.map_values(|s: String| s@),
            install_ids@.map_values(|s: String| s@),
        );
    }
    let new_text = join_lines(&kept);
    Ok(new_text)
}

/// Removing outside the `install` section keeps the first line, so the
/// result of removing from a split text stays joinable.
proof fn lemma_remove_keeps_first(lines: Seq<Seq<char>>, ids: Seq<Seq<char>>)
    requires
        lines.len() >= 1,
    ensures
        spec_remove_lines(lines, ids, false).len() >= 1,
{
    reveal_strlit("[install]");
    let line = lines.first();
    if !is_section_header(line) {
        assert(!is_install_header(line));
        assert(spec_remove_lines(lines, ids, false).len() >= 1);
    }
}

} // verus!
