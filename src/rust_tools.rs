//! The package manifest: its typed model and its rendering as TOML.
use vstd::prelude::*;

verus! {

#[verifier::external_type_specification]
#[verifier::external_body]
pub struct ExSemverError(semver::Error);

/// What `semver::Version::parse` makes of a text: `None` when it rejects it,
/// else the major, minor and patch numbers and the pre-release and build
/// texts.
pub uninterp spec fn semver_fields(s: Seq<char>) -> Option<(u64, u64, u64, Seq<char>, Seq<char>)>;

/// The TOML basic string (quoted and escaped) that `toml` writes for a text.
pub uninterp spec fn toml_quoted(s: Seq<char>) -> Seq<char>;

/// Relies on `semver::Version::parse`: it accepts or rejects a text, and
/// gives its parts, from the text alone.
#[verifier::external_body]
fn semver_parse(text: &str) -> (r: Result<Version, semver::Error>)
    ensures
        match r {
            Ok(v) => semver_fields(text@) == Some(v.fields()),
            Err(_) => semver_fields(text@) is None,
        },
{
    match semver::Version::parse(text) {
        Ok(v) => Ok(Version {
            major: v.major,
            minor: v.minor,
            patch: v.patch,
            pre: v.pre.as_str().to_owned(),
            build: v.build.as_str().to_owned(),
        }),
        Err(e) => Err(e),
    }
}

/// Relies on toml's `Display` for `toml::Value::String`: the text comes out
/// as a one-line TOML basic string, which depends on the text alone.
#[verifier::external_body]
fn toml_string(s: &str) -> (r: String)
    ensures
        r@ == toml_quoted(s@),
{
    toml::Value::String(s.to_owned()).to_string()
}

/// Errors met while making a manifest.
#[derive(Debug)]
pub enum ManifestError {
    /// The version text is not a semantic version.
    InvalidVersion(semver::Error),
}

/// The text of one decimal digit.
pub open spec fn digit_text(d: nat) -> Seq<char> {
    if d == 0 {
        "0"@
    } else if d == 1 {
        "1"@
    } else if d == 2 {
        "2"@
    } else if d == 3 {
        "3"@
    } else if d == 4 {
        "4"@
    } else if d == 5 {
        "5"@
    } else if d == 6 {
        "6"@
    } else if d == 7 {
        "7"@
    } else if d == 8 {
        "8"@
    } else {
        "9"@
    }
}

/// The decimal text of `n`, without leading zeros.
pub open spec fn decimal(n: nat) -> Seq<char>
    decreases n,
{
    if n < 10 {
        digit_text(n)
    } else {
        decimal(n / 10) + digit_text(n % 10)
    }
}

fn digit_str(d: u64) -> (r: &'static str)
    requires
        d < 10,
    ensures
        r@ == digit_text(d as nat),
{
    if d == 0 {
        "0"
    } else if d == 1 {
        "1"
    } else if d == 2 {
        "2"
    } else if d == 3 {
        "3"
    } else if d == 4 {
        "4"
    } else if d == 5 {
        "5"
    } else if d == 6 {
        "6"
    } else if d == 7 {
        "7"
    } else if d == 8 {
        "8"
    } else {
        "9"
    }
}

fn push_decimal(out: &mut String, n: u64)
    ensures
        final(out)@ == old(out)@ + decimal(n as nat),
    decreases n,
{
    if n >= 10 {
        push_decimal(out, n / 10);
    }
    out.append(digit_str(n % 10));
    proof {
        if n < 10 {
            assert(n % 10 == n);
        }
    }
}

/// A semantic version: `major.minor.patch`, with an optional pre-release
/// and build text.
#[derive(Debug)]
pub struct Version {
    pub major: u64,
    pub minor: u64,
    pub patch: u64,
    pub pre: String,
    pub build: String,
}

impl Version {
    pub open spec fn fields(&self) -> (u64, u64, u64, Seq<char>, Seq<char>) {
        (self.major, self.minor, self.patch, self.pre@, self.build@)
    }

    /// The canonical text: `major.minor.patch`, then `-pre` and `+build`
    /// where those are not empty.
    pub open spec fn text(&self) -> Seq<char> {
        decimal(self.major as nat) + "."@ + decimal(self.minor as nat) + "."@ + decimal(
            self.patch as nat,
        ) + (if self.pre@.len() > 0 {
            "-"@ + self.pre@
        } else {
            Seq::empty()
        }) + (if self.build@.len() > 0 {
            "+"@ + self.build@
        } else {
            Seq::empty()
        })
    }

    /// Reads a version in the standard textual form.
    pub fn parse(text: &str) -> (r: Result<Version, ManifestError>)
        ensures
            r is Ok <==> semver_fields(text@) is Some,
            r matches Ok(v) ==> semver_fields(text@) == Some(v.fields()),
            r matches Err(e) ==> e is InvalidVersion,
    {
        match semver_parse(text) {
            Ok(v) => Ok(v),
            Err(e) => Err(ManifestError::InvalidVersion(e)),
        }
    }

    /// The canonical text of this version.
    pub fn to_text(&self) -> (r: String)
        ensures
            r@ == self.text(),
    {
        let mut out = String::new();
        push_decimal(&mut out, self.major);
        out.append(".");
        push_decimal(&mut out, self.minor);
        out.append(".");
        push_decimal(&mut out, self.patch);
        if self.pre.as_str().unicode_len() > 0 {
            out.append("-");
            out.append(self.pre.as_str());
        }
        if self.build.as_str().unicode_len() > 0 {
            out.append("+");
            out.append(self.build.as_str());
        }
        assert(out@ =~= self.text());
        out
    }
}

/// The language edition a package is written in.
#[derive(Clone, Copy, Debug, PartialEq, Eq, Structural)]
pub enum Edition {
    Edition2015,
    Edition2018,
}

/// The edition asked for, or the newest one when none is.
pub open spec fn edition_or_default(ed: Option<Edition>) -> Edition {
    match ed {
        Some(e) => e,
        None => Edition::Edition2018,
    }
}

impl Edition {
    /// The year under which the manifest names the edition.
    pub open spec fn text(self) -> Seq<char> {
        match self {
            Edition::Edition2015 => "2015"@,
            Edition::Edition2018 => "2018"@,
        }
    }

    pub fn as_str(&self) -> (r: &'static str)
        ensures
            r@ == self.text(),
    {
        match self {
            Edition::Edition2015 => "2015",
            Edition::Edition2018 => "2018",
        }
    }
}

impl From<Option<Edition>> for Edition {
    fn from(ed: Option<Edition>) -> (r: Edition) {
        match ed {
            Some(e) => e,
            None => Edition::Edition2018,
        }
    }
}

impl vstd::std_specs::convert::FromSpecImpl<Option<Edition>> for Edition {
    open spec fn obeys_from_spec() -> bool {
        true
    }

    open spec fn from_spec(ed: Option<Edition>) -> Edition {
        edition_or_default(ed)
    }
}

/// The texts that a list of strings holds.
pub open spec fn texts(v: Seq<String>) -> Seq<Seq<char>> {
    v.map_values(|s: String| s@)
}

/// The package section of a manifest.
#[derive(Debug)]
pub struct Config {
    pub name: String,
    pub version: Version,
    pub authors: Vec<String>,
    pub edition: Edition,
}

fn owned_texts(items: &[&str]) -> (r: Vec<String>)
    ensures
        texts(r@) == items@.map_values(|s: &str| s@),
{
    let mut r: Vec<String> = Vec::new();
    let mut i: usize = 0;
    while i < items.len()
        invariant
            i <= items@.len(),
            texts(r@) == items@.take(i as int).map_values(|s: &str| s@),
        decreases items@.len() - i,
    {
        let ghost before = r@;
        let s = String::from_str(items[i]);
        assert(s@ == items@[i as int]@);
        r.push(s);
        assert(r@ =~= before.push(s));
        assert(texts(r@) =~= texts(before).push(s@));
        assert(items@.take(i + 1) =~= items@.take(i as int).push(items@[i as int]));
        assert(texts(r@) =~= items@.take(i + 1).map_values(|s: &str| s@));
        i += 1;
    }
    assert(items@.take(i as int) =~= items@);
    r
}

impl Config {
    /// Makes a package section; fails when `version` is not a semantic version.
    pub fn try_from(name: &str, version: &str, authors: &[&str], edition: Option<Edition>) -> (r:
        Result<Config, ManifestError>)
        ensures
            r is Ok <==> semver_fields(version@) is Some,
            r matches Err(e) ==> e is InvalidVersion,
            r matches Ok(c) ==> {
                &&& c.name@ == name@
                &&& semver_fields(version@) == Some(c.version.fields())
                &&& texts(c.authors@) == authors@.map_values(|s: &str| s@)
                &&& c.edition == edition_or_default(edition)
            },
    {
        let authors = owned_texts(authors);
        match Version::parse(version) {
            Ok(v) => Ok(
                Config {
                    name: String::from_str(name),
                    version: v,
                    authors,
                    edition: Edition::from(edition),
                },
            ),
            Err(e) => Err(e),
        }
    }
}

/// The default package section: no name, version 0.0.0, no authors, the
/// newest edition.
pub open spec fn is_default_config(c: Config) -> bool {
    &&& c.name@ == Seq::<char>::empty()
    &&& c.version.fields() == (0u64, 0u64, 0u64, Seq::<char>::empty(), Seq::<char>::empty())
    &&& c.authors@.len() == 0
    &&& c.edition == Edition::Edition2018
}

impl Default for Config {
    fn default() -> (r: Config)
        ensures
            is_default_config(r),
    {
        Config {
            name: String::new(),
            version: Version {
                major: 0,
                minor: 0,
                patch: 0,
                pre: String::new(),
                build: String::new(),
            },
            authors: Vec::new(),
            edition: Edition::Edition2018,
        }
    }
}

/// A character that may stand in a bare TOML key.
pub open spec fn is_bare_key_char(c: char) -> bool {
    ('a' <= c && c <= 'z') || ('A' <= c && c <= 'Z') || ('0' <= c && c <= '9') || c == '-' || c
        == '_'
}

/// A key is written bare when it is not empty and every character of it may
/// stand bare; otherwise it is written as a quoted string.
pub open spec fn key_text(k: Seq<char>) -> Seq<char> {
    if k.len() > 0 && forall|i: int| 0 <= i < k.len() ==> is_bare_key_char(#[trigger] k[i]) {
        k
    } else {
        toml_quoted(k)
    }
}

/// The quoted items of a list, separated by `, `.
pub open spec fn quoted_items(items: Seq<Seq<char>>) -> Seq<char>
    decreases items.len(),
{
    if items.len() == 0 {
        Seq::empty()
    } else if items.len() == 1 {
        toml_quoted(items[0])
    } else {
        quoted_items(items.drop_last()) + ", "@ + toml_quoted(items.last())
    }
}

/// The `[package]` table.
pub open spec fn package_text(c: Config) -> Seq<char> {
    "[package]\nname = "@ + toml_quoted(c.name@) + "\nversion = "@ + toml_quoted(c.version.text())
        + "\nauthors = ["@ + quoted_items(texts(c.authors@)) + "]\nedition = "@ + toml_quoted(
        c.edition.text(),
    ) + "\n"@
}

/// One line per dependency: its name as a key, its version as a string.
pub open spec fn dependency_lines(deps: Seq<(String, Version)>) -> Seq<char>
    decreases deps.len(),
{
    if deps.len() == 0 {
        Seq::empty()
    } else {
        dependency_lines(deps.drop_last()) + key_text(deps.last().0@) + " = "@ + toml_quoted(
            deps.last().1.text(),
        ) + "\n"@
    }
}

/// The names of the dependencies differ from each other.
pub open spec fn distinct_names(deps: Seq<(String, Version)>) -> bool {
    forall|i: int, j: int|
        0 <= i < j < deps.len() ==> (#[trigger] deps[i]).0@ != (#[trigger] deps[j]).0@
}

/// A package manifest: the package section and, optionally, the versions of
/// the packages it depends on, by name.
#[derive(Debug)]
pub struct Manifest {
    pub package: Config,
    pub dependencies: Option<Vec<(String, Version)>>,
}

impl Manifest {
    /// The dependencies, in the order they are written.
    pub open spec fn deps(&self) -> Option<Seq<(String, Version)>> {
        match &self.dependencies {
            Some(d) => Some(d@),
            None => None,
        }
    }

    /// The whole manifest as TOML: the package table and, when there are
    /// dependencies, a `[dependencies]` table after a blank line. Without
    /// dependencies that table is left out.
    pub open spec fn text(&self) -> Seq<char> {
        package_text(self.package) + match self.deps() {
            Some(d) => "\n[dependencies]\n"@ + dependency_lines(d),
            None => Seq::empty(),
        }
    }

    pub fn new(package: Config, dependencies: Option<Vec<(String, Version)>>) -> (r: Manifest)
        requires
            dependencies matches Some(d) ==> distinct_names(d@),
        ensures
            r.package == package,
            r.deps() == match dependencies {
                Some(d) => Some(d@),
                None => None::<Seq<(String, Version)>>,
            },
    {
        Manifest { package, dependencies }
    }

    /// Makes a manifest; fails when `version` is not a semantic version.
    pub fn try_from(
        name: &str,
        version: &str,
        authors: &[&str],
        edition: Option<Edition>,
        dependencies: Option<Vec<(String, Version)>>,
    ) -> (r: Result<Manifest, ManifestError>)
        requires
            dependencies matches Some(d) ==> distinct_names(d@),
        ensures
            r is Ok <==> semver_fields(version@) is Some,
            r matches Err(e) ==> e is InvalidVersion,
            r matches Ok(m) ==> {
                &&& m.package.name@ == name@
                &&& semver_fields(version@) == Some(m.package.version.fields())
                &&& texts(m.package.authors@) == authors@.map_values(|s: &str| s@)
                &&& m.package.edition == edition_or_default(edition)
                &&& m.deps() == match dependencies {
                    Some(d) => Some(d@),
                    None => None::<Seq<(String, Version)>>,
                }
            },
    {
        match Config::try_from(name, version, authors, edition) {
            Ok(c) => Ok(Manifest::new(c, dependencies)),
            Err(e) => Err(e),
        }
    }

    /// Renders the manifest as TOML.
    pub fn to_toml(&self) -> (r: String)
        ensures
            r@ == self.text(),
    {
        let mut out = String::new();
        push_package(&mut out, &self.package);
        match &self.dependencies {
            Some(d) => {
                out.append("\n[dependencies]\n");
                push_dependency_lines(&mut out, d);
            },
            None => {},
        }
        assert(out@ =~= self.text());
        out
    }
}

impl Default for Manifest {
    fn default() -> (r: Manifest)
        ensures
            is_default_config(r.package),
            r.deps() is None,
    {
        Manifest { package: Config::default(), dependencies: None }
    }
}

/// Default values: the package section of a default manifest renders with
/// an empty name, version `0.0.0`, an empty author list and edition `2018`.
pub proof fn lemma_default_package_text(c: Config)
    requires
        is_default_config(c),
    ensures
        package_text(c) == "[package]\nname = "@ + toml_quoted(Seq::empty()) + "\nversion = "@
            + toml_quoted("0.0.0"@) + "\nauthors = []\nedition = "@ + toml_quoted("2018"@)
            + "\n"@,
{
    reveal_strlit("0");
    reveal_strlit(".");
    reveal_strlit("0.0.0");
    reveal_strlit("2018");
    reveal_strlit("\nauthors = [");
    reveal_strlit("]\nedition = ");
    reveal_strlit("\nauthors = []\nedition = ");
    assert(decimal(0) == "0"@);
    assert(c.version.text() =~= "0.0.0"@);
    assert(texts(c.authors@) =~= Seq::<Seq<char>>::empty());
    assert("\nauthors = ["@ + quoted_items(texts(c.authors@)) + "]\nedition = "@
        =~= "\nauthors = []\nedition = "@);
    assert(package_text(c) =~= "[package]\nname = "@ + toml_quoted(Seq::empty()) + "\nversion = "@
        + toml_quoted("0.0.0"@) + "\nauthors = []\nedition = "@ + toml_quoted("2018"@) + "\n"@);
}

fn push_key(out: &mut String, k: &str)
    ensures
        final(out)@ == old(out)@ + key_text(k@),
{
    let n = k.unicode_len();
    let mut bare = n > 0;
    let mut i: usize = 0;
    while i < n
        invariant
            n == k@.len(),
            i <= n,
            bare == (n > 0 && forall|j: int| 0 <= j < i ==> is_bare_key_char(#[trigger] k@[j])),
        decreases n - i,
    {
        let c = k.get_char(i);
        let ok = ('a' <= c && c <= 'z') || ('A' <= c && c <= 'Z') || ('0' <= c && c <= '9') || c
            == '-' || c == '_';
        bare = bare && ok;
        i += 1;
    }
    if bare {
        out.append(k);
    } else {
        let q = toml_string(k);
        out.append(q.as_str());
    }
}

fn push_quoted_items(out: &mut String, items: &Vec<String>)
    ensures
        final(out)@ == old(out)@ + quoted_items(texts(items@)),
{
    let mut i: usize = 0;
    while i < items.len()
        invariant
            i <= items@.len(),
            out@ == old(out)@ + quoted_items(texts(items@.take(i as int))),
        decreases items@.len() - i,
    {
        let ghost before = out@;
        if i > 0 {
            out.append(", ");
        }
        let q = toml_string(items[i].as_str());
        out.append(q.as_str());
        let ghost t = texts(items@.take(i + 1));
        assert(t.drop_last() =~= texts(items@.take(i as int)));
        assert(t.last() == items@[i as int]@);
        if i == 0 {
            assert(t =~= seq![items@[0]@]);
        }
        assert(out@ =~= old(out)@ + quoted_items(t));
        i += 1;
    }
    assert(items@.take(i as int) =~= items@);
}

fn push_package(out: &mut String, c: &Config)
    ensures
        final(out)@ == old(out)@ + package_text(*c),
{
    out.append("[package]\nname = ");
    let q = toml_string(c.name.as_str());
    out.append(q.as_str());
    out.append("\nversion = ");
    let v = c.version.to_text();
    let q = toml_string(v.as_str());
    out.append(q.as_str());
    out.append("\nauthors = [");
    push_quoted_items(out, &c.authors);
    out.append("]\nedition = ");
    let q = toml_string(c.edition.as_str());
    out.append(q.as_str());
    out.append("\n");
    assert(out@ =~= old(out)@ + package_text(*c));
}

fn push_dependency_lines(out: &mut String, deps: &Vec<(String, Version)>)
    ensures
        final(out)@ == old(out)@ + dependency_lines(deps@),
{
    let mut i: usize = 0;
    while i < deps.len()
        invariant
            i <= deps@.len(),
            out@ == old(out)@ + dependency_lines(deps@.take(i as int)),
        decreases deps@.len() - i,
    {
        let ghost before = out@;
        let entry = &deps[i];
        push_key(out, entry.0.as_str());
        out.append(" = ");
        let v = entry.1.to_text();
        let q = toml_string(v.as_str());
        out.append(q.as_str());
        out.append("\n");
        assert(deps@.take(i + 1).drop_last() =~= deps@.take(i as int));
        assert(out@ =~= old(out)@ + dependency_lines(deps@.take(i + 1)));
        i += 1;
    }
    assert(deps@.take(i as int) =~= deps@);
}

} // verus!
