//! Where the two mod artifacts come from: a table from game version to
//! known-good download URLs, and explicit URLs that take its place.

use vstd::prelude::*;

use crate::text::same_text;

verus! {

/// The game version that runs when none is asked for.
pub const DEFAULT_VERSION: &'static str = "1.20.4";

/// The override value that means "use the table's URL".
pub const USE_DEFAULT: &'static str = "latest";

/// PackTest build for game version 1.20.4.
pub const PACKTEST_1_20_4: &'static str =
    "https://github.com/misode/packtest/releases/download/v1.3/packtest-1.3-mc1.20.4.jar";

/// Fabric API build for game version 1.20.4.
pub const FABRIC_API_1_20_4: &'static str =
    "https://cdn.modrinth.com/data/P7dR8mSH/versions/JQ07mKWY/fabric-api-0.91.3%2B1.20.4.jar";

/// The two mods that every run needs.
#[derive(Clone, Copy, Debug, PartialEq, Eq, Structural)]
pub enum ArtifactRole {
    /// The test-runner mod.
    PackTest,
    /// Its dependency, the Fabric API mod.
    FabricApi,
}

/// A URL to fetch, with the mod it stands for.
#[derive(Clone, Debug)]
pub struct ArtifactLocation {
    pub role: ArtifactRole,
    pub url: String,
}

/// One row of the version table.
#[derive(Clone, Debug)]
pub struct VersionEntry {
    pub version: String,
    pub packtest_url: String,
    pub fabric_api_url: String,
}

impl VersionEntry {
    pub open spec fn url_for(self, role: ArtifactRole) -> Seq<char> {
        match role {
            ArtifactRole::PackTest => self.packtest_url@,
            ArtifactRole::FabricApi => self.fabric_api_url@,
        }
    }
}

/// The URL of the first row of `entries` whose version is `v`.
pub open spec fn table_lookup(entries: Seq<VersionEntry>, v: Seq<char>, role: ArtifactRole) -> Option<
    Seq<char>,
>
    decreases entries.len(),
{
    if entries.len() == 0 {
        None
    } else if entries[0].version@ == v {
        Some(entries[0].url_for(role))
    } else {
        table_lookup(entries.drop_first(), v, role)
    }
}

/// Some row of `entries` is for version `v`.
pub open spec fn table_has(entries: Seq<VersionEntry>, v: Seq<char>) -> bool {
    exists|i: int| 0 <= i < entries.len() && (#[trigger] entries[i]).version@ == v
}

/// The override that takes effect: any value but the sentinel.
pub open spec fn effective_override(o: Option<Seq<char>>) -> Option<Seq<char>> {
    match o {
        Some(u) => if u == USE_DEFAULT@ {
            None
        } else {
            Some(u)
        },
        None => None,
    }
}

/// The URL that resolution gives for `role`: the effective override, else
/// the table's URL for `v`, else none.
pub open spec fn resolved_url(
    entries: Seq<VersionEntry>,
    v: Seq<char>,
    role: ArtifactRole,
    o: Option<Seq<char>>,
) -> Option<Seq<char>> {
    match effective_override(o) {
        Some(u) => Some(u),
        None => table_lookup(entries, v, role),
    }
}

pub open spec fn opt_view(o: Option<String>) -> Option<Seq<char>> {
    match o {
        Some(s) => Some(s@),
        None => None,
    }
}

pub open spec fn opt_str_view(o: Option<&str>) -> Option<Seq<char>> {
    match o {
        Some(s) => Some(s@),
        None => None,
    }
}

/// The PackTest URL known for each game version.
pub open spec fn packtest_url_for(v: Seq<char>) -> Option<Seq<char>> {
    if v == DEFAULT_VERSION@ {
        Some(PACKTEST_1_20_4@)
    } else {
        None
    }
}

/// The Fabric API URL known for each game version.
pub open spec fn fabric_api_url_for(v: Seq<char>) -> Option<Seq<char>> {
    if v == DEFAULT_VERSION@ {
        Some(FABRIC_API_1_20_4@)
    } else {
        None
    }
}

pub open spec fn builtin_url(v: Seq<char>, role: ArtifactRole) -> Option<Seq<char>> {
    match role {
        ArtifactRole::PackTest => packtest_url_for(v),
        ArtifactRole::FabricApi => fabric_api_url_for(v),
    }
}

/// The PackTest URL for a game version, if one is known.
pub fn get_packtest_url(version: &str) -> (r: Option<&'static str>)
    ensures
        opt_str_view(r) == packtest_url_for(version@),
{
    if same_text(version, DEFAULT_VERSION) {
        Some(PACKTEST_1_20_4)
    } else {
        None
    }
}

/// The Fabric API URL for a game version, if one is known.
pub fn get_fabric_api_url(version: &str) -> (r: Option<&'static str>)
    ensures
        opt_str_view(r) == fabric_api_url_for(version@),
{
    if same_text(version, DEFAULT_VERSION) {
        Some(FABRIC_API_1_20_4)
    } else {
        None
    }
}

/// The resolver found no URL for `role`.
#[derive(Clone, Copy, Debug, PartialEq, Eq, Structural)]
pub struct UnsupportedVersion {
    pub role: ArtifactRole,
}

/// The table from game version to artifact URLs.
#[derive(Clone, Debug)]
pub struct VersionTable {
    pub entries: Vec<VersionEntry>,
}

impl VersionTable {
    /// Every URL of the table is non-empty.
    pub open spec fn well_formed(self) -> bool {
        forall|i: int|
            0 <= i < self.entries@.len() ==> (#[trigger] self.entries@[i]).packtest_url@.len() > 0
                && self.entries@[i].fabric_api_url@.len() > 0
    }

    /// The versions that the library knows.
    pub fn builtin() -> (r: VersionTable)
        ensures
            r.well_formed(),
            forall|v: Seq<char>, role: ArtifactRole|
                #[trigger] table_lookup(r.entries@, v, role) == builtin_url(v, role),
            forall|v: Seq<char>| #[trigger] table_has(r.entries@, v) <==> v == DEFAULT_VERSION@,
    {
        let entry = VersionEntry {
            version: String::from_str(DEFAULT_VERSION),
            packtest_url: String::from_str(PACKTEST_1_20_4),
            fabric_api_url: String::from_str(FABRIC_API_1_20_4),
        };
        let mut entries: Vec<VersionEntry> = Vec::new();
        entries.push(entry);
        let r = VersionTable { entries };
        proof {
            reveal_strlit("https://github.com/misode/packtest/releases/download/v1.3/packtest-1.3-mc1.20.4.jar");
            reveal_strlit("https://cdn.modrinth.com/data/P7dR8mSH/versions/JQ07mKWY/fabric-api-0.91.3%2B1.20.4.jar");
            assert forall|v: Seq<char>, role: ArtifactRole|
                #[trigger] table_lookup(r.entries@, v, role) == builtin_url(v, role) by {
                assert(table_lookup(r.entries@.drop_first(), v, role) is None);
            }
            assert forall|v: Seq<char>| #[trigger] table_has(r.entries@, v) <==> v
                == DEFAULT_VERSION@ by {
                if v == DEFAULT_VERSION@ {
                    assert(r.entries@[0].version@ == v);
                }
            }
        }
        r
    }

    /// The URL for `role` of the first row for `version`, if there is one.
    pub fn lookup(&self, version: &str, role: ArtifactRole) -> (r: Option<String>)
        ensures
            opt_view(r) == table_lookup(self.entries@, version@, role),
    {
        let mut i: usize = 0;
        assert(self.entries@.subrange(0, self.entries@.len() as int) =~= self.entries@);
        while i < self.entries.len()
            invariant
                i <= self.entries@.len(),
                table_lookup(self.entries@, version@, role) == table_lookup(
                    self.entries@.subrange(i as int, self.entries@.len() as int),
                    version@,
                    role,
                ),
            decreases self.entries@.len() - i,
        {
            let ghost rest = self.entries@.subrange(i as int, self.entries@.len() as int);
            assert(rest.drop_first() =~= self.entries@.subrange(i + 1, self.entries@.len() as int));
            let e = &self.entries[i];
            if same_text(e.version.as_str(), version) {
                return match role {
                    ArtifactRole::PackTest => Some(e.packtest_url.clone()),
                    ArtifactRole::FabricApi => Some(e.fabric_api_url.clone()),
                };
            }
            i = i + 1;
        }
        None
    }

    /// Resolves the URL of one artifact: an effective override verbatim, else
    /// the table's URL for `version`.
    pub fn resolve_artifact(&self, version: &str, role: ArtifactRole, override_url: Option<String>) -> (r:
        Result<ArtifactLocation, UnsupportedVersion>)
        ensures
            match resolved_url(self.entries@, version@, role, opt_view(override_url)) {
                Some(u) => r matches Ok(loc) && loc.role == role && loc.url@ == u,
                None => r == Err::<ArtifactLocation, UnsupportedVersion>(UnsupportedVersion { role }),
            },
    {
        let chosen = match override_url {
            Some(u) => if same_text(u.as_str(), USE_DEFAULT) {
                None
            } else {
                Some(u)
            },
            None => None,
        };
        let found = match chosen {
            Some(u) => Some(u),
            None => self.lookup(version, role),
        };
        match found {
            Some(url) => Ok(ArtifactLocation { role, url }),
            None => Err(UnsupportedVersion { role }),
        }
    }

    /// Resolves both artifacts, the test-runner mod first.
    pub fn resolve(
        &self,
        version: &str,
        packtest_override: Option<String>,
        fabric_api_override: Option<String>,
    ) -> (r: Result<(ArtifactLocation, ArtifactLocation), UnsupportedVersion>)
        ensures
            resolves(self.entries@, version@, opt_view(packtest_override), opt_view(fabric_api_override), r),
    {
        let a = self.resolve_artifact(version, ArtifactRole::PackTest, packtest_override);
        let a = match a {
            Ok(a) => a,
            Err(e) => return Err(e),
        };
        let b = self.resolve_artifact(version, ArtifactRole::FabricApi, fabric_api_override);
        match b {
            Ok(b) => Ok((a, b)),
            Err(e) => Err(e),
        }
    }
}

/// `r` is what resolving both artifacts gives: both URLs when both resolve,
/// else an error naming the first artifact without one.
pub open spec fn resolves(
    entries: Seq<VersionEntry>,
    v: Seq<char>,
    pa: Option<Seq<char>>,
    fa: Option<Seq<char>>,
    r: Result<(ArtifactLocation, ArtifactLocation), UnsupportedVersion>,
) -> bool {
    let a = resolved_url(entries, v, ArtifactRole::PackTest, pa);
    let b = resolved_url(entries, v, ArtifactRole::FabricApi, fa);
    match r {
        Ok((x, y)) => a == Some(x.url@) && b == Some(y.url@) && x.role == ArtifactRole::PackTest
            && y.role == ArtifactRole::FabricApi,
        Err(e) => if a is None {
            e.role == ArtifactRole::PackTest
        } else {
            b is None && e.role == ArtifactRole::FabricApi
        },
    }
}

/// The table gives a URL for `v` exactly when some row is for `v`, and that
/// URL is one of the table's.
pub proof fn lemma_lookup_finds(entries: Seq<VersionEntry>, v: Seq<char>, role: ArtifactRole)
    ensures
        table_lookup(entries, v, role) is Some <==> table_has(entries, v),
        table_lookup(entries, v, role) is Some ==> exists|i: int|
            0 <= i < entries.len() && table_lookup(entries, v, role) == Some(
                (#[trigger] entries[i]).url_for(role),
            ),
    decreases entries.len(),
{
    if entries.len() > 0 {
        let rest = entries.drop_first();
        lemma_lookup_finds(rest, v, role);
        if entries[0].version@ == v {
            assert(table_has(entries, v));
        } else {
            if table_has(entries, v) {
                let i = choose|i: int| 0 <= i < entries.len() && (#[trigger] entries[i]).version@ == v;
                assert(rest[i - 1] == entries[i]);
            }
            if table_has(rest, v) {
                let i = choose|i: int| 0 <= i < rest.len() && (#[trigger] rest[i]).version@ == v;
                assert(entries[i + 1] == rest[i]);
            }
            if table_lookup(rest, v, role) is Some {
                let i = choose|i: int|
                    0 <= i < rest.len() && table_lookup(rest, v, role) == Some(
                        (#[trigger] rest[i]).url_for(role),
                    );
                assert(entries[i + 1] == rest[i]);
            }
        }
    }
}

/// With no override, resolution against a well-formed table gives a
/// non-empty URL for each artifact of every version the table has, and no URL
/// for a version it lacks.
pub proof fn lemma_resolution_without_overrides(t: VersionTable, v: Seq<char>, role: ArtifactRole)
    requires
        t.well_formed(),
    ensures
        table_has(t.entries@, v) ==> (resolved_url(t.entries@, v, role, None) matches Some(u) && u.len()
            > 0),
        !table_has(t.entries@, v) ==> resolved_url(t.entries@, v, role, None) is None,
{
    lemma_lookup_finds(t.entries@, v, role);
    if table_has(t.entries@, v) {
        let i = choose|i: int|
            0 <= i < t.entries@.len() && table_lookup(t.entries@, v, role) == Some(
                (#[trigger] t.entries@[i]).url_for(role),
            );
        assert(t.entries@[i].packtest_url@.len() > 0);
    }
}

/// Any override other than the sentinel is the resolved URL, whatever the
/// table holds for the version.
pub proof fn lemma_override_verbatim(
    entries: Seq<VersionEntry>,
    v: Seq<char>,
    role: ArtifactRole,
    u: Seq<char>,
)
    requires
        u != USE_DEFAULT@,
    ensures
        resolved_url(entries, v, role, Some(u)) == Some(u),
{
}

/// The sentinel resolves as if no override had been given.
pub proof fn lemma_sentinel_is_default(entries: Seq<VersionEntry>, v: Seq<char>, role: ArtifactRole)
    ensures
        resolved_url(entries, v, role, Some(USE_DEFAULT@)) == resolved_url(entries, v, role, None),
{
}

} // verus!
