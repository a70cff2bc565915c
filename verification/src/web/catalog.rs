//! The module catalog that JFrog Artifactory serves, and the built-in one.
use vstd::prelude::*;

use crate::text::{owned, str_eq};
use crate::types::ModuleDescriptor;

verus! {

/// The repository used where none is configured.
pub const DEFAULT_REPOSITORY: &'static str = "ferrishost-modules";

/// Where the module catalog and install manifests come from.
#[derive(Debug, Clone)]
pub struct ArtifactoryClient {
    /// Empty where Artifactory is not configured.
    pub base_url: String,
    pub repository: String,
    pub anonymous: bool,
}

/// The module catalog.
#[derive(Debug, Clone)]
pub struct Catalog {
    pub version: String,
    pub modules: Vec<CatalogModule>,
}

/// One module of the catalog.
#[derive(Debug, Clone)]
pub struct CatalogModule {
    pub id: String,
    pub name: String,
    pub description: String,
    pub category: String,
    pub version: String,
    pub icon: Option<String>,
    pub install_job: Option<String>,
}

/// What `str::parse::<bool>` gives: exactly "true" or "false".
pub open spec fn parse_bool(s: Seq<char>) -> Option<bool> {
    if s == "true"@ {
        Some(true)
    } else if s == "false"@ {
        Some(false)
    } else {
        None
    }
}

/// The view of a setting that may be missing, with a default.
pub open spec fn setting_or(v: Option<String>, default: Seq<char>) -> Seq<char> {
    match v {
        Some(s) => s@,
        None => default,
    }
}

/// The address of a file of the repository, where Artifactory is configured.
pub open spec fn repository_file_url(c: ArtifactoryClient, path: Seq<char>) -> Option<Seq<char>> {
    if c.base_url@.len() == 0 {
        None
    } else {
        Some(c.base_url@ + "/"@ + c.repository@ + "/"@ + path)
    }
}

/// The descriptor of a catalog module: not installed.
pub open spec fn describes(d: ModuleDescriptor, m: CatalogModule) -> bool {
    &&& d.id@ == m.id@
    &&& d.name@ == m.name@
    &&& d.description@ == m.description@
    &&& d.category@ == m.category@
    &&& d.version@ == m.version@
    &&& !d.installed
}

/// A descriptor with the given fields, not installed.
pub open spec fn is_descriptor(
    d: ModuleDescriptor,
    id: Seq<char>,
    name: Seq<char>,
    description: Seq<char>,
    category: Seq<char>,
    version: Seq<char>,
) -> bool {
    &&& d.id@ == id
    &&& d.name@ == name
    &&& d.description@ == description
    &&& d.category@ == category
    &&& d.version@ == version
    &&& !d.installed
}

/// The modules offered where no catalog can be fetched.
pub open spec fn builtin_catalog(ds: Seq<ModuleDescriptor>) -> bool {
    &&& ds.len() == 2
    &&& is_descriptor(
        ds[0],
        "headscale"@,
        "Headscale"@,
        "Private mesh VPN and remote access"@,
        "vpn"@,
        "0.22.0"@,
    )
    &&& is_descriptor(ds[1], "seafile"@, "Seafile"@, "File sync and sharing"@, "app"@, "9.0.0"@)
}

/// Whether `s` is "true" or "false", and which.
pub fn parse_bool_str(s: &str) -> (r: Option<bool>)
    ensures
        r == parse_bool(s@),
{
    if str_eq(s, "true") {
        Some(true)
    } else if str_eq(s, "false") {
        Some(false)
    } else {
        None
    }
}

impl ArtifactoryClient {
    /// The client that the settings `ARTIFACTORY_URL`, `ARTIFACTORY_REPO`
    /// and `ARTIFACTORY_ANONYMOUS` describe (`None` where one is not set):
    /// no address, the default repository, and anonymous access unless the
    /// last reads "false".
    pub fn from_env(
        url: Option<String>,
        repository: Option<String>,
        anonymous: Option<String>,
    ) -> (c: ArtifactoryClient)
        ensures
            c.base_url@ == setting_or(url, Seq::empty()),
            c.repository@ == setting_or(repository, DEFAULT_REPOSITORY@),
            c.anonymous == (match anonymous {
                Some(v) => match parse_bool(v@) {
                    Some(b) => b,
                    None => true,
                },
                None => true,
            }),
    {
        let base_url = match url {
            Some(u) => u,
            None => String::new(),
        };
        let repository = match repository {
            Some(r) => r,
            None => owned(DEFAULT_REPOSITORY),
        };
        let anonymous = match anonymous {
            Some(v) => match parse_bool_str(v.as_str()) {
                Some(b) => b,
                None => true,
            },
            None => true,
        };
        ArtifactoryClient { base_url, repository, anonymous }
    }

    /// The address of `path` in the repository; none where Artifactory is
    /// not configured.
    fn file_url(&self, path: &str) -> (u: Option<String>)
        ensures
            opt_seq(u) == repository_file_url(*self, path@),
    {
        if self.base_url.as_str().is_empty() {
            None
        } else {
            let mut u = self.base_url.clone();
            u.append("/");
            u.append(self.repository.as_str());
            u.append("/");
            u.append(path);
            Some(u)
        }
    }

    /// The address of the catalog index; none where Artifactory is not
    /// configured.
    pub fn catalog_url(&self) -> (u: Option<String>)
        ensures
            opt_seq(u) == repository_file_url(*self, "catalog.json"@),
    {
        self.file_url("catalog.json")
    }

    /// The address of the install Job manifest of a module; none where
    /// Artifactory is not configured.
    pub fn install_job_url(&self, module_id: &str) -> (u: Option<String>)
        ensures
            opt_seq(u) == repository_file_url(*self, module_id@ + "/install-job.yaml"@),
    {
        let mut path = owned(module_id);
        path.append("/install-job.yaml");
        self.file_url(path.as_str())
    }
}

/// The view of an optional string.
pub open spec fn opt_seq(o: Option<String>) -> Option<Seq<char>> {
    match o {
        Some(s) => Some(s@),
        None => None,
    }
}

/// The descriptor of a catalog module, not installed.
pub fn describe(m: &CatalogModule) -> (d: ModuleDescriptor)
    ensures
        describes(d, *m),
{
    ModuleDescriptor {
        id: m.id.clone(),
        name: m.name.clone(),
        description: m.description.clone(),
        category: m.category.clone(),
        version: m.version.clone(),
        installed: false,
    }
}

/// The modules offered where no catalog can be fetched.
pub fn builtin_modules() -> (ds: Vec<ModuleDescriptor>)
    ensures
        builtin_catalog(ds@),
{
    let mut ds: Vec<ModuleDescriptor> = Vec::new();
    ds.push(
        ModuleDescriptor {
            id: owned("headscale"),
            name: owned("Headscale"),
            description: owned("Private mesh VPN and remote access"),
            category: owned("vpn"),
            version: owned("0.22.0"),
            installed: false,
        },
    );
    ds.push(
        ModuleDescriptor {
            id: owned("seafile"),
            name: owned("Seafile"),
            description: owned("File sync and sharing"),
            category: owned("app"),
            version: owned("9.0.0"),
            installed: false,
        },
    );
    ds
}

/// The modules of the catalog, in order and none installed, where a catalog
/// was fetched; the built-in list otherwise.
pub fn list_modules(catalog: Option<&Catalog>) -> (ds: Vec<ModuleDescriptor>)
    ensures
        catalog matches Some(c) ==> {
            &&& ds@.len() == c.modules@.len()
            &&& forall|i: int| 0 <= i < ds@.len() ==> describes(#[trigger] ds@[i], c.modules@[i])
        },
        catalog is None ==> builtin_catalog(ds@),
{
    match catalog {
        None => builtin_modules(),
        Some(c) => {
            let mut ds: Vec<ModuleDescriptor> = Vec::new();
            let mut i: usize = 0;
            while i < c.modules.len()
                invariant
                    i <= c.modules@.len(),
                    ds@.len() == i,
                    forall|k: int| 0 <= k < i ==> describes(#[trigger] ds@[k], c.modules@[k]),
                decreases c.modules@.len() - i,
            {
                let d = describe(&c.modules[i]);
                ds.push(d);
                i += 1;
            }
            ds
        },
    }
}

/// The first module of the catalog with the given id, described; none where
/// no catalog was fetched or it has no such module.
pub fn get_module_descriptor(catalog: Option<&Catalog>, id: &str) -> (r: Option<ModuleDescriptor>)
    ensures
        catalog is None ==> r is None,
        catalog matches Some(c) ==> {
            &&& r is None <==> forall|k: int| 0 <= k < c.modules@.len() ==> (
            #[trigger] c.modules@[k]).id@ != id@
            &&& r matches Some(d) ==> exists|k: int|
                0 <= k < c.modules@.len() && (#[trigger] c.modules@[k]).id@ == id@ && (forall|
                    j: int,
                | 0 <= j < k ==> c.modules@[j].id@ != id@) && describes(d, c.modules@[k])
        },
{
    match catalog {
        None => None,
        Some(c) => {
            let mut i: usize = 0;
            while i < c.modules.len()
                invariant
                    catalog == Some(c),
                    i <= c.modules@.len(),
                    forall|j: int| 0 <= j < i ==> c.modules@[j].id@ != id@,
                decreases c.modules@.len() - i,
            {
                if str_eq(c.modules[i].id.as_str(), id) {
                    let d = describe(&c.modules[i]);
                    assert(c.modules@[i as int].id@ == id@);
                    return Some(d);
                }
                i += 1;
            }
            None
        },
    }
}

/// Settings read "true" or "false" exactly; anything else is no boolean,
/// and anonymous access then stays on.
pub proof fn law_parse_bool(s: Seq<char>)
    ensures
        parse_bool("true"@) == Some(true),
        parse_bool("false"@) == Some(false),
        parse_bool(s) is Some ==> s == "true"@ || s == "false"@,
        parse_bool("TRUE"@) is None,
        parse_bool(""@) is None,
{
    reveal_strlit("true");
    reveal_strlit("false");
    reveal_strlit("TRUE");
    reveal_strlit("");
    assert("true"@ != "false"@) by {
        assert("true"@.len() != "false"@.len());
    }
    assert("TRUE"@ != "true"@) by {
        assert("TRUE"@[0] != "true"@[0]);
    }
    assert("TRUE"@ != "false"@) by {
        assert("TRUE"@.len() != "false"@.len());
    }
    assert(""@ != "true"@ && ""@ != "false"@) by {
        assert(""@.len() == 0);
    }
}

/// A file of the repository is found under the configured address, then
/// the repository, then the file's path, each part after a slash; without
/// a configured address there is no file to fetch.
pub proof fn law_repository_file_url(c: ArtifactoryClient, path: Seq<char>)
    ensures
        repository_file_url(c, path) is None <==> c.base_url@.len() == 0,
        repository_file_url(c, path) matches Some(u) ==> {
            &&& u.subrange(0, c.base_url@.len() as int) == c.base_url@
            &&& u[c.base_url@.len() as int] == '/'
            &&& u.subrange(u.len() - path.len(), u.len() as int) == path
            &&& u.len() == c.base_url@.len() + c.repository@.len() + path.len() + 2
        },
{
    reveal_strlit("/");
    if c.base_url@.len() > 0 {
        let u = c.base_url@ + "/"@ + c.repository@ + "/"@ + path;
        assert(u.subrange(0, c.base_url@.len() as int) =~= c.base_url@);
        assert(u.subrange(u.len() - path.len(), u.len() as int) =~= path);
    }
}

} // verus!
