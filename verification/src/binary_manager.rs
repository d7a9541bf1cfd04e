//! Language-server binaries published as GitHub release assets.
//!
//! A `GithubBinary` moves through three phases: `Init` (what to look for),
//! `WithVersion` (the release asset that was chosen) and `Synced` (where the
//! binary lies on disk).  The network and file-system work happens around
//! this module; here stand the choices: which release, which asset, which
//! file names, which cached directory.
use vstd::prelude::*;
use vstd::string::StrSliceExecFns;
use vstd::string::StringExecFns;
use crate::text::push_char;

verus! {

/// The name of a release asset: fixed, or with `{}` standing for the
/// release's version.
pub enum AssetName {
    Static(&'static str),
    Versioned(&'static str),
}

/// `template` with every `{}` replaced by `value`, read from left to right.
pub open spec fn fill_placeholders(template: Seq<char>, value: Seq<char>) -> Seq<char>
    decreases template.len(),
{
    if template.len() == 0 {
        Seq::empty()
    } else if template.len() >= 2 && template[0] == '{' && template[1] == '}' {
        value + fill_placeholders(template.skip(2), value)
    } else {
        seq![template[0]] + fill_placeholders(template.skip(1), value)
    }
}

/// The asset file name that `name` gives for `version`.
pub open spec fn asset_file_name(name: AssetName, version: Seq<char>) -> Seq<char> {
    match name {
        AssetName::Static(value) => value@,
        AssetName::Versioned(value) => fill_placeholders(value@, version),
    }
}

/// Whether a `{}` starts at position `i` of `template`.
pub open spec fn placeholder_at(template: Seq<char>, i: int) -> bool {
    0 <= i && i + 1 < template.len() && template[i] == '{' && template[i + 1] == '}'
}

/// Whether `template` holds a `{}`.
pub open spec fn has_placeholder(template: Seq<char>) -> bool {
    exists|i: int| #[trigger] placeholder_at(template, i)
}

/// A template without `{}` is its own file name, whatever the version.
pub proof fn lemma_no_placeholder_unchanged(template: Seq<char>, value: Seq<char>)
    requires
        !has_placeholder(template),
    ensures
        fill_placeholders(template, value) == template,
    decreases template.len(),
{
    if template.len() > 0 {
        let rest = template.skip(1);
        assert(!has_placeholder(rest)) by {
            if has_placeholder(rest) {
                let i = choose|i: int| #[trigger] placeholder_at(rest, i);
                assert(placeholder_at(template, i + 1));
            }
        }
        if template.len() >= 2 && template[0] == '{' && template[1] == '}' {
            assert(placeholder_at(template, 0));
        }
        lemma_no_placeholder_unchanged(rest, value);
        assert(seq![template[0]] + rest =~= template);
    }
}

fn fill_placeholders_exec(template: &str, value: &str) -> (filled: String)
    ensures
        filled@ == fill_placeholders(template@, value@),
{
    let n = template.unicode_len();
    let mut out = String::new();
    let mut i: usize = 0;
    proof {
        assert(template@.skip(0) =~= template@);
        assert(out@ + fill_placeholders(template@, value@) =~= fill_placeholders(template@, value@));
    }
    while i < n
        invariant
            i <= n,
            n == template@.len(),
            fill_placeholders(template@, value@) == out@ + fill_placeholders(
                template@.skip(i as int),
                value@,
            ),
        decreases n - i,
    {
        let ghost rest = template@.skip(i as int);
        let c = template.get_char(i);
        if c == '{' && i + 1 < n && template.get_char(i + 1) == '}' {
            proof {
                assert(rest[0] == '{' && rest[1] == '}');
                assert(rest.skip(2) =~= template@.skip(i + 2));
            }
            out.append(value);
            i += 2;
        } else {
            proof {
                assert(rest[0] == c);
                assert(rest.skip(1) =~= template@.skip(i + 1));
                assert(!(rest.len() >= 2 && rest[0] == '{' && rest[1] == '}'));
            }
            push_char(&mut out, c);
            i += 1;
        }
    }
    proof {
        assert(template@.skip(n as int) =~= Seq::<char>::empty());
        assert(out@ + Seq::<char>::empty() =~= out@);
    }
    out
}

impl AssetName {
    /// The asset's file name for `version`: a fixed name as it is, a
    /// versioned one with each `{}` replaced by `version`.
    pub fn to_string(&self, version: &str) -> (s: String)
        ensures
            s@ == asset_file_name(*self, version@),
    {
        match self {
            AssetName::Static(value) => String::from_str(value),
            AssetName::Versioned(value) => fill_placeholders_exec(value, version),
        }
    }
}

/// One asset of a release.
pub struct GithubReleaseAsset {
    pub name: String,
    pub browser_download_url: String,
}

/// A release of a GitHub repository, as its API lists it.
pub struct GithubRelease {
    pub name: String,
    pub pre_release: bool,
    pub assets: Vec<GithubReleaseAsset>,
    pub tarball_url: String,
}

/// Why no binary could be chosen.
#[derive(Clone, Copy, Debug, PartialEq, Eq, Structural)]
pub enum ReleaseError {
    /// No listed release has the wanted pre-release flag.
    NoMatchingRelease,
    /// The chosen release has no asset of the wanted name.
    NoMatchingAsset,
}

/// Whether `i` is the position of the first release whose pre-release flag
/// is `pre_release`.
pub open spec fn is_first_release(releases: Seq<GithubRelease>, pre_release: bool, i: int) -> bool {
    &&& 0 <= i < releases.len()
    &&& releases[i].pre_release == pre_release
    &&& forall|j: int| 0 <= j < i ==> releases[j].pre_release != pre_release
}

/// Whether `i` is the position of the first asset named `name`.
pub open spec fn is_first_asset(assets: Seq<GithubReleaseAsset>, name: Seq<char>, i: int) -> bool {
    &&& 0 <= i < assets.len()
    &&& assets[i].name@ == name
    &&& forall|j: int| 0 <= j < i ==> assets[j].name@ != name
}

/// The latest release with the wanted pre-release flag: the first of the
/// list (the API lists the newest first) whose flag is `pre_release`.
pub fn pick_release(releases: Vec<GithubRelease>, pre_release: bool) -> (r: Result<
    GithubRelease,
    ReleaseError,
>)
    ensures
        match r {
            Ok(release) => exists|i: int|
                is_first_release(releases@, pre_release, i) && release == releases@[i],
            Err(e) => e == ReleaseError::NoMatchingRelease && forall|i: int|
                0 <= i < releases@.len() ==> releases@[i].pre_release != pre_release,
        },
{
    let mut remaining = releases;
    let ghost all = remaining@;
    let mut i: usize = 0;
    while i < remaining.len()
        invariant
            remaining@ == all,
            all == releases@,
            i <= remaining.len(),
            forall|j: int| 0 <= j < i ==> all[j].pre_release != pre_release,
        decreases remaining.len() - i,
    {
        if remaining[i].pre_release == pre_release {
            let release = remaining.remove(i);
            assert(is_first_release(all, pre_release, i as int) && release == all[i as int]);
            return Ok(release);
        }
        i += 1;
    }
    Err(ReleaseError::NoMatchingRelease)
}

/// What to look for: a binary named `name`, released in `repo` as the asset
/// named by `asset_name`, possibly inside a directory of the unpacked asset.
pub struct Init {
    name: &'static str,
    repo: &'static str,
    binary_path_in_asset: Option<&'static str>,
    preview: bool,
    asset_name: AssetName,
}

/// The asset chosen for a version.
pub struct WithVersion {
    zed_name: &'static str,
    binary_path_in_asset: Option<&'static str>,
    version: String,
    url: String,
}

/// Where the binary lies.
pub struct Synced {
    path: String,
}

/// A binary in one of its phases.
pub struct GithubBinary<P> {
    phase: P,
}

impl Init {
    pub closed spec fn spec_name(&self) -> &'static str {
        self.name
    }

    pub closed spec fn spec_repo(&self) -> &'static str {
        self.repo
    }

    pub closed spec fn spec_binary_path_in_asset(&self) -> Option<&'static str> {
        self.binary_path_in_asset
    }

    pub closed spec fn spec_preview(&self) -> bool {
        self.preview
    }

    pub closed spec fn spec_asset_name(&self) -> AssetName {
        self.asset_name
    }

    /// The repository, `owner/name`.
    pub fn repo(&self) -> (r: &'static str)
        ensures
            r == self.spec_repo(),
    {
        self.repo
    }

    /// Whether pre-releases are wanted.
    pub fn preview(&self) -> (p: bool)
        ensures
            p == self.spec_preview(),
    {
        self.preview
    }
}

impl WithVersion {
    pub closed spec fn spec_zed_name(&self) -> &'static str {
        self.zed_name
    }

    pub closed spec fn spec_binary_path_in_asset(&self) -> Option<&'static str> {
        self.binary_path_in_asset
    }

    pub closed spec fn spec_version(&self) -> Seq<char> {
        self.version@
    }

    pub closed spec fn spec_url(&self) -> Seq<char> {
        self.url@
    }

    /// The version that was chosen.
    pub fn version(&self) -> (v: &str)
        ensures
            v@ == self.spec_version(),
    {
        self.version.as_str()
    }

    /// Where the asset is downloaded from.
    pub fn url(&self) -> (u: &str)
        ensures
            u@ == self.spec_url(),
    {
        self.url.as_str()
    }
}

impl Synced {
    pub closed spec fn spec_path(&self) -> Seq<char> {
        self.path@
    }
}

impl<P> GithubBinary<P> {
    /// The current phase.
    pub fn phase(&self) -> (p: &P)
        ensures
            *p == self.spec_phase(),
    {
        &self.phase
    }

    pub closed spec fn spec_phase(&self) -> P {
        self.phase
    }
}

impl GithubBinary<()> {
    /// A binary to look for; pre-releases are not wanted.
    pub fn new(
        name: &'static str,
        repo: &'static str,
        asset: AssetName,
        binary_path_in_asset: Option<&'static str>,
    ) -> (b: GithubBinary<Init>)
        ensures
            b.spec_phase().spec_name() == name,
            b.spec_phase().spec_repo() == repo,
            b.spec_phase().spec_asset_name() == asset,
            b.spec_phase().spec_binary_path_in_asset() == binary_path_in_asset,
            !b.spec_phase().spec_preview(),
    {
        GithubBinary {
            phase: Init { name, repo, binary_path_in_asset, asset_name: asset, preview: false },
        }
    }

    /// The binary found at `path`.
    pub fn synced_at(path: String) -> (b: GithubBinary<Synced>)
        ensures
            b.spec_phase().spec_path() == path@,
    {
        GithubBinary { phase: Synced { path } }
    }
}

/// `Path::join` on paths given as text: `part` appended to `base` as the
/// platform joins paths (an absolute `part` takes the place of `base`).
pub uninterp spec fn joined_path(base: Seq<char>, part: Seq<char>) -> Seq<char>;

/// `Path::new(base).join(part)`, turned back into text.  Both arguments are
/// valid UTF-8, so the conversion loses nothing; the result is named
/// `joined_path` of the arguments.
#[verifier::external_body]
pub(crate) fn join_path(base: &str, part: &str) -> (p: String)
    ensures
        p@ == joined_path(base@, part@),
{
    std::path::Path::new(base).join(part).to_string_lossy().into_owned()
}

/// `name`, an underscore and `version`.
pub open spec fn versioned_name(name: Seq<char>, version: Seq<char>) -> Seq<char> {
    name + seq!['_'] + version
}

/// Where a binary is put when it is synced into a directory.
pub struct SyncPlan {
    /// The downloaded archive: `<name>_<version>.zip` in the directory.
    pub zip_path: String,
    /// The unpacked archive: `<name>_<version>` in the directory.
    pub version_dir: String,
    /// The binary: in the unpacked archive, or the unpacked archive itself.
    pub binary_path: String,
}

/// The binary's path inside `dir`, as `binary_path_in_asset` says.
pub open spec fn binary_in(dir: Seq<char>, binary_path_in_asset: Option<&'static str>) -> Seq<char> {
    match binary_path_in_asset {
        Some(p) => joined_path(dir, p@),
        None => dir,
    }
}

fn binary_in_exec(dir: &String, binary_path_in_asset: Option<&'static str>) -> (p: String)
    ensures
        p@ == binary_in(dir@, binary_path_in_asset),
{
    match binary_path_in_asset {
        Some(p) => join_path(dir.as_str(), p),
        None => dir.clone(),
    }
}

impl GithubBinary<Init> {
    /// Wants pre-releases too.
    pub fn preview(self) -> (b: Self)
        ensures
            b.spec_phase().spec_preview(),
            b.spec_phase().spec_name() == self.spec_phase().spec_name(),
            b.spec_phase().spec_repo() == self.spec_phase().spec_repo(),
            b.spec_phase().spec_asset_name() == self.spec_phase().spec_asset_name(),
            b.spec_phase().spec_binary_path_in_asset()
                == self.spec_phase().spec_binary_path_in_asset(),
    {
        let mut b = self;
        b.phase.preview = true;
        b
    }

    /// Chooses the asset of `release` for `version`: the first whose name is
    /// the asset name for that version.
    pub fn with_release(self, release: GithubRelease, version: String) -> (r: Result<
        GithubBinary<WithVersion>,
        ReleaseError,
    >)
        ensures
            ({
                let wanted = asset_file_name(self.spec_phase().spec_asset_name(), version@);
                match r {
                    Ok(b) => exists|i: int|
                        {
                            &&& is_first_asset(release.assets@, wanted, i)
                            &&& b.spec_phase().spec_url() == release.assets@[i].browser_download_url@
                            &&& b.spec_phase().spec_version() == version@
                            &&& b.spec_phase().spec_zed_name() == self.spec_phase().spec_name()
                            &&& b.spec_phase().spec_binary_path_in_asset()
                                == self.spec_phase().spec_binary_path_in_asset()
                        },
                    Err(e) => e == ReleaseError::NoMatchingAsset && forall|i: int|
                        0 <= i < release.assets@.len() ==> release.assets@[i].name@ != wanted,
                }
            }),
    {
        let asset_name = self.phase.asset_name.to_string(version.as_str());
        let mut assets = release.assets;
        let ghost all = assets@;
        let mut i: usize = 0;
        while i < assets.len()
            invariant
                assets@ == all,
                all == release.assets@,
                asset_name@ == asset_file_name(self.spec_phase().spec_asset_name(), version@),
                i <= assets.len(),
                forall|j: int| 0 <= j < i ==> all[j].name@ != asset_name@,
            decreases assets.len() - i,
        {
            if assets[i].name == asset_name {
                let asset = assets.remove(i);
                assert(is_first_asset(all, asset_name@, i as int) && asset == all[i as int]);
                return Ok(
                    GithubBinary {
                        phase: WithVersion {
                            version,
                            url: asset.browser_download_url,
                            zed_name: self.phase.name,
                            binary_path_in_asset: self.phase.binary_path_in_asset,
                        },
                    },
                );
            }
            i += 1;
        }
        Err(ReleaseError::NoMatchingAsset)
    }

    /// The binary in the cache: in the last of the unpacked asset
    /// directories `dirs` (in the order the directory listing gave them),
    /// where the binary lies in such a directory; `None` where there is no
    /// directory.
    pub fn cached_binary_path(&self, dirs: &Vec<String>) -> (p: Option<String>)
        ensures
            dirs@.len() == 0 ==> p is None,
            dirs@.len() > 0 ==> (p matches Some(path) && path@ == binary_in(
                dirs@.last()@,
                self.spec_phase().spec_binary_path_in_asset(),
            )),
    {
        let n = dirs.len();
        if n == 0 {
            None
        } else {
            Some(binary_in_exec(&dirs[n - 1], self.phase.binary_path_in_asset))
        }
    }
}

impl GithubBinary<WithVersion> {
    /// The paths that syncing into `container_dir` uses.
    pub fn sync_plan(&self, container_dir: &str) -> (plan: SyncPlan)
        ensures
            ({
                let stem = versioned_name(
                    self.spec_phase().spec_zed_name()@,
                    self.spec_phase().spec_version(),
                );
                &&& plan.zip_path@ == joined_path(container_dir@, stem + seq!['.', 'z', 'i', 'p'])
                &&& plan.version_dir@ == joined_path(container_dir@, stem)
                &&& plan.binary_path@ == binary_in(
                    plan.version_dir@,
                    self.spec_phase().spec_binary_path_in_asset(),
                )
            }),
    {
        let mut stem = String::from_str(self.phase.zed_name);
        push_char(&mut stem, '_');
        stem.append(self.phase.version.as_str());
        assert(stem@ =~= versioned_name(self.phase.zed_name@, self.phase.version@));
        let mut zip_name = stem.clone();
        zip_name.append(".zip");
        proof {
            reveal_strlit(".zip");
            assert(zip_name@ =~= stem@ + seq!['.', 'z', 'i', 'p']);
        }
        let zip_path = join_path(container_dir, zip_name.as_str());
        let version_dir = join_path(container_dir, stem.as_str());
        let binary_path = binary_in_exec(&version_dir, self.phase.binary_path_in_asset);
        SyncPlan { zip_path, version_dir, binary_path }
    }
}

impl GithubBinary<Synced> {
    /// Where the binary lies.
    pub fn path(self) -> (p: String)
        ensures
            p@ == self.spec_phase().spec_path(),
    {
        self.phase.path
    }
}

} // verus!
