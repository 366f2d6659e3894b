//! The loader installer: a per-invocation state machine that ensures a
//! specific mod-loader version is present in the game's installation
//! directory. The decisions live here; the caller performs each requested
//! action (fetch the version index, list the versions directory, fetch and
//! run the installer artifact, clear the mods directory) and reports back.

use vstd::prelude::*;
use crate::json::{parse_json, json_get, json_as_array, json_as_string, spec_json_wf};
use crate::manifest::{ModLoader, ParseError};
use crate::text::{
    contains_seq,
    contains_str,
    dash_split,
    dash_fields,
    str_eq,
};

verus! {

/// One row of the remote loader-version index: the build pinned to a game
/// version.
pub struct ForgeVersion {
    pub minecraft: String,
    pub forge: String,
}

impl Clone for ForgeVersion {
    fn clone(&self) -> (r: Self)
        ensures
            r == *self,
    {
        ForgeVersion { minecraft: self.minecraft.clone(), forge: self.forge.clone() }
    }
}

/// Decode the fetched loader-version index: a JSON array of rows, each
/// pairing a game version with the build pinned to it. Text the JSON parser
/// does not accept is rejected with the syntax error, and with nothing else.
pub fn parse_forge_index(text: &str) -> (r: Result<Vec<ForgeVersion>, ParseError>)
    ensures
        (r is Err && r->Err_0 is Syntax) <==> !spec_json_wf(text@),
{
    let doc = match parse_json(text) {
        Ok(v) => v,
        Err(_) => return Err(ParseError::Syntax),
    };
    let arr = match json_as_array(&doc) {
        Some(a) => a,
        None => return Err(ParseError::Shape),
    };
    let mut rows: Vec<ForgeVersion> = Vec::new();
    let mut i: usize = 0;
    while i < arr.len()
        invariant
            spec_json_wf(text@),
        decreases arr@.len() - i,
    {
        let row = &arr[i];
        let minecraft = match json_get(row, "minecraft") {
            Some(f) => match json_as_string(f) {
                Some(s) => s,
                None => return Err(ParseError::Shape),
            },
            None => return Err(ParseError::Shape),
        };
        let forge = match json_get(row, "forge") {
            Some(f) => match json_as_string(f) {
                Some(s) => s,
                None => return Err(ParseError::Shape),
            },
            None => return Err(ParseError::Shape),
        };
        rows.push(ForgeVersion { minecraft, forge });
        i = i + 1;
    }
    Ok(rows)
}

/// Index of the last row of `index` whose game version is `mc`, or -1 when
/// no row matches. The last row wins, as repeated scans overwrite earlier
/// matches.
pub open spec fn last_forge_match(index: Seq<ForgeVersion>, mc: Seq<char>) -> int
    decreases index.len(),
{
    if index.len() == 0 {
        -1
    } else if index.last().minecraft@ == mc {
        index.len() - 1
    } else {
        last_forge_match(index.drop_last(), mc)
    }
}

/// `last_forge_match` is exactly the greatest matching index.
pub proof fn lemma_last_forge_match(index: Seq<ForgeVersion>, mc: Seq<char>)
    ensures
        last_forge_match(index, mc) == -1 <==> (forall|i: int|
            0 <= i < index.len() ==> index[i].minecraft@ != mc),
        last_forge_match(index, mc) != -1 ==> {
            &&& 0 <= last_forge_match(index, mc) < index.len()
            &&& index[last_forge_match(index, mc)].minecraft@ == mc
            &&& forall|j: int|
                last_forge_match(index, mc) < j < index.len() ==> index[j].minecraft@ != mc
        },
    decreases index.len(),
{
    if index.len() != 0 && index.last().minecraft@ != mc {
        lemma_last_forge_match(index.drop_last(), mc);
        assert(forall|i: int| 0 <= i < index.len() - 1 ==> index[i] == index.drop_last()[i]);
    }
}

/// Resolve the loader build pinned to `mc` in the fetched version index:
/// the last matching row wins; `None` when the index has no row for `mc`.
pub fn lookup_forge_build(index: &Vec<ForgeVersion>, mc: &str) -> (r: Option<String>)
    ensures
        match r {
            Some(b) => last_forge_match(index@, mc@) != -1 && b@ == index@[last_forge_match(
                index@,
                mc@,
            )].forge@,
            None => last_forge_match(index@, mc@) == -1,
        },
{
    let mut found: Option<usize> = None;
    let mut i: usize = 0;
    while i < index.len()
        invariant
            i <= index@.len(),
            match found {
                Some(k) => k == last_forge_match(index@.subrange(0, i as int), mc@) && k < i,
                None => last_forge_match(index@.subrange(0, i as int), mc@) == -1,
            },
        decreases index@.len() - i,
    {
        proof {
            assert(index@.subrange(0, i + 1).drop_last() =~= index@.subrange(0, i as int));
            assert(index@.subrange(0, i + 1).last() == index@[i as int]);
        }
        if str_eq(index[i].minecraft.as_str(), mc) {
            found = Some(i);
        }
        i = i + 1;
    }
    proof {
        assert(index@.subrange(0, index@.len() as int) =~= index@);
    }
    match found {
        Some(k) => Some(index[k].forge.clone()),
        None => None,
    }
}

/// A versions-directory entry name that contains both `a` and `b`.
pub open spec fn name_matches(name: Seq<char>, a: Seq<char>, b: Seq<char>) -> bool {
    contains_seq(name, a) && contains_seq(name, b)
}

/// Index of the last entry of `listing` containing both `a` and `b`, or -1.
pub open spec fn last_match_both(listing: Seq<Seq<char>>, a: Seq<char>, b: Seq<char>) -> int
    decreases listing.len(),
{
    if listing.len() == 0 {
        -1
    } else if name_matches(listing.last(), a, b) {
        listing.len() - 1
    } else {
        last_match_both(listing.drop_last(), a, b)
    }
}

/// Find the last directory entry whose name contains both `a` and `b`.
pub fn find_last_match_both(listing: &Vec<String>, a: &str, b: &str) -> (r: Option<usize>)
    ensures
        match r {
            Some(k) => k == last_match_both(listing.deep_view(), a@, b@) && k < listing@.len(),
            None => last_match_both(listing.deep_view(), a@, b@) == -1,
        },
{
    let ghost names = listing.deep_view();
    let mut found: Option<usize> = None;
    let mut i: usize = 0;
    while i < listing.len()
        invariant
            names == listing.deep_view(),
            names.len() == listing@.len(),
            forall|j: int| 0 <= j < names.len() ==> names[j] == #[trigger] listing@[j]@,
            i <= names.len(),
            match found {
                Some(k) => k == last_match_both(names.subrange(0, i as int), a@, b@) && k < i,
                None => last_match_both(names.subrange(0, i as int), a@, b@) == -1,
            },
        decreases names.len() - i,
    {
        proof {
            assert(names.subrange(0, i + 1).drop_last() =~= names.subrange(0, i as int));
            assert(names.subrange(0, i + 1).last() == names[i as int]);
        }
        let entry = &listing[i];
        if contains_str(entry.as_str(), a) && contains_str(entry.as_str(), b) {
            found = Some(i);
        }
        i = i + 1;
    }
    proof {
        assert(names.subrange(0, names.len() as int) =~= names);
    }
    found
}

/// Whether some entry of `listing` equals `expected` exactly.
pub open spec fn spec_name_listed(listing: Seq<Seq<char>>, expected: Seq<char>) -> bool {
    exists|i: int| 0 <= i < listing.len() && listing[i] == expected
}

/// Whether the versions directory holds an entry named exactly `expected`.
pub fn name_listed(listing: &Vec<String>, expected: &str) -> (r: bool)
    ensures
        r == spec_name_listed(listing.deep_view(), expected@),
{
    let ghost names = listing.deep_view();
    let mut i: usize = 0;
    while i < listing.len()
        invariant
            names == listing.deep_view(),
            names.len() == listing@.len(),
            forall|j: int| 0 <= j < names.len() ==> names[j] == #[trigger] listing@[j]@,
            i <= names.len(),
            forall|j: int| 0 <= j < i ==> names[j] != expected@,
        decreases names.len() - i,
    {
        if str_eq(listing[i].as_str(), expected) {
            assert(names[i as int] == expected@);
            return true;
        }
        i = i + 1;
    }
    false
}

/// The directory name of an installed build: game version, the loader's
/// name, and the build, dash-joined.
pub open spec fn spec_forge_profile_name(mc: Seq<char>, build: Seq<char>) -> Seq<char> {
    mc + "-forge-"@ + build
}

/// The versions-directory name a correctly installed build carries.
pub fn forge_profile_name(mc: &str, build: &str) -> (r: String)
    ensures
        r@ == spec_forge_profile_name(mc@, build@),
{
    let mut s = mc.to_owned();
    s.append("-forge-");
    s.append(build);
    assert(s@ =~= spec_forge_profile_name(mc@, build@));
    s
}

/// The deterministically templated installer-artifact URL for a build.
pub open spec fn spec_forge_installer_url(mc: Seq<char>, build: Seq<char>) -> Seq<char> {
    "https://maven.minecraftforge.net/net/minecraftforge/forge/"@ + mc + "-"@ + build + "/forge-"@
        + mc + "-"@ + build + "-installer.jar"@
}

/// Build the installer-artifact URL from the game version and the resolved
/// build.
pub fn forge_installer_url(mc: &str, build: &str) -> (r: String)
    ensures
        r@ == spec_forge_installer_url(mc@, build@),
{
    let mut s = "https://maven.minecraftforge.net/net/minecraftforge/forge/".to_owned();
    s.append(mc);
    s.append("-");
    s.append(build);
    s.append("/forge-");
    s.append(mc);
    s.append("-");
    s.append(build);
    s.append("-installer.jar");
    assert(s@ =~= spec_forge_installer_url(mc@, build@));
    s
}

/// The fixed, version-pinned installer-artifact URL for the other loader.
pub open spec fn spec_fabric_installer_url() -> Seq<char> {
    "https://maven.fabricmc.net/net/fabricmc/fabric-installer/0.11.0/fabric-installer-0.11.0.jar"@
}

/// The fixed installer-artifact URL.
pub fn fabric_installer_url() -> (r: String)
    ensures
        r@ == spec_fabric_installer_url(),
{
    "https://maven.fabricmc.net/net/fabricmc/fabric-installer/0.11.0/fabric-installer-0.11.0.jar".to_owned()
}

/// The loader's own version as parsed from an installation's directory
/// name: its third dash-delimited field, or a placeholder when the name has
/// fewer fields.
pub open spec fn spec_fabric_version_of(name: Seq<char>) -> Seq<char> {
    if dash_split(name).len() > 2 {
        dash_split(name)[2]
    } else {
        "unknown"@
    }
}

/// Parse the loader version out of an installation directory name.
pub fn fabric_version_of(name: &str) -> (r: String)
    ensures
        r@ == spec_fabric_version_of(name@),
{
    let fields = dash_fields(name);
    if fields.len() > 2 {
        assert(fields@[2]@ == dash_split(name@)[2]);
        fields[2].clone()
    } else {
        "unknown".to_owned()
    }
}

/// The human-readable label reported for a present installation.
pub open spec fn spec_fabric_label(ver: Seq<char>, mc: Seq<char>) -> Seq<char> {
    "Fabric "@ + ver + " for Minecraft "@ + mc
}

/// Compose the label reported when the loader is present.
pub fn fabric_label(ver: &str, mc: &str) -> (r: String)
    ensures
        r@ == spec_fabric_label(ver@, mc@),
{
    let mut s = "Fabric ".to_owned();
    s.append(ver);
    s.append(" for Minecraft ");
    s.append(mc);
    assert(s@ =~= spec_fabric_label(ver@, mc@));
    s
}

/// Phases of one installer invocation.
#[derive(Clone, Copy, PartialEq, Eq, Structural, Debug)]
pub enum InstallerPhase {
    /// Waiting for the remote loader-version index.
    FetchingIndex,
    /// Waiting for the first versions-directory listing.
    Detecting,
    /// Waiting for the installer artifact to be fetched and run.
    Installing,
    /// Waiting for the second versions-directory listing.
    Redetecting,
    /// Terminal: `success` and `version_label` are the result.
    Done,
}

/// What the caller must do next.
pub enum InstallerAction {
    /// Fetch the remote loader-version index.
    FetchIndex,
    /// List the game's versions directory.
    ScanVersions,
    /// Fetch the installer artifact at this URL into the cache and run it.
    FetchAndRun(String),
    /// Remove the files inside the game's mods directory.
    ClearMods,
    /// Nothing further: report `success` and `version_label`.
    Finished,
}

/// Mathematical model of an action.
#[verifier::ext_equal]
pub enum ActionView {
    FetchIndex,
    ScanVersions,
    FetchAndRun(Seq<char>),
    ClearMods,
    Finished,
}

impl View for InstallerAction {
    type V = ActionView;

    open spec fn view(&self) -> ActionView {
        match self {
            InstallerAction::FetchIndex => ActionView::FetchIndex,
            InstallerAction::ScanVersions => ActionView::ScanVersions,
            InstallerAction::FetchAndRun(url) => ActionView::FetchAndRun(url@),
            InstallerAction::ClearMods => ActionView::ClearMods,
            InstallerAction::Finished => ActionView::Finished,
        }
    }
}

/// One installer invocation, parameterized by loader kind and target game
/// version.
pub struct Installer {
    pub loader: ModLoader,
    pub game_version: String,
    pub phase: InstallerPhase,
    /// The build resolved from the version index; only ever set for Forge.
    pub forge_build: Option<String>,
    pub success: bool,
    pub version_label: String,
}

/// Mathematical model of an installer invocation.
#[verifier::ext_equal]
pub struct InstallerView {
    pub loader: ModLoader,
    pub game_version: Seq<char>,
    pub phase: InstallerPhase,
    pub forge_build: Option<Seq<char>>,
    pub success: bool,
    pub version_label: Seq<char>,
}

impl View for Installer {
    type V = InstallerView;

    open spec fn view(&self) -> InstallerView {
        InstallerView {
            loader: self.loader,
            game_version: self.game_version@,
            phase: self.phase,
            forge_build: match self.forge_build {
                Some(ref b) => Some(b@),
                None => None,
            },
            success: self.success,
            version_label: self.version_label@,
        }
    }
}

/// The state and first action of a fresh invocation: the Forge path must
/// resolve a build from the remote index first; the Fabric path detects
/// immediately.
pub open spec fn spec_start(loader: ModLoader, mc: Seq<char>) -> (InstallerView, ActionView) {
    let s = InstallerView {
        loader,
        game_version: mc,
        phase: match loader {
            ModLoader::Forge => InstallerPhase::FetchingIndex,
            ModLoader::Fabric => InstallerPhase::Detecting,
        },
        forge_build: None,
        success: false,
        version_label: Seq::empty(),
    };
    let a = match loader {
        ModLoader::Forge => ActionView::FetchIndex,
        ModLoader::Fabric => ActionView::ScanVersions,
    };
    (s, a)
}

/// Resolving the version index: when the index pins no build to the game
/// version, the invocation fails rather than fetching a malformed artifact
/// URL; otherwise detection begins.
pub open spec fn spec_on_index(s: InstallerView, index: Seq<ForgeVersion>) -> (
    InstallerView,
    ActionView,
)
    recommends
        s.phase == InstallerPhase::FetchingIndex,
{
    let m = last_forge_match(index, s.game_version);
    if m == -1 {
        (InstallerView { phase: InstallerPhase::Done, success: false, ..s }, ActionView::Finished)
    } else {
        (
            InstallerView {
                phase: InstallerPhase::Detecting,
                forge_build: Some(index[m].forge@),
                ..s
            },
            ActionView::ScanVersions,
        )
    }
}

/// Whether a listing of the versions directory shows the wanted loader
/// installation: Forge by exact directory name, Fabric by an entry naming
/// the loader and the game version.
pub open spec fn spec_detected(s: InstallerView, listing: Seq<Seq<char>>) -> bool {
    match s.loader {
        ModLoader::Forge => spec_name_listed(
            listing,
            spec_forge_profile_name(s.game_version, s.forge_build->0),
        ),
        ModLoader::Fabric => last_match_both(listing, "fabric-loader"@, s.game_version) != -1,
    }
}

/// The label reported when detection succeeds.
pub open spec fn spec_detected_label(s: InstallerView, listing: Seq<Seq<char>>) -> Seq<char> {
    match s.loader {
        ModLoader::Forge => spec_forge_profile_name(s.game_version, s.forge_build->0),
        ModLoader::Fabric => spec_fabric_label(
            spec_fabric_version_of(
                listing[last_match_both(listing, "fabric-loader"@, s.game_version)],
            ),
            s.game_version,
        ),
    }
}

/// The installer-artifact URL fetched when detection fails.
pub open spec fn spec_artifact_url(s: InstallerView) -> Seq<char> {
    match s.loader {
        ModLoader::Forge => spec_forge_installer_url(s.game_version, s.forge_build->0),
        ModLoader::Fabric => spec_fabric_installer_url(),
    }
}

/// Receiving a versions-directory listing. A present installation ends the
/// invocation at once: the only remaining action is the mods-directory
/// clear. A miss on the first listing fetches and runs the installer; a
/// miss on the second is terminal failure.
pub open spec fn spec_on_listing(s: InstallerView, listing: Seq<Seq<char>>) -> (
    InstallerView,
    ActionView,
)
    recommends
        s.phase == InstallerPhase::Detecting || s.phase == InstallerPhase::Redetecting,
{
    if spec_detected(s, listing) {
        (
            InstallerView {
                phase: InstallerPhase::Done,
                success: true,
                version_label: spec_detected_label(s, listing),
                ..s
            },
            ActionView::ClearMods,
        )
    } else if s.phase == InstallerPhase::Detecting {
        (
            InstallerView { phase: InstallerPhase::Installing, ..s },
            ActionView::FetchAndRun(spec_artifact_url(s)),
        )
    } else {
        (InstallerView { phase: InstallerPhase::Done, success: false, ..s }, ActionView::Finished)
    }
}

impl Installer {
    /// A Forge invocation must have resolved its build before detection.
    pub open spec fn wf(&self) -> bool {
        &&& self.loader == ModLoader::Fabric ==> self@.forge_build is None
        &&& self.loader == ModLoader::Forge && (self.phase == InstallerPhase::Detecting
            || self.phase == InstallerPhase::Installing || self.phase
            == InstallerPhase::Redetecting) ==> self@.forge_build is Some
        &&& self.loader == ModLoader::Forge && self.phase == InstallerPhase::FetchingIndex
            ==> self@.forge_build is None
    }

    /// Begin an invocation for this loader kind and game version.
    pub fn start(loader: ModLoader, game_version: String) -> (r: (Installer, InstallerAction))
        ensures
            r.0.wf(),
            r.0@ == spec_start(loader, game_version@).0,
            r.1@ == spec_start(loader, game_version@).1,
    {
        let phase = match loader {
            ModLoader::Forge => InstallerPhase::FetchingIndex,
            ModLoader::Fabric => InstallerPhase::Detecting,
        };
        let action = match loader {
            ModLoader::Forge => InstallerAction::FetchIndex,
            ModLoader::Fabric => InstallerAction::ScanVersions,
        };
        let inst = Installer {
            loader,
            game_version,
            phase,
            forge_build: None,
            success: false,
            version_label: String::new(),
        };
        assert(inst@ =~= spec_start(loader, inst.game_version@).0);
        (inst, action)
    }

    /// Feed the fetched loader-version index to a Forge invocation.
    pub fn on_index(&mut self, index: &Vec<ForgeVersion>) -> (a: InstallerAction)
        requires
            old(self).wf(),
            old(self).loader == ModLoader::Forge,
            old(self).phase == InstallerPhase::FetchingIndex,
        ensures
            final(self).wf(),
            final(self)@ == spec_on_index(old(self)@, index@).0,
            a@ == spec_on_index(old(self)@, index@).1,
    {
        match lookup_forge_build(index, self.game_version.as_str()) {
            Some(build) => {
                self.forge_build = Some(build);
                self.phase = InstallerPhase::Detecting;
                assert(self@ =~= spec_on_index(old(self)@, index@).0);
                InstallerAction::ScanVersions
            },
            None => {
                self.phase = InstallerPhase::Done;
                self.success = false;
                assert(self@ =~= spec_on_index(old(self)@, index@).0);
                InstallerAction::Finished
            },
        }
    }

    /// The version-index fetch failed: terminal failure, reported as
    /// "could not install the loader".
    pub fn on_index_failed(&mut self) -> (a: InstallerAction)
        requires
            old(self).wf(),
            old(self).phase == InstallerPhase::FetchingIndex,
        ensures
            final(self).wf(),
            final(self)@ == (InstallerView {
                phase: InstallerPhase::Done,
                success: false,
                ..old(self)@
            }),
            a@ == ActionView::Finished,
    {
        self.phase = InstallerPhase::Done;
        self.success = false;
        assert(self@ =~= (InstallerView {
            phase: InstallerPhase::Done,
            success: false,
            ..old(self)@
        }));
        InstallerAction::Finished
    }

    /// Feed a versions-directory listing to the invocation, in either
    /// detection phase.
    pub fn on_listing(&mut self, listing: &Vec<String>) -> (a: InstallerAction)
        requires
            old(self).wf(),
            old(self).phase == InstallerPhase::Detecting || old(self).phase
                == InstallerPhase::Redetecting,
        ensures
            final(self).wf(),
            final(self)@ == spec_on_listing(old(self)@, listing.deep_view()).0,
            a@ == spec_on_listing(old(self)@, listing.deep_view()).1,
    {
        let detected_label: Option<String> = match self.loader {
            ModLoader::Forge => {
                let build = match self.forge_build {
                    Some(ref b) => b.clone(),
                    None => String::new(),  // unreachable: wf pins the build in this phase
                };
                assert(build@ == old(self)@.forge_build->0);
                let expected = forge_profile_name(self.game_version.as_str(), build.as_str());
                if name_listed(listing, expected.as_str()) {
                    Some(expected)
                } else {
                    None
                }
            },
            ModLoader::Fabric => {
                match find_last_match_both(listing, "fabric-loader", self.game_version.as_str()) {
                    Some(k) => {
                        proof {
                            assert(listing.deep_view()[k as int] == listing@[k as int]@);
                        }
                        let ver = fabric_version_of(listing[k].as_str());
                        Some(fabric_label(ver.as_str(), self.game_version.as_str()))
                    },
                    None => None,
                }
            },
        };
        match detected_label {
            Some(label) => {
                assert(spec_detected(old(self)@, listing.deep_view()));
                assert(label@ == spec_detected_label(old(self)@, listing.deep_view()));
                self.phase = InstallerPhase::Done;
                self.success = true;
                self.version_label = label;
                assert(self@ =~= spec_on_listing(old(self)@, listing.deep_view()).0);
                InstallerAction::ClearMods
            },
            None => {
                assert(!spec_detected(old(self)@, listing.deep_view()));
                if matches!(self.phase, InstallerPhase::Detecting) {
                    let url = match self.loader {
                        ModLoader::Forge => {
                            let build = match self.forge_build {
                                Some(ref b) => b.clone(),
                                None => String::new(),  // unreachable: wf pins the build
                            };
                            forge_installer_url(self.game_version.as_str(), build.as_str())
                        },
                        ModLoader::Fabric => fabric_installer_url(),
                    };
                    assert(url@ == spec_artifact_url(old(self)@));
                    self.phase = InstallerPhase::Installing;
                    assert(self@ =~= spec_on_listing(old(self)@, listing.deep_view()).0);
                    InstallerAction::FetchAndRun(url)
                } else {
                    self.phase = InstallerPhase::Done;
                    self.success = false;
                    assert(self@ =~= spec_on_listing(old(self)@, listing.deep_view()).0);
                    InstallerAction::Finished
                }
            },
        }
    }

    /// The installer artifact ran: detect again.
    pub fn on_installer_ran(&mut self) -> (a: InstallerAction)
        requires
            old(self).wf(),
            old(self).phase == InstallerPhase::Installing,
        ensures
            final(self).wf(),
            final(self)@ == (InstallerView { phase: InstallerPhase::Redetecting, ..old(self)@ }),
            a@ == ActionView::ScanVersions,
    {
        self.phase = InstallerPhase::Redetecting;
        assert(self@ =~= (InstallerView { phase: InstallerPhase::Redetecting, ..old(self)@ }));
        InstallerAction::ScanVersions
    }

    /// Fetching or spawning the installer artifact failed: terminal failure.
    pub fn on_installer_failed(&mut self) -> (a: InstallerAction)
        requires
            old(self).wf(),
            old(self).phase == InstallerPhase::Installing,
        ensures
            final(self).wf(),
            final(self)@ == (InstallerView {
                phase: InstallerPhase::Done,
                success: false,
                ..old(self)@
            }),
            a@ == ActionView::Finished,
    {
        self.phase = InstallerPhase::Done;
        self.success = false;
        assert(self@ =~= (InstallerView {
            phase: InstallerPhase::Done,
            success: false,
            ..old(self)@
        }));
        InstallerAction::Finished
    }
}

/// Idempotence of installation: a listing that already shows the wanted
/// installation ends the invocation at once with success; the only action
/// is the mods-directory clear — nothing is fetched and nothing is spawned.
pub proof fn lemma_detect_idempotent(s: InstallerView, listing: Seq<Seq<char>>)
    requires
        s.phase == InstallerPhase::Detecting || s.phase == InstallerPhase::Redetecting,
        spec_detected(s, listing),
    ensures
        spec_on_listing(s, listing).0.phase == InstallerPhase::Done,
        spec_on_listing(s, listing).0.success,
        spec_on_listing(s, listing).1 == ActionView::ClearMods,
        !(spec_on_listing(s, listing).1 is FetchAndRun),
{
}

/// A version index with no row for the requested game version is a
/// resolvable failure: the invocation ends unsuccessfully instead of
/// building an artifact URL with an empty build.
pub proof fn lemma_missing_build_rejected(s: InstallerView, index: Seq<ForgeVersion>)
    requires
        s.phase == InstallerPhase::FetchingIndex,
        forall|i: int| 0 <= i < index.len() ==> index[i].minecraft@ != s.game_version,
    ensures
        spec_on_index(s, index).0.phase == InstallerPhase::Done,
        !spec_on_index(s, index).0.success,
        spec_on_index(s, index).1 == ActionView::Finished,
{
    lemma_last_forge_match(index, s.game_version);
}

} // verus!
