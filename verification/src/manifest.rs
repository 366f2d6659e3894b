//! The manifest model: the catalog of installation profiles and the mods
//! each one carries. Immutable after load; the only behaviour is lookup.

use vstd::prelude::*;
use crate::json::{parse_json, json_get, json_as_array, json_as_string, json_as_i64, spec_json_wf};
use crate::text::{str_eq, spec_dec_digits, u64_to_string};

verus! {

/// Why a fetched document was rejected.
#[derive(Clone, Copy, PartialEq, Eq, Structural, Debug)]
pub enum ParseError {
    /// The text is not well-formed JSON.
    Syntax,
    /// The JSON does not have the expected shape, or a number is out of
    /// range for its field.
    Shape,
    /// Two profiles carry the same id.
    DuplicateId,
}

/// Which mod-loader runtime a profile targets.
#[derive(Clone, Copy, PartialEq, Eq, Structural, Debug)]
pub enum ModLoader {
    Fabric,
    Forge,
}

/// Where a content item is hosted.
#[derive(Clone, Copy, PartialEq, Eq, Structural, Debug)]
pub enum ModProvider {
    CurseForge,
    Modrinth,
    Creator,
    Unknown,
}

/// One content item to fetch: immutable description, no runtime state.
pub struct ModRef {
    pub name: String,
    pub source_url: String,
    pub version: String,
    pub provider: ModProvider,
    pub declared_size: i32,
}

/// The identifying half of a profile: its display name, loader kind,
/// target game version, and numeric id (unique within a manifest).
pub struct ProfileMeta {
    pub name: String,
    pub loader: ModLoader,
    pub game_version: String,
    pub id: i32,
}

/// A named configuration binding a game version, a loader kind and a list
/// of mods to install.
pub struct Profile {
    pub meta: ProfileMeta,
    pub mods: Vec<ModRef>,
}

/// The remotely-sourced catalog of available profiles.
pub struct Manifest {
    pub profiles: Vec<Profile>,
}

/// Mathematical model of a profile: its metadata and the sequence of mods.
#[verifier::ext_equal]
pub struct ProfileView {
    pub meta: ProfileMeta,
    pub mods: Seq<ModRef>,
}

impl View for Profile {
    type V = ProfileView;

    open spec fn view(&self) -> ProfileView {
        ProfileView { meta: self.meta, mods: self.mods@ }
    }
}

impl View for Manifest {
    type V = Seq<ProfileView>;

    open spec fn view(&self) -> Seq<ProfileView> {
        self.profiles@.map_values(|p: Profile| p@)
    }
}

impl Clone for ModRef {
    fn clone(&self) -> (r: Self)
        ensures
            r == *self,
    {
        ModRef {
            name: self.name.clone(),
            source_url: self.source_url.clone(),
            version: self.version.clone(),
            provider: self.provider,
            declared_size: self.declared_size,
        }
    }
}

impl Clone for ProfileMeta {
    fn clone(&self) -> (r: Self)
        ensures
            r == *self,
    {
        ProfileMeta {
            name: self.name.clone(),
            loader: self.loader,
            game_version: self.game_version.clone(),
            id: self.id,
        }
    }
}

impl Clone for Profile {
    fn clone(&self) -> (r: Self)
        ensures
            r@ == self@,
    {
        let mut mods: Vec<ModRef> = Vec::new();
        let mut i: usize = 0;
        while i < self.mods.len()
            invariant
                i <= self.mods.len(),
                mods@ =~= self.mods@.subrange(0, i as int),
            decreases self.mods.len() - i,
        {
            mods.push(self.mods[i].clone());
            i = i + 1;
        }
        assert(mods@ =~= self.mods@);
        let r = Profile { meta: self.meta.clone(), mods };
        assert(r@ =~= self@);
        r
    }
}

impl Clone for Manifest {
    fn clone(&self) -> (r: Self)
        ensures
            r@ == self@,
    {
        let mut profiles: Vec<Profile> = Vec::new();
        let mut i: usize = 0;
        while i < self.profiles.len()
            invariant
                i <= self.profiles.len(),
                profiles@.len() == i,
                forall|j: int| 0 <= j < i ==> #[trigger] profiles@[j]@ == self.profiles@[j]@,
            decreases self.profiles.len() - i,
        {
            profiles.push(self.profiles[i].clone());
            i = i + 1;
        }
        let r = Manifest { profiles };
        assert forall|j: int| 0 <= j < self@.len() implies r@[j] == self@[j] by {
            assert(r@[j] == profiles@[j]@);
            assert(self@[j] == self.profiles@[j]@);
        }
        assert(r@ =~= self@);
        r
    }
}

impl Profile {
    /// The mod-list summary shown for a profile: a placeholder for none,
    /// the single mod's name, or the first mod's name and a count of the
    /// others.
    pub fn mods_summary(&self) -> (r: String)
        ensures
            self.mods@.len() == 0 ==> r@ == "No mods."@,
            self.mods@.len() == 1 ==> r@ == self.mods@[0].name@,
            self.mods@.len() > 1 ==> r@ == self.mods@[0].name@ + " and "@ + spec_dec_digits(
                (self.mods@.len() - 1) as nat,
            ) + " other mods"@,
    {
        if self.mods.len() == 0 {
            "No mods.".to_owned()
        } else if self.mods.len() == 1 {
            self.mods[0].name.clone()
        } else {
            let mut s = self.mods[0].name.clone();
            s.append(" and ");
            let n = u64_to_string((self.mods.len() - 1) as u64);
            s.append(n.as_str());
            s.append(" other mods");
            assert(s@ =~= self.mods@[0].name@ + " and "@ + spec_dec_digits(
                (self.mods@.len() - 1) as nat,
            ) + " other mods"@);
            s
        }
    }
}

/// Index of the first profile whose id matches, or -1 if none does.
pub open spec fn first_match(profiles: Seq<ProfileView>, id: i32) -> int
    decreases profiles.len(),
{
    if profiles.len() == 0 {
        -1
    } else if profiles.first().meta.id == id {
        0
    } else {
        let rest = first_match(profiles.drop_first(), id);
        if rest == -1 {
            -1
        } else {
            rest + 1
        }
    }
}

/// `first_match` is exactly the least matching index.
pub proof fn lemma_first_match(profiles: Seq<ProfileView>, id: i32)
    ensures
        first_match(profiles, id) == -1 <==> (forall|i: int|
            0 <= i < profiles.len() ==> profiles[i].meta.id != id),
        first_match(profiles, id) != -1 ==> {
            &&& 0 <= first_match(profiles, id) < profiles.len()
            &&& profiles[first_match(profiles, id)].meta.id == id
            &&& forall|j: int| 0 <= j < first_match(profiles, id) ==> profiles[j].meta.id != id
        },
    decreases profiles.len(),
{
    if profiles.len() != 0 && profiles.first().meta.id != id {
        lemma_first_match(profiles.drop_first(), id);
        assert(forall|i: int|
            1 <= i < profiles.len() ==> profiles[i] == profiles.drop_first()[i - 1]);
    }
}

/// What `lookup` returns: the first profile whose id matches, and the very
/// first profile when none does.
pub open spec fn spec_lookup(profiles: Seq<ProfileView>, id: i32) -> ProfileView
    recommends
        profiles.len() > 0,
{
    if first_match(profiles, id) != -1 {
        profiles[first_match(profiles, id)]
    } else {
        profiles[0]
    }
}

/// Whether some profile of `profiles` carries `id`.
fn contains_profile_id(profiles: &Vec<Profile>, id: i32) -> (r: bool)
    ensures
        r == exists|i: int| 0 <= i < profiles@.len() && profiles@[i].meta.id == id,
{
    let mut i: usize = 0;
    while i < profiles.len()
        invariant
            i <= profiles@.len(),
            forall|j: int| 0 <= j < i ==> profiles@[j].meta.id != id,
        decreases profiles@.len() - i,
    {
        if profiles[i].meta.id == id {
            return true;
        }
        i = i + 1;
    }
    false
}

/// Decode one mod entry of the manifest document; every rejection is a
/// shape error.
fn parse_mod(v: &serde_json::Value) -> (r: Result<ModRef, ParseError>)
    ensures
        r is Err ==> r->Err_0 is Shape,
{
    let name = match json_get(v, "name") {
        Some(f) => match json_as_string(f) {
            Some(s) => s,
            None => return Err(ParseError::Shape),
        },
        None => return Err(ParseError::Shape),
    };
    let source_url = match json_get(v, "url") {
        Some(f) => match json_as_string(f) {
            Some(s) => s,
            None => return Err(ParseError::Shape),
        },
        None => return Err(ParseError::Shape),
    };
    let version = match json_get(v, "version") {
        Some(f) => match json_as_string(f) {
            Some(s) => s,
            None => return Err(ParseError::Shape),
        },
        None => return Err(ParseError::Shape),
    };
    let provider_name = match json_get(v, "provider") {
        Some(f) => match json_as_string(f) {
            Some(s) => s,
            None => return Err(ParseError::Shape),
        },
        None => return Err(ParseError::Shape),
    };
    let provider = if str_eq(provider_name.as_str(), "CurseForge") {
        ModProvider::CurseForge
    } else if str_eq(provider_name.as_str(), "Modrinth") {
        ModProvider::Modrinth
    } else if str_eq(provider_name.as_str(), "Creator") {
        ModProvider::Creator
    } else if str_eq(provider_name.as_str(), "Unknown") {
        ModProvider::Unknown
    } else {
        return Err(ParseError::Shape);
    };
    let size64 = match json_get(v, "size") {
        Some(f) => match json_as_i64(f) {
            Some(n) => n,
            None => return Err(ParseError::Shape),
        },
        None => return Err(ParseError::Shape),
    };
    if size64 < i32::MIN as i64 || size64 > i32::MAX as i64 {
        return Err(ParseError::Shape);
    }
    Ok(ModRef { name, source_url, version, provider, declared_size: size64 as i32 })
}

/// Decode one profile of the manifest document; every rejection is a
/// shape error.
fn parse_profile(v: &serde_json::Value) -> (r: Result<Profile, ParseError>)
    ensures
        r is Err ==> r->Err_0 is Shape,
{
    let meta_v = match json_get(v, "meta") {
        Some(m) => m,
        None => return Err(ParseError::Shape),
    };
    let name = match json_get(meta_v, "name") {
        Some(f) => match json_as_string(f) {
            Some(s) => s,
            None => return Err(ParseError::Shape),
        },
        None => return Err(ParseError::Shape),
    };
    let loader_name = match json_get(meta_v, "loader") {
        Some(f) => match json_as_string(f) {
            Some(s) => s,
            None => return Err(ParseError::Shape),
        },
        None => return Err(ParseError::Shape),
    };
    let loader = if str_eq(loader_name.as_str(), "Fabric") {
        ModLoader::Fabric
    } else if str_eq(loader_name.as_str(), "Forge") {
        ModLoader::Forge
    } else {
        return Err(ParseError::Shape);
    };
    let game_version = match json_get(meta_v, "version") {
        Some(f) => match json_as_string(f) {
            Some(s) => s,
            None => return Err(ParseError::Shape),
        },
        None => return Err(ParseError::Shape),
    };
    let id64 = match json_get(meta_v, "id") {
        Some(f) => match json_as_i64(f) {
            Some(n) => n,
            None => return Err(ParseError::Shape),
        },
        None => return Err(ParseError::Shape),
    };
    if id64 < i32::MIN as i64 || id64 > i32::MAX as i64 {
        return Err(ParseError::Shape);
    }
    let mods_v = match json_get(v, "mods") {
        Some(m) => m,
        None => return Err(ParseError::Shape),
    };
    let mods_arr = match json_as_array(mods_v) {
        Some(a) => a,
        None => return Err(ParseError::Shape),
    };
    let mut mods: Vec<ModRef> = Vec::new();
    let mut i: usize = 0;
    while i < mods_arr.len()
        decreases mods_arr@.len() - i,
    {
        match parse_mod(&mods_arr[i]) {
            Ok(m) => mods.push(m),
            Err(e) => return Err(e),
        }
        i = i + 1;
    }
    Ok(Profile {
        meta: ProfileMeta { name, loader, game_version, id: id64 as i32 },
        mods,
    })
}

impl Manifest {
    /// Profile ids are pairwise distinct.
    pub open spec fn wf(self) -> bool {
        forall|i: int, j: int|
            0 <= i < j < self@.len() ==> self@[i].meta.id != self@[j].meta.id
    }

    /// Find the profile with the given id; if none matches, fall back to the
    /// first profile rather than failing. Callers must not rely on lookup
    /// failing for an unknown id.
    pub fn lookup(&self, id: i32) -> (r: Profile)
        requires
            self@.len() > 0,
        ensures
            r@ == spec_lookup(self@, id),
    {
        let mut i: usize = 0;
        while i < self.profiles.len()
            invariant
                i <= self@.len(),
                self@.len() == self.profiles@.len(),
                forall|j: int| 0 <= j < i ==> self@[j].meta.id != id,
                forall|j: int| 0 <= j < self@.len() ==> self@[j] == #[trigger] self.profiles@[j]@,
            decreases self@.len() - i,
        {
            if self.profiles[i].meta.id == id {
                proof {
                    lemma_first_match(self@, id);
                }
                return self.profiles[i].clone();
            }
            i = i + 1;
        }
        proof {
            lemma_first_match(self@, id);
        }
        self.profiles[0].clone()
    }

    /// Decode a fetched manifest document. Accepted manifests satisfy the
    /// data invariant: profile ids are pairwise distinct. Text the JSON
    /// parser does not accept is rejected with the syntax error, and with
    /// nothing else; the other errors are a document of the wrong shape or
    /// with an out-of-range number, and a duplicated profile id.
    pub fn load(text: &str) -> (r: Result<Manifest, ParseError>)
        ensures
            r is Ok ==> r->Ok_0.wf(),
            (r is Err && r->Err_0 is Syntax) <==> !spec_json_wf(text@),
    {
        let doc = match parse_json(text) {
            Ok(v) => v,
            Err(_) => return Err(ParseError::Syntax),
        };
        let profiles_v = match json_get(&doc, "profiles") {
            Some(p) => p,
            None => return Err(ParseError::Shape),
        };
        let arr = match json_as_array(profiles_v) {
            Some(a) => a,
            None => return Err(ParseError::Shape),
        };
        let mut profiles: Vec<Profile> = Vec::new();
        let mut i: usize = 0;
        while i < arr.len()
            invariant
                spec_json_wf(text@),
                forall|a: int, b: int|
                    0 <= a < b < profiles@.len() ==> profiles@[a].meta.id != profiles@[b].meta.id,
            decreases arr@.len() - i,
        {
            let p = match parse_profile(&arr[i]) {
                Ok(p) => p,
                Err(e) => return Err(e),
            };
            if contains_profile_id(&profiles, p.meta.id) {
                return Err(ParseError::DuplicateId);
            }
            profiles.push(p);
            i = i + 1;
        }
        let m = Manifest { profiles };
        assert forall|a: int, b: int| 0 <= a < b < m@.len() implies m@[a].meta.id
            != m@[b].meta.id by {
            assert(m@[a] == m.profiles@[a]@);
            assert(m@[b] == m.profiles@[b]@);
        }
        Ok(m)
    }

    /// A matching profile is returned exactly when one exists; otherwise the
    /// fallback is the first profile of the manifest.
    pub proof fn lemma_lookup_matches(self, id: i32)
        requires
            self@.len() > 0,
        ensures
            (exists|i: int| 0 <= i < self@.len() && self@[i].meta.id == id) ==> {
                &&& spec_lookup(self@, id).meta.id == id
                &&& self@.contains(spec_lookup(self@, id))
            },
            !(exists|i: int| 0 <= i < self@.len() && self@[i].meta.id == id)
                ==> spec_lookup(self@, id) == self@[0],
    {
        lemma_first_match(self@, id);
    }
}

} // verus!
