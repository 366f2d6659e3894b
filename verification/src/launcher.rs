//! The launcher registration writer: upserts one launch-configuration entry
//! into the launcher's persisted profile collection, keyed by the
//! deterministic composite of loader, game version and profile id, and skips
//! the write when an entry with that key already exists.

use vstd::prelude::*;
use crate::manifest::ModLoader;
use crate::text::{spec_dec_i64, i64_to_string, str_eq};

verus! {

/// One launch-configuration entry as it is persisted by the launcher.
pub struct LauncherEntry {
    /// The idempotency key: loader, game version and profile id combined.
    pub key: String,
    /// Creation timestamp, RFC 3339.
    pub created: String,
    /// Last-used placeholder timestamp.
    pub last_used: String,
    /// The installed loader's version directory name.
    pub version_label: String,
    /// Tuned runtime arguments.
    pub java_args: String,
    /// Display name shown by the launcher.
    pub name: String,
    /// Embedded icon, a data URL.
    pub icon: String,
    /// The launcher's entry category.
    pub kind: String,
}

impl Clone for LauncherEntry {
    fn clone(&self) -> (r: Self)
        ensures
            r == *self,
    {
        LauncherEntry {
            key: self.key.clone(),
            created: self.created.clone(),
            last_used: self.last_used.clone(),
            version_label: self.version_label.clone(),
            java_args: self.java_args.clone(),
            name: self.name.clone(),
            icon: self.icon.clone(),
            kind: self.kind.clone(),
        }
    }
}

/// Some entry of `entries` has key `key`.
pub open spec fn spec_contains_key(entries: Seq<LauncherEntry>, key: Seq<char>) -> bool {
    exists|i: int| 0 <= i < entries.len() && entries[i].key@ == key
}

/// How many entries of `entries` have key `key`.
pub open spec fn count_key(entries: Seq<LauncherEntry>, key: Seq<char>) -> int
    decreases entries.len(),
{
    if entries.len() == 0 {
        0
    } else {
        count_key(entries.drop_last(), key) + if entries.last().key@ == key {
            1int
        } else {
            0int
        }
    }
}

/// What the upsert leaves behind: the entries unchanged when the key is
/// already present, the new entry appended otherwise.
pub open spec fn spec_upsert(entries: Seq<LauncherEntry>, e: LauncherEntry) -> Seq<LauncherEntry> {
    if spec_contains_key(entries, e.key@) {
        entries
    } else {
        entries.push(e)
    }
}

/// No two entries share a key.
pub open spec fn unique_keys(entries: Seq<LauncherEntry>) -> bool {
    forall|i: int, j: int|
        0 <= i < j < entries.len() ==> entries[i].key@ != entries[j].key@
}

pub proof fn lemma_count_key_pos(entries: Seq<LauncherEntry>, key: Seq<char>)
    ensures
        spec_contains_key(entries, key) <==> count_key(entries, key) >= 1,
        count_key(entries, key) >= 0,
    decreases entries.len(),
{
    if entries.len() != 0 {
        lemma_count_key_pos(entries.drop_last(), key);
        if spec_contains_key(entries, key) && entries.last().key@ != key {
            let i = choose|i: int| 0 <= i < entries.len() && entries[i].key@ == key;
            assert(entries.drop_last()[i] == entries[i]);
        }
        if spec_contains_key(entries.drop_last(), key) {
            let i = choose|i: int|
                0 <= i < entries.drop_last().len() && entries.drop_last()[i].key@ == key;
            assert(entries[i] == entries.drop_last()[i]);
        }
    }
}

/// With pairwise-distinct keys, no key occurs more than once.
pub proof fn lemma_unique_count_le_one(entries: Seq<LauncherEntry>, key: Seq<char>)
    requires
        unique_keys(entries),
    ensures
        count_key(entries, key) <= 1,
    decreases entries.len(),
{
    if entries.len() != 0 {
        assert(forall|i: int, j: int|
            0 <= i < j < entries.len() - 1 ==> entries.drop_last()[i].key@
                != entries.drop_last()[j].key@);
        lemma_unique_count_le_one(entries.drop_last(), key);
        lemma_count_key_pos(entries.drop_last(), key);
        if entries.last().key@ == key {
            if spec_contains_key(entries.drop_last(), key) {
                let i = choose|i: int|
                    0 <= i < entries.drop_last().len() && entries.drop_last()[i].key@ == key;
                assert(entries[i].key@ == entries[entries.len() - 1].key@);
                assert(false);
            }
        }
    }
}

/// The idempotence of registration: after writing the same key twice, the
/// configuration holds exactly one entry with that key.
pub proof fn lemma_upsert_idempotent(entries: Seq<LauncherEntry>, e: LauncherEntry)
    requires
        unique_keys(entries),
    ensures
        count_key(spec_upsert(spec_upsert(entries, e), e), e.key@) == 1,
{
    lemma_count_key_pos(entries, e.key@);
    lemma_unique_count_le_one(entries, e.key@);
    if spec_contains_key(entries, e.key@) {
    } else {
        let pushed = entries.push(e);
        assert(pushed.drop_last() =~= entries);
        assert(count_key(pushed, e.key@) == 1);
        assert(pushed[pushed.len() - 1].key@ == e.key@);
        assert(spec_contains_key(pushed, e.key@));
    }
}

/// The launcher's persisted configuration: its launch entries, each under a
/// distinct key.
pub struct LauncherConfig {
    entries: Vec<LauncherEntry>,
}

impl View for LauncherConfig {
    type V = Seq<LauncherEntry>;

    closed spec fn view(&self) -> Seq<LauncherEntry> {
        self.entries@
    }
}

impl LauncherConfig {
    /// Configuration invariant: keys are pairwise distinct.
    pub open spec fn wf(&self) -> bool {
        unique_keys(self@)
    }

    /// An empty configuration. Loading a persisted file is replaying its
    /// entries through `insert_if_absent`, which keeps keys unique.
    pub fn new() -> (r: LauncherConfig)
        ensures
            r.wf(),
            r@ =~= Seq::<LauncherEntry>::empty(),
    {
        LauncherConfig { entries: Vec::new() }
    }

    pub fn len(&self) -> (n: usize)
        ensures
            n == self@.len(),
    {
        self.entries.len()
    }

    /// Read access to one entry.
    pub fn entry(&self, i: usize) -> (e: &LauncherEntry)
        requires
            i < self@.len(),
        ensures
            *e == self@[i as int],
    {
        &self.entries[i]
    }

    /// Whether an entry with this key is already registered.
    pub fn contains_key(&self, key: &str) -> (r: bool)
        ensures
            r == spec_contains_key(self@, key@),
    {
        let mut i: usize = 0;
        while i < self.entries.len()
            invariant
                i <= self@.len(),
                forall|j: int| 0 <= j < i ==> self@[j].key@ != key@,
            decreases self@.len() - i,
        {
            if str_eq(self.entries[i].key.as_str(), key) {
                return true;
            }
            i = i + 1;
        }
        false
    }

    /// Register `e` only when its key is absent; an existing entry for the
    /// same key is never duplicated or overwritten.
    pub fn insert_if_absent(&mut self, e: LauncherEntry)
        requires
            old(self).wf(),
        ensures
            final(self).wf(),
            final(self)@ == spec_upsert(old(self)@, e),
            spec_contains_key(final(self)@, e.key@),
    {
        if !self.contains_key(e.key.as_str()) {
            let ghost entries = self@;
            proof {
                assert forall|i: int, j: int|
                    0 <= i < j < entries.push(e).len() implies entries.push(e)[i].key@
                    != entries.push(e)[j].key@ by {
                    if j < entries.len() {
                    } else {
                        assert(entries.push(e)[i].key@ != e.key@);
                    }
                }
            }
            self.entries.push(e);
            assert(self@[self@.len() - 1].key@ == e.key@);
        } else {
            assert(self@ =~= spec_upsert(self@, e));
        }
    }
}

/// The string form of a loader kind as the launcher file uses it.
pub open spec fn spec_loader_token(l: ModLoader) -> Seq<char> {
    match l {
        ModLoader::Fabric => "fabric"@,
        ModLoader::Forge => "forge"@,
    }
}

/// Lower-case name of a loader kind, as used in registration keys and
/// version directory names.
pub fn loader_token(l: ModLoader) -> (r: &'static str)
    ensures
        r@ == spec_loader_token(l),
{
    match l {
        ModLoader::Fabric => "fabric",
        ModLoader::Forge => "forge",
    }
}

/// The composite registration key for a profile: tool prefix, loader kind,
/// game version and profile id, dash-joined.
pub open spec fn spec_registration_key(l: ModLoader, game_version: Seq<char>, id: int) -> Seq<
    char,
> {
    "modtool-rs-"@ + spec_loader_token(l) + "-"@ + game_version + "-"@ + spec_dec_i64(id)
}

/// Build the registration key that makes repeated runs idempotent.
pub fn registration_key(l: ModLoader, game_version: &str, id: i32) -> (r: String)
    ensures
        r@ == spec_registration_key(l, game_version@, id as int),
{
    let mut s = "modtool-rs-".to_owned();
    s.append(loader_token(l));
    s.append("-");
    s.append(game_version);
    let id_str = i64_to_string(id as i64);
    s.append("-");
    s.append(id_str.as_str());
    assert(s@ =~= spec_registration_key(l, game_version@, id as int));
    s
}

/// The last-used placeholder written into fresh entries.
pub open spec fn spec_last_used_placeholder() -> Seq<char> {
    "1970-01-02T00:00:00.000Z"@
}

/// The tuned runtime arguments written into fresh entries.
pub open spec fn spec_default_java_args() -> Seq<char> {
    "-Dterminal.jline=false -Dterminal.ansi=true -XX:+UseG1GC -XX:+ParallelRefProcEnabled -XX:MaxGCPauseMillis=200 -XX:+UnlockExperimentalVMOptions -XX:+DisableExplicitGC -XX:+AlwaysPreTouch -XX:G1HeapWastePercent=5 -XX:G1MixedGCCountTarget=4 -XX:G1MixedGCLiveThresholdPercent=90 -XX:G1RSetUpdatingPauseTimePercent=5 -XX:SurvivorRatio=32 -XX:+PerfDisableSharedMem -XX:MaxTenuringThreshold=1 -XX:G1NewSizePercent=30 -XX:G1MaxNewSizePercent=40 -XX:G1HeapRegionSize=8M -XX:G1ReservePercent=20 -XX:InitiatingHeapOccupancyPercent=15 -Dusing.aikars.flags=https://mcflags.emc.gs -Daikars.new.flags=true"@
}

/// The suffix appended to a profile's name for display in the launcher.
pub open spec fn spec_name_suffix() -> Seq<char> {
    " (ModTool RS)"@
}

/// The launcher's category for entries written by this tool.
pub open spec fn spec_entry_kind() -> Seq<char> {
    "custom"@
}

/// A fresh registration entry: the caller supplies the key, the profile's
/// display name, the detected loader-version label, the creation timestamp
/// and the icon; the placeholders and tuned arguments are fixed.
pub fn make_entry(
    key: String,
    profile_name: &str,
    version_label: String,
    created: String,
    icon: String,
) -> (e: LauncherEntry)
    ensures
        e.key == key,
        e.created == created,
        e.last_used@ == spec_last_used_placeholder(),
        e.version_label == version_label,
        e.java_args@ == spec_default_java_args(),
        e.name@ == profile_name@ + spec_name_suffix(),
        e.icon == icon,
        e.kind@ == spec_entry_kind(),
{
    let mut name = profile_name.to_owned();
    name.append(" (ModTool RS)");
    LauncherEntry {
        key,
        created,
        last_used: "1970-01-02T00:00:00.000Z".to_owned(),
        version_label,
        java_args:
            "-Dterminal.jline=false -Dterminal.ansi=true -XX:+UseG1GC -XX:+ParallelRefProcEnabled -XX:MaxGCPauseMillis=200 -XX:+UnlockExperimentalVMOptions -XX:+DisableExplicitGC -XX:+AlwaysPreTouch -XX:G1HeapWastePercent=5 -XX:G1MixedGCCountTarget=4 -XX:G1MixedGCLiveThresholdPercent=90 -XX:G1RSetUpdatingPauseTimePercent=5 -XX:SurvivorRatio=32 -XX:+PerfDisableSharedMem -XX:MaxTenuringThreshold=1 -XX:G1NewSizePercent=30 -XX:G1MaxNewSizePercent=40 -XX:G1HeapRegionSize=8M -XX:G1ReservePercent=20 -XX:InitiatingHeapOccupancyPercent=15 -Dusing.aikars.flags=https://mcflags.emc.gs -Daikars.new.flags=true".to_owned(),
        name,
        icon,
        kind: "custom".to_owned(),
    }
}

/// Relies on chrono's `Utc::now` and `DateTime::to_rfc3339_opts` for the
/// creation timestamp of a fresh entry: an RFC 3339 UTC timestamp with
/// millisecond precision. The result depends on the clock, so nothing is
/// assumed of it.
#[verifier::external_body]
pub fn current_timestamp_rfc3339() -> String {
    chrono::Utc::now().to_rfc3339_opts(chrono::SecondsFormat::Millis, true)
}

} // verus!
